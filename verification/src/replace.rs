//! Putting the new binary in the place of the old one, with the old one set
//! aside until the new one is there.
use vstd::prelude::*;

use crate::install::REPLACE_ATTEMPTS;

verus! {

/// The piece of work that comes next.
#[derive(Clone, Copy, PartialEq, Eq, Structural, Debug)]
pub enum ReplacePhase {
    /// Remove a backup that was left behind.
    RemoveBackup,
    /// Rename the target to the backup.
    MoveAside,
    /// Copy the source to the target.
    CopyNew,
    /// Remove the backup, the new target being there.
    CleanBackup,
    /// Remove what a failed copy left as the target.
    RemoveBroken,
    /// Rename the backup to the target.
    Restore,
    /// Pause before the next attempt.
    Pause,
    /// The new binary is in place.
    Succeeded,
    /// All attempts have failed.
    GaveUp,
}

/// How a piece of work on a file ended.
pub enum FileOutcome {
    Done,
    /// There was no such file; the words of the failure.
    NotFound(String),
    /// It failed otherwise; the words of the failure.
    Failed(String),
}

/// How far the replacement has come.
pub struct Replacement {
    /// The attempts that are over.
    pub attempt: u32,
    pub phase: ReplacePhase,
    /// This attempt has set the old binary aside.
    pub renamed_existing: bool,
    /// The words of the last failure.
    pub last_error: Option<String>,
}

/// What a [`Replacement`] says.
pub struct ReplacementView {
    pub attempt: u32,
    pub phase: ReplacePhase,
    pub renamed_existing: bool,
    pub last_error: Option<Seq<char>>,
}

impl View for Replacement {
    type V = ReplacementView;

    open spec fn view(&self) -> ReplacementView {
        ReplacementView {
            attempt: self.attempt,
            phase: self.phase,
            renamed_existing: self.renamed_existing,
            last_error: match self.last_error {
                Some(e) => Some(e@),
                None => None,
            },
        }
    }
}

/// The words of a failure.
pub open spec fn outcome_words(outcome: FileOutcome) -> Seq<char> {
    match outcome {
        FileOutcome::Done => ""@,
        FileOutcome::NotFound(e) => e@,
        FileOutcome::Failed(e) => e@,
    }
}

/// The state in which a replacement begins.
pub open spec fn replacement_start() -> ReplacementView {
    ReplacementView {
        attempt: 0,
        phase: ReplacePhase::RemoveBackup,
        renamed_existing: false,
        last_error: None,
    }
}

/// The state after a piece of work. There are [`REPLACE_ATTEMPTS`] attempts;
/// the first copy that succeeds ends the replacement.
pub open spec fn after_replace_step(r: ReplacementView, outcome: FileOutcome) -> ReplacementView {
    match r.phase {
        ReplacePhase::RemoveBackup => ReplacementView { phase: ReplacePhase::MoveAside, ..r },
        ReplacePhase::MoveAside => match outcome {
            FileOutcome::Done => ReplacementView {
                phase: ReplacePhase::CopyNew,
                renamed_existing: true,
                ..r
            },
            FileOutcome::NotFound(_) => ReplacementView {
                phase: ReplacePhase::CopyNew,
                renamed_existing: false,
                ..r
            },
            FileOutcome::Failed(e) => ReplacementView {
                phase: ReplacePhase::Pause,
                last_error: Some(e@),
                ..r
            },
        },
        ReplacePhase::CopyNew => match outcome {
            FileOutcome::Done => ReplacementView { phase: ReplacePhase::CleanBackup, ..r },
            _ => ReplacementView {
                phase: ReplacePhase::RemoveBroken,
                last_error: Some(outcome_words(outcome)),
                ..r
            },
        },
        ReplacePhase::CleanBackup => ReplacementView { phase: ReplacePhase::Succeeded, ..r },
        ReplacePhase::RemoveBroken => ReplacementView {
            phase: if r.renamed_existing {
                ReplacePhase::Restore
            } else {
                ReplacePhase::Pause
            },
            ..r
        },
        ReplacePhase::Restore => ReplacementView { phase: ReplacePhase::Pause, ..r },
        ReplacePhase::Pause => ReplacementView {
            attempt: (r.attempt + 1) as u32,
            phase: if r.attempt + 1 < REPLACE_ATTEMPTS {
                ReplacePhase::RemoveBackup
            } else {
                ReplacePhase::GaveUp
            },
            ..r
        },
        ReplacePhase::Succeeded => r,
        ReplacePhase::GaveUp => r,
    }
}

/// A replacement counts no more attempts than there are.
pub open spec fn replacement_ok(r: ReplacementView) -> bool {
    &&& r.attempt <= REPLACE_ATTEMPTS
    &&& r.attempt == REPLACE_ATTEMPTS ==> r.phase == ReplacePhase::GaveUp
}

/// What is said where every attempt failed.
pub open spec fn replacement_complaint(r: ReplacementView, target: Seq<char>) -> Seq<char> {
    "Unable to replace "@ + target + ". "@ + match r.last_error {
        Some(e) => e,
        None => "The file may still be locked or the install directory may not be writable."@,
    }
}

impl Replacement {
    /// A replacement that has not begun.
    pub fn new() -> (r: Self)
        ensures
            r@ == replacement_start(),
            replacement_ok(r@),
    {
        Replacement {
            attempt: 0,
            phase: ReplacePhase::RemoveBackup,
            renamed_existing: false,
            last_error: None,
        }
    }

    /// Takes the outcome of the piece of work that was due.
    pub fn replace_target_binary(&mut self, outcome: FileOutcome)
        requires
            replacement_ok(old(self)@),
        ensures
            final(self)@ == after_replace_step(old(self)@, outcome),
            replacement_ok(final(self)@),
    {
        match self.phase {
            ReplacePhase::RemoveBackup => {
                self.phase = ReplacePhase::MoveAside;
            },
            ReplacePhase::MoveAside => match outcome {
                FileOutcome::Done => {
                    self.renamed_existing = true;
                    self.phase = ReplacePhase::CopyNew;
                },
                FileOutcome::NotFound(_) => {
                    self.renamed_existing = false;
                    self.phase = ReplacePhase::CopyNew;
                },
                FileOutcome::Failed(e) => {
                    self.last_error = Some(e);
                    self.phase = ReplacePhase::Pause;
                },
            },
            ReplacePhase::CopyNew => match outcome {
                FileOutcome::Done => {
                    self.phase = ReplacePhase::CleanBackup;
                },
                FileOutcome::NotFound(e) => {
                    self.last_error = Some(e);
                    self.phase = ReplacePhase::RemoveBroken;
                },
                FileOutcome::Failed(e) => {
                    self.last_error = Some(e);
                    self.phase = ReplacePhase::RemoveBroken;
                },
            },
            ReplacePhase::CleanBackup => {
                self.phase = ReplacePhase::Succeeded;
            },
            ReplacePhase::RemoveBroken => {
                if self.renamed_existing {
                    self.phase = ReplacePhase::Restore;
                } else {
                    self.phase = ReplacePhase::Pause;
                }
            },
            ReplacePhase::Restore => {
                self.phase = ReplacePhase::Pause;
            },
            ReplacePhase::Pause => {
                self.attempt = self.attempt + 1;
                if self.attempt < REPLACE_ATTEMPTS {
                    self.phase = ReplacePhase::RemoveBackup;
                } else {
                    self.phase = ReplacePhase::GaveUp;
                }
            },
            ReplacePhase::Succeeded => {},
            ReplacePhase::GaveUp => {},
        }
    }

    /// The message for a replacement that was given up.
    pub fn error_message(&self, target: &str) -> (message: String)
        ensures
            message@ == replacement_complaint(self@, target@),
    {
        let opening: String = "Unable to replace ".to_string().concat(target).concat(". ");
        match &self.last_error {
            Some(e) => opening.concat(e.as_str()),
            None => opening.concat(
                "The file may still be locked or the install directory may not be writable.",
            ),
        }
    }
}

/// How many pieces of work of an attempt are still to come, at most.
pub open spec fn phase_rank(phase: ReplacePhase) -> nat {
    match phase {
        ReplacePhase::RemoveBackup => 7,
        ReplacePhase::MoveAside => 6,
        ReplacePhase::CopyNew => 5,
        ReplacePhase::CleanBackup => 4,
        ReplacePhase::RemoveBroken => 3,
        ReplacePhase::Restore => 2,
        ReplacePhase::Pause => 1,
        ReplacePhase::Succeeded => 0,
        ReplacePhase::GaveUp => 0,
    }
}

/// The replacement is over.
pub open spec fn replacement_over(r: ReplacementView) -> bool {
    r.phase == ReplacePhase::Succeeded || r.phase == ReplacePhase::GaveUp
}

/// How many pieces of work are still to come, at most.
pub open spec fn work_left(r: ReplacementView) -> nat {
    if replacement_over(r) {
        0
    } else {
        ((REPLACE_ATTEMPTS - 1 - r.attempt) * 7 + phase_rank(r.phase)) as nat
    }
}

/// The work comes to an end: each piece of it leaves less, whatever its
/// outcome.
pub proof fn replacement_ends(r: ReplacementView, outcome: FileOutcome)
    requires
        replacement_ok(r),
        !replacement_over(r),
    ensures
        replacement_ok(after_replace_step(r, outcome)),
        work_left(after_replace_step(r, outcome)) < work_left(r),
{
}

/// The files that a replacement works on, each by its content.
pub struct Disk {
    pub target: Option<Seq<u8>>,
    pub backup: Option<Seq<u8>>,
    pub source: Seq<u8>,
}

/// What a piece of work does to the files, as its outcome tells. A failed copy
/// may leave anything as the target.
pub open spec fn disk_after(
    phase: ReplacePhase,
    outcome: FileOutcome,
    before: Disk,
    after: Disk,
) -> bool {
    match (phase, outcome) {
        (ReplacePhase::RemoveBackup, FileOutcome::Done) => after == (Disk {
            backup: None,
            ..before
        }),
        (ReplacePhase::CleanBackup, FileOutcome::Done) => after == (Disk {
            backup: None,
            ..before
        }),
        (ReplacePhase::RemoveBackup, FileOutcome::NotFound(_)) => before.backup is None && after
            == before,
        (ReplacePhase::CleanBackup, FileOutcome::NotFound(_)) => before.backup is None && after
            == before,
        (ReplacePhase::MoveAside, FileOutcome::Done) => before.target is Some && after == (Disk {
            target: None,
            backup: before.target,
            ..before
        }),
        (ReplacePhase::MoveAside, FileOutcome::NotFound(_)) => before.target is None && after
            == before,
        (ReplacePhase::CopyNew, FileOutcome::Done) => after == (Disk {
            target: Some(before.source),
            ..before
        }),
        (ReplacePhase::CopyNew, _) => after == (Disk { target: after.target, ..before }),
        (ReplacePhase::RemoveBroken, FileOutcome::Done) => after == (Disk {
            target: None,
            ..before
        }),
        (ReplacePhase::RemoveBroken, FileOutcome::NotFound(_)) => before.target is None && after
            == before,
        (ReplacePhase::Restore, FileOutcome::Done) => before.backup is Some && after == (Disk {
            target: before.backup,
            backup: None,
            ..before
        }),
        _ => after == before,
    }
}

/// Where the old binary is, or what has taken its place.
pub open spec fn old_binary_safe(r: ReplacementView, disk: Disk, old_binary: Option<Seq<u8>>) -> bool {
    match r.phase {
        ReplacePhase::RemoveBackup
        | ReplacePhase::MoveAside
        | ReplacePhase::Pause
        | ReplacePhase::GaveUp => disk.target == old_binary,
        ReplacePhase::CopyNew | ReplacePhase::RemoveBroken => if r.renamed_existing {
            old_binary is Some && disk.backup == old_binary
        } else {
            old_binary is None
        },
        ReplacePhase::Restore => old_binary is Some && disk.backup == old_binary,
        ReplacePhase::CleanBackup | ReplacePhase::Succeeded => disk.target == Some(disk.source),
    }
}

/// The work of undoing a failed copy has not itself failed: the old binary could
/// be renamed back, or, where there was none, the broken one be removed.
pub open spec fn undo_works(r: ReplacementView, outcome: FileOutcome) -> bool {
    &&& r.phase == ReplacePhase::RemoveBroken && !r.renamed_existing ==> !(outcome is Failed)
    &&& r.phase == ReplacePhase::Restore ==> outcome is Done
}

/// As long as undoing a failed copy works, no step loses the old binary: the
/// target is what it was, or the backup is, or the new binary is in place.
pub proof fn replacement_keeps_old_binary(
    r: ReplacementView,
    outcome: FileOutcome,
    before: Disk,
    after: Disk,
    old_binary: Option<Seq<u8>>,
)
    requires
        old_binary_safe(r, before, old_binary),
        disk_after(r.phase, outcome, before, after),
        undo_works(r, outcome),
    ensures
        old_binary_safe(after_replace_step(r, outcome), after, old_binary),
        after.source == before.source,
{
}

/// A replacement begins with the old binary safe, and where it is over, the
/// target is the new binary if it succeeded and the old one if it was given up.
pub proof fn replacement_ends_with_a_whole_binary(
    r: ReplacementView,
    disk: Disk,
    old_binary: Option<Seq<u8>>,
)
    ensures
        old_binary_safe(replacement_start(), disk, disk.target),
        old_binary_safe(r, disk, old_binary) && r.phase == ReplacePhase::Succeeded ==> disk.target
            == Some(disk.source),
        old_binary_safe(r, disk, old_binary) && r.phase == ReplacePhase::GaveUp ==> disk.target
            == old_binary,
{
}

/// Whatever failed before, the copy that succeeds makes the new binary the
/// target, and what follows keeps it: a replacement that has succeeded leaves it
/// there.
pub proof fn success_puts_the_new_binary_in_place(
    r: ReplacementView,
    outcome: FileOutcome,
    before: Disk,
    after: Disk,
)
    requires
        disk_after(r.phase, outcome, before, after),
    ensures
        r.phase != ReplacePhase::CleanBackup && after_replace_step(r, outcome).phase
            == ReplacePhase::CleanBackup ==> after.target == Some(after.source),
        r.phase != ReplacePhase::Succeeded && after_replace_step(r, outcome).phase
            == ReplacePhase::Succeeded ==> r.phase == ReplacePhase::CleanBackup && after.target
            == before.target && after.source == before.source,
        r.phase == ReplacePhase::Succeeded ==> after == before && after_replace_step(
            r,
            outcome,
        ).phase == ReplacePhase::Succeeded,
{
}

/// There is a backup at most where the work has a use for it.
pub open spec fn backup_accounted_for(r: ReplacementView, disk: Disk) -> bool {
    match r.phase {
        ReplacePhase::MoveAside
        | ReplacePhase::Pause
        | ReplacePhase::Succeeded
        | ReplacePhase::GaveUp => disk.backup is None,
        ReplacePhase::CopyNew | ReplacePhase::RemoveBroken => r.renamed_existing || disk.backup
            is None,
        ReplacePhase::RemoveBackup | ReplacePhase::CleanBackup | ReplacePhase::Restore => true,
    }
}

/// The work that does away with a backup has not failed: it could be removed, or
/// was not there, or could be renamed back.
pub open spec fn tidying_works(phase: ReplacePhase, outcome: FileOutcome) -> bool {
    &&& phase == ReplacePhase::RemoveBackup || phase == ReplacePhase::CleanBackup ==> !(
    outcome is Failed)
    &&& phase == ReplacePhase::Restore ==> outcome is Done
}

/// As long as removing and renaming back the backup works, no step leaves one
/// behind that the work has no use for. Each attempt begins by removing what an
/// earlier one may have left.
pub proof fn replacement_accounts_for_the_backup(
    r: ReplacementView,
    outcome: FileOutcome,
    before: Disk,
    after: Disk,
)
    requires
        backup_accounted_for(r, before),
        disk_after(r.phase, outcome, before, after),
        tidying_works(r.phase, outcome),
    ensures
        backup_accounted_for(after_replace_step(r, outcome), after),
{
}

/// So, whatever was there when a replacement began, no backup is left once it is
/// over, neither after success nor after all attempts have failed.
pub proof fn replacement_leaves_no_backup(r: ReplacementView, first: Disk, disk: Disk)
    ensures
        backup_accounted_for(replacement_start(), first),
        backup_accounted_for(r, disk) && replacement_over(r) ==> disk.backup is None,
{
}

/// The view of a replacement tells how far it has come.
pub proof fn the_view_tells_the_replacement(r: Replacement)
    ensures
        r@.attempt == r.attempt && r@.phase == r.phase,
        r@.renamed_existing == r.renamed_existing,
        r.last_error is None == (r@.last_error is None),
        r.last_error matches Some(e) ==> r@.last_error == Some(e@),
{
}

/// The words that are kept are those of the last failure that ends an attempt: to
/// set the old binary aside, or to copy the new one. Nothing else replaces them.
pub proof fn the_last_failure_is_kept(r: ReplacementView, outcome: FileOutcome)
    ensures
        ({
            let t = after_replace_step(r, outcome);
            &&& r.phase == ReplacePhase::MoveAside && outcome is Failed ==> t.last_error == Some(
                outcome->Failed_0@,
            )
            &&& r.phase == ReplacePhase::CopyNew && outcome is Failed ==> t.last_error == Some(
                outcome->Failed_0@,
            )
            &&& r.phase == ReplacePhase::CopyNew && outcome is NotFound ==> t.last_error == Some(
                outcome->NotFound_0@,
            )
            &&& outcome is Done || (r.phase != ReplacePhase::MoveAside && r.phase
                != ReplacePhase::CopyNew) || (r.phase == ReplacePhase::MoveAside
                && outcome is NotFound) ==> t.last_error == r.last_error
        }),
{
}

/// An attempt that fails is followed by a pause and another attempt, until the
/// last of sixty has failed: only then is the replacement given up, and only a
/// copy that was made lets it succeed.
pub proof fn attempts_go_on_until_the_last(r: ReplacementView, outcome: FileOutcome)
    requires
        replacement_ok(r),
    ensures
        ({
            let t = after_replace_step(r, outcome);
            &&& r.phase == ReplacePhase::Pause ==> t.attempt == r.attempt + 1
            &&& r.phase != ReplacePhase::Pause ==> t.attempt == r.attempt
            &&& r.phase == ReplacePhase::Pause && r.attempt < 59 ==> t.phase
                == ReplacePhase::RemoveBackup
            &&& r.phase != ReplacePhase::GaveUp && t.phase == ReplacePhase::GaveUp ==> r.phase
                == ReplacePhase::Pause && t.attempt == 60
            &&& t.phase == ReplacePhase::CleanBackup ==> r.phase == ReplacePhase::CopyNew
                && outcome is Done
            &&& r.phase == ReplacePhase::CopyNew && outcome is Done ==> t.phase
                == ReplacePhase::CleanBackup
            &&& r.phase == ReplacePhase::MoveAside && outcome is Failed ==> t.phase
                == ReplacePhase::Pause
        }),
{
}

/// The message names the target, and ends with the words of the last failure.
pub proof fn the_message_names_the_target(r: ReplacementView, target: Seq<char>)
    ensures
        ("Unable to replace "@ + target + ". "@).is_prefix_of(replacement_complaint(r, target)),
        r.last_error matches Some(e) ==> replacement_complaint(r, target) == "Unable to replace "@
            + target + ". "@ + e,
        r.last_error is None ==> replacement_complaint(r, target) == "Unable to replace "@ + target
            + ". "@
            + "The file may still be locked or the install directory may not be writable."@,
{
}

} // verus!
