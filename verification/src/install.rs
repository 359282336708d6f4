//! Installing an update: staging the download, handing over to a helper
//! process, and putting the new binary in the place of the old one.
//!
//! Each procedure is a machine. Its state says which piece of outside work
//! comes next; the outcome of that work takes it to the next state.
use vstd::prelude::*;

use crate::text::{decimal, decimal_reads_back, parse_u32, parsed_u32, same_text, u32_to_text};

verus! {

/// The name that the running program is copied under to act as the helper.
pub const HELPER_EXE_NAME: &'static str = "updater-helper.exe";

/// The name of a complete download.
pub const DOWNLOAD_EXE_NAME: &'static str = "update-download.exe";

/// What is put behind the name of a download that is not complete yet.
pub const PARTIAL_ENDING: &'static str = ".part";

/// The file that is created to see whether a directory can be written to.
pub const PROBE_NAME: &'static str = ".__ccum_update_probe";

/// The directory, below that for local data, where updates are staged.
pub const UPDATES_DIR: [&'static str; 2] = ["AIUsageMonitor", "updates"];

/// The argument that makes the program act as the helper.
pub const APPLY_UPDATE_FLAG: &'static str = "--apply-update";

/// The title of the message about a failed update.
pub const UPDATE_FAILED_TITLE: &'static str = "Update failed";

/// The name that a program without a file name of its own is taken to have.
pub const DEFAULT_EXE_NAME: &'static str = "app.exe";

/// What is put behind the name of the binary that is set aside.
pub const BACKUP_ENDING: &'static str = ".old";

/// How long the helper waits for the program to exit.
pub const EXIT_TIMEOUT_MS: u128 = 30_000;

/// The pause between two attempts to replace the binary.
pub const RETRY_PAUSE_MS: u64 = 500;

/// How often the helper tries to replace the binary.
pub const REPLACE_ATTEMPTS: u32 = 60;

/// The wait ended because the process did.
pub const WAIT_OBJECT_0: u32 = 0;

/// The wait ended because its time was up.
pub const WAIT_TIMEOUT: u32 = 258;

/// The views of the strings in a vector.
pub open spec fn string_views(list: Seq<String>) -> Seq<Seq<char>> {
    list.map_values(|s: String| s@)
}

// The command line of the helper.

/// What the helper is asked to do: put `source` in the place of `target` once
/// the process `pid` has exited.
pub struct ApplyRequest {
    pub target: String,
    pub source: String,
    pub pid: u32,
}

/// What an [`ApplyRequest`] says.
pub struct ApplyRequestView {
    pub target: Seq<char>,
    pub source: Seq<char>,
    pub pid: u32,
}

impl View for ApplyRequest {
    type V = ApplyRequestView;

    open spec fn view(&self) -> ApplyRequestView {
        ApplyRequestView { target: self.target@, source: self.source@, pid: self.pid }
    }
}

/// The request that a command line makes, the name of the program being its
/// first word. A process id that is not a number counts as zero.
pub open spec fn cli_request(args: Seq<Seq<char>>) -> Option<ApplyRequestView> {
    if args.len() == 5 && args[1] == APPLY_UPDATE_FLAG@ {
        Some(
            ApplyRequestView {
                target: args[2],
                source: args[3],
                pid: match parsed_u32(args[4]) {
                    Some(pid) => pid,
                    None => 0,
                },
            },
        )
    } else {
        None
    }
}

/// Reads the command line: the request to apply an update, or nothing where
/// the program is to run as usual.
pub fn handle_cli_mode(args: &[String]) -> (request: Option<ApplyRequest>)
    ensures
        match request {
            Some(r) => cli_request(string_views(args@)) == Some(r@),
            None => cli_request(string_views(args@)) is None,
        },
{
    let ghost views = string_views(args@);
    if args.len() == 5 {
        assert(views[1] == args@[1]@ && views[2] == args@[2]@ && views[3] == args@[3]@ && views[4]
            == args@[4]@);
        if same_text(args[1].as_str(), APPLY_UPDATE_FLAG) {
            let pid: u32 = match parse_u32(args[4].as_str()) {
                Some(pid) => pid,
                None => 0,
            };
            return Some(
                ApplyRequest { target: args[2].clone(), source: args[3].clone(), pid },
            );
        }
    }
    None
}

/// The exit code of the helper, and the message to show before it exits.
pub fn cli_exit(result: Result<(), String>) -> (exit: (i32, Option<String>))
    ensures
        match result {
            Ok(_) => exit.0 == 0 && exit.1 is None,
            Err(error) => exit.0 == 1 && exit.1 == Some(error),
        },
{
    match result {
        Ok(_) => (0, None),
        Err(error) => (1, Some(error)),
    }
}

/// The arguments that the helper is started with.
pub open spec fn helper_command(target: Seq<char>, source: Seq<char>, pid: u32) -> Seq<Seq<char>> {
    seq![APPLY_UPDATE_FLAG@, target, source, decimal(pid as nat)]
}

/// Makes the arguments that the helper is started with.
pub fn helper_arguments(target: &str, source: &str, pid: u32) -> (args: Vec<String>)
    ensures
        string_views(args@) == helper_command(target@, source@, pid),
{
    let args: Vec<String> = vec![
        APPLY_UPDATE_FLAG.to_string(),
        target.to_string(),
        source.to_string(),
        u32_to_text(pid),
    ];
    assert(string_views(args@) =~= helper_command(target@, source@, pid));
    args
}

/// The helper reads from its command line, whatever name it was started under,
/// exactly what it was handed.
pub proof fn helper_reads_what_it_was_handed(
    program: Seq<char>,
    target: Seq<char>,
    source: Seq<char>,
    pid: u32,
)
    ensures
        cli_request(seq![program] + helper_command(target, source, pid)) == Some(
            ApplyRequestView { target, source, pid },
        ),
{
    let args = seq![program] + helper_command(target, source, pid);
    decimal_reads_back(pid);
    assert(args.len() == 5);
    assert(args[1] == APPLY_UPDATE_FLAG@ && args[2] == target && args[3] == source && args[4]
        == decimal(pid as nat));
}

// Names of files.

/// The name of a download that is not complete yet.
pub fn partial_download_name() -> (name: String)
    ensures
        name@ == DOWNLOAD_EXE_NAME@ + PARTIAL_ENDING@,
{
    DOWNLOAD_EXE_NAME.to_string().concat(PARTIAL_ENDING)
}

/// The name of the binary that is set aside.
pub open spec fn backup_name(file_name: Option<Seq<char>>) -> Seq<char> {
    match file_name {
        Some(name) => name + BACKUP_ENDING@,
        None => DEFAULT_EXE_NAME@ + BACKUP_ENDING@,
    }
}

/// The file name, beside the target, that the target is renamed to while it is
/// replaced. `file_name` is the target's own, if it has one that is text.
pub fn backup_path_for(file_name: Option<&str>) -> (name: String)
    ensures
        name@ == backup_name(
            match file_name {
                Some(n) => Some(n@),
                None => None,
            },
        ),
{
    match file_name {
        Some(name) => name.to_string().concat(BACKUP_ENDING),
        None => DEFAULT_EXE_NAME.to_string().concat(BACKUP_ENDING),
    }
}

/// The binary that is set aside never has the name of the one that it is.
pub proof fn backup_has_another_name(name: Seq<char>)
    ensures
        backup_name(Some(name)) != name,
{
    reveal_strlit(".old");
    assert(backup_name(Some(name)).len() == name.len() + 4);
}

// Staging an update.

/// The pieces of work that stage an update and hand over to the helper.
#[derive(Clone, Copy, PartialEq, Eq, Structural, Debug)]
pub enum SelfUpdateStep {
    /// Find out which file the running program is.
    LocateExecutable,
    /// Create and remove a file beside it.
    ProbeInstallDir,
    /// Create the directory where updates are staged.
    CreateStageDir,
    /// Remove what an earlier update left there.
    ClearStage,
    /// Prepare for secure connections.
    BuildAgent,
    /// Ask for the download.
    RequestAsset,
    /// Create the file for the partial download.
    CreatePartial,
    /// Write the download to it.
    WritePartial,
    /// Flush it.
    FlushPartial,
    /// Give it the name of a complete download.
    RenamePartial,
    /// Copy the running program to be the helper.
    CopyHelper,
    /// Start the helper.
    LaunchHelper,
}

/// How a piece of work ended.
pub enum StepOutcome {
    Done,
    /// The running program's file lies in no directory.
    NoInstallDir,
    /// It failed, with the words of what failed.
    Failed(String),
}

/// What comes next.
pub enum SelfUpdateNext {
    Perform(SelfUpdateStep),
    Finished,
    Failed(String),
}

/// The place of a step in the order of steps.
pub open spec fn self_update_place(step: SelfUpdateStep) -> int {
    match step {
        SelfUpdateStep::LocateExecutable => 0,
        SelfUpdateStep::ProbeInstallDir => 1,
        SelfUpdateStep::CreateStageDir => 2,
        SelfUpdateStep::ClearStage => 3,
        SelfUpdateStep::BuildAgent => 4,
        SelfUpdateStep::RequestAsset => 5,
        SelfUpdateStep::CreatePartial => 6,
        SelfUpdateStep::WritePartial => 7,
        SelfUpdateStep::FlushPartial => 8,
        SelfUpdateStep::RenamePartial => 9,
        SelfUpdateStep::CopyHelper => 10,
        SelfUpdateStep::LaunchHelper => 11,
    }
}

/// What is said where a step fails, before the words of what failed.
pub open spec fn self_update_complaint(step: SelfUpdateStep) -> Seq<char> {
    match step {
        SelfUpdateStep::LocateExecutable => "Unable to locate current executable: "@,
        SelfUpdateStep::ProbeInstallDir =>
            "The current install location is not writable. Move the app to a user-writable folder or install it somewhere outside Program Files. "@,
        SelfUpdateStep::CreateStageDir => "Unable to create updater working directory: "@,
        SelfUpdateStep::ClearStage => ""@,
        SelfUpdateStep::BuildAgent => "Unable to initialize TLS support for update checks: "@,
        SelfUpdateStep::RequestAsset => "Unable to download the latest release: "@,
        SelfUpdateStep::CreatePartial => "Unable to create temporary download file: "@,
        SelfUpdateStep::WritePartial => "Unable to write the downloaded update: "@,
        SelfUpdateStep::FlushPartial => "Unable to finalize the downloaded update: "@,
        SelfUpdateStep::RenamePartial => "Unable to finalize the downloaded update file: "@,
        SelfUpdateStep::CopyHelper => "Unable to prepare updater helper: "@,
        SelfUpdateStep::LaunchHelper => "Unable to launch updater helper: "@,
    }
}

/// What is said where the running program's file lies in no directory.
pub const NO_INSTALL_DIR: &'static str =
    "Unable to determine the install directory for the current executable.";

/// The message with which a step ends the update, if it does. What is left of
/// an earlier update never ends it.
pub open spec fn self_update_error(step: SelfUpdateStep, outcome: StepOutcome) -> Option<
    Seq<char>,
> {
    match outcome {
        StepOutcome::Done => None,
        _ if step == SelfUpdateStep::ClearStage => None,
        StepOutcome::NoInstallDir => Some(NO_INSTALL_DIR@),
        StepOutcome::Failed(e) => Some(self_update_complaint(step) + e@),
    }
}

/// The message for a step that failed.
fn complaint(step: SelfUpdateStep, error: &str) -> (message: String)
    ensures
        message@ == self_update_complaint(step) + error@,
{
    let opening: &'static str = match step {
        SelfUpdateStep::LocateExecutable => "Unable to locate current executable: ",
        SelfUpdateStep::ProbeInstallDir =>
            "The current install location is not writable. Move the app to a user-writable folder or install it somewhere outside Program Files. ",
        SelfUpdateStep::CreateStageDir => "Unable to create updater working directory: ",
        SelfUpdateStep::ClearStage => "",
        SelfUpdateStep::BuildAgent => "Unable to initialize TLS support for update checks: ",
        SelfUpdateStep::RequestAsset => "Unable to download the latest release: ",
        SelfUpdateStep::CreatePartial => "Unable to create temporary download file: ",
        SelfUpdateStep::WritePartial => "Unable to write the downloaded update: ",
        SelfUpdateStep::FlushPartial => "Unable to finalize the downloaded update: ",
        SelfUpdateStep::RenamePartial => "Unable to finalize the downloaded update file: ",
        SelfUpdateStep::CopyHelper => "Unable to prepare updater helper: ",
        SelfUpdateStep::LaunchHelper => "Unable to launch updater helper: ",
    };
    opening.to_string().concat(error)
}

/// The first step of an update.
pub fn first_self_update_step() -> (step: SelfUpdateStep)
    ensures
        self_update_place(step) == 0,
{
    SelfUpdateStep::LocateExecutable
}

/// Takes the outcome of a step and says what comes next: the steps run in their
/// order, each once, and the first that fails ends the update with its message.
pub fn begin_self_update(step: SelfUpdateStep, outcome: StepOutcome) -> (next: SelfUpdateNext)
    ensures
        match self_update_error(step, outcome) {
            Some(message) => next matches SelfUpdateNext::Failed(e) && e@ == message,
            None => match next {
                SelfUpdateNext::Perform(following) => self_update_place(following)
                    == self_update_place(step) + 1,
                SelfUpdateNext::Finished => self_update_place(step) == 11,
                SelfUpdateNext::Failed(_) => false,
            },
        },
{
    let goes_on: bool = match step {
        SelfUpdateStep::ClearStage => true,
        _ => false,
    };
    if !goes_on {
        match outcome {
            StepOutcome::Done => {},
            StepOutcome::NoInstallDir => return SelfUpdateNext::Failed(NO_INSTALL_DIR.to_string()),
            StepOutcome::Failed(e) => return SelfUpdateNext::Failed(complaint(step, e.as_str())),
        }
    }
    match step {
        SelfUpdateStep::LocateExecutable => SelfUpdateNext::Perform(SelfUpdateStep::ProbeInstallDir),
        SelfUpdateStep::ProbeInstallDir => SelfUpdateNext::Perform(SelfUpdateStep::CreateStageDir),
        SelfUpdateStep::CreateStageDir => SelfUpdateNext::Perform(SelfUpdateStep::ClearStage),
        SelfUpdateStep::ClearStage => SelfUpdateNext::Perform(SelfUpdateStep::BuildAgent),
        SelfUpdateStep::BuildAgent => SelfUpdateNext::Perform(SelfUpdateStep::RequestAsset),
        SelfUpdateStep::RequestAsset => SelfUpdateNext::Perform(SelfUpdateStep::CreatePartial),
        SelfUpdateStep::CreatePartial => SelfUpdateNext::Perform(SelfUpdateStep::WritePartial),
        SelfUpdateStep::WritePartial => SelfUpdateNext::Perform(SelfUpdateStep::FlushPartial),
        SelfUpdateStep::FlushPartial => SelfUpdateNext::Perform(SelfUpdateStep::RenamePartial),
        SelfUpdateStep::RenamePartial => SelfUpdateNext::Perform(SelfUpdateStep::CopyHelper),
        SelfUpdateStep::CopyHelper => SelfUpdateNext::Perform(SelfUpdateStep::LaunchHelper),
        SelfUpdateStep::LaunchHelper => SelfUpdateNext::Finished,
    }
}

/// No two steps have the same place, so a place names one step.
pub proof fn self_update_places_are_distinct(a: SelfUpdateStep, b: SelfUpdateStep)
    requires
        self_update_place(a) == self_update_place(b),
    ensures
        a == b,
{
}

/// The steps performed from the beginning of an update, none of which ended it.
pub open spec fn is_self_update_run(steps: Seq<SelfUpdateStep>) -> bool {
    &&& steps.len() > 0
    &&& self_update_place(steps[0]) == 0
    &&& forall|i: int, j: int|
        #![trigger steps[i], steps[j]]
        0 <= i && j == i + 1 && j < steps.len() ==> self_update_place(steps[j])
            == self_update_place(steps[i]) + 1
}

/// An update performs each step at most once and in order. So by the time the
/// helper is started, the install directory has been found writable, the download
/// has been written, flushed and given its final name, and the helper has been
/// copied.
pub proof fn helper_starts_after_the_download_is_complete(steps: Seq<SelfUpdateStep>)
    requires
        is_self_update_run(steps),
    ensures
        forall|i: int| 0 <= i < steps.len() ==> self_update_place(#[trigger] steps[i]) == i,
        steps.last() == SelfUpdateStep::LaunchHelper ==> {
            &&& steps.len() == 12
            &&& steps[0] == SelfUpdateStep::LocateExecutable
            &&& steps[1] == SelfUpdateStep::ProbeInstallDir
            &&& steps[2] == SelfUpdateStep::CreateStageDir
            &&& steps[3] == SelfUpdateStep::ClearStage
            &&& steps[4] == SelfUpdateStep::BuildAgent
            &&& steps[5] == SelfUpdateStep::RequestAsset
            &&& steps[6] == SelfUpdateStep::CreatePartial
            &&& steps[7] == SelfUpdateStep::WritePartial
            &&& steps[8] == SelfUpdateStep::FlushPartial
            &&& steps[9] == SelfUpdateStep::RenamePartial
            &&& steps[10] == SelfUpdateStep::CopyHelper
        },
    decreases steps.len(),
{
    if steps.len() > 1 {
        let head = steps.drop_last();
        assert(is_self_update_run(head)) by {
            assert forall|i: int, j: int|
                #![trigger head[i], head[j]]
                0 <= i && j == i + 1 && j < head.len() implies self_update_place(head[j])
                == self_update_place(head[i]) + 1 by {
                assert(head[i] == steps[i] && head[j] == steps[j]);
            }
        }
        helper_starts_after_the_download_is_complete(head);
        assert forall|i: int| 0 <= i < steps.len() implies self_update_place(#[trigger] steps[i])
            == i by {
            if i < head.len() {
                assert(head[i] == steps[i]);
            } else {
                assert(head[i - 1] == steps[i - 1]);
                assert(self_update_place(steps[i]) == self_update_place(steps[i - 1]) + 1);
            }
        }
    }
    if steps.last() == SelfUpdateStep::LaunchHelper {
        assert(self_update_place(steps[steps.len() - 1]) == steps.len() - 1);
        assert(self_update_place(steps[0]) == 0);
        assert(self_update_place(steps[1]) == 1);
        assert(self_update_place(steps[2]) == 2);
        assert(self_update_place(steps[3]) == 3);
        assert(self_update_place(steps[4]) == 4);
        assert(self_update_place(steps[5]) == 5);
        assert(self_update_place(steps[6]) == 6);
        assert(self_update_place(steps[7]) == 7);
        assert(self_update_place(steps[8]) == 8);
        assert(self_update_place(steps[9]) == 9);
        assert(self_update_place(steps[10]) == 10);
    }
}

// Applying an update, in the helper.

/// The pieces of work of the helper.
#[derive(Clone, Copy, PartialEq, Eq, Structural, Debug)]
pub enum ApplyStep {
    /// See whether the download is there.
    FindSource,
    /// Wait for the program to exit.
    WaitForExit,
    /// Put the download in its place.
    ReplaceTarget,
    /// Start it again.
    RelaunchTarget,
    /// Remove the download.
    RemoveSource,
}

/// How a piece of the helper's work ended.
pub enum ApplyOutcome {
    Done,
    /// It failed, with the words of what failed.
    Failed(String),
}

/// What the helper does next.
pub enum ApplyNext {
    Perform(ApplyStep),
    Finished,
    Failed(String),
}

/// What an [`ApplyNext`] says.
pub enum ApplyNextView {
    Perform(ApplyStep),
    Finished,
    Failed(Seq<char>),
}

impl View for ApplyNext {
    type V = ApplyNextView;

    open spec fn view(&self) -> ApplyNextView {
        match self {
            ApplyNext::Perform(step) => ApplyNextView::Perform(*step),
            ApplyNext::Finished => ApplyNextView::Finished,
            ApplyNext::Failed(message) => ApplyNextView::Failed(message@),
        }
    }
}

/// What follows a step of the helper. Neither a failed wait nor a download that
/// cannot be removed ends its work.
pub open spec fn after_apply_step(
    step: ApplyStep,
    outcome: ApplyOutcome,
    source: Seq<char>,
) -> ApplyNextView {
    match (step, outcome) {
        (ApplyStep::FindSource, ApplyOutcome::Failed(_)) => ApplyNextView::Failed(
            "Downloaded update not found at "@ + source,
        ),
        (ApplyStep::FindSource, ApplyOutcome::Done) => ApplyNextView::Perform(
            ApplyStep::WaitForExit,
        ),
        (ApplyStep::WaitForExit, _) => ApplyNextView::Perform(ApplyStep::ReplaceTarget),
        (ApplyStep::ReplaceTarget, ApplyOutcome::Failed(e)) => ApplyNextView::Failed(e@),
        (ApplyStep::ReplaceTarget, ApplyOutcome::Done) => ApplyNextView::Perform(
            ApplyStep::RelaunchTarget,
        ),
        (ApplyStep::RelaunchTarget, ApplyOutcome::Failed(e)) => ApplyNextView::Failed(
            "The update was installed, but the app could not be restarted automatically: "@ + e@,
        ),
        (ApplyStep::RelaunchTarget, ApplyOutcome::Done) => ApplyNextView::Perform(
            ApplyStep::RemoveSource,
        ),
        (ApplyStep::RemoveSource, _) => ApplyNextView::Finished,
    }
}

/// Takes the outcome of a step of the helper and says what comes next.
pub fn apply_update(step: ApplyStep, outcome: ApplyOutcome, source: &str) -> (next: ApplyNext)
    ensures
        next@ == after_apply_step(step, outcome, source@),
{
    match (step, outcome) {
        (ApplyStep::FindSource, ApplyOutcome::Failed(_)) => ApplyNext::Failed(
            "Downloaded update not found at ".to_string().concat(source),
        ),
        (ApplyStep::FindSource, ApplyOutcome::Done) => ApplyNext::Perform(ApplyStep::WaitForExit),
        (ApplyStep::WaitForExit, _) => ApplyNext::Perform(ApplyStep::ReplaceTarget),
        (ApplyStep::ReplaceTarget, ApplyOutcome::Failed(e)) => ApplyNext::Failed(e),
        (ApplyStep::ReplaceTarget, ApplyOutcome::Done) => ApplyNext::Perform(
            ApplyStep::RelaunchTarget,
        ),
        (ApplyStep::RelaunchTarget, ApplyOutcome::Failed(e)) => ApplyNext::Failed(
            "The update was installed, but the app could not be restarted automatically: ".to_string().concat(
                e.as_str(),
            ),
        ),
        (ApplyStep::RelaunchTarget, ApplyOutcome::Done) => ApplyNext::Perform(
            ApplyStep::RemoveSource,
        ),
        (ApplyStep::RemoveSource, _) => ApplyNext::Finished,
    }
}

/// How long to wait for a process, in the milliseconds that the wait takes, or
/// nothing where there is no process to wait for.
pub fn wait_for_process_exit(pid: u32, timeout_ms: u128) -> (wait: Option<u32>)
    ensures
        wait == if pid == 0 {
            None
        } else if timeout_ms < u32::MAX {
            Some(timeout_ms as u32)
        } else {
            Some(u32::MAX)
        },
{
    if pid == 0 {
        None
    } else if timeout_ms < u32::MAX as u128 {
        Some(timeout_ms as u32)
    } else {
        Some(u32::MAX)
    }
}

/// How the wait for a process ended.
pub enum ProcessWait {
    /// The process could not be watched; the words of what failed.
    NotWatched(String),
    /// The wait ended with this code.
    Ended(u32),
}

/// What is said where the process is not known to have exited.
pub open spec fn wait_complaint(wait: ProcessWait) -> Option<Seq<char>> {
    match wait {
        ProcessWait::NotWatched(e) => Some("Unable to monitor the running app process: "@ + e@),
        ProcessWait::Ended(code) => if code == WAIT_OBJECT_0 {
            None
        } else if code == WAIT_TIMEOUT {
            Some("Timed out waiting for the running app to exit."@)
        } else {
            Some("Unable to confirm that the running app has exited."@)
        },
    }
}

/// What the end of a wait for a process means.
pub fn wait_result(wait: ProcessWait) -> (res: Result<(), String>)
    ensures
        match wait_complaint(wait) {
            None => res is Ok,
            Some(message) => res matches Err(e) && e@ == message,
        },
{
    match wait {
        ProcessWait::NotWatched(e) => Err(
            "Unable to monitor the running app process: ".to_string().concat(e.as_str()),
        ),
        ProcessWait::Ended(code) => if code == WAIT_OBJECT_0 {
            Ok(())
        } else if code == WAIT_TIMEOUT {
            Err("Timed out waiting for the running app to exit.".to_string())
        } else {
            Err("Unable to confirm that the running app has exited.".to_string())
        },
    }
}

/// A command line is a request just where it has five words of which the second
/// is the flag: its target, its source and its process are then the next three
/// words, the last as a number, or zero where it is none.
pub proof fn requests_are_read_word_by_word(args: Seq<Seq<char>>)
    ensures
        cli_request(args) is Some == (args.len() == 5 && args[1] == "--apply-update"@),
        cli_request(args) matches Some(r) ==> {
            &&& r.target == args[2]
            &&& r.source == args[3]
            &&& parsed_u32(args[4]) matches Some(pid) ==> r.pid == pid
            &&& parsed_u32(args[4]) is None ==> r.pid == 0
        },
{
}

/// The view of a request tells its parts.
pub proof fn the_view_tells_the_request(r: ApplyRequest)
    ensures
        r@.target == r.target@,
        r@.source == r.source@,
        r@.pid == r.pid,
{
}

/// The binary that is set aside is named after its own name.
pub proof fn backups_are_named_after_their_binary(name: Seq<char>)
    ensures
        backup_name(Some(name)) == name + ".old"@,
        backup_name(None) == "app.exe"@ + ".old"@,
{
}

/// A step that is done ends no update, and what is left of an earlier one never
/// does; every other failure ends it, with the words of what failed.
pub proof fn failures_end_the_update_with_their_words(step: SelfUpdateStep, words: String)
    ensures
        self_update_error(step, StepOutcome::Done) is None,
        (self_update_error(step, StepOutcome::Failed(words)) is None) == (step
            == SelfUpdateStep::ClearStage),
        (self_update_error(step, StepOutcome::NoInstallDir) is None) == (step
            == SelfUpdateStep::ClearStage),
        step != SelfUpdateStep::ClearStage ==> self_update_error(step, StepOutcome::NoInstallDir)
            == Some("Unable to determine the install directory for the current executable."@),
        self_update_error(step, StepOutcome::Failed(words)) matches Some(message)
            ==> words@.is_suffix_of(message) && message.len() >= words@.len(),
{
}

/// Each step has a complaint of its own.
pub proof fn steps_complain_of_themselves()
    ensures
        self_update_complaint(SelfUpdateStep::LocateExecutable)
            == "Unable to locate current executable: "@,
        self_update_complaint(SelfUpdateStep::ProbeInstallDir)
            == "The current install location is not writable. Move the app to a user-writable folder or install it somewhere outside Program Files. "@,
        self_update_complaint(SelfUpdateStep::CreateStageDir)
            == "Unable to create updater working directory: "@,
        self_update_complaint(SelfUpdateStep::BuildAgent)
            == "Unable to initialize TLS support for update checks: "@,
        self_update_complaint(SelfUpdateStep::RequestAsset)
            == "Unable to download the latest release: "@,
        self_update_complaint(SelfUpdateStep::CreatePartial)
            == "Unable to create temporary download file: "@,
        self_update_complaint(SelfUpdateStep::WritePartial)
            == "Unable to write the downloaded update: "@,
        self_update_complaint(SelfUpdateStep::FlushPartial)
            == "Unable to finalize the downloaded update: "@,
        self_update_complaint(SelfUpdateStep::RenamePartial)
            == "Unable to finalize the downloaded update file: "@,
        self_update_complaint(SelfUpdateStep::CopyHelper) == "Unable to prepare updater helper: "@,
        self_update_complaint(SelfUpdateStep::LaunchHelper) == "Unable to launch updater helper: "@,
{
}

/// The helper goes on to its next step where one is done, and where the program
/// could not be waited for; otherwise a failure ends its work, except the last
/// step's, after which it is finished either way. The message names the download
/// that is missing, or ends with the words of what failed.
pub proof fn the_helper_goes_on(step: ApplyStep, words: String, source: Seq<char>)
    ensures
        ({
            let done = after_apply_step(step, ApplyOutcome::Done, source);
            let failed = after_apply_step(step, ApplyOutcome::Failed(words), source);
            &&& done == (match step {
                ApplyStep::FindSource => ApplyNextView::Perform(ApplyStep::WaitForExit),
                ApplyStep::WaitForExit => ApplyNextView::Perform(ApplyStep::ReplaceTarget),
                ApplyStep::ReplaceTarget => ApplyNextView::Perform(ApplyStep::RelaunchTarget),
                ApplyStep::RelaunchTarget => ApplyNextView::Perform(ApplyStep::RemoveSource),
                ApplyStep::RemoveSource => ApplyNextView::Finished,
            })
            &&& step == ApplyStep::WaitForExit || step == ApplyStep::RemoveSource ==> failed == done
            &&& step != ApplyStep::WaitForExit && step != ApplyStep::RemoveSource
                ==> failed is Failed
            &&& step == ApplyStep::FindSource ==> source.is_suffix_of(failed->Failed_0)
            &&& step == ApplyStep::ReplaceTarget ==> failed->Failed_0 == words@
            &&& step == ApplyStep::RelaunchTarget ==> words@.is_suffix_of(failed->Failed_0)
        }),
{
}

/// The program is known to have exited just where the wait ended for that; that
/// the time was up, anything else, and that it could not be watched is said.
pub proof fn only_an_exit_is_taken_for_one(wait: ProcessWait)
    ensures
        wait_complaint(wait) is None == (wait matches ProcessWait::Ended(code) && code == 0),
        wait_complaint(ProcessWait::Ended(258)) == Some(
            "Timed out waiting for the running app to exit."@,
        ),
        wait matches ProcessWait::Ended(code) ==> (code != 0 && code != 258 ==> wait_complaint(wait)
            == Some("Unable to confirm that the running app has exited."@)),
        wait matches ProcessWait::NotWatched(words) ==> wait_complaint(wait) == Some(
            "Unable to monitor the running app process: "@ + words@,
        ),
{
}

} // verus!
