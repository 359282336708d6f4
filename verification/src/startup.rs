//! Starting with the system: the value in the registry that asks for it.
use vstd::prelude::*;
use vstd::slice::slice_subrange;

use crate::text::{eq_ignore_ascii_case, same_ignoring_case, trim_end, trimmed_end};
use crate::wide::{
    byte_units, decoded, from_le_bytes, lemma_decoded_last, lemma_decoded_with_zero,
    low_bytes_come_first, to_le_bytes, unit_bytes, unit_bytes_read_back, units_of,
    wide_text_reads_back,
};

verus! {

/// The key, under that of the current user, that lists what starts with the
/// system.
pub const STARTUP_REGISTRY_PATH: &'static str = "Software\\Microsoft\\Windows\\CurrentVersion\\Run";

/// The name of this program's value under that key.
pub const STARTUP_REGISTRY_KEY: &'static str = "AIUsageMonitor";

/// What is to be done to the value in the registry.
#[derive(Debug)]
pub enum StartupChange {
    /// Remove it.
    Delete,
    /// Set it to these bytes, as a string.
    Write(Vec<u8>),
    /// Leave it alone.
    Keep,
}

/// What a [`StartupChange`] says.
pub enum StartupChangeView {
    Delete,
    Write(Seq<u8>),
    Keep,
}

impl View for StartupChange {
    type V = StartupChangeView;

    open spec fn view(&self) -> StartupChangeView {
        match self {
            StartupChange::Delete => StartupChangeView::Delete,
            StartupChange::Write(bytes) => StartupChangeView::Write(bytes@),
            StartupChange::Keep => StartupChangeView::Keep,
        }
    }
}

/// The text in a value of the registry, without the zeros that end it.
pub open spec fn registry_text(value: Seq<u8>) -> Seq<char> {
    trimmed_end(decoded(byte_units(value)), '\0')
}

/// The value in the registry, if there is one, names the program at this path.
/// Paths are taken without the case of ASCII letters.
pub open spec fn starts_up(value: Option<Seq<u8>>, exe: Seq<u16>) -> bool {
    match value {
        Some(bytes) => bytes.len() > 0 && exe.len() > 0 && same_ignoring_case(
            registry_text(bytes),
            decoded(exe),
        ),
        None => false,
    }
}

/// The change that has the program start with the system, or no longer. The
/// path of the program is the first `len` units of `exe_buf`; it is written
/// with the unit behind it.
pub open spec fn startup_change(enable: bool, exe_buf: Seq<u16>, len: nat) -> StartupChangeView {
    if !enable {
        StartupChangeView::Delete
    } else if len > 0 {
        StartupChangeView::Write(unit_bytes(exe_buf.take(len as int + 1)))
    } else {
        StartupChangeView::Keep
    }
}

/// Returns true only if the startup registry value points to this executable.
/// `value` is what the registry holds, if anything, and `exe` the path of the
/// program, empty where it is not known.
pub fn is_startup_enabled(value: Option<&[u8]>, exe: &[u16]) -> (enabled: bool)
    ensures
        enabled == starts_up(
            match value {
                Some(bytes) => Some(bytes@),
                None => None,
            },
            exe@,
        ),
{
    let bytes: &[u8] = match value {
        Some(bytes) => bytes,
        None => return false,
    };
    if bytes.len() == 0 || exe.len() == 0 {
        return false;
    }
    let units: Vec<u16> = from_le_bytes(bytes);
    let text: String = String::from_utf16_lossy(units.as_slice());
    let reg_value: &str = trim_end(text.as_str(), '\0');
    let current_exe: String = String::from_utf16_lossy(exe);
    eq_ignore_ascii_case(reg_value, current_exe.as_str())
}

/// The change that has the program start with the system, or no longer.
pub fn set_startup_enabled(enable: bool, exe_buf: &[u16], len: usize) -> (change: StartupChange)
    requires
        enable ==> len < exe_buf@.len() && 2 * (len + 1) <= u32::MAX,
    ensures
        change@ == startup_change(enable, exe_buf@, len as nat),
{
    if !enable {
        StartupChange::Delete
    } else if len > 0 {
        let with_end: &[u16] = slice_subrange(exe_buf, 0, len + 1);
        assert(with_end@ == exe_buf@.take(len + 1));
        StartupChange::Write(to_le_bytes(with_end))
    } else {
        StartupChange::Keep
    }
}

/// Once the program has been set to start with the system, it is seen to be so
/// set; once it has been set not to, it is not. The path has a zero behind it,
/// and none for its last unit.
pub proof fn startup_can_be_switched(exe_buf: Seq<u16>, len: nat)
    requires
        0 < len < exe_buf.len(),
        exe_buf[len as int] == 0,
        exe_buf[len - 1] != 0,
    ensures
        startup_change(true, exe_buf, len) matches StartupChangeView::Write(bytes) && starts_up(
            Some(bytes),
            exe_buf.take(len as int),
        ),
        startup_change(false, exe_buf, len) == StartupChangeView::Delete,
        !starts_up(None, exe_buf.take(len as int)),
{
    let exe = exe_buf.take(len as int);
    let with_end = exe_buf.take(len as int + 1);
    assert(with_end == exe.push(0));
    unit_bytes_read_back(with_end);
    lemma_decoded_with_zero(exe);
    lemma_decoded_last(exe);
    let text = decoded(exe);
    assert(text.push('\0').drop_last() == text);
    assert(trimmed_end(text.push('\0'), '\0') == trimmed_end(text, '\0'));
    assert(registry_text(unit_bytes(with_end)) == text);
}

/// The value that was written for one path is taken for another just where the
/// two are the same without the case of their letters.
pub proof fn startup_goes_by_the_path(stored: Seq<char>, running: Seq<char>)
    requires
        stored.len() > 0,
        stored.last() != '\0',
        running.len() > 0,
    ensures
        starts_up(Some(unit_bytes(units_of(stored).push(0))), units_of(running))
            == same_ignoring_case(stored, running),
{
    let units = units_of(stored).push(0);
    unit_bytes_read_back(units);
    lemma_decoded_with_zero(units_of(stored));
    wide_text_reads_back(stored);
    wide_text_reads_back(running);
    assert(stored.push('\0').drop_last() == stored);
    assert(trimmed_end(stored.push('\0'), '\0') == trimmed_end(stored, '\0'));
    assert(units_of(running).len() > 0) by {
        if units_of(running).len() == 0 {
            assert(decoded(units_of(running)) == Seq::<char>::empty());
        }
    }
}

/// Nothing is written where the path is not known, nor does the program then
/// count as one that starts with the system.
pub proof fn unknown_paths_start_nothing(value: Option<Seq<u8>>, exe_buf: Seq<u16>)
    ensures
        startup_change(true, exe_buf, 0) == StartupChangeView::Keep,
        !starts_up(value, Seq::<u16>::empty()),
        !starts_up(Some(Seq::<u8>::empty()), exe_buf),
{
}

/// What is written for the system is the path unit by unit, and the unit behind
/// it, and nothing more.
pub proof fn the_path_is_written_with_its_end(exe_buf: Seq<u16>, len: nat, i: int)
    requires
        0 < len < exe_buf.len(),
        0 <= i <= len,
    ensures
        startup_change(true, exe_buf, len) matches StartupChangeView::Write(bytes) && bytes.len()
            == 2 * (len + 1) && bytes[2 * i] + 256 * bytes[2 * i + 1] == exe_buf[i],
{
    low_bytes_come_first(exe_buf.take(len as int + 1), i);
}

} // verus!
