//! What the library asks of the machine: the clock, the file system's view of a
//! path, and the user's data directory.

use vstd::prelude::*;

verus! {

#[verifier::external_type_specification]
#[verifier::external_body]
pub struct ExSystemTime(std::time::SystemTime);

/// `SystemTime::now`: the system clock's reading. It is whatever the clock
/// says: nothing is stated of it.
#[verifier::external_body]
fn system_now() -> std::time::SystemTime {
    std::time::SystemTime::now()
}

/// How far `t` lies from the Unix epoch, in whole microseconds
/// (`SystemTime::duration_since(UNIX_EPOCH)`, then `Duration::as_micros`): `Ok`
/// with the time since the epoch, or `Err` with the time before it for a reading
/// before the epoch (`SystemTimeError::duration`). The reading `t` is opaque, so
/// nothing is stated of the number.
#[verifier::external_body]
fn micros_from_epoch(t: &std::time::SystemTime) -> Result<u128, u128> {
    match t.duration_since(std::time::UNIX_EPOCH) {
        Ok(d) => Ok(d.as_micros()),
        Err(e) => Err(e.duration().as_micros()),
    }
}

/// The current time as microseconds since the Unix epoch, UTC (negative before
/// the epoch); `None` when the system clock reads further from the epoch than an
/// `i64` of microseconds reaches.
pub(crate) fn now_micros() -> (r: Option<i64>) {
    let now = system_now();
    match micros_from_epoch(&now) {
        Ok(m) => if m <= 9223372036854775807u128 { Some(m as i64) } else { None },
        Err(m) => if m <= 9223372036854775807u128 { Some(-(m as i64)) } else { None },
    }
}

/// Whether the path names an existing file or directory
/// (`std::path::Path::exists`).
///
/// The result depends on the disk: nothing is stated of it.
#[verifier::external_body]
pub(crate) fn path_exists(path: &str) -> bool {
    std::path::Path::new(path).exists()
}

/// The user's data directory (`dirs::data_dir`), converted to a string.
///
/// The result depends on the platform and the environment: nothing is stated of it.
#[verifier::external_body]
pub(crate) fn data_dir() -> Option<String> {
    match dirs::data_dir() {
        Some(p) => Some(p.to_string_lossy().into_owned()),
        None => None,
    }
}

/// Names the text of the path that `PathBuf::push` makes when it appends
/// `segment` to `base`, with the separator of the platform the program is built
/// for.
pub uninterp spec fn pushed_path(base: Seq<char>, segment: Seq<char>) -> Seq<char>;

/// `PathBuf::from(base)`, then `push(segment)`, as text: the result is the one
/// that `pushed_path` names for the two arguments. Both are UTF-8, so turning
/// the path back into text loses nothing.
#[verifier::external_body]
pub(crate) fn join_path(base: &str, segment: &str) -> (r: String)
    ensures
        r@ == pushed_path(base@, segment@),
{
    let mut p = std::path::PathBuf::from(base);
    p.push(segment);
    p.to_string_lossy().into_owned()
}

} // verus!
