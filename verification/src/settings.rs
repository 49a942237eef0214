//! Values of the application's configuration, and the bounds they are held
//! to.

use vstd::prelude::*;
use vstd::string::StringExecFns;

verus! {

/// The address of the local transcription server.
pub const SERVER_URL: &'static str = "http://127.0.0.1:8765";

/// The number of recordings kept where the configuration names none.
pub const DEFAULT_MAX_SAVED_RECORDINGS: u64 = 1000;

/// The largest number of recordings that is ever kept.
pub const MAX_SAVED_RECORDINGS_LIMIT: u64 = 100_000;

/// The address of the local transcription server.
pub fn get_server_url() -> (url: String)
    ensures
        url@ == SERVER_URL@,
{
    String::from_str(SERVER_URL)
}

/// The number of recordings to keep for a configured value: the value
/// itself, or the default where none is configured, held between 1 and the
/// limit.
pub open spec fn saved_recordings_bound(configured: Option<u64>) -> int {
    let wanted = match configured {
        Some(value) => value,
        None => DEFAULT_MAX_SAVED_RECORDINGS,
    };
    if wanted < 1 {
        1
    } else if wanted > MAX_SAVED_RECORDINGS_LIMIT {
        MAX_SAVED_RECORDINGS_LIMIT as int
    } else {
        wanted as int
    }
}

/// The number of recordings to keep, for the value that the configuration
/// holds. A value edited by hand cannot make it run away.
pub fn max_saved_recordings(configured: Option<u64>) -> (bound: usize)
    ensures
        bound == saved_recordings_bound(configured),
{
    let wanted = match configured {
        Some(value) => value,
        None => DEFAULT_MAX_SAVED_RECORDINGS,
    };
    if wanted < 1 {
        1
    } else if wanted > MAX_SAVED_RECORDINGS_LIMIT {
        MAX_SAVED_RECORDINGS_LIMIT as usize
    } else {
        wanted as usize
    }
}

} // verus!
