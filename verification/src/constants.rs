use vstd::prelude::*;

verus! {

/// Seconds for which a status message stays before it is cleared.
pub const SETTINGS_MESSAGE_DURATION: u64 = 8;

/// Seconds between two automatic synchronisations.
pub const SYNC_INTERVAL_SECONDS: u64 = 600;

/// Seconds to wait after a local change before synchronising, so that a
/// burst of edits travels in one round.
pub const SYNC_DEBOUNCE_SECONDS: u64 = 1;

/// The address of the official synchronisation server.
pub fn official_server() -> (address: &'static str)
    ensures
        address@ == "https://sync.furtherance.app"@,
{
    "https://sync.furtherance.app"
}

/// What is shown in place of a stored encryption key.
pub fn masked_key() -> (mask: &'static str)
    ensures
        mask@ == "xxxxxxxxxxxxxxxxxxxxxxxxxxxxxxxx"@,
{
    "xxxxxxxxxxxxxxxxxxxxxxxxxxxxxxxx"
}

} // verus!
