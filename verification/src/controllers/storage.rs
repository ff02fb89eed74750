use vstd::prelude::*;
use crate::daemon::types::QosError;
use crate::hal::sysfs::CheckStrategy;

verus! {

/// The storage controller needs at least one of its two block queue files.
pub fn require_storage_tunables(read_ahead_active: bool, nr_requests_active: bool) -> (r: Result<(), QosError>)
    ensures
        (read_ahead_active || nr_requests_active) ==> r is Ok,
        !(read_ahead_active || nr_requests_active) ==> (r matches Err(QosError::SystemCheckFailed(m))
            && m@ == "No storage block tunables found."@),
{
    if !read_ahead_active && !nr_requests_active {
        return Err(QosError::SystemCheckFailed(String::from_str("No storage block tunables found.")));
    }
    Ok(())
}

/// Read-ahead is rewritten only when it moves by at least 32 KiB.
pub fn read_ahead_strategy() -> (s: CheckStrategy)
    ensures
        s == CheckStrategy::Absolute(32),
{
    CheckStrategy::Absolute(32)
}

/// The queue depth is rewritten only when it moves by at least 16 requests.
pub fn nr_requests_strategy() -> (s: CheckStrategy)
    ensures
        s == CheckStrategy::Absolute(16),
{
    CheckStrategy::Absolute(16)
}

} // verus!
