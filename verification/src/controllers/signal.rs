use vstd::prelude::*;
use crate::daemon::traits::LoopAction;
use crate::daemon::types::{IoErrorKind, QosError};

verus! {

/// What reading the shutdown signal descriptor gave: a byte count, or an
/// I/O error's kind and message.
pub enum SignalRead {
    Bytes(usize),
    Failed(IoErrorKind, String),
}

/// What the signal controller makes of a read: any bytes mean the host asks
/// for shutdown; an empty read or a read that would block changes nothing;
/// any other error is the handler's error.
pub open spec fn spec_signal_outcome(read: SignalRead) -> Option<bool> {
    match read {
        SignalRead::Bytes(n) => Some(n > 0),
        SignalRead::Failed(kind, _) => if kind == IoErrorKind::WouldBlock { Some(false) } else { None },
    }
}

/// Handles a read of the signal descriptor; `Ok((action, shutdown))` says
/// whether shutdown is requested.
pub fn on_signal_read(read: SignalRead) -> (r: Result<(LoopAction, bool), QosError>)
    ensures
        match spec_signal_outcome(read) {
            Some(shutdown) => r matches Ok((LoopAction::Continue, s)) && s == shutdown,
            None => r matches Err(QosError::IoError(k, m)) && read matches SignalRead::Failed(k2, m2)
                && k == k2 && m@ == m2@,
        },
{
    match read {
        SignalRead::Bytes(n) => Ok((LoopAction::Continue, n > 0)),
        SignalRead::Failed(kind, msg) => {
            if kind == IoErrorKind::WouldBlock {
                Ok((LoopAction::Continue, false))
            } else {
                Err(QosError::IoError(kind, msg))
            }
        },
    }
}

} // verus!
