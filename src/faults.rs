use vstd::prelude::*;

verus! {

/// What went wrong during a session.
#[derive(Debug, Clone, Copy, PartialEq, Eq, Structural)]
pub enum Fault {
    /// Transport I/O failure, protocol violation or disconnect.
    Transport,
    /// A malformed or unrecognised input frame.
    Protocol,
    /// An image that could not be decoded or did not have the expected format.
    Image,
    /// An outbound call to the host failed.
    Consumer,
}

/// Faults after which the session cannot go on.
pub open spec fn is_fatal(f: Fault) -> bool {
    f == Fault::Transport
}

/// Decides whether a session goes on after `fault`: only transport faults
/// stop it.
pub fn should_continue(fault: Fault) -> (r: bool)
    ensures
        r == !is_fatal(fault),
{
    match fault {
        Fault::Transport => false,
        Fault::Protocol => true,
        Fault::Image => true,
        Fault::Consumer => true,
    }
}

} // verus!
