use vstd::prelude::*;

verus! {

/// The failure vocabulary shared by every operation of this transport.
///
/// `ChannelClosedError` is the orderly end of a stream: nothing will ever
/// arrive again. `BrokenPipeError` marks a send whose receiving side is
/// gone. `UnknownError` stands for "nothing ready" on a non-blocking probe
/// and for a wait on an empty receiver set.
#[derive(Debug, Clone, Copy, PartialEq, Eq, Structural)]
pub enum ChannelError {
    ChannelClosedError,
    BrokenPipeError,
    UnknownError,
}

impl ChannelError {
    /// True exactly of the orderly end-of-stream error.
    pub fn channel_is_closed(&self) -> (r: bool)
        ensures
            r == (*self == ChannelError::ChannelClosedError),
    {
        *self == ChannelError::ChannelClosedError
    }
}

} // verus!
