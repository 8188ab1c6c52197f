use vstd::prelude::*;

verus! {

/// Errors related to opening a stream of transducers.
#[derive(Debug, Clone, Copy, PartialEq, Eq, Structural)]
pub enum HfstInputStreamError {
    /// The file was not found, could not be opened, or is not a transducer
    /// file.
    NotTransducerStream,
    /// The stream is at its end.
    Eof,
    /// An operating-system level error occurred on the stream.
    Bad,
    /// The stream holds a kind of transducer that the engine was built
    /// without.
    ImplementationTypeNotAvailable,
}

impl HfstInputStreamError {
    /// The text that describes this error.
    pub fn message(&self) -> (r: &'static str)
        ensures
            r@ == self.message_spec(),
    {
        match self {
            HfstInputStreamError::NotTransducerStream => "Not a transducer stream",
            HfstInputStreamError::Eof => "input stream at EOF",
            HfstInputStreamError::Bad => "Bad input stream",
            HfstInputStreamError::ImplementationTypeNotAvailable => "Implementation type not available",
        }
    }

    pub open spec fn message_spec(&self) -> Seq<char> {
        match self {
            HfstInputStreamError::NotTransducerStream => "Not a transducer stream"@,
            HfstInputStreamError::Eof => "input stream at EOF"@,
            HfstInputStreamError::Bad => "Bad input stream"@,
            HfstInputStreamError::ImplementationTypeNotAvailable => "Implementation type not available"@,
        }
    }
}

/// The error of a lookup submitted to an actor.
#[derive(Debug, Clone, Copy, PartialEq, Eq, Structural)]
pub enum LookupError {
    /// The actor has stopped, or is stopping, and takes no more requests.
    ChannelClosed,
}

impl LookupError {
    /// The text that describes this error.
    pub fn message(&self) -> (r: &'static str)
        ensures
            r@ == "channel to actor was closed"@,
    {
        match self {
            LookupError::ChannelClosed => "channel to actor was closed",
        }
    }
}

/// A configuration that no actor can be built from.
#[derive(Debug, Clone, Copy, PartialEq, Eq, Structural)]
pub enum ConfigError {
    /// The queue was given no slots, so no request could ever enter it.
    ZeroQueueSize,
}

impl ConfigError {
    /// The text that describes this error.
    pub fn message(&self) -> (r: &'static str)
        ensures
            r@ == "queue size must be at least one"@,
    {
        match self {
            ConfigError::ZeroQueueSize => "queue size must be at least one",
        }
    }
}

} // verus!
