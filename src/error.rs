use vstd::prelude::*;

verus! {

/// Why a stage of an item failed. Every one of them ends the whole run.
#[derive(Debug, PartialEq, Eq, Structural)]
pub enum StageError {
    /// The download response carried no content length.
    MissingContentLength,
    /// The content length was not an unsigned 64-bit decimal number.
    MalformedContentLength,
    /// The body's length differs from the declared one.
    LengthMismatch { declared: u64, received: u64 },
    /// The body went on past the declared content length.
    BodyExceedsLength { declared: u64 },
    /// The probed duration could not be read.
    UnparsableDuration,
    /// A progress sample of the transcoder carried no output time.
    MissingProgressSample,
    /// The audio stream at this index declares no channel count.
    AudioStreamWithoutChannels { index: u64 },
    /// The transcoding process exited abnormally.
    ProcessFailed,
    /// A connection failed or the service answered with a non-success status.
    Network,
    /// A local file could not be created, read, written or deleted.
    Io,
}

} // verus!
