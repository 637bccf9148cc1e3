//! Why an extraction stopped.
use vstd::prelude::*;

verus! {

/// The ways an extraction can fail. Each one ends the run; nothing is
/// retried and no frames are handed out.
#[derive(Debug, Clone, Copy, PartialEq, Eq, Structural)]
pub enum ExtractError {
    /// The decoding library could not be set up.
    Init,
    /// The container could not be opened or parsed.
    Container,
    /// The container holds no video stream.
    NoVideoStream,
    /// The stream's codec parameters are invalid or unsupported.
    Codec,
    /// The decoder refused a packet or the end-of-stream signal.
    Decode,
    /// The scaler could not be set up or failed on a frame.
    Scale,
    /// A converted frame is not of the size the scaler was set up with, or
    /// its plane does not hold the lines its size calls for.
    PixelBuffer,
    /// The caller reported something other than the outcome of the pending
    /// request.
    OutOfOrder,
}

impl ExtractError {
    /// A short description for the user.
    pub fn message(&self) -> (text: &'static str)
        ensures
            text@ == self.message_spec(),
    {
        match self {
            ExtractError::Init => "Failed to initialise the decoding library",
            ExtractError::Container => "Failed to open the container",
            ExtractError::NoVideoStream => "No video stream",
            ExtractError::Codec => "Unsupported codec parameters",
            ExtractError::Decode => "Failed to submit data to the decoder",
            ExtractError::Scale => "Failed to scale a frame",
            ExtractError::PixelBuffer => "Failed to create RgbImage",
            ExtractError::OutOfOrder => "Unexpected report from the decoding loop",
        }
    }

    /// The text of [`ExtractError::message`].
    pub open spec fn message_spec(self) -> Seq<char> {
        match self {
            ExtractError::Init => "Failed to initialise the decoding library"@,
            ExtractError::Container => "Failed to open the container"@,
            ExtractError::NoVideoStream => "No video stream"@,
            ExtractError::Codec => "Unsupported codec parameters"@,
            ExtractError::Decode => "Failed to submit data to the decoder"@,
            ExtractError::Scale => "Failed to scale a frame"@,
            ExtractError::PixelBuffer => "Failed to create RgbImage"@,
            ExtractError::OutOfOrder => "Unexpected report from the decoding loop"@,
        }
    }
}

} // verus!
