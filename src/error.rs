use vstd::prelude::*;

verus! {

#[verifier::external_type_specification]
#[verifier::external_body]
pub struct ExImageError(image::ImageError);

/// Failures of the panel library's own operations.  Bus and control-line
/// failures belong to the host that performs the I/O.
#[derive(Debug)]
pub enum InkyError {
    /// The busy line did not settle within the allowed time.
    Timeout { stage: &'static str, millis: u64 },
    /// A bulk buffer load had the wrong length.
    InvalidBufferSize { expected: usize, received: usize },
    /// The controller family does not support this width and height.
    UnsupportedResolution(u16, u16),
    /// Image data that is the wrong size for the panel.
    InvalidImageDimensions { expected: (u16, u16), received: (u32, u32) },
    /// The image could not be decoded.
    Image(image::ImageError),
}

} // verus!
