use vstd::prelude::*;

verus! {

/// The error taxonomy of the scanning core.
///
/// `UnsupportedFormat` and `FormatNotHonored` are fatal to session
/// construction; `DecodeFailure` is fatal to a single decode call only;
/// `ExhaustedInput` reports a drained test queue and repeats on every
/// further call.
#[derive(Clone, Copy, Debug, PartialEq, Eq, Structural)]
pub enum Error {
    /// No capture mode could be negotiated, or the negotiated pixel
    /// format has no bound converter.
    UnsupportedFormat,
    /// The device accepted a different pixel format than requested.
    FormatNotHonored,
    /// A raw buffer was malformed or the still-image codec rejected it.
    DecodeFailure,
    /// A fixed test queue has been drained.
    ExhaustedInput,
}

impl Error {
    /// A human-readable description, in place of a `Display` impl.
    pub fn message(&self) -> (r: &'static str)
        ensures
            *self is UnsupportedFormat ==> r@ == "No camera format supported"@,
            *self is FormatNotHonored ==> r@ == "Camera does not support the chosen format"@,
            *self is DecodeFailure ==> r@ == "Failed to convert to image"@,
            *self is ExhaustedInput ==> r@ == "End of test data reached"@,
    {
        match self {
            Error::UnsupportedFormat => "No camera format supported",
            Error::FormatNotHonored => "Camera does not support the chosen format",
            Error::DecodeFailure => "Failed to convert to image",
            Error::ExhaustedInput => "End of test data reached",
        }
    }
}

} // verus!
