//! Decoder and encoder errors.

use vstd::prelude::*;

use crate::types::{JxlDecoderStatus, JxlEncoderError};

verus! {

/// Errors derived from [`JxlDecoderStatus`].
#[derive(Debug, Clone, Copy, PartialEq, Eq)]
#[non_exhaustive]
pub enum DecodeError {
    /// Cannot create a decoder.
    CannotCreateDecoder,
    /// Unknown error.
    GenericError,
    /// The input does not contain a valid codestream or container.
    InvalidInput,
    /// Unsupported pixel bit width.
    UnsupportedBitWidth(u32),
    /// Internal error, usually invalid usages of the codec interface.
    InternalError(&'static str),
    /// Unknown status.
    UnknownStatus(JxlDecoderStatus),
}

/// Errors derived from the encoder status and [`JxlEncoderError`].
#[derive(Debug, Clone, Copy, PartialEq, Eq)]
#[non_exhaustive]
pub enum EncodeError {
    /// Cannot create an encoder.
    CannotCreateEncoder,
    /// Generic error.
    GenericError,
    /// The encoder does not support it (yet).
    NotSupported,
    /// Need more output.
    NeedMoreOutput,
    /// Out of memory.
    OutOfMemory,
    /// JPEG bitstream reconstruction data could not be represented.
    Jbrd,
    /// Input is invalid (e.g. corrupt JPEG file or ICC profile).
    BadInput,
    /// The encoder API is used in an incorrect way.
    ApiUsage,
    /// Unknown status.
    UnknownStatus(JxlEncoderError),
}

/// The result that a decoder status maps to.
pub open spec fn spec_check_dec_status(status: JxlDecoderStatus) -> Result<(), DecodeError> {
    match status {
        JxlDecoderStatus::Success => Ok(()),
        JxlDecoderStatus::Error => Err(DecodeError::GenericError),
        _ => Err(DecodeError::UnknownStatus(status)),
    }
}

/// Error mapping from a decoder status to [`DecodeError`]: success is `Ok`,
/// the error status is a generic error, any other status is unknown here.
pub fn check_dec_status(status: JxlDecoderStatus) -> (r: Result<(), DecodeError>)
    ensures
        r == spec_check_dec_status(status),
        r is Ok <==> status == JxlDecoderStatus::Success,
        status == JxlDecoderStatus::Error ==> r == Err::<(), DecodeError>(DecodeError::GenericError),
        r matches Err(DecodeError::UnknownStatus(s)) ==> s == status,
        (status != JxlDecoderStatus::Success && status != JxlDecoderStatus::Error) ==> r == Err::<
            (),
            DecodeError,
        >(DecodeError::UnknownStatus(status)),
{
    match status {
        JxlDecoderStatus::Success => Ok(()),
        JxlDecoderStatus::Error => Err(DecodeError::GenericError),
        _ => Err(DecodeError::UnknownStatus(status)),
    }
}

/// A decoder status passes the check exactly when it is the success status;
/// the error status is a generic error, and any other status is reported as
/// itself.
pub proof fn lemma_check_dec_status_ok(status: JxlDecoderStatus)
    ensures
        spec_check_dec_status(status) is Ok <==> status == JxlDecoderStatus::Success,
        status == JxlDecoderStatus::Error ==> spec_check_dec_status(status) == Err::<
            (),
            DecodeError,
        >(DecodeError::GenericError),
        spec_check_dec_status(status) matches Err(DecodeError::UnknownStatus(s)) ==> s == status,
{
}

} // verus!
