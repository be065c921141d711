//! A decoding session: the events it subscribed to, and the action it takes
//! on each status the decoder reports.

use vstd::prelude::*;

use crate::decode::event::{
    lemma_parse_events_config, parse_events, spec_parse_events, ColorProfileTarget, Event,
};
use crate::buffer::{resize_bytes, resized};
use crate::errors::DecodeError;
use crate::types::{JxlDecoderStatus, JxlPixelFormat};

verus! {

/// Configuration of a session, gathered from the events it subscribed to.
#[derive(Debug, Clone, Copy, PartialEq, Eq, Structural)]
pub struct Config {
    /// How the color profile is retrieved.
    pub color_profile: Option<ColorEncodingConfig>,
    /// Pixel format of the preview image.
    pub preview: Option<JxlPixelFormat>,
    /// Frame setting.
    pub frame: Option<usize>,
    /// Initial size of the JPEG reconstruction buffer.
    pub jpeg_reconstruction: Option<usize>,
}

impl Default for Config {
    fn default() -> (r: Self)
        ensures
            r == (Config { color_profile: None, preview: None, frame: None, jpeg_reconstruction: None }),
    {
        Config { color_profile: None, preview: None, frame: None, jpeg_reconstruction: None }
    }
}

/// Configuration for color encoding.
#[derive(Debug, Clone, Copy, PartialEq, Eq, Structural)]
pub struct ColorEncodingConfig {
    /// Which color profile is retrieved.
    pub target: ColorProfileTarget,
    /// Whether it is retrieved as an ICC profile (else as an encoded profile).
    pub icc_profile: bool,
}

/// What a session does on a status the decoder reported.
#[derive(Debug, Clone, Copy, PartialEq, Eq, Structural)]
pub enum SessionAction {
    /// Read the basic info.
    ReadBasicInfo,
    /// Read the color profile as an ICC profile.
    ReadIccProfile(ColorProfileTarget),
    /// Read the color profile as a structured color encoding.
    ReadEncodedProfile(ColorProfileTarget),
    /// Read the preview image in the given pixel format.
    ReadPreviewImage(JxlPixelFormat),
    /// Read the frame header and the frame name.
    ReadFrame,
    /// The JPEG buffer was sized; hand it to the decoder and go on.
    Continue,
}

/// Represents a session for decoding JPEG XL images.
pub struct Session {
    flags: i32,
    config: Config,
    jpeg_buffer: Vec<u8>,
}

impl Session {
    /// The subscription mask of the session.
    pub closed spec fn spec_flags(&self) -> i32 {
        self.flags
    }

    /// The configuration of the session.
    pub closed spec fn spec_config(&self) -> Config {
        self.config
    }

    /// The JPEG reconstruction buffer of the session.
    pub closed spec fn spec_jpeg_buffer(&self) -> Seq<u8> {
        self.jpeg_buffer@
    }

    /// Start a session that subscribes to the given events.
    pub fn new(registered_events: &[Event]) -> (r: Self)
        ensures
            r.spec_flags() == spec_parse_events(registered_events@).0,
            r.spec_config() == spec_parse_events(registered_events@).1,
            r.spec_jpeg_buffer() == Seq::<u8>::empty(),
    {
        let (flags, config) = parse_events(registered_events);
        Session { flags, config, jpeg_buffer: Vec::new() }
    }

    /// The subscription mask of the session.
    pub fn flags(&self) -> (r: i32)
        ensures
            r == self.spec_flags(),
    {
        self.flags
    }

    /// The configuration of the session.
    pub fn config(&self) -> (r: Config)
        ensures
            r == self.spec_config(),
    {
        self.config
    }

    /// The JPEG reconstruction buffer of the session.
    pub fn jpeg_buffer(&self) -> (r: &[u8])
        ensures
            r@ == self.spec_jpeg_buffer(),
    {
        self.jpeg_buffer.as_slice()
    }

    /// Whether the session handles a status: success ends the session before
    /// any step, and the box and progression statuses are not handled.
    pub open spec fn handles(status: JxlDecoderStatus) -> bool {
        match status {
            JxlDecoderStatus::Error | JxlDecoderStatus::BasicInfo
            | JxlDecoderStatus::ColorEncoding | JxlDecoderStatus::PreviewImage
            | JxlDecoderStatus::Frame | JxlDecoderStatus::JPEGReconstruction
            | JxlDecoderStatus::JPEGNeedMoreOutput => true,
            _ => false,
        }
    }

    /// The action of a session with the given configuration on a status.
    pub open spec fn spec_step(config: Config, status: JxlDecoderStatus) -> Result<
        SessionAction,
        DecodeError,
    > {
        match status {
            JxlDecoderStatus::Error => Err(DecodeError::GenericError),
            JxlDecoderStatus::BasicInfo => Ok(SessionAction::ReadBasicInfo),
            JxlDecoderStatus::ColorEncoding => match config.color_profile {
                None => Err(
                    DecodeError::InternalError(
                        "Subscribe to color encoding event but without a color profile config!",
                    ),
                ),
                Some(c) => if c.icc_profile {
                    Ok(SessionAction::ReadIccProfile(c.target))
                } else {
                    Ok(SessionAction::ReadEncodedProfile(c.target))
                },
            },
            JxlDecoderStatus::PreviewImage => match config.preview {
                None => Err(
                    DecodeError::InternalError(
                        "Subscribe to preview image event but without a pixel format!",
                    ),
                ),
                Some(pf) => Ok(SessionAction::ReadPreviewImage(pf)),
            },
            JxlDecoderStatus::Frame => Ok(SessionAction::ReadFrame),
            JxlDecoderStatus::JPEGReconstruction => match config.jpeg_reconstruction {
                None => Err(
                    DecodeError::InternalError(
                        "Subscribe to JPEG reconstruction event but without a config!",
                    ),
                ),
                Some(_) => Ok(SessionAction::Continue),
            },
            _ => Ok(SessionAction::Continue),
        }
    }

    /// The JPEG buffer after the step on a status: sized to the configured
    /// initial size on JPEG reconstruction, grown by the `remaining` bytes the
    /// decoder still needs when it needs more output.
    pub open spec fn spec_buffer_after(
        config: Config,
        status: JxlDecoderStatus,
        buf: Seq<u8>,
        remaining: usize,
    ) -> Seq<u8> {
        match status {
            JxlDecoderStatus::JPEGReconstruction => match config.jpeg_reconstruction {
                Some(size) => resized(buf, size as int),
                None => buf,
            },
            JxlDecoderStatus::JPEGNeedMoreOutput => resized(buf, buf.len() + remaining),
            _ => buf,
        }
    }

    /// Take the step on a status the decoder reported; `remaining` is what the
    /// decoder reports when it releases the JPEG buffer (used on
    /// [`JxlDecoderStatus::JPEGNeedMoreOutput`] only).
    pub fn step(&mut self, status: JxlDecoderStatus, remaining: usize) -> (r: Result<
        SessionAction,
        DecodeError,
    >)
        requires
            Self::handles(status),
            status == JxlDecoderStatus::JPEGNeedMoreOutput ==> old(self).spec_jpeg_buffer().len()
                + remaining <= usize::MAX,
        ensures
            r == Self::spec_step(old(self).spec_config(), status),
            status == JxlDecoderStatus::ColorEncoding ==> match old(self).spec_config().color_profile {
                Some(c) => r == (if c.icc_profile {
                    Ok::<SessionAction, DecodeError>(SessionAction::ReadIccProfile(c.target))
                } else {
                    Ok::<SessionAction, DecodeError>(SessionAction::ReadEncodedProfile(c.target))
                }),
                None => r is Err,
            },
            status == JxlDecoderStatus::PreviewImage ==> match old(self).spec_config().preview {
                Some(pf) => r == Ok::<SessionAction, DecodeError>(
                    SessionAction::ReadPreviewImage(pf),
                ),
                None => r is Err,
            },
            status == JxlDecoderStatus::BasicInfo ==> r == Ok::<SessionAction, DecodeError>(
                SessionAction::ReadBasicInfo,
            ),
            status == JxlDecoderStatus::Frame ==> r == Ok::<SessionAction, DecodeError>(
                SessionAction::ReadFrame,
            ),
            status == JxlDecoderStatus::Error ==> r == Err::<SessionAction, DecodeError>(
                DecodeError::GenericError,
            ),
            final(self).spec_config() == old(self).spec_config(),
            final(self).spec_flags() == old(self).spec_flags(),
            final(self).spec_jpeg_buffer() == Self::spec_buffer_after(
                old(self).spec_config(),
                status,
                old(self).spec_jpeg_buffer(),
                remaining,
            ),
    {
        match status {
            JxlDecoderStatus::Error => Err(DecodeError::GenericError),
            JxlDecoderStatus::BasicInfo => Ok(SessionAction::ReadBasicInfo),
            JxlDecoderStatus::ColorEncoding => match self.config.color_profile {
                None => Err(
                    DecodeError::InternalError(
                        "Subscribe to color encoding event but without a color profile config!",
                    ),
                ),
                Some(c) => if c.icc_profile {
                    Ok(SessionAction::ReadIccProfile(c.target))
                } else {
                    Ok(SessionAction::ReadEncodedProfile(c.target))
                },
            },
            JxlDecoderStatus::PreviewImage => match self.config.preview {
                None => Err(
                    DecodeError::InternalError(
                        "Subscribe to preview image event but without a pixel format!",
                    ),
                ),
                Some(pf) => Ok(SessionAction::ReadPreviewImage(pf)),
            },
            JxlDecoderStatus::Frame => Ok(SessionAction::ReadFrame),
            JxlDecoderStatus::JPEGReconstruction => match self.config.jpeg_reconstruction {
                None => Err(
                    DecodeError::InternalError(
                        "Subscribe to JPEG reconstruction event but without a config!",
                    ),
                ),
                Some(size) => {
                    resize_bytes(&mut self.jpeg_buffer, size);
                    Ok(SessionAction::Continue)
                },
            },
            _ => {
                let n = self.jpeg_buffer.len() + remaining;
                resize_bytes(&mut self.jpeg_buffer, n);
                Ok(SessionAction::Continue)
            },
        }
    }

    /// A session reads what its events asked for. On the color encoding
    /// status it reads the profile of the target that the last color encoding
    /// event named, as an ICC profile when that event asked for one and as an
    /// encoded profile otherwise; on the preview status it reads the preview in
    /// the pixel format of the last preview event. A session with no event of
    /// that kind answers the status with an internal error.
    pub proof fn lemma_step_reads_subscribed(
        a: Seq<Event>,
        c: ColorEncodingConfig,
        pf: JxlPixelFormat,
        b: Seq<Event>,
    )
        ensures
            (forall|i: int| 0 <= i < b.len() ==> !((#[trigger] b[i]) is ColorEncoding)) ==> {
                let config = spec_parse_events(a.push(Event::ColorEncoding(c)) + b).1;
                &&& c.icc_profile ==> Self::spec_step(config, JxlDecoderStatus::ColorEncoding)
                    == Ok::<SessionAction, DecodeError>(SessionAction::ReadIccProfile(c.target))
                &&& !c.icc_profile ==> Self::spec_step(config, JxlDecoderStatus::ColorEncoding)
                    == Ok::<SessionAction, DecodeError>(
                    SessionAction::ReadEncodedProfile(c.target),
                )
            },
            (forall|i: int| 0 <= i < b.len() ==> !((#[trigger] b[i]) is PreviewImage))
                ==> Self::spec_step(
                spec_parse_events(a.push(Event::PreviewImage { pixel_format: pf }) + b).1,
                JxlDecoderStatus::PreviewImage,
            ) == Ok::<SessionAction, DecodeError>(SessionAction::ReadPreviewImage(pf)),
            (forall|i: int| 0 <= i < a.len() ==> !((#[trigger] a[i]) is ColorEncoding))
                ==> Self::spec_step(spec_parse_events(a).1, JxlDecoderStatus::ColorEncoding) is Err,
            (forall|i: int| 0 <= i < a.len() ==> !((#[trigger] a[i]) is PreviewImage))
                ==> Self::spec_step(spec_parse_events(a).1, JxlDecoderStatus::PreviewImage) is Err,
    {
        let ac = a.push(Event::ColorEncoding(c));
        let ap = a.push(Event::PreviewImage { pixel_format: pf });
        lemma_parse_events_config(ac, b);
        lemma_parse_events_config(ap, b);
        lemma_parse_events_config(a, Seq::<Event>::empty());
    }

    /// Whether the session is over after the decoder reported a status: the
    /// session ends on success, every other status is a step.
    pub fn is_finished(status: JxlDecoderStatus) -> (r: bool)
        ensures
            r == (status == JxlDecoderStatus::Success),
    {
        match status {
            JxlDecoderStatus::Success => true,
            _ => false,
        }
    }

    /// Size of the buffer for the name of a frame: its length plus the
    /// terminating nul.
    pub fn frame_name_buffer_len(name_length: u32) -> (r: usize)
        requires
            name_length < usize::MAX,
        ensures
            r == name_length + 1,
    {
        name_length as usize + 1
    }

    /// Check that a frame name buffer is a nul-terminated string: exactly one
    /// nul byte, at the end.
    pub fn check_frame_name(buffer: &[u8]) -> (r: Result<(), DecodeError>)
        ensures
            r is Ok <==> (buffer@.len() > 0 && buffer@.last() == 0u8 && forall|i: int|
                0 <= i < buffer@.len() - 1 ==> #[trigger] buffer@[i] != 0u8),
            r is Err ==> r == Err::<(), DecodeError>(
                DecodeError::InternalError("Invalid frame name"),
            ),
    {
        let n = buffer.len();
        if n == 0 || buffer[n - 1] != 0 {
            return Err(DecodeError::InternalError("Invalid frame name"));
        }
        let mut i: usize = 0;
        while i < n - 1
            invariant
                n == buffer@.len(),
                n > 0,
                i <= n - 1,
                forall|j: int| 0 <= j < i ==> #[trigger] buffer@[j] != 0u8,
            decreases n - 1 - i,
        {
            if buffer[i] == 0 {
                return Err(DecodeError::InternalError("Invalid frame name"));
            }
            i = i + 1;
        }
        Ok(())
    }
}

} // verus!
