//! Events a decoding session subscribes to, and how a list of them becomes
//! the subscription mask and the session configuration.

use vstd::prelude::*;

use crate::decode::session::{ColorEncodingConfig, Config};
use crate::types::{JxlColorProfileTarget, JxlDecoderStatus, JxlPixelFormat};

verus! {

/// Target of the color profile.
pub type ColorProfileTarget = JxlColorProfileTarget;

/// Events that can be subscribed to.
#[derive(Debug, Clone, Copy, PartialEq, Eq, Structural)]
pub enum Event {
    /// Basic information.
    BasicInfo,
    /// Color encoding.
    ColorEncoding(ColorEncodingConfig),
    /// Preview image.
    PreviewImage {
        /// Pixel format.
        pixel_format: JxlPixelFormat,
    },
    /// JPEG reconstruction.
    JpegReconstruction {
        /// Initial buffer size. Increase it to reduce the number of reallocations.
        init_buffer_size: usize,
    },
}

/// The subscription bit of an event.
pub open spec fn spec_event_flag(e: Event) -> i32 {
    match e {
        Event::BasicInfo => 0x40,
        Event::ColorEncoding(_) => 0x100,
        Event::PreviewImage { .. } => 0x200,
        Event::JpegReconstruction { .. } => 0x2000,
    }
}

impl From<Event> for i32 {
    fn from(value: Event) -> (r: Self) {
        match value {
            Event::BasicInfo => 0x40,
            Event::ColorEncoding(_) => 0x100,
            Event::PreviewImage { .. } => 0x200,
            Event::JpegReconstruction { .. } => 0x2000,
        }
    }
}

impl vstd::std_specs::convert::FromSpecImpl<Event> for i32 {
    open spec fn obeys_from_spec() -> bool {
        true
    }

    open spec fn from_spec(e: Event) -> Self {
        spec_event_flag(e)
    }
}

/// The configuration with no event-specific setting.
pub open spec fn empty_config() -> Config {
    Config { color_profile: None, preview: None, frame: None, jpeg_reconstruction: None }
}

/// The subscription mask and the configuration of a list of events, folded
/// from the first to the last: the mask is the union of the events' bits;
/// a color encoding event sets the color profile configuration, a preview
/// event the preview pixel format, a JPEG reconstruction event the initial
/// size of the JPEG buffer, so that the last event of each kind decides.
pub open spec fn spec_parse_events(events: Seq<Event>) -> (i32, Config)
    decreases events.len(),
{
    if events.len() == 0 {
        (0i32, empty_config())
    } else {
        let (flag, config) = spec_parse_events(events.drop_last());
        let x = events.last();
        (
            flag | spec_event_flag(x),
            match x {
                Event::ColorEncoding(val) => Config { color_profile: Some(val), ..config },
                Event::PreviewImage { pixel_format } => Config {
                    preview: Some(pixel_format),
                    ..config
                },
                Event::JpegReconstruction { init_buffer_size } => Config {
                    jpeg_reconstruction: Some(init_buffer_size),
                    ..config
                },
                Event::BasicInfo => config,
            },
        )
    }
}

/// Fold a list of events into the subscription mask and the configuration.
pub fn parse_events(events: &[Event]) -> (r: (i32, Config))
    ensures
        r == spec_parse_events(events@),
{
    let mut flag: i32 = 0;
    let mut config = Config::default();
    let mut i: usize = 0;
    while i < events.len()
        invariant
            i <= events@.len(),
            (flag, config) == spec_parse_events(events@.subrange(0, i as int)),
        decreases events@.len() - i,
    {
        let x = events[i];
        proof {
            assert(events@.subrange(0, i + 1).drop_last() =~= events@.subrange(0, i as int));
        }
        flag = flag | i32::from(x);
        match x {
            Event::ColorEncoding(val) => {
                config.color_profile = Some(val);
            },
            Event::PreviewImage { pixel_format } => {
                config.preview = Some(pixel_format);
            },
            Event::JpegReconstruction { init_buffer_size } => {
                config.jpeg_reconstruction = Some(init_buffer_size);
            },
            Event::BasicInfo => {},
        }
        i = i + 1;
    }
    proof {
        assert(events@.subrange(0, events@.len() as int) =~= events@);
    }
    (flag, config)
}

/// The subscription bit of an event is the code of the decoder status that
/// reports it, and so the session's step on that status is the one that
/// answers the event.
pub proof fn lemma_event_flag_status(e: Event)
    ensures
        e is BasicInfo ==> spec_event_flag(e) == JxlDecoderStatus::BasicInfo.spec_code(),
        e is ColorEncoding ==> spec_event_flag(e) == JxlDecoderStatus::ColorEncoding.spec_code(),
        e is PreviewImage ==> spec_event_flag(e) == JxlDecoderStatus::PreviewImage.spec_code(),
        e is JpegReconstruction ==> spec_event_flag(e)
            == JxlDecoderStatus::JPEGReconstruction.spec_code(),
{
}

/// Every subscription bit is a single bit, among the four event bits.
pub open spec fn is_event_mask(m: i32) -> bool {
    m & !(0x40i32 | 0x100i32 | 0x200i32 | 0x2000i32) == 0
}

/// The mask of a list of events holds exactly the bits of its events: each
/// event's bit is in it, no bit besides the event bits is, and the mask of
/// two lists one after the other is the union of their masks. The frame
/// setting stays unset.
pub proof fn lemma_parse_events(a: Seq<Event>, b: Seq<Event>)
    ensures
        forall|i: int|
            0 <= i < a.len() ==> #[trigger] (spec_parse_events(a).0 & spec_event_flag(a[i]))
                == spec_event_flag(a[i]),
        is_event_mask(spec_parse_events(a).0),
        spec_parse_events(a + b).0 == spec_parse_events(a).0 | spec_parse_events(b).0,
        spec_parse_events(a).1.frame is None,
    decreases a.len() + b.len(),
{
    if a.len() > 0 {
        lemma_parse_events(a.drop_last(), b);
        let f = spec_parse_events(a.drop_last()).0;
        let g = spec_event_flag(a.last());
        assert forall|i: int| 0 <= i < a.len() implies #[trigger] (spec_parse_events(a).0
            & spec_event_flag(a[i])) == spec_event_flag(a[i]) by {
            let h = spec_event_flag(a[i]);
            if i < a.len() - 1 {
                assert(a.drop_last()[i] == a[i]);
                assert((f & h) == h ==> ((f | g) & h) == h) by (bit_vector);
            } else {
                assert(((f | g) & g) == g) by (bit_vector);
            }
        }
        assert(is_event_mask(f | g)) by {
            let m = !(0x40i32 | 0x100i32 | 0x200i32 | 0x2000i32);
            assert(g == 0x40 || g == 0x100 || g == 0x200 || g == 0x2000);
            assert((f & m) == 0 && (g == 0x40i32 || g == 0x100i32 || g == 0x200i32 || g
                == 0x2000i32) ==> ((f | g) & m) == 0) by (bit_vector)
                requires
                    m == !(0x40i32 | 0x100i32 | 0x200i32 | 0x2000i32),
            ;
        }
    } else {
        assert(0i32 & !(0x40i32 | 0x100i32 | 0x200i32 | 0x2000i32) == 0i32) by (bit_vector);
    }
    lemma_parse_events_concat(a, b);
}

/// The settings of a list of events are those of its last event of each
/// kind: an event of one kind sets its setting; events of other kinds leave
/// it as it was; with no event of a kind, its setting is unset.
pub proof fn lemma_parse_events_config(a: Seq<Event>, b: Seq<Event>)
    ensures
        a.len() > 0 ==> (match a.last() {
            Event::ColorEncoding(c) => spec_parse_events(a).1.color_profile == Some(c),
            Event::PreviewImage { pixel_format } => spec_parse_events(a).1.preview == Some(
                pixel_format,
            ),
            Event::JpegReconstruction { init_buffer_size } => spec_parse_events(
                a,
            ).1.jpeg_reconstruction == Some(init_buffer_size),
            Event::BasicInfo => true,
        }),
        (forall|i: int| 0 <= i < b.len() ==> !((#[trigger] b[i]) is ColorEncoding))
            ==> spec_parse_events(a + b).1.color_profile == spec_parse_events(a).1.color_profile,
        (forall|i: int| 0 <= i < b.len() ==> !((#[trigger] b[i]) is PreviewImage))
            ==> spec_parse_events(a + b).1.preview == spec_parse_events(a).1.preview,
        (forall|i: int| 0 <= i < b.len() ==> !((#[trigger] b[i]) is JpegReconstruction))
            ==> spec_parse_events(a + b).1.jpeg_reconstruction == spec_parse_events(
            a,
        ).1.jpeg_reconstruction,
        (forall|i: int| 0 <= i < a.len() ==> !((#[trigger] a[i]) is ColorEncoding))
            ==> spec_parse_events(a).1.color_profile is None,
        (forall|i: int| 0 <= i < a.len() ==> !((#[trigger] a[i]) is PreviewImage))
            ==> spec_parse_events(a).1.preview is None,
        (forall|i: int| 0 <= i < a.len() ==> !((#[trigger] a[i]) is JpegReconstruction))
            ==> spec_parse_events(a).1.jpeg_reconstruction is None,
    decreases b.len(),
{
    if b.len() == 0 {
        assert(a + b =~= a);
    } else {
        let bb = b.drop_last();
        lemma_parse_events_config(a, bb);
        assert((a + b).drop_last() =~= a + bb);
        assert((a + b).last() == b.last());
        assert(b.last() == b[b.len() - 1]);
        assert forall|i: int| 0 <= i < bb.len() implies bb[i] == b[i] by {}
    }
    lemma_parse_events_config_none(a);
}

/// With no event of a kind, its setting is unset.
proof fn lemma_parse_events_config_none(a: Seq<Event>)
    ensures
        (forall|i: int| 0 <= i < a.len() ==> !((#[trigger] a[i]) is ColorEncoding))
            ==> spec_parse_events(a).1.color_profile is None,
        (forall|i: int| 0 <= i < a.len() ==> !((#[trigger] a[i]) is PreviewImage))
            ==> spec_parse_events(a).1.preview is None,
        (forall|i: int| 0 <= i < a.len() ==> !((#[trigger] a[i]) is JpegReconstruction))
            ==> spec_parse_events(a).1.jpeg_reconstruction is None,
    decreases a.len(),
{
    if a.len() > 0 {
        let aa = a.drop_last();
        lemma_parse_events_config_none(aa);
        assert forall|i: int| 0 <= i < aa.len() implies aa[i] == a[i] by {}
        assert(a.last() == a[a.len() - 1]);
    }
}

/// The mask of two lists of events one after the other is the union of
/// their masks.
proof fn lemma_parse_events_concat(a: Seq<Event>, b: Seq<Event>)
    ensures
        spec_parse_events(a + b).0 == spec_parse_events(a).0 | spec_parse_events(b).0,
    decreases b.len(),
{
    if b.len() == 0 {
        assert(a + b =~= a);
        let x = spec_parse_events(a).0;
        assert(x | 0i32 == x) by (bit_vector);
    } else {
        lemma_parse_events_concat(a, b.drop_last());
        assert((a + b).drop_last() =~= a + b.drop_last());
        assert((a + b).last() == b.last());
        let x = spec_parse_events(a).0;
        let y = spec_parse_events(b.drop_last()).0;
        let z = spec_event_flag(b.last());
        assert((x | y) | z == x | (y | z)) by (bit_vector);
    }
}

} // verus!
