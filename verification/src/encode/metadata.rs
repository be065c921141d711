//! Metadata boxes the encoder can add.

use vstd::prelude::*;

use crate::types::JxlBoxType;

verus! {

/// Metadata box.
pub enum Metadata<'d> {
    /// EXIF. The contents must be prepended by a 4-byte tiff header offset,
    /// which may be 4 zero bytes in case the tiff header follows immediately.
    Exif(&'d [u8]),
    /// XMP/IPTC metadata.
    Xmp(&'d [u8]),
    /// JUMBF superbox.
    Jumb(&'d [u8]),
    /// Custom metadata. The type should not start with `jxl` or `JXL`, nor
    /// conflict with other box types.
    Custom([u8; 4], &'d [u8]),
}

impl<'d> Metadata<'d> {
    /// The four-character box type and the contents of a metadata box:
    /// `Exif`, `xml `, `jumb`, or the custom type.
    pub open spec fn spec_box(&self) -> (Seq<u8>, Seq<u8>) {
        match self {
            Metadata::Exif(data) => (seq![0x45u8, 0x78, 0x69, 0x66], data@),
            Metadata::Xmp(data) => (seq![0x78u8, 0x6d, 0x6c, 0x20], data@),
            Metadata::Jumb(data) => (seq![0x6au8, 0x75, 0x6d, 0x62], data@),
            Metadata::Custom(t, data) => (t@, data@),
        }
    }

    /// The box type and the contents of the metadata box.
    pub fn box_contents(&self) -> (r: ([u8; 4], &'d [u8]))
        ensures
            r.0@ == self.spec_box().0,
            r.1@ == self.spec_box().1,
    {
        match self {
            Metadata::Exif(data) => {
                let t: [u8; 4] = [0x45u8, 0x78, 0x69, 0x66];
                assert(t@ =~= seq![0x45u8, 0x78, 0x69, 0x66]);
                (t, *data)
            },
            Metadata::Xmp(data) => {
                let t: [u8; 4] = [0x78u8, 0x6d, 0x6c, 0x20];
                assert(t@ =~= seq![0x78u8, 0x6d, 0x6c, 0x20]);
                (t, *data)
            },
            Metadata::Jumb(data) => {
                let t: [u8; 4] = [0x6au8, 0x75, 0x6d, 0x62];
                assert(t@ =~= seq![0x6au8, 0x75, 0x6d, 0x62]);
                (t, *data)
            },
            Metadata::Custom(t, data) => (*t, *data),
        }
    }

    /// The box type value of four type bytes.
    pub fn box_type(t: [u8; 4]) -> (r: JxlBoxType)
        ensures
            r.0 == t,
    {
        JxlBoxType(t)
    }
}

} // verus!
