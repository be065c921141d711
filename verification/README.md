# jpegxl-rs (verified core)

The verified part of a JPEG XL codec wrapper, written in Verus.

`src/` holds, with contracts proved by Verus:

- `types`, `color`, `metadata`: the data types of the codec interface
  (statuses, pixel formats, orientation, layer and blending info), with the
  integer codes the interface uses and the laws that relate codes and values.
- `common`: the `PixelType` trait and the conversion of decoded bytes into
  `u8` and `u16` samples (the byte reading goes through `byteorder`).
- `errors`: decoder and encoder errors and the mapping of statuses to them.
- `utils`: the check of the JPEG XL signature (bare codestream or container).
- `decode`: decoder settings and their builder, the options handed to the
  codec, the subscription mask, the choice of the output pixel format, the
  metadata of a decoded image, the step a decoding run takes on each
  status (with the JPEG reconstruction buffer), and decoding sessions.
- `encode`: encoder settings and their builder, status mapping, the basic
  info set up for an image, metadata boxes, the output buffer growth (with
  the law that the output does not depend on the initial buffer size), and
  frames with their headers.
- `image`: which in-memory image layout a decoded buffer fits.

`app/` holds what the library cannot: the error types with their messages
(`thiserror`), and the floating point samples (`f32`, `half::f16`) with the
decoded results that carry them.

The native codec (`libjxl`) is not part of this crate: the functions here
take what it reports (statuses, sizes) as arguments and return what the
driver does next.
