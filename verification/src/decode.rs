//! The decoder adapter.
//!
//! Given a file path or an in-memory byte buffer, decode an image through a
//! general-purpose image library and reshape the outcome into a fixed form:
//! the raw pixel bytes, the `(height, width, channels)` shape, the pixel
//! element type and the color layout tag. Every failure of the underlying
//! decode collapses into the single [`DecodeError::DecodeFailure`]; a color
//! model outside the classification table degrades to the `unknown` row
//! instead of failing.
//!
//! Decoding from a buffer depends on the buffer's bytes alone in everything
//! the host machine does not set: whether it succeeds, the dimensions, the
//! color model, and — for the 8-bit rows — the pixel bytes themselves.
//! Those are pinned to the name [`decoded_of`]: the buffer operations
//! succeed if and only if the bytes decode, and equal buffers yield equal
//! metadata. The byte serialization of 16-bit samples follows the machine's
//! native byte order, so of it only the exact length is promised. Decoding
//! from a path goes through the filesystem, so there only the shape of
//! every possible outcome is promised.

use vstd::prelude::*;

use crate::color::ColorModel;
use crate::color::channel_count;
use crate::color::classify;
use crate::color::element_size;
use crate::color::element_tag;
use crate::color::layout_tag;
use image::GenericImageView;

verus! {

/// Declares `image::ColorType` to the verifier as an opaque type: the color
/// enum the outside library reports, converted below and never inspected by
/// verified code.
#[verifier::external_type_specification]
#[verifier::external_body]
pub struct ExColorType(image::ColorType);

/// Converts `image::ColorType` to the matching [`ColorModel`], one arm for
/// each of the ten variants that `image::DynamicImage::color` can report;
/// the hidden variant outside the table becomes `Other`.
#[verifier::external_body]
fn model_of(c: image::ColorType) -> ColorModel {
    match c {
        image::ColorType::L8 => ColorModel::L8,
        image::ColorType::La8 => ColorModel::La8,
        image::ColorType::Rgb8 => ColorModel::Rgb8,
        image::ColorType::Rgba8 => ColorModel::Rgba8,
        image::ColorType::L16 => ColorModel::L16,
        image::ColorType::La16 => ColorModel::La16,
        image::ColorType::Rgb16 => ColorModel::Rgb16,
        image::ColorType::Rgba16 => ColorModel::Rgba16,
        image::ColorType::Bgr8 => ColorModel::Bgr8,
        image::ColorType::Bgra8 => ColorModel::Bgra8,
        _ => ColorModel::Other,
    }
}

/// What decoding a byte buffer yields: `None` when the bytes are not a
/// decodable image, otherwise the width, height, color model and a pixel
/// byte sequence. Success, the dimensions and the model are functions of
/// the buffer's bytes alone — the format is guessed from magic bytes and
/// the decoded sample values are deterministic — and the trusted wrapper
/// below applies the name to them. The byte sequence is tied to the
/// wrapper's result only for the 8-bit rows: 16-bit samples serialize in
/// the machine's native byte order, so their byte cast is no function of
/// the input alone.
pub uninterp spec fn decoded_of(bytes: Seq<u8>) -> Option<(u32, u32, ColorModel, Seq<u8>)>;

/// Whether the bytes decode as a supported image.
pub open spec fn decodable(bytes: Seq<u8>) -> bool {
    decoded_of(bytes) is Some
}

/// The decoded parts of a decodable buffer; meaningless otherwise.
pub open spec fn decoded_parts(bytes: Seq<u8>) -> (u32, u32, ColorModel, Seq<u8>)
    recommends
        decodable(bytes),
{
    match decoded_of(bytes) {
        Some(p) => p,
        None => (0u32, 0u32, ColorModel::Other, Seq::<u8>::empty()),
    }
}

/// Width in pixels of the image a decodable buffer holds.
pub open spec fn decoded_width(bytes: Seq<u8>) -> u32 {
    decoded_parts(bytes).0
}

/// Height in pixels of the image a decodable buffer holds.
pub open spec fn decoded_height(bytes: Seq<u8>) -> u32 {
    decoded_parts(bytes).1
}

/// Color model of the image a decodable buffer holds.
pub open spec fn decoded_model(bytes: Seq<u8>) -> ColorModel {
    decoded_parts(bytes).2
}

/// The named pixel byte sequence of a decodable buffer. The decode
/// operations equate their result with it only for the 8-bit rows, where
/// the serialization does not depend on the machine's byte order.
pub open spec fn decoded_bytes(bytes: Seq<u8>) -> Seq<u8> {
    decoded_parts(bytes).3
}

/// Relies on `image::open` and, on its result, `GenericImageView::width`,
/// `GenericImageView::height`, `DynamicImage::color` and
/// `DynamicImage::to_bytes`: it reads the file at `path`, decodes it with
/// the format auto-detected, and hands out the plain parts; `None` on any
/// I/O or decode failure. The outcome depends on the filesystem, so success
/// is not promised; of every successful outcome the source shows that the
/// color model is one of the ten known rows and that the decoders allocate
/// the pixel buffer at exactly width × height × channels × element size.
#[verifier::external_body]
fn open_parts(path: &str) -> (r: Option<(u32, u32, ColorModel, Vec<u8>)>)
    ensures
        r matches Some(p) ==> {
            &&& p.2 != ColorModel::Other
            &&& p.3@.len() == p.0 * p.1 * channel_count(p.2) * element_size(p.2)
        },
{
    match image::open(path) {
        Ok(img) => Some((img.width(), img.height(), model_of(img.color()), img.to_bytes())),
        Err(_) => None,
    }
}

/// Relies on `image::load_from_memory` and, on its result, the same four
/// accessors as [`open_parts`]: it decodes an image from in-memory bytes,
/// the format guessed from the content, and hands out the plain parts;
/// `None` exactly when the bytes do not decode. Success, the dimensions
/// and the model depend on the buffer's bytes alone, so they equal the
/// named [`decoded_of`]; the pixel bytes equal the name only for the
/// 8-bit rows, since 16-bit samples serialize in the machine's native
/// byte order. As above, the model is one of the ten known rows and the
/// pixel buffer's length is exactly width × height × channels × element
/// size.
#[verifier::external_body]
fn load_parts(buffer: &[u8]) -> (r: Option<(u32, u32, ColorModel, Vec<u8>)>)
    ensures
        r is Some <==> decoded_of(buffer@) is Some,
        r matches Some(p) ==> {
            &&& p.0 == decoded_width(buffer@)
            &&& p.1 == decoded_height(buffer@)
            &&& p.2 == decoded_model(buffer@)
            &&& (element_size(p.2) == 1 ==> p.3@ == decoded_bytes(buffer@))
            &&& p.2 != ColorModel::Other
            &&& p.3@.len() == p.0 * p.1 * channel_count(p.2) * element_size(p.2)
        },
{
    match image::load_from_memory(buffer) {
        Ok(img) => Some((img.width(), img.height(), model_of(img.color()), img.to_bytes())),
        Err(_) => None,
    }
}

/// One decoded image: the raw pixel bytes together with the shape and
/// format metadata the classification table assigns to its color model.
#[derive(PartialEq, Debug)]
pub struct DecodedImage {
    /// Width in pixels.
    pub width: u32,
    /// Height in pixels.
    pub height: u32,
    /// Channel count: 1 to 4, or 0 for a model outside the table.
    pub channels: u32,
    /// Pixel element type: `"u8"`, `"u16"` or `"unknown"`.
    pub element: &'static str,
    /// Color layout tag: `"l"`, `"la"`, `"rgb"`, `"rgba"`, `"bgr"`,
    /// `"bgra"` or `"unknown"`.
    pub layout: &'static str,
    /// The pixel buffer, flat, in the decoder's native row-major order.
    pub bytes: Vec<u8>,
}

impl DecodedImage {
    /// The metadata fields agree with the classification table's row for
    /// the color model `m`.
    pub open spec fn matches_model(self, m: ColorModel) -> bool {
        &&& self.channels == channel_count(m)
        &&& self.element@ == element_tag(m)
        &&& self.layout@ == layout_tag(m)
    }

    /// The byte budget of the table row for `m`: inside the table the pixel
    /// buffer holds exactly width × height × channels × element size bytes;
    /// outside the table the byte sequence is unconstrained.
    pub open spec fn sized_for(self, m: ColorModel) -> bool {
        channel_count(m) > 0 ==> self.bytes@.len() == self.width * self.height
            * channel_count(m) * element_size(m)
    }

    /// Well-formed: the metadata agrees with some row of the classification
    /// table and the pixel buffer has that row's exact byte budget, so the
    /// channel count, element type and byte length can never contradict the
    /// layout tag.
    pub open spec fn wf(self) -> bool {
        exists|m: ColorModel| #[trigger] self.matches_model(m) && self.sized_for(m)
    }

    /// Assemble a decoded image from the values the decoder handed out: the
    /// pixel bytes pass through untouched, and the metadata is the table's
    /// row for `m`. Well-formedness follows whenever the bytes fit the
    /// row's byte budget, as every decoder outcome does.
    pub fn from_parts(m: ColorModel, width: u32, height: u32, bytes: Vec<u8>) -> (r: DecodedImage)
        ensures
            r.width == width,
            r.height == height,
            r.bytes@ == bytes@,
            r.matches_model(m),
            r.sized_for(m) ==> r.wf(),
    {
        let (channels, layout, element) = classify(m);
        let r = DecodedImage { width, height, channels, element, layout, bytes };
        proof {
            assert(r.matches_model(m));
        }
        r
    }

    /// The shape tuple, in `(height, width, channels)` order.
    pub fn shape(&self) -> (r: (u32, u32, u32))
        ensures
            r.0 == self.height,
            r.1 == self.width,
            r.2 == self.channels,
    {
        (self.height, self.width, self.channels)
    }

    /// Serialize into the exported 4-tuple: pixel bytes, shape in
    /// `(height, width, channels)` order, element type, layout tag.
    pub fn into_tuple(self) -> (r: (Vec<u8>, (u32, u32, u32), &'static str, &'static str))
        ensures
            r.0@ == self.bytes@,
            r.1.0 == self.height,
            r.1.1 == self.width,
            r.1.2 == self.channels,
            r.2@ == self.element@,
            r.3@ == self.layout@,
    {
        (self.bytes, (self.height, self.width, self.channels), self.element, self.layout)
    }
}

/// A well-formed decoded image's channel count stays consistent with its
/// layout tag: whichever color model the layout tag belongs to, the channel
/// count is that model's table row. The channel count can therefore never
/// contradict the layout tag, even when two models share a tag.
pub proof fn lemma_wf_channels_match_layout(d: DecodedImage, m: ColorModel)
    requires
        d.wf(),
        d.layout@ == layout_tag(m),
    ensures
        d.channels == channel_count(m),
{
    let m0 = choose|m0: ColorModel| d.matches_model(m0) && d.sized_for(m0);
    crate::color::lemma_layout_determines_channels(m0, m);
}

/// The single undifferentiated decode failure: a bad path, an unreadable
/// file, corrupt or unsupported bytes all collapse into it.
#[derive(Clone, Copy, PartialEq, Eq, Structural, Debug)]
pub enum DecodeError {
    DecodeFailure,
}

/// The one error string that crosses the boundary on failure.
pub open spec fn failure_message() -> Seq<char> {
    "cannot decode image"@
}

impl DecodeError {
    /// The collapsed error string; every failure carries exactly this text.
    pub fn message(&self) -> (r: &'static str)
        ensures
            r@ == failure_message(),
    {
        "cannot decode image"
    }
}

/// Decode the image file at `path`, the format auto-detected. Whatever the
/// decoder returns, the result is well-formed — a table row with its exact
/// byte budget; any failure — missing file, I/O error, unsupported or
/// corrupt format — is the single [`DecodeError::DecodeFailure`]. Success
/// depends on the filesystem and is not promised.
pub fn decode_from_path(path: &str) -> (r: Result<DecodedImage, DecodeError>)
    ensures
        r matches Ok(d) ==> d.wf(),
        r matches Err(e) ==> e == DecodeError::DecodeFailure,
{
    match open_parts(path) {
        Some((width, height, model, bytes)) => {
            let d = DecodedImage::from_parts(model, width, height, bytes);
            proof {
                assert(d.sized_for(model));
            }
            Ok(d)
        },
        None => Err(DecodeError::DecodeFailure),
    }
}

/// Decode an image from the in-memory bytes of an image file, the format
/// guessed from the content. Succeeds if and only if the bytes decode;
/// the dimensions and the table row are exactly those the buffer's bytes
/// name, so equal buffers yield equal metadata, with no state between
/// calls; the pixel bytes equal the named sequence for the 8-bit rows and
/// keep the row's exact byte budget for every row.
pub fn decode_from_buffer(buffer: &[u8]) -> (r: Result<DecodedImage, DecodeError>)
    ensures
        r is Ok <==> decodable(buffer@),
        r matches Ok(d) ==> ({
            &&& d.width == decoded_width(buffer@)
            &&& d.height == decoded_height(buffer@)
            &&& (element_size(decoded_model(buffer@)) == 1 ==> d.bytes@ == decoded_bytes(
                buffer@,
            ))
            &&& d.matches_model(decoded_model(buffer@))
            &&& d.sized_for(decoded_model(buffer@))
            &&& decoded_model(buffer@) != ColorModel::Other
            &&& d.wf()
        }),
        r matches Err(e) ==> e == DecodeError::DecodeFailure,
{
    match load_parts(buffer) {
        Some((width, height, model, bytes)) => {
            let d = DecodedImage::from_parts(model, width, height, bytes);
            proof {
                assert(d.sized_for(model));
            }
            Ok(d)
        },
        None => Err(DecodeError::DecodeFailure),
    }
}

/// The exported 4-tuple's metadata agrees with the classification table's
/// row for some color model, with the shape in `(height, width, channels)`
/// order; inside the table the byte sequence has the row's exact byte
/// budget.
pub open spec fn tuple_wf(t: (Vec<u8>, (u32, u32, u32), &'static str, &'static str)) -> bool {
    exists|m: ColorModel|
        {
            &&& t.1.2 == #[trigger] channel_count(m)
            &&& t.2@ == element_tag(m)
            &&& t.3@ == layout_tag(m)
            &&& (channel_count(m) > 0 ==> t.0@.len() == t.1.1 * t.1.0 * channel_count(m)
                * element_size(m))
        }
}

/// Exported entry point: decode the image file at `filename` and serialize
/// the outcome. On failure the result is the fixed string of
/// [`failure_message`], nothing else.
pub fn from_file(filename: &str) -> (r: Result<
    (Vec<u8>, (u32, u32, u32), &'static str, &'static str),
    &'static str,
>)
    ensures
        r matches Ok(t) ==> tuple_wf(t),
        r matches Err(e) ==> e@ == failure_message(),
{
    match decode_from_path(filename) {
        Ok(d) => {
            let ghost m = choose|m: ColorModel| d.matches_model(m) && d.sized_for(m);
            let t = d.into_tuple();
            proof {
                assert(t.1.2 == channel_count(m));
            }
            Ok(t)
        },
        Err(_) => Err("cannot decode image"),
    }
}

/// Exported entry point: decode an image from in-memory bytes and serialize
/// the outcome. Succeeds if and only if the bytes decode; the shape and
/// format metadata are exactly those the buffer's bytes name, the pixel
/// bytes equal the named sequence for the 8-bit rows and keep the row's
/// exact byte budget for every row; on failure the result is the fixed
/// string of [`failure_message`], nothing else.
pub fn from_memory(buffer: &[u8]) -> (r: Result<
    (Vec<u8>, (u32, u32, u32), &'static str, &'static str),
    &'static str,
>)
    ensures
        r is Ok <==> decodable(buffer@),
        r matches Ok(t) ==> ({
            &&& (element_size(decoded_model(buffer@)) == 1 ==> t.0@ == decoded_bytes(buffer@))
            &&& t.1.0 == decoded_height(buffer@)
            &&& t.1.1 == decoded_width(buffer@)
            &&& t.1.2 == channel_count(decoded_model(buffer@))
            &&& t.2@ == element_tag(decoded_model(buffer@))
            &&& t.3@ == layout_tag(decoded_model(buffer@))
            &&& decoded_model(buffer@) != ColorModel::Other
            &&& t.0@.len() == t.1.1 * t.1.0 * t.1.2 * element_size(decoded_model(buffer@))
            &&& tuple_wf(t)
        }),
        r matches Err(e) ==> e@ == failure_message(),
{
    match decode_from_buffer(buffer) {
        Ok(d) => {
            let ghost m = decoded_model(buffer@);
            let t = d.into_tuple();
            proof {
                assert(t.1.2 == channel_count(m));
            }
            Ok(t)
        },
        Err(_) => Err("cannot decode image"),
    }
}

} // verus!
