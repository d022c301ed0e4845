//! The screenshot value object and its image codec.
//!
//! A [`Screenshot`] holds decoded pixel bytes together with the dimensions,
//! the color layout, and a provenance tag that records whether the bytes came
//! from a GPU read-back (rows padded to the copy alignment) or from a decoded
//! image file (rows tightly packed). The codec encodes a screenshot into a
//! PNG byte stream, stripping row padding, and decodes such a stream back
//! into a tightly packed screenshot.

use std::io::Cursor;
use vstd::prelude::*;

verus! {

use crate::rendering::alignment::{spec_padded_stride, ROW_COPY_ALIGNMENT};
use vstd::arithmetic::div_mod::lemma_fundamental_div_mod_converse;
use vstd::arithmetic::mul::{lemma_mul_inequality, lemma_mul_is_commutative};
use vstd::pervasive::unreached;

/// Pixel encoding of a screenshot's payload.
#[derive(Clone, Copy, Debug, PartialEq, Eq, Structural)]
pub enum ColorType {
    /// Four bytes per pixel: red, green, blue, alpha.
    Rgba,
    /// Three bytes per pixel: red, green, blue.
    Rgb,
}

/// Where a screenshot's payload bytes came from.
///
/// The source decides the row layout of the payload: GPU read-backs pad each
/// row to the copy alignment, decoded image files pack rows tightly.
#[derive(Clone, Copy, Debug, PartialEq, Eq, Structural)]
pub enum ByteSource {
    /// The payload was read back from a GPU compositor; rows are padded.
    WGPU,
    /// The payload came from a PNG file or stream; rows are tightly packed.
    Png,
}

/// How many bytes one pixel occupies under `color`.
pub open spec fn bytes_per_pixel_spec(color: ColorType) -> nat {
    match color {
        ColorType::Rgba => 4,
        ColorType::Rgb => 3,
    }
}

/// Executable twin of [`bytes_per_pixel_spec`].
pub fn bytes_per_pixel(color: ColorType) -> (r: usize)
    ensures
        r == bytes_per_pixel_spec(color),
{
    match color {
        ColorType::Rgba => 4,
        ColorType::Rgb => 3,
    }
}

/// The mathematical value of a [`Screenshot`].
#[verifier::ext_equal]
pub ghost struct ScreenshotView {
    /// The pixel bytes, laid out row by row.
    pub payload: Seq<u8>,
    /// Width in pixels.
    pub width: nat,
    /// Height in pixels.
    pub height: nat,
    /// Pixel encoding of the payload.
    pub color: ColorType,
    /// Provenance of the payload bytes.
    pub source: ByteSource,
}

impl ScreenshotView {
    /// Bytes of actual pixel data in one row.
    pub open spec fn row_bytes(self) -> nat {
        self.width * bytes_per_pixel_spec(self.color)
    }

    /// Bytes from the start of one stored row to the start of the next:
    /// tightly packed for decoded images, padded to the GPU copy alignment
    /// for GPU read-backs.
    pub open spec fn stored_stride(self) -> nat {
        match self.source {
            ByteSource::Png => self.row_bytes(),
            ByteSource::WGPU => spec_padded_stride(
                self.width,
                bytes_per_pixel_spec(self.color),
                ROW_COPY_ALIGNMENT as nat,
            ),
        }
    }

    /// The payload holds exactly `height` stored rows.
    pub open spec fn wf(self) -> bool {
        self.payload.len() == self.height * self.stored_stride()
    }
}

/// The payload with all row padding stripped: `height` rows of exactly
/// `row_bytes` pixel bytes each, taken from the front of each stored row.
pub open spec fn packed_payload(v: ScreenshotView) -> Seq<u8> {
    Seq::new(
        v.height * v.row_bytes(),
        |i: int|
            v.payload[(i / v.row_bytes() as int) * v.stored_stride() as int + i % v.row_bytes() as int],
    )
}

/// A single screen capture.
#[derive(Clone, Debug)]
pub struct Screenshot {
    /// Raw pixel bytes, laid out as `source_encoding` dictates.
    payload: Vec<u8>,
    /// Width of the image in pixels.
    width: usize,
    /// Height of the image in pixels.
    height: usize,
    /// Pixel encoding of the payload.
    color_encoding: ColorType,
    /// Provenance of the payload bytes.
    source_encoding: ByteSource,
}

impl View for Screenshot {
    type V = ScreenshotView;

    closed spec fn view(&self) -> ScreenshotView {
        ScreenshotView {
            payload: self.payload@,
            width: self.width as nat,
            height: self.height as nat,
            color: self.color_encoding,
            source: self.source_encoding,
        }
    }
}

/// Byte-for-byte equality of two vectors.
fn bytes_eq(a: &Vec<u8>, b: &Vec<u8>) -> (r: bool)
    ensures
        r == (a@ == b@),
{
    if a.len() != b.len() {
        return false;
    }
    let mut i: usize = 0;
    while i < a.len()
        invariant
            i <= a@.len(),
            a@.len() == b@.len(),
            forall|j: int| 0 <= j < i ==> a@[j] == b@[j],
        decreases a@.len() - i,
    {
        if a[i] != b[i] {
            return false;
        }
        i += 1;
    }
    proof {
        assert(a@ =~= b@);
    }
    true
}

impl PartialEq for Screenshot {
    /// Structural equality: payload bytes, dimensions, color layout and
    /// provenance must all agree. Two screenshots of equal visual content
    /// but different provenance are not equal.
    fn eq(&self, other: &Self) -> (r: bool) {
        let r = bytes_eq(&self.payload, &other.payload) && self.width == other.width
            && self.height == other.height && self.color_encoding == other.color_encoding
            && self.source_encoding == other.source_encoding;
        proof {
            if r {
                assert(self@ =~= other@);
            }
        }
        r
    }
}

impl vstd::std_specs::cmp::PartialEqSpecImpl for Screenshot {
    open spec fn obeys_eq_spec() -> bool {
        true
    }

    open spec fn eq_spec(&self, other: &Self) -> bool {
        self@ == other@
    }
}

impl Screenshot {
    /// Creates a new [`Screenshot`] from raw GPU read-back bytes.
    ///
    /// The payload is tagged as a GPU read-back with four bytes per pixel;
    /// use [`Screenshot::color_encoding`] to change the color layout.
    pub fn new(payload: Vec<u8>, width: usize, height: usize) -> (r: Self)
        ensures
            (r@ == ScreenshotView {
                payload: payload@,
                width: width as nat,
                height: height as nat,
                color: ColorType::Rgba,
                source: ByteSource::WGPU,
            }),
    {
        let r = Self {
            payload,
            width,
            height,
            color_encoding: ColorType::Rgba,
            source_encoding: ByteSource::WGPU,
        };
        proof {
            assert(r@ =~= (ScreenshotView {
                payload: r.payload@,
                width: width as nat,
                height: height as nat,
                color: ColorType::Rgba,
                source: ByteSource::WGPU,
            }));
        }
        r
    }

    /// Replaces the color layout tag, leaving everything else unchanged.
    pub fn color_encoding(self, color_type: ColorType) -> (r: Self)
        ensures
            (r@ == ScreenshotView { color: color_type, ..self@ }),
    {
        let r = Self { color_encoding: color_type, ..self };
        proof {
            assert(r@ =~= (ScreenshotView { color: color_type, ..self@ }));
        }
        r
    }

    /// Width of the image in pixels.
    pub fn width(&self) -> (r: usize)
        ensures
            r == self@.width,
    {
        self.width
    }

    /// Height of the image in pixels.
    pub fn height(&self) -> (r: usize)
        ensures
            r == self@.height,
    {
        self.height
    }

    /// The color layout of the payload.
    pub fn color_layout(&self) -> (r: ColorType)
        ensures
            r == self@.color,
    {
        self.color_encoding
    }

    /// The provenance of the payload bytes.
    pub fn byte_source(&self) -> (r: ByteSource)
        ensures
            r == self@.source,
    {
        self.source_encoding
    }

    /// The raw payload bytes.
    pub fn payload_bytes(&self) -> (r: &Vec<u8>)
        ensures
            r@ == self@.payload,
    {
        &self.payload
    }

    /// Copies the payload into a tightly packed byte vector, dropping the
    /// row padding that the stored layout carries.
    fn packed_of(&self) -> (r: Vec<u8>)
        requires
            self@.wf(),
        ensures
            r@ == packed_payload(self@),
    {
        let ghost v = self@;
        if self.width == 0 || self.height == 0 {
            let r: Vec<u8> = Vec::new();
            proof {
                assert(v.height * v.row_bytes() == 0) by (nonlinear_arith)
                    requires
                        v.width == 0 || v.height == 0,
                        v.row_bytes() == v.width * bytes_per_pixel_spec(v.color),
                ;
                assert(r@ =~= packed_payload(v));
            }
            return r;
        }
        proof {
            assert(v.stored_stride() <= v.payload.len() && v.row_bytes() <= v.stored_stride())
                by (nonlinear_arith)
                requires
                    1 <= v.height,
                    v.payload.len() == v.height * v.stored_stride(),
                    v.row_bytes() <= v.stored_stride(),
            ;
        }
        let payload_len = self.payload.len();
        let stride = payload_len / self.height;
        proof {
            lemma_mul_is_commutative(v.height as int, v.stored_stride() as int);
            lemma_fundamental_div_mod_converse(
                v.payload.len() as int,
                v.height as int,
                v.stored_stride() as int,
                0,
            );
        }
        let rb = self.width * bytes_per_pixel(self.color_encoding);
        let mut out: Vec<u8> = Vec::new();
        let mut row: usize = 0;
        while row < self.height
            invariant
                self@ == v,
                v.wf(),
                row <= v.height,
                rb == v.row_bytes(),
                stride == v.stored_stride(),
                payload_len == v.payload.len(),
                v.row_bytes() <= v.stored_stride(),
                out@.len() == row * v.row_bytes(),
                forall|i: int| 0 <= i < out@.len() ==> out@[i] == packed_payload(v)[i],
            decreases v.height - row,
        {
            proof {
                lemma_mul_inequality(row as int + 1, v.height as int, v.stored_stride() as int);
                assert((row + 1) * v.stored_stride() == row * v.stored_stride()
                    + v.stored_stride()) by (nonlinear_arith);
                lemma_mul_inequality(row as int, v.height as int, v.row_bytes() as int);
            }
            let row_start = row * stride;
            let mut col: usize = 0;
            while col < rb
                invariant
                    self@ == v,
                    v.wf(),
                    row < v.height,
                    col <= rb,
                    rb == v.row_bytes(),
                    stride == v.stored_stride(),
                    payload_len == v.payload.len(),
                    v.row_bytes() <= v.stored_stride(),
                    row_start == row * v.stored_stride(),
                    row_start + v.stored_stride() <= v.payload.len(),
                    out@.len() == row * v.row_bytes() + col,
                    forall|i: int| 0 <= i < out@.len() ==> out@[i] == packed_payload(v)[i],
                decreases rb - col,
            {
                let b = self.payload[row_start + col];
                out.push(b);
                proof {
                    let i = row * v.row_bytes() + col;
                    lemma_fundamental_div_mod_converse(
                        i as int,
                        v.row_bytes() as int,
                        row as int,
                        col as int,
                    );
                    assert(i < v.height * v.row_bytes()) by (nonlinear_arith)
                        requires
                            i == row * v.row_bytes() + col,
                            row < v.height,
                            col < v.row_bytes(),
                    ;
                    assert(out@[i as int] == packed_payload(v)[i as int]);
                }
                col += 1;
            }
            proof {
                assert((row + 1) * v.row_bytes() == row * v.row_bytes() + v.row_bytes())
                    by (nonlinear_arith);
            }
            row += 1;
        }
        proof {
            assert(out@ =~= packed_payload(v));
        }
        out
    }
}

/// For a tightly packed screenshot, stripping padding changes nothing: the
/// packed payload is the payload itself.
pub proof fn lemma_packed_identity_on_png(v: ScreenshotView)
    requires
        v.wf(),
        v.source == ByteSource::Png,
    ensures
        packed_payload(v) == v.payload,
{
    assert(v.stored_stride() == v.row_bytes());
    let rb = v.row_bytes() as int;
    if rb == 0 {
        assert(v.height * v.row_bytes() == 0) by (nonlinear_arith)
            requires
                v.row_bytes() == 0,
        ;
        assert(packed_payload(v) =~= v.payload);
    } else {
        assert forall|i: int| 0 <= i < v.payload.len() implies packed_payload(v)[i] == v.payload[i] by {
            vstd::arithmetic::div_mod::lemma_fundamental_div_mod(i, rb);
            lemma_mul_is_commutative(i / rb, rb);
        }
        assert(packed_payload(v) =~= v.payload);
    }
}

/// A codec failure.
#[derive(Clone, Copy, Debug, PartialEq, Eq, Structural)]
pub enum CodecError {
    /// The byte stream is not a well-formed image, or its frame does not
    /// match its own declared dimensions.
    Decode,
    /// The image decoded, but its color type is not one the harness supports.
    UnsupportedColor,
}

/// A decoded image frame as the PNG decoder hands it back: pixel bytes,
/// dimensions, and the supported color layout if the stream used one.
pub struct RawImage {
    /// Tightly packed pixel bytes of the frame.
    pub data: Vec<u8>,
    /// Width of the frame in pixels.
    pub width: u32,
    /// Height of the frame in pixels.
    pub height: u32,
    /// The color layout, or `None` if the stream's color type or bit depth
    /// is one the harness does not support.
    pub color: Option<ColorType>,
}

/// The PNG byte stream that encodes an image of the given dimensions, with
/// `bpp` bytes per pixel (4 for RGBA, 3 for RGB, both at 8-bit depth), from
/// the given tightly packed rows.
pub uninterp spec fn png_bytes_of(width: nat, height: nat, bpp: nat, rows: Seq<u8>) -> Seq<u8>;

/// Relies on png's `Encoder` and `Writer`: encoding tightly packed 8-bit
/// RGB or RGBA rows of matching length into an in-memory vector succeeds,
/// and the stream produced is a function of the dimensions, the color type,
/// and the rows alone.
#[verifier::external_body]
fn encode_png_raw(packed: &Vec<u8>, width: u32, height: u32, color: ColorType) -> (r: Option<Vec<u8>>)
    requires
        0 < width,
        0 < height,
        packed@.len() == width * height * bytes_per_pixel_spec(color),
    ensures
        r is Some,
        r matches Some(v) ==> v@ == png_bytes_of(
            width as nat,
            height as nat,
            bytes_per_pixel_spec(color),
            packed@,
        ),
{
    let mut out: Vec<u8> = Vec::new();
    let mut encoder = png::Encoder::new(&mut out, width, height);
    encoder.set_depth(png::BitDepth::Eight);
    encoder.set_color(match color {
        ColorType::Rgba => png::ColorType::Rgba,
        ColorType::Rgb => png::ColorType::Rgb,
    });
    let mut writer = encoder.write_header().ok()?;
    writer.write_image_data(packed.as_slice()).ok()?;
    writer.finish().ok()?;
    Some(out)
}

/// A successfully decoded frame is internally consistent: when it reports a
/// supported color layout, its payload holds exactly one tightly packed byte
/// per channel of every pixel.
pub open spec fn raw_frame_consistent(r: Option<RawImage>) -> bool {
    r matches Some(img) ==> (img.color matches Some(c) ==> img.data@.len() == img.width
        * img.height * bytes_per_pixel_spec(c))
}

/// Decoding inverts encoding: if the input bytes are the PNG stream of some
/// 8-bit RGB or RGBA image whose decoded frame fits the machine's address
/// space, the decode succeeds and hands back exactly that image's
/// dimensions, color layout and rows.
pub open spec fn decode_inverts_encode(bytes: Seq<u8>, r: Option<RawImage>) -> bool {
    forall|w: nat, h: nat, b: nat, rows: Seq<u8>|
        #![trigger png_bytes_of(w, h, b, rows)]
        (0 < w <= u32::MAX && 0 < h <= u32::MAX && (b == 3 || b == 4) && rows.len() == w * h * b
            && w * h * b <= isize::MAX && bytes == png_bytes_of(w, h, b, rows)) ==> (r matches Some(
            img,
        ) && img.width == w && img.height == h && img.data@ == rows && img.color == (
        if b == 4 {
            Some(ColorType::Rgba)
        } else {
            Some(ColorType::Rgb)
        }))
}

/// Relies on png's `Decoder` and `Reader`, with the decoder's resource
/// limit lifted to `usize::MAX` so that no valid frame is refused for its
/// size (the default limit would reject rows past 64 MiB; with it lifted,
/// only a frame beyond the machine's address space is refused, which the
/// round-trip claim leaves out). A successful decode yields one frame
/// whose byte count matches its dimensions and 8-bit color layout, and
/// decoding a stream that png's own encoder produced from 8-bit RGB or
/// RGBA rows gives back exactly the encoded dimensions, color and rows
/// (PNG is lossless).
#[verifier::external_body]
fn decode_png_raw(bytes: &Vec<u8>) -> (r: Option<RawImage>)
    ensures
        raw_frame_consistent(r),
        decode_inverts_encode(bytes@, r),
{
    let limits = png::Limits { bytes: usize::MAX };
    let decoder = png::Decoder::new_with_limits(Cursor::new(bytes.as_slice()), limits);
    let mut reader = decoder.read_info().ok()?;
    let mut data = vec![0u8; reader.output_buffer_size()?];
    let info = reader.next_frame(&mut data).ok()?;
    data.truncate(info.buffer_size());
    let color = match (info.color_type, info.bit_depth) {
        (png::ColorType::Rgb, png::BitDepth::Eight) => Some(ColorType::Rgb),
        (png::ColorType::Rgba, png::BitDepth::Eight) => Some(ColorType::Rgba),
        _ => None,
    };
    Some(RawImage { data, width: info.width, height: info.height, color })
}

impl Screenshot {
    /// Builds the screenshot that a decoded raw image denotes: a tightly
    /// packed buffer tagged as file-decoded. An unsupported color layout and
    /// a frame that disagrees with its own dimensions are the two fatal
    /// decode errors.
    pub fn screenshot_of_raw(raw: RawImage) -> (r: Result<Self, CodecError>)
        ensures
            (raw.color is None ==> r == Err::<Screenshot, CodecError>(
                CodecError::UnsupportedColor,
            )),
            (match raw.color {
                Some(c) => {
                    if raw.data@.len() == raw.width * raw.height * bytes_per_pixel_spec(c) {
                        r matches Ok(s) && s@ == (ScreenshotView {
                            payload: raw.data@,
                            width: raw.width as nat,
                            height: raw.height as nat,
                            color: c,
                            source: ByteSource::Png,
                        }) && s@.wf()
                    } else {
                        r == Err::<Screenshot, CodecError>(CodecError::Decode)
                    }
                },
                None => true,
            }),
    {
        let width = raw.width as usize;
        let height = raw.height as usize;
        match raw.color {
            None => Err(CodecError::UnsupportedColor),
            Some(c) => {
                let bpp = bytes_per_pixel(c);
                let data_len = raw.data.len();
                let expected = match width.checked_mul(height) {
                    Some(a) => a.checked_mul(bpp),
                    None => None,
                };
                proof {
                    assert(raw.width * raw.height <= raw.width * raw.height
                        * bytes_per_pixel_spec(c) && raw.width * raw.height
                        * bytes_per_pixel_spec(c) == (raw.width * raw.height)
                        * bytes_per_pixel_spec(c)) by (nonlinear_arith)
                        requires
                            1 <= bytes_per_pixel_spec(c),
                    ;
                }
                match expected {
                    Some(n) if n == data_len => {
                        let s = Self {
                            payload: raw.data,
                            width,
                            height,
                            color_encoding: c,
                            source_encoding: ByteSource::Png,
                        };
                        proof {
                            assert(s@ =~= (ScreenshotView {
                                payload: s.payload@,
                                width: raw.width as nat,
                                height: raw.height as nat,
                                color: c,
                                source: ByteSource::Png,
                            }));
                            assert(s@.payload.len() == s@.height * s@.stored_stride())
                                by (nonlinear_arith)
                                requires
                                    s@.payload.len() == s@.width * s@.height
                                        * bytes_per_pixel_spec(s@.color),
                                    s@.stored_stride() == s@.width * bytes_per_pixel_spec(s@.color),
                            ;
                        }
                        Ok(s)
                    },
                    _ => {
                        proof {
                            let w = raw.width as int;
                            let h = raw.height as int;
                            let b = bytes_per_pixel_spec(c) as int;
                            if raw.data@.len() == w * h * b {
                                assert(w * h <= w * h * b) by (nonlinear_arith)
                                    requires
                                        0 <= w * h,
                                        1 <= b,
                                ;
                                assert(w * h * b == (w * h) * b) by (nonlinear_arith);
                                assert(w * h <= usize::MAX);
                                assert((w * h) * b <= usize::MAX);
                                assert(false);
                            }
                        }
                        Err(CodecError::Decode)
                    },
                }
            },
        }
    }
}

impl Screenshot {
    /// Decodes a PNG byte stream into a tightly packed screenshot tagged as
    /// file-decoded. Streams that do not decode give `CodecError::Decode`;
    /// streams whose color type or bit depth the harness does not support
    /// give `CodecError::UnsupportedColor`. Any stream that png's own
    /// encoder produced from 8-bit RGB or RGBA rows of a frame that fits
    /// the machine's address space decodes to exactly the image it encoded.
    pub fn from_png_bytes(bytes: &Vec<u8>) -> (r: Result<Self, CodecError>)
        ensures
            r matches Ok(s) ==> s@.source == ByteSource::Png && s@.wf(),
            forall|w: nat, h: nat, b: nat, rows: Seq<u8>|
                #![trigger png_bytes_of(w, h, b, rows)]
                (0 < w <= u32::MAX && 0 < h <= u32::MAX && (b == 3 || b == 4) && rows.len() == w
                    * h * b && w * h * b <= isize::MAX && bytes@ == png_bytes_of(w, h, b, rows))
                    ==> (r matches Ok(s) && s@.width == w && s@.height == h && s@.payload == rows
                    && s@.source == ByteSource::Png && s@.color == (
                if b == 4 {
                    ColorType::Rgba
                } else {
                    ColorType::Rgb
                })),
    {
        let raw = decode_png_raw(bytes);
        match raw {
            None => Err(CodecError::Decode),
            Some(img) => {
                let r = Self::screenshot_of_raw(img);
                proof {
                    assert forall|w: nat, h: nat, b: nat, rows: Seq<u8>|
                        (0 < w <= u32::MAX && 0 < h <= u32::MAX && (b == 3 || b == 4)
                            && rows.len() == w * h * b && w * h * b <= isize::MAX && bytes@
                            == #[trigger] png_bytes_of(
                            w,
                            h,
                            b,
                            rows,
                        )) implies (r matches Ok(s) && s@.width == w && s@.height == h
                        && s@.payload == rows && s@.source == ByteSource::Png && s@.color == (
                    if b == 4 {
                        ColorType::Rgba
                    } else {
                        ColorType::Rgb
                    })) by {
                        assert(img.width == w && img.height == h && img.data@ == rows);
                    }
                }
                r
            },
        }
    }

    /// Encodes the screenshot into a PNG byte stream, first stripping any
    /// row padding that its stored layout carries.
    pub fn encode_png(&self) -> (r: Vec<u8>)
        requires
            self@.wf(),
            0 < self@.width <= u32::MAX,
            0 < self@.height <= u32::MAX,
        ensures
            r@ == png_bytes_of(
                self@.width,
                self@.height,
                bytes_per_pixel_spec(self@.color),
                packed_payload(self@),
            ),
    {
        let packed = self.packed_of();
        proof {
            assert(self@.height * self@.row_bytes() == self@.width * self@.height
                * bytes_per_pixel_spec(self@.color)) by (nonlinear_arith)
                requires
                    self@.row_bytes() == self@.width * bytes_per_pixel_spec(self@.color),
            ;
        }
        match encode_png_raw(&packed, self.width as u32, self.height as u32, self.color_encoding) {
            Some(bytes) => bytes,
            None => unreached(),
        }
    }

    /// Round-trips the screenshot through the PNG codec: encode, then
    /// decode. The result is a tightly packed screenshot tagged as
    /// file-decoded, with the same dimensions and color layout and with the
    /// padding-stripped payload. On a screenshot that is already
    /// file-decoded this is the identity.
    pub fn encode_png_frame(self) -> (r: Self)
        requires
            self@.wf(),
            0 < self@.width <= u32::MAX,
            0 < self@.height <= u32::MAX,
            self@.width * self@.height * bytes_per_pixel_spec(self@.color) <= isize::MAX,
        ensures
            r@.width == self@.width,
            r@.height == self@.height,
            r@.color == self@.color,
            r@.source == ByteSource::Png,
            r@.payload == packed_payload(self@),
            r@.payload.len() == self@.width * self@.height * bytes_per_pixel_spec(self@.color),
            r@.wf(),
            self@.source == ByteSource::Png ==> r@ == self@,
    {
        let ghost v = self@;
        let bytes = self.encode_png();
        proof {
            assert(v.height * v.row_bytes() == v.width * v.height * bytes_per_pixel_spec(v.color))
                by (nonlinear_arith)
                requires
                    v.row_bytes() == v.width * bytes_per_pixel_spec(v.color),
            ;
        }
        match Self::from_png_bytes(&bytes) {
            Ok(s) => {
                proof {
                    if v.source == ByteSource::Png {
                        lemma_packed_identity_on_png(v);
                        assert(s@ =~= v);
                    }
                }
                s
            },
            Err(_) => unreached(),
        }
    }

    /// Decides at run time whether the payload length is consistent with
    /// the dimensions, color layout and provenance.
    pub fn is_wf(&self) -> (r: bool)
        ensures
            r == self@.wf(),
    {
        let payload_len = self.payload.len();
        if self.height == 0 {
            proof {
                assert(self@.height * self@.stored_stride() == 0) by (nonlinear_arith)
                    requires
                        self@.height == 0,
                ;
            }
            return payload_len == 0;
        }
        let bpp = bytes_per_pixel(self.color_encoding);
        let rb = match self.width.checked_mul(bpp) {
            Some(rb) => rb,
            None => {
                proof {
                    lemma_mul_inequality(1, self@.height as int, self@.stored_stride() as int);
                }
                return false;
            },
        };
        let stride = match self.source_encoding {
            ByteSource::Png => rb,
            ByteSource::WGPU => {
                let padding = (ROW_COPY_ALIGNMENT - rb % ROW_COPY_ALIGNMENT) % ROW_COPY_ALIGNMENT;
                match rb.checked_add(padding) {
                    Some(s) => s,
                    None => {
                        proof {
                            lemma_mul_inequality(
                                1,
                                self@.height as int,
                                self@.stored_stride() as int,
                            );
                        }
                        return false;
                    },
                }
            },
        };
        match self.height.checked_mul(stride) {
            Some(n) => payload_len == n,
            None => {
                proof {
                    lemma_mul_inequality(1, self@.height as int, self@.stored_stride() as int);
                }
                false
            },
        }
    }

    /// Encodes the screenshot into a PNG byte stream after checking that it
    /// is consistent and that its dimensions are nonzero and fit the
    /// format; returns `None` exactly when one of those checks fails.
    pub fn encode_png_checked(&self) -> (r: Option<Vec<u8>>)
        ensures
            r is Some <==> (self@.wf() && 0 < self@.width <= u32::MAX && 0 < self@.height
                <= u32::MAX),
            r matches Some(v) ==> v@ == png_bytes_of(
                self@.width,
                self@.height,
                bytes_per_pixel_spec(self@.color),
                packed_payload(self@),
            ),
    {
        if self.width == 0 || self.height == 0 {
            return None;
        }
        if self.width > u32::MAX as usize || self.height > u32::MAX as usize {
            return None;
        }
        if !self.is_wf() {
            return None;
        }
        Some(self.encode_png())
    }
}

} // verus!
