use vstd::prelude::*;

use crate::error::InkyError;
use crate::exif::{exif_orientation_from_jpeg, slice_range, spec_jpeg_orientation};


verus! {

/// Clockwise rotation applied between the caller's logical image and the
/// panel's native layout.
#[derive(Clone, Copy, Debug, PartialEq, Eq, Structural)]
pub enum Rotation {
    Deg0,
    Deg90,
    Deg180,
    Deg270,
}

impl Rotation {
    /// Clockwise angle of a rotation in degrees.
    pub open spec fn spec_degrees(self) -> int {
        match self {
            Rotation::Deg0 => 0,
            Rotation::Deg90 => 90,
            Rotation::Deg180 => 180,
            Rotation::Deg270 => 270,
        }
    }

    /// True for the quarter turns, which swap width and height.
    pub open spec fn swaps_axes(self) -> bool {
        self is Deg90 || self is Deg270
    }

    /// Clockwise angle in degrees.
    pub fn degrees(self) -> (r: u16)
        ensures
            r == self.spec_degrees(),
    {
        match self {
            Rotation::Deg0 => 0,
            Rotation::Deg90 => 90,
            Rotation::Deg180 => 180,
            Rotation::Deg270 => 270,
        }
    }

    /// The rotation of a whole number of quarter turns (taken modulo 360);
    /// `None` for any other angle.
    pub fn from_degrees(deg: u16) -> (r: Option<Rotation>)
        ensures
            (deg % 90 == 0) <==> r is Some,
            r matches Some(rot) ==> rot.spec_degrees() == deg % 360,
    {
        match deg % 360 {
            0 => Some(Rotation::Deg0),
            90 => Some(Rotation::Deg90),
            180 => Some(Rotation::Deg180),
            270 => Some(Rotation::Deg270),
            _ => None,
        }
    }

    /// Logical (caller-facing) dimensions of a panel of the given native size.
    pub fn target_dimensions(self, width: u16, height: u16) -> (r: (u16, u16))
        ensures
            self.swaps_axes() ==> r == (height, width),
            !self.swaps_axes() ==> r == (width, height),
    {
        match self {
            Rotation::Deg0 | Rotation::Deg180 => (width, height),
            Rotation::Deg90 | Rotation::Deg270 => (height, width),
        }
    }
}

/// The byte that carries `high` in its upper nibble and `low` in its lower
/// nibble, both masked to four bits.
pub open spec fn nibble_pair(high: u8, low: u8) -> u8 {
    ((high % 16) * 16 + low % 16) as u8
}

/// Nibble packing of a whole buffer: two values per byte, high nibble first,
/// a missing final partner counting as zero.
pub open spec fn packed_nibbles(values: Seq<u8>) -> Seq<u8> {
    Seq::new(
        ((values.len() + 1) / 2) as nat,
        |k: int|
            nibble_pair(
                values[2 * k],
                if 2 * k + 1 < values.len() {
                    values[2 * k + 1]
                } else {
                    0u8
                },
            ),
    )
}

/// Inverse of the packing: each byte gives back its high then its low nibble.
pub open spec fn unpacked_nibbles(packed: Seq<u8>) -> Seq<u8> {
    Seq::new(
        2 * packed.len(),
        |i: int|
            if i % 2 == 0 {
                (packed[i / 2] / 16) as u8
            } else {
                (packed[i / 2] % 16) as u8
            },
    )
}

proof fn lemma_nibble_pair_bits(high: u8, low: u8)
    ensures
        ((high & 0x0F) << 4u8) | (low & 0x0F) == nibble_pair(high, low),
{
    assert(((high & 0x0F) << 4u8) | (low & 0x0F) == ((high % 16) * 16 + low % 16) as u8)
        by (bit_vector);
}

/// Packs one value per nibble, two per byte, high nibble first; an odd final
/// value is paired with a zero low nibble.
pub fn pack_buffer_nibbles(buffer: &[u8]) -> (packed: Vec<u8>)
    ensures
        packed@ == packed_nibbles(buffer@),
{
    let len = buffer.len();
    let pairs = len / 2 + len % 2;
    let mut packed: Vec<u8> = Vec::with_capacity(pairs);
    let mut k: usize = 0;
    while k < pairs
        invariant
            len == buffer@.len(),
            pairs == (len + 1) / 2,
            k <= pairs,
            packed@.len() == k,
            forall|j: int| 0 <= j < k ==> #[trigger] packed@[j] == packed_nibbles(buffer@)[j],
        decreases pairs - k,
    {
        let i = 2 * k;
        let high = buffer[i];
        let low = if i + 1 < len {
            buffer[i + 1]
        } else {
            0u8
        };
        proof {
            lemma_nibble_pair_bits(high, low);
        }
        packed.push(((high & 0x0F) << 4u8) | (low & 0x0F));
        k = k + 1;
    }
    assert(packed@ =~= packed_nibbles(buffer@));
    packed
}

/// Unpacking a packed buffer gives back every value masked to four bits, and
/// for an odd length one trailing zero.
pub proof fn lemma_nibble_round_trip(values: Seq<u8>)
    ensures
        unpacked_nibbles(packed_nibbles(values)).len() == values.len() + values.len() % 2,
        forall|i: int|
            0 <= i < values.len() ==> #[trigger] unpacked_nibbles(packed_nibbles(values))[i]
                == values[i] % 16,
        values.len() % 2 == 1 ==> unpacked_nibbles(packed_nibbles(values))[values.len() as int]
            == 0,
{
    let p = packed_nibbles(values);
    let u = unpacked_nibbles(p);
    assert forall|i: int| 0 <= i < values.len() implies #[trigger] u[i] == values[i] % 16 by {
        let k = i / 2;
        let h = values[2 * k] % 16;
        let l = if 2 * k + 1 < values.len() { values[2 * k + 1] % 16 } else { 0 };
        assert(p[k] == h * 16 + l);
        assert((h * 16 + l) / 16 == h) by (nonlinear_arith)
            requires 0 <= h < 16, 0 <= l < 16;
        assert((h * 16 + l) % 16 == l) by (nonlinear_arith)
            requires 0 <= h < 16, 0 <= l < 16;
    }
    if values.len() % 2 == 1 {
        let n = values.len() as int;
        let k = n / 2;
        let h = values[2 * k] % 16;
        assert(p[k] == h * 16);
        assert((h * 16) % 16 == 0) by (nonlinear_arith)
            requires 0 <= h < 16;
    }
}

/// Byte `c` of pixel `(x, y)` in a row-major image `width` pixels wide with
/// `channels` bytes per pixel.
pub open spec fn sample(data: Seq<u8>, width: int, channels: int, x: int, y: int, c: int) -> u8 {
    data[(y * width + x) * channels + c]
}

/// An 8-bit RGB image: row-major, three bytes per pixel.
#[derive(Debug)]
pub struct Rgb8Image {
    width: u32,
    height: u32,
    data: Vec<u8>,
}

/// Name for what the image crate's decoder makes of a byte stream: the
/// width, height and RGB bytes of the decoded image, or `None` when it
/// cannot decode it.
pub uninterp spec fn decoded_rgb(bytes: Seq<u8>) -> Option<(u32, u32, Seq<u8>)>;

/// Name for the image crate's triangle-filter resize of an RGB image of the
/// given size to the target size.
pub uninterp spec fn triangle_resized(
    width: u32,
    height: u32,
    data: Seq<u8>,
    target_width: u32,
    target_height: u32,
) -> Seq<u8>;

impl Rgb8Image {
    #[verifier::type_invariant]
    spec fn well_formed(self) -> bool {
        self.data@.len() == self.width * self.height * 3
    }

    pub closed spec fn spec_width(self) -> u32 {
        self.width
    }

    pub closed spec fn spec_height(self) -> u32 {
        self.height
    }

    pub closed spec fn spec_data(self) -> Seq<u8> {
        self.data@
    }

    /// An image from raw row-major RGB bytes; `None` unless the length is
    /// exactly three bytes per pixel.
    pub fn from_raw(width: u32, height: u32, data: Vec<u8>) -> (r: Option<Rgb8Image>)
        ensures
            r is Some <==> data@.len() == width * height * 3,
            r matches Some(img) ==> img.spec_width() == width && img.spec_height() == height
                && img.spec_data() == data@,
    {
        let w = width as u64;
        let h = height as u64;
        let n = data.len();
        assert(w * h <= 0xFFFF_FFFF_FFFF_FFFF) by (nonlinear_arith)
            requires w <= 0xFFFF_FFFF, h <= 0xFFFF_FFFF;
        let wh: u128 = (w as u128) * (h as u128);
        if (n as u128) == wh * 3 {
            Some(Rgb8Image { width, height, data })
        } else {
            None
        }
    }

    /// An image of one colour.
    pub fn filled(width: u32, height: u32, rgb: (u8, u8, u8)) -> (r: Rgb8Image)
        requires
            width * height * 3 <= usize::MAX,
        ensures
            r.spec_width() == width,
            r.spec_height() == height,
            forall|x: int, y: int, c: int|
                0 <= x < width && 0 <= y < height && 0 <= c < 3 ==> #[trigger] sample(
                    r.spec_data(),
                    width as int,
                    3,
                    x,
                    y,
                    c,
                ) == if c == 0 {
                    rgb.0
                } else if c == 1 {
                    rgb.1
                } else {
                    rgb.2
                },
    {
        let n: usize = width as usize * height as usize;
        let mut data: Vec<u8> = Vec::with_capacity(n * 3);
        let mut i: usize = 0;
        while i < n
            invariant
                n == width * height,
                n * 3 <= usize::MAX,
                i <= n,
                data@.len() == 3 * i,
                forall|j: int|
                    0 <= j < 3 * i ==> #[trigger] data@[j] == if j % 3 == 0 {
                        rgb.0
                    } else if j % 3 == 1 {
                        rgb.1
                    } else {
                        rgb.2
                    },
            decreases n - i,
        {
            data.push(rgb.0);
            data.push(rgb.1);
            data.push(rgb.2);
            i = i + 1;
        }
        assert forall|x: int, y: int, c: int|
            0 <= x < width && 0 <= y < height && 0 <= c < 3 implies #[trigger] sample(
                data@,
                width as int,
                3,
                x,
                y,
                c,
            ) == if c == 0 {
                rgb.0
            } else if c == 1 {
                rgb.1
            } else {
                rgb.2
            } by {
            lemma_sample_index(width as int, height as int, 3, x, y, c);
            assert(((y * width + x) * 3 + c) % 3 == c) by (nonlinear_arith)
                requires 0 <= c < 3, 0 <= y * width + x;
        }
        Rgb8Image { width, height, data }
    }

    /// A copy of the image.
    pub fn duplicate(&self) -> (r: Rgb8Image)
        ensures
            r.spec_width() == self.spec_width(),
            r.spec_height() == self.spec_height(),
            r.spec_data() == self.spec_data(),
    {
        proof {
            use_type_invariant(self);
        }
        Rgb8Image { width: self.width, height: self.height, data: self.data.clone() }
    }

    pub fn width(&self) -> (r: u32)
        ensures
            r == self.spec_width(),
    {
        self.width
    }

    pub fn height(&self) -> (r: u32)
        ensures
            r == self.spec_height(),
    {
        self.height
    }

    pub fn as_bytes(&self) -> (r: &[u8])
        ensures
            r@ == self.spec_data(),
            r@.len() == self.spec_width() * self.spec_height() * 3,
    {
        proof {
            use_type_invariant(self);
        }
        self.data.as_slice()
    }

    pub fn into_raw(self) -> (r: Vec<u8>)
        ensures
            r@ == self.spec_data(),
            r@.len() == self.spec_width() * self.spec_height() * 3,
    {
        proof {
            use_type_invariant(&self);
        }
        self.data
    }
}

/// Position of byte `c` of pixel `(x, y)` lies inside an image of the given size.
pub proof fn lemma_sample_index(width: int, height: int, channels: int, x: int, y: int, c: int)
    requires
        0 <= x < width,
        0 <= y < height,
        0 <= c < channels,
    ensures
        0 <= (y * width + x) * channels + c < width * height * channels,
{
    assert(0 <= y * width + x < width * height) by (nonlinear_arith)
        requires 0 <= x < width, 0 <= y < height;
    assert(0 <= (y * width + x) * channels + c < width * height * channels) by (nonlinear_arith)
        requires 0 <= y * width + x < width * height, 0 <= c < channels;
}

/// Relies on image::load_from_memory followed by DynamicImage::to_rgb8:
/// the format is guessed from the bytes and the image converted to 8-bit
/// RGB.  The outcome depends on the bytes alone.
#[verifier::external_body]
fn decode_rgb(bytes: &[u8]) -> (r: Result<Rgb8Image, image::ImageError>)
    ensures
        r matches Ok(img) ==> decoded_rgb(bytes@) == Some(
            (img.spec_width(), img.spec_height(), img.spec_data()),
        ),
        r is Err ==> decoded_rgb(bytes@) is None,
{
    let rgb = image::load_from_memory(bytes)?.to_rgb8();
    let (width, height) = rgb.dimensions();
    Ok(Rgb8Image { width, height, data: rgb.into_raw() })
}

/// RGB bytes of a `w` x `h` image turned a quarter turn clockwise (the
/// result is `h` wide): its pixel (x, y) is the source's (y, h - 1 - x).
pub open spec fn rotated90_bytes(w: int, h: int, data: Seq<u8>) -> Seq<u8> {
    Seq::new((w * h * 3) as nat, |i: int| sample(data, w, 3, (i / 3) / h, h - 1 - (i / 3) % h, i % 3))
}

/// RGB bytes of a `w` x `h` image turned half a turn: its pixel (x, y) is
/// the source's (w - 1 - x, h - 1 - y).
pub open spec fn rotated180_bytes(w: int, h: int, data: Seq<u8>) -> Seq<u8> {
    Seq::new(
        (w * h * 3) as nat,
        |i: int| sample(data, w, 3, w - 1 - (i / 3) % w, h - 1 - (i / 3) / w, i % 3),
    )
}

/// RGB bytes of a `w` x `h` image turned three quarter turns clockwise (the
/// result is `h` wide): its pixel (x, y) is the source's (w - 1 - y, x).
pub open spec fn rotated270_bytes(w: int, h: int, data: Seq<u8>) -> Seq<u8> {
    Seq::new((w * h * 3) as nat, |i: int| sample(data, w, 3, w - 1 - (i / 3) / h, (i / 3) % h, i % 3))
}

/// The image is the `sw` x `sh` image `sdata` turned a quarter turn clockwise.
pub open spec fn is_rotated90(sw: u32, sh: u32, sdata: Seq<u8>, out: Rgb8Image) -> bool {
    &&& out.spec_width() == sh
    &&& out.spec_height() == sw
    &&& out.spec_data() == rotated90_bytes(sw as int, sh as int, sdata)
}

/// The image is the `sw` x `sh` image `sdata` turned half a turn.
pub open spec fn is_rotated180(sw: u32, sh: u32, sdata: Seq<u8>, out: Rgb8Image) -> bool {
    &&& out.spec_width() == sw
    &&& out.spec_height() == sh
    &&& out.spec_data() == rotated180_bytes(sw as int, sh as int, sdata)
}

/// The image is the `sw` x `sh` image `sdata` turned three quarter turns clockwise.
pub open spec fn is_rotated270(sw: u32, sh: u32, sdata: Seq<u8>, out: Rgb8Image) -> bool {
    &&& out.spec_width() == sh
    &&& out.spec_height() == sw
    &&& out.spec_data() == rotated270_bytes(sw as int, sh as int, sdata)
}

/// RGB bytes of a `w` x `h` image turned by a rotation.
pub open spec fn spec_rotated(rotation: Rotation, w: int, h: int, data: Seq<u8>) -> Seq<u8> {
    match rotation {
        Rotation::Deg0 => data,
        Rotation::Deg90 => rotated90_bytes(w, h, data),
        Rotation::Deg180 => rotated180_bytes(w, h, data),
        Rotation::Deg270 => rotated270_bytes(w, h, data),
    }
}

/// Relies on image::imageops::rotate90: the pixel at (x, y) moves to
/// (height - 1 - y, x).
#[verifier::external_body]
fn rotate90(img: &Rgb8Image) -> (r: Rgb8Image)
    ensures
        is_rotated90(img.spec_width(), img.spec_height(), img.spec_data(), r),
{
    let buf = image::RgbImage::from_raw(img.width, img.height, img.data.clone()).unwrap();
    let out = image::imageops::rotate90(&buf);
    let (width, height) = out.dimensions();
    Rgb8Image { width, height, data: out.into_raw() }
}

/// Relies on image::imageops::rotate180: the pixel at (x, y) moves to
/// (width - 1 - x, height - 1 - y).
#[verifier::external_body]
fn rotate180(img: &Rgb8Image) -> (r: Rgb8Image)
    ensures
        is_rotated180(img.spec_width(), img.spec_height(), img.spec_data(), r),
{
    let buf = image::RgbImage::from_raw(img.width, img.height, img.data.clone()).unwrap();
    let out = image::imageops::rotate180(&buf);
    let (width, height) = out.dimensions();
    Rgb8Image { width, height, data: out.into_raw() }
}

/// Relies on image::imageops::rotate270: the pixel at (x, y) moves to
/// (y, width - 1 - x).
#[verifier::external_body]
fn rotate270(img: &Rgb8Image) -> (r: Rgb8Image)
    ensures
        is_rotated270(img.spec_width(), img.spec_height(), img.spec_data(), r),
{
    let buf = image::RgbImage::from_raw(img.width, img.height, img.data.clone()).unwrap();
    let out = image::imageops::rotate270(&buf);
    let (width, height) = out.dimensions();
    Rgb8Image { width, height, data: out.into_raw() }
}

/// A one-byte-per-pixel `width` x `height` image turned three quarter turns
/// clockwise: the result is `height` wide and its pixel (x, y) is the
/// source's (width - 1 - y, x).
pub open spec fn spec_rotated270_gray(data: Seq<u8>, width: int, height: int) -> Seq<u8> {
    Seq::new(
        (width * height) as nat,
        |i: int| data[(i % height) * width + (width - 1 - i / height)],
    )
}

/// Relies on image::imageops::rotate270 on an 8-bit grey image: the value
/// at (x, y) moves to (y, width - 1 - x).
#[verifier::external_body]
pub(crate) fn rotate270_gray(data: &Vec<u8>, width: u32, height: u32) -> (r: Vec<u8>)
    requires
        data@.len() == width * height,
    ensures
        r@ == spec_rotated270_gray(data@, width as int, height as int),
{
    let buf = image::GrayImage::from_raw(width, height, data.clone()).unwrap();
    image::imageops::rotate270(&buf).into_raw()
}

/// Bytes of the `w` x `h` window whose top-left corner is `(x0, y0)` in an
/// RGB image `width` pixels wide.
pub open spec fn crop_bytes(data: Seq<u8>, width: int, x0: int, y0: int, w: int, h: int) -> Seq<u8> {
    Seq::new(
        (w * h * 3) as nat,
        |i: int| sample(data, width, 3, x0 + (i / 3) % w, y0 + (i / 3) / w, i % 3),
    )
}

/// Relies on image::imageops::crop_imm and SubImage::to_image: a copy of
/// the window, which lies inside the image.
#[verifier::external_body]
fn crop(img: &Rgb8Image, x: u32, y: u32, w: u32, h: u32) -> (r: Rgb8Image)
    requires
        x + w <= img.spec_width(),
        y + h <= img.spec_height(),
    ensures
        r.spec_width() == w,
        r.spec_height() == h,
        r.spec_data() == crop_bytes(img.spec_data(), img.spec_width() as int, x as int, y as int, w as int, h as int),
{
    let buf = image::RgbImage::from_raw(img.width, img.height, img.data.clone()).unwrap();
    let out = image::imageops::crop_imm(&buf, x, y, w, h).to_image();
    let (width, height) = out.dimensions();
    Rgb8Image { width, height, data: out.into_raw() }
}

/// Relies on image::imageops::resize with FilterType::Triangle: the result
/// has exactly the target size, depends on the source alone, and is a copy
/// when the sizes already agree.
#[verifier::external_body]
fn resize_triangle(img: &Rgb8Image, target_width: u32, target_height: u32) -> (r: Rgb8Image)
    requires
        target_width > 0,
        target_height > 0,
        target_width * target_height * 3 <= usize::MAX,
        img.spec_width() * target_height * 4 <= usize::MAX,
    ensures
        r.spec_width() == target_width,
        r.spec_height() == target_height,
        r.spec_data() == triangle_resized(
            img.spec_width(),
            img.spec_height(),
            img.spec_data(),
            target_width,
            target_height,
        ),
        img.spec_width() == target_width && img.spec_height() == target_height ==> r.spec_data()
            == img.spec_data(),
{
    let buf = image::RgbImage::from_raw(img.width, img.height, img.data.clone()).unwrap();
    let out = image::imageops::resize(&buf, target_width, target_height, image::imageops::FilterType::Triangle);
    Rgb8Image { width: target_width, height: target_height, data: out.into_raw() }
}

/// Relative difference of the two aspect ratios is below one millionth:
/// |sw/sh - tw/th| < 1e-6.
pub open spec fn ratios_match(sw: int, sh: int, tw: int, th: int) -> bool {
    let d = sw * th - tw * sh;
    (if d < 0 { -d } else { d }) * 1000000 < sh * th
}

/// `n / d` rounded to the nearest integer, halves up.
pub open spec fn round_div(n: int, d: int) -> int {
    (2 * n + d) / (2 * d)
}

pub open spec fn clamp_int(v: int, lo: int, hi: int) -> int {
    if v < lo {
        lo
    } else if v > hi {
        hi
    } else {
        v
    }
}

/// The centred window `(x, y, w, h)` of a `sw` x `sh` source that has the
/// target's aspect ratio: the width is cut when the source is relatively
/// wider, the height when it is relatively taller, nothing when the ratios
/// already match.
pub open spec fn spec_crop_rect(sw: int, sh: int, tw: int, th: int) -> (int, int, int, int) {
    if sw == 0 || sh == 0 || ratios_match(sw, sh, tw, th) {
        (0, 0, sw, sh)
    } else if sw * th > tw * sh {
        let w = clamp_int(round_div(tw * sh, th), 1, sw);
        ((sw - w) / 2, 0, w, sh)
    } else {
        let h = clamp_int(round_div(sw * th, tw), 1, sh);
        (0, (sh - h) / 2, sw, h)
    }
}

/// Centred crop window with the target's aspect ratio.
pub fn crop_rect(sw: u32, sh: u32, tw: u32, th: u32) -> (r: (u32, u32, u32, u32))
    requires
        tw > 0,
        th > 0,
    ensures
        (r.0 as int, r.1 as int, r.2 as int, r.3 as int) == spec_crop_rect(
            sw as int,
            sh as int,
            tw as int,
            th as int,
        ),
        r.0 + r.2 <= sw,
        r.1 + r.3 <= sh,
{
    assert(sw * th <= 0xFFFF_FFFE_0000_0001 && tw * sh <= 0xFFFF_FFFE_0000_0001 && sh * th
        <= 0xFFFF_FFFE_0000_0001) by (nonlinear_arith)
        requires sw <= 0xFFFF_FFFF, sh <= 0xFFFF_FFFF, tw <= 0xFFFF_FFFF, th <= 0xFFFF_FFFF;
    let a: u128 = (sw as u64 * th as u64) as u128;
    let b: u128 = (tw as u64 * sh as u64) as u128;
    let sh_th: u128 = (sh as u64 * th as u64) as u128;
    let diff: u128 = if a >= b {
        a - b
    } else {
        b - a
    };
    if sw == 0 || sh == 0 || diff * 1000000 < sh_th {
        return (0, 0, sw, sh);
    }
    if a > b {
        let desired: u128 = (2 * b + th as u128) / (2 * th as u128);
        let w: u32 = if desired < 1 {
            1
        } else if desired > sw as u128 {
            sw
        } else {
            desired as u32
        };
        ((sw - w) / 2, 0, w, sh)
    } else {
        let desired: u128 = (2 * a + tw as u128) / (2 * tw as u128);
        let h: u32 = if desired < 1 {
            1
        } else if desired > sh as u128 {
            sh
        } else {
            desired as u32
        };
        (0, (sh - h) / 2, sw, h)
    }
}

/// The crop keeps the cut side at the whole number of pixels nearest to the
/// exact target aspect: `|w * th - tw * sh| <= th / 2` when the width is cut
/// and `|h * tw - sw * th| <= tw / 2` when the height is, unless the exact
/// size is below half a pixel.  The side that is not cut is kept whole.
pub proof fn lemma_crop_aspect(sw: int, sh: int, tw: int, th: int)
    requires
        sw > 0,
        sh > 0,
        tw > 0,
        th > 0,
        !ratios_match(sw, sh, tw, th),
    ensures
        ({
            let (x, y, w, h) = spec_crop_rect(sw, sh, tw, th);
            if sw * th > tw * sh {
                &&& h == sh && y == 0
                &&& 1 <= w <= sw
                &&& 2 * tw * sh >= th ==> -th <= 2 * (w * th - tw * sh) <= th
            } else {
                &&& w == sw && x == 0
                &&& 1 <= h <= sh
                &&& 2 * sw * th >= tw ==> -tw <= 2 * (h * tw - sw * th) <= tw
            }
        }),
{
    if sw * th > tw * sh {
        let v = round_div(tw * sh, th);
        lemma_round_div(tw * sh, th);
        assert(v <= sw) by (nonlinear_arith)
            requires v * th <= tw * sh + th / 2, tw * sh < sw * th, th > 0;
        if 2 * tw * sh >= th {
            assert(v >= 1) by (nonlinear_arith)
                requires 2 * v * th + th > 2 * (tw * sh), 2 * tw * sh >= th, th > 0;
        }
    } else {
        let v = round_div(sw * th, tw);
        lemma_round_div(sw * th, tw);
        assert(v <= sh) by (nonlinear_arith)
            requires v * tw <= sw * th + tw / 2, sw * th <= tw * sh, tw > 0;
        if 2 * sw * th >= tw {
            assert(v >= 1) by (nonlinear_arith)
                requires 2 * v * tw + tw > 2 * (sw * th), 2 * sw * th >= tw, tw > 0;
        }
    }
}

proof fn lemma_round_div(n: int, d: int)
    requires
        n >= 0,
        d > 0,
    ensures
        -d <= 2 * (round_div(n, d) * d - n) <= d,
        round_div(n, d) * d <= n + d / 2,
        2 * round_div(n, d) * d + d > 2 * n,
{
    let q = round_div(n, d);
    assert(q * (2 * d) <= 2 * n + d < q * (2 * d) + 2 * d) by (nonlinear_arith)
        requires q == (2 * n + d) / (2 * d), d > 0;
    assert(-d <= 2 * (q * d - n) <= d) by (nonlinear_arith)
        requires q * (2 * d) <= 2 * n + d, 2 * n + d < q * (2 * d) + 2 * d;
    assert(q * d <= n + d / 2) by (nonlinear_arith)
        requires q * (2 * d) <= 2 * n + d, d > 0;
    assert(2 * q * d + d > 2 * n) by (nonlinear_arith)
        requires 2 * n + d < q * (2 * d) + 2 * d;
}

/// RGB bytes of an image fitted to the target size: a copy when the size
/// already matches, else the centred crop with the target's aspect ratio
/// resized with the triangle filter.
pub open spec fn spec_fit_bytes(w: u32, h: u32, data: Seq<u8>, tw: u32, th: u32) -> Seq<u8> {
    if w == tw && h == th {
        data
    } else {
        let (x, y, cw, ch) = spec_crop_rect(w as int, h as int, tw as int, th as int);
        triangle_resized(
            cw as u32,
            ch as u32,
            if cw == w && ch == h {
                data
            } else {
                crop_bytes(data, w as int, x, y, cw, ch)
            },
            tw,
            th,
        )
    }
}

/// RGB bytes of an image prepared for a `width` x `height` panel turned by
/// `rotation`: fitted to the logical size, then turned to the native
/// orientation.
pub open spec fn spec_prepared(rotation: Rotation, width: u16, height: u16, image: Rgb8Image) -> Seq<u8> {
    spec_prepared_raw(rotation, width, height, image.spec_width(), image.spec_height(), image.spec_data())
}

/// `spec_prepared` for an image given by its width, height and RGB bytes.
pub open spec fn spec_prepared_raw(
    rotation: Rotation,
    width: u16,
    height: u16,
    iw: u32,
    ih: u32,
    data: Seq<u8>,
) -> Seq<u8> {
    let (lw, lh) = spec_logical_size(rotation, width as int, height as int);
    spec_rotated(rotation, lw, lh, spec_fit_bytes(iw, ih, data, lw as u32, lh as u32))
}

/// Centre-crops the image to the target's aspect ratio and resizes it to
/// exactly the target size with a triangle filter; an image of the target
/// size is copied unchanged.
pub fn clamp_aspect_resize(image: &Rgb8Image, target_w: u32, target_h: u32) -> (r: Rgb8Image)
    requires
        target_w > 0,
        target_h > 0,
        target_w * target_h * 3 <= usize::MAX,
        image.spec_width() * target_h * 4 <= usize::MAX,
    ensures
        r.spec_width() == target_w,
        r.spec_height() == target_h,
        r.spec_data() == spec_fit_bytes(
            image.spec_width(),
            image.spec_height(),
            image.spec_data(),
            target_w,
            target_h,
        ),
        image.spec_width() == target_w && image.spec_height() == target_h ==> r.spec_data()
            == image.spec_data(),
        !(image.spec_width() == target_w && image.spec_height() == target_h) ==> ({
            let (x, y, w, h) = spec_crop_rect(
                image.spec_width() as int,
                image.spec_height() as int,
                target_w as int,
                target_h as int,
            );
            r.spec_data() == triangle_resized(
                w as u32,
                h as u32,
                if w == image.spec_width() && h == image.spec_height() {
                    image.spec_data()
                } else {
                    crop_bytes(image.spec_data(), image.spec_width() as int, x, y, w, h)
                },
                target_w,
                target_h,
            )
        }),
{
    let src_w = image.width();
    let src_h = image.height();
    if src_w == target_w && src_h == target_h {
        return image.duplicate();
    }
    let (x, y, w, h) = crop_rect(src_w, src_h, target_w, target_h);
    if w == src_w && h == src_h {
        resize_triangle(image, target_w, target_h)
    } else {
        let cropped = crop(image, x, y, w, h);
        assert(w * target_h * 4 <= src_w * target_h * 4) by (nonlinear_arith)
            requires w <= src_w;
        resize_triangle(&cropped, target_w, target_h)
    }
}

impl Rotation {
    /// The image turned clockwise by this rotation.
    pub fn apply(self, image: Rgb8Image) -> (r: Rgb8Image)
        ensures
            self is Deg0 ==> r == image,
            self.swaps_axes() ==> r.spec_width() == image.spec_height() && r.spec_height()
                == image.spec_width(),
            !self.swaps_axes() ==> r.spec_width() == image.spec_width() && r.spec_height()
                == image.spec_height(),
            r.spec_data() == spec_rotated(
                self,
                image.spec_width() as int,
                image.spec_height() as int,
                image.spec_data(),
            ),
            self is Deg90 ==> is_rotated90(image.spec_width(), image.spec_height(), image.spec_data(), r),
            self is Deg180 ==> is_rotated180(image.spec_width(), image.spec_height(), image.spec_data(), r),
            self is Deg270 ==> is_rotated270(image.spec_width(), image.spec_height(), image.spec_data(), r),
    {
        match self {
            Rotation::Deg0 => image,
            Rotation::Deg90 => rotate90(&image),
            Rotation::Deg180 => rotate180(&image),
            Rotation::Deg270 => rotate270(&image),
        }
    }
}

/// Turns a decoded image as the orientation tag in its source bytes asks;
/// without a tag (or with one asking for nothing) the image is unchanged.
pub fn apply_exif_orientation_bytes(bytes: &[u8], img: Rgb8Image) -> (r: Rgb8Image)
    ensures
        spec_jpeg_orientation(bytes@) == Some(90u16) ==> is_rotated90(img.spec_width(), img.spec_height(), img.spec_data(), r),
        spec_jpeg_orientation(bytes@) == Some(180u16) ==> is_rotated180(img.spec_width(), img.spec_height(), img.spec_data(), r),
        spec_jpeg_orientation(bytes@) == Some(270u16) ==> is_rotated270(img.spec_width(), img.spec_height(), img.spec_data(), r),
        !(spec_jpeg_orientation(bytes@) matches Some(d) && (d == 90 || d == 180 || d == 270))
            ==> r == img,
{
    match exif_orientation_from_jpeg(bytes) {
        Some(90) => rotate90(&img),
        Some(180) => rotate180(&img),
        Some(270) => rotate270(&img),
        _ => img,
    }
}

/// `out` is the decoded image `(w, h, data)` turned as the orientation tag
/// in `bytes` asks.
pub open spec fn oriented_from(bytes: Seq<u8>, w: u32, h: u32, data: Seq<u8>, out: Rgb8Image) -> bool {
    &&& spec_jpeg_orientation(bytes) == Some(90u16) ==> is_rotated90(w, h, data, out)
    &&& spec_jpeg_orientation(bytes) == Some(180u16) ==> is_rotated180(w, h, data, out)
    &&& spec_jpeg_orientation(bytes) == Some(270u16) ==> is_rotated270(w, h, data, out)
    &&& !(spec_jpeg_orientation(bytes) matches Some(o) && (o == 90 || o == 180 || o == 270))
        ==> out.spec_width() == w && out.spec_height() == h && out.spec_data() == data
}

/// Size of the decoded `w` x `h` image once turned as the orientation tag
/// in `bytes` asks.
pub open spec fn oriented_size(bytes: Seq<u8>, w: u32, h: u32) -> (u32, u32) {
    let o = spec_jpeg_orientation(bytes);
    if o == Some(90u16) || o == Some(270u16) {
        (h, w)
    } else {
        (w, h)
    }
}

/// RGB bytes of the decoded `w` x `h` image `data` once turned as the
/// orientation tag in `bytes` asks.
pub open spec fn oriented_bytes(bytes: Seq<u8>, w: u32, h: u32, data: Seq<u8>) -> Seq<u8> {
    let o = spec_jpeg_orientation(bytes);
    if o == Some(90u16) {
        rotated90_bytes(w as int, h as int, data)
    } else if o == Some(180u16) {
        rotated180_bytes(w as int, h as int, data)
    } else if o == Some(270u16) {
        rotated270_bytes(w as int, h as int, data)
    } else {
        data
    }
}

/// Decodes image bytes to RGB and applies their embedded orientation.
pub fn load_image_respecting_exif(bytes: &[u8]) -> (r: Result<Rgb8Image, InkyError>)
    ensures
        r is Err <==> decoded_rgb(bytes@) is None,
        r matches Err(e) ==> e is Image,
        r matches Ok(img) ==> (decoded_rgb(bytes@) matches Some((w, h, data)) && oriented_from(
            bytes@,
            w,
            h,
            data,
            img,
        ) && (img.spec_width(), img.spec_height()) == oriented_size(bytes@, w, h)
            && img.spec_data() == oriented_bytes(bytes@, w, h, data)),
{
    match decode_rgb(bytes) {
        Ok(decoded) => {
            let out = apply_exif_orientation_bytes(bytes, decoded);
            Ok(out)
        },
        Err(e) => Err(InkyError::Image(e)),
    }
}

/// Every byte mapped through a tone curve.
pub open spec fn spec_toned(data: Seq<u8>, curve: Seq<u8>) -> Seq<u8> {
    Seq::new(data.len(), |i: int| curve[data[i] as int])
}

/// Maps every channel byte through a tone curve (a lightening curve
/// computed by the caller).
pub fn lighten_image_in_place(image: &mut Rgb8Image, curve: &[u8; 256])
    ensures
        final(image).spec_width() == old(image).spec_width(),
        final(image).spec_height() == old(image).spec_height(),
        final(image).spec_data() == spec_toned(old(image).spec_data(), curve@),
        forall|i: int|
            0 <= i < old(image).spec_data().len() ==> #[trigger] final(image).spec_data()[i]
                == curve@[old(image).spec_data()[i] as int],
{
    proof {
        use_type_invariant(&*image);
    }
    let n = image.data.len();
    let mut out: Vec<u8> = Vec::with_capacity(n);
    let mut i: usize = 0;
    while i < n
        invariant
            n == image.data@.len(),
            i <= n,
            out@.len() == i,
            forall|j: int| 0 <= j < i ==> #[trigger] out@[j] == curve@[image.data@[j] as int],
        decreases n - i,
    {
        let v = image.data[i];
        out.push(curve[v as usize]);
        i = i + 1;
    }
    assert(out@ =~= spec_toned(image.data@, curve@));
    image.data = out;
}

/// Unpacked form of one row segment: the nibble packing of
/// `row[start..end]`.
pub open spec fn packed_row(data: Seq<u8>, width: int, y: int, start: int, end: int) -> Seq<u8> {
    packed_nibbles(data.subrange(y * width + start, y * width + end))
}

/// Row segments `start..end` of a one-byte-per-pixel image, each packed
/// two pixels per byte, concatenated row by row.
pub open spec fn spec_pack_luma(data: Seq<u8>, width: int, height: int, start: int, end: int) -> Seq<u8> {
    let pairs = (end - start + 1) / 2;
    Seq::new(
        (height * pairs) as nat,
        |i: int| packed_row(data, width, i / pairs, start, end)[i % pairs],
    )
}

/// Packs columns `start..end` of each row of a one-byte-per-pixel image,
/// two pixels per byte, high nibble first; each row starts a fresh byte.
pub fn pack_luma_nibbles(data: &[u8], width: usize, height: usize, start: usize, end: usize) -> (packed: Vec<u8>)
    requires
        data@.len() == width * height,
        start <= end <= width,
    ensures
        packed@ == spec_pack_luma(data@, width as int, height as int, start as int, end as int),
        packed@.len() == height * ((end - start + 1) / 2),
        forall|y: int, k: int|
            0 <= y < height && 0 <= k < (end - start + 1) / 2 ==> #[trigger] packed@[y * ((end
                - start + 1) / 2) + k] == packed_row(data@, width as int, y, start as int, end as int)[k],
{
    let pairs = (end - start) / 2 + (end - start) % 2;
    let n = data.len();
    let mut packed: Vec<u8> = Vec::new();
    let mut y: usize = 0;
    while y < height
        invariant
            data@.len() == width * height,
            n == width * height,
            start <= end <= width,
            pairs == (end - start + 1) / 2,
            y <= height,
            packed@.len() == y * pairs,
            forall|yy: int, k: int|
                0 <= yy < y && 0 <= k < pairs ==> #[trigger] packed@[yy * pairs + k] == packed_row(
                    data@,
                    width as int,
                    yy,
                    start as int,
                    end as int,
                )[k],
        decreases height - y,
    {
        proof {
            assert(y * width + end <= width * height) by (nonlinear_arith)
                requires y < height, end <= width;
            assert((y + 1) * pairs == y * pairs + pairs) by (nonlinear_arith);
        }
        let row_start = y * width + start;
        let row_end = y * width + end;
        let row = slice_range(data, row_start, row_end);
        let chunk = pack_buffer_nibbles(row);
        let ghost before = packed@;
        let mut k: usize = 0;
        while k < chunk.len()
            invariant
                chunk@ == packed_row(data@, width as int, y as int, start as int, end as int),
                chunk@.len() == pairs,
                k <= pairs,
                packed@.len() == y * pairs + k,
                forall|j: int| 0 <= j < y * pairs ==> #[trigger] packed@[j] == before[j],
                forall|j: int| 0 <= j < k ==> #[trigger] packed@[y * pairs + j] == chunk@[j],
            decreases pairs - k,
        {
            packed.push(chunk[k]);
            k = k + 1;
        }
        proof {
            assert forall|yy: int, kk: int|
                0 <= yy < y + 1 && 0 <= kk < pairs implies #[trigger] packed@[yy * pairs + kk]
                == packed_row(data@, width as int, yy, start as int, end as int)[kk] by {
                if yy < y {
                    assert(yy * pairs + kk < y * pairs) by (nonlinear_arith)
                        requires yy < y, kk < pairs;
                    assert(0 <= yy * pairs) by (nonlinear_arith)
                        requires 0 <= yy, 0 <= pairs;
                }
            }
        }
        y = y + 1;
    }
    assert forall|i: int| 0 <= i < packed@.len() implies #[trigger] packed@[i] == spec_pack_luma(
        data@,
        width as int,
        height as int,
        start as int,
        end as int,
    )[i] by {
        let yy = i / (pairs as int);
        let kk = i % (pairs as int);
        assert(pairs > 0) by (nonlinear_arith)
            requires 0 <= i < height * pairs;
        assert(yy * pairs + kk == i && 0 <= kk < pairs) by (nonlinear_arith)
            requires yy == i / (pairs as int), kk == i % (pairs as int), pairs > 0;
        assert(0 <= yy < height) by (nonlinear_arith)
            requires yy == i / (pairs as int), 0 <= i < height * pairs, pairs > 0;
    }
    assert(packed@ =~= spec_pack_luma(data@, width as int, height as int, start as int, end as int));
    packed
}


/// Logical (caller-facing) size for a native `width` x `height` panel.
pub open spec fn spec_logical_size(rotation: Rotation, width: int, height: int) -> (int, int) {
    if rotation.swaps_axes() {
        (height, width)
    } else {
        (width, height)
    }
}

/// Index in the native row-major buffer of the logical pixel `(x, y)`.
pub open spec fn spec_physical_index(rotation: Rotation, width: int, height: int, x: int, y: int) -> int {
    match rotation {
        Rotation::Deg0 => y * width + x,
        Rotation::Deg90 => x * width + (width - 1 - y),
        Rotation::Deg180 => (height - 1 - y) * width + (width - 1 - x),
        Rotation::Deg270 => (height - 1 - x) * width + y,
    }
}

/// The logical pixel `(x, y)` lies inside the rotated panel.
pub open spec fn logical_in_bounds(rotation: Rotation, width: int, height: int, x: int, y: int) -> bool {
    let (lw, lh) = spec_logical_size(rotation, width, height);
    0 <= x < lw && 0 <= y < lh
}

/// Every in-bounds logical pixel maps inside the native buffer, and no two
/// distinct logical pixels share a native index.
pub proof fn lemma_physical_index_bijective(
    rotation: Rotation,
    width: int,
    height: int,
    x1: int,
    y1: int,
    x2: int,
    y2: int,
)
    requires
        logical_in_bounds(rotation, width, height, x1, y1),
        logical_in_bounds(rotation, width, height, x2, y2),
    ensures
        0 <= spec_physical_index(rotation, width, height, x1, y1) < width * height,
        (x1 != x2 || y1 != y2) ==> spec_physical_index(rotation, width, height, x1, y1)
            != spec_physical_index(rotation, width, height, x2, y2),
{
    let (px1, py1, px2, py2) = match rotation {
        Rotation::Deg0 => (x1, y1, x2, y2),
        Rotation::Deg90 => (width - 1 - y1, x1, width - 1 - y2, x2),
        Rotation::Deg180 => (width - 1 - x1, height - 1 - y1, width - 1 - x2, height - 1 - y2),
        Rotation::Deg270 => (y1, height - 1 - x1, y2, height - 1 - x2),
    };
    assert(spec_physical_index(rotation, width, height, x1, y1) == py1 * width + px1);
    assert(spec_physical_index(rotation, width, height, x2, y2) == py2 * width + px2);
    lemma_row_major_unique(width, height, px1, py1, px2, py2);
}

/// Row-major indices of distinct in-bounds positions differ.
pub proof fn lemma_row_major_unique(width: int, height: int, px1: int, py1: int, px2: int, py2: int)
    requires
        0 <= px1 < width,
        0 <= py1 < height,
        0 <= px2 < width,
        0 <= py2 < height,
    ensures
        0 <= py1 * width + px1 < width * height,
        (px1 != px2 || py1 != py2) ==> py1 * width + px1 != py2 * width + px2,
{
    assert(0 <= py1 * width + px1 < width * height) by (nonlinear_arith)
        requires 0 <= px1 < width, 0 <= py1 < height;
    if py1 != py2 {
        assert(py1 * width + px1 != py2 * width + px2) by (nonlinear_arith)
            requires py1 != py2, 0 <= px1 < width, 0 <= px2 < width;
    }
}

/// Native buffer index of an in-bounds logical pixel.
pub fn logical_to_physical_index(rotation: Rotation, width: u16, height: u16, x: usize, y: usize) -> (r: usize)
    requires
        logical_in_bounds(rotation, width as int, height as int, x as int, y as int),
    ensures
        r == spec_physical_index(rotation, width as int, height as int, x as int, y as int),
        r < width * height,
{
    proof {
        lemma_physical_index_bijective(rotation, width as int, height as int, x as int, y as int, x as int, y as int);
        assert(width * height <= 0xFFFF_FFFF) by (nonlinear_arith)
            requires width <= 0xFFFF, height <= 0xFFFF;
    }
    let w = width as usize;
    let h = height as usize;
    match rotation {
        Rotation::Deg0 => y * w + x,
        Rotation::Deg90 => x * w + (w - 1 - y),
        Rotation::Deg180 => (h - 1 - y) * w + (w - 1 - x),
        Rotation::Deg270 => (h - 1 - x) * w + y,
    }
}

/// Masking an ink index to three bits keeps it below eight.
pub proof fn lemma_mask_ink(c: u8)
    ensures
        c & 7 < 8,
        c & 7 == c % 8,
{
    assert(c & 7 < 8 && c & 7 == c % 8) by (bit_vector);
}

/// The buffers of a resize from an image `src_width` wide to a panel of
/// `width` x `height` (either way round) fit in memory.
pub open spec fn resize_fits(src_width: u32, width: u16, height: u16) -> bool {
    let m = if width > height { width as int } else { height as int };
    &&& src_width * m * 4 <= usize::MAX
    &&& width * height * 3 <= usize::MAX
}

/// Tests `resize_fits`.
pub fn check_resize_fits(src_width: u32, width: u16, height: u16) -> (r: bool)
    ensures
        r == resize_fits(src_width, width, height),
{
    let m: u128 = if width > height { width as u128 } else { height as u128 };
    assert(src_width * m * 4 <= 0xFFFF_FFFF_FFFF_FFFF_FFFF && width * height * 3 <= 0xFFFF_FFFF_FFFF)
        by (nonlinear_arith)
        requires src_width <= 0xFFFF_FFFF, m <= 0xFFFF, width <= 0xFFFF, height <= 0xFFFF;
    let a: u128 = src_width as u128 * m * 4;
    let b: u128 = width as u128 * height as u128 * 3;
    a <= usize::MAX as u128 && b <= usize::MAX as u128
}

/// A calibrated base rotation (none counts as 0) followed by a user-chosen
/// angle; a user angle that is not a whole number of quarter turns counts
/// as 0.
pub fn combine_rotation(calibrated: Option<Rotation>, user_deg: u16) -> (r: Rotation)
    ensures
        r.spec_degrees() == ((match calibrated {
            Some(c) => c.spec_degrees(),
            None => 0,
        }) + (if (user_deg % 360) % 90 == 0 {
            user_deg % 360
        } else {
            0
        })) % 360,
{
    let base: u16 = match calibrated {
        Some(c) => c.degrees(),
        None => 0,
    };
    let user: u16 = match user_deg % 360 {
        0 => 0,
        90 => 90,
        180 => 180,
        270 => 270,
        _ => 0,
    };
    match (base + user) % 360 {
        0 => Rotation::Deg0,
        90 => Rotation::Deg90,
        180 => Rotation::Deg180,
        _ => Rotation::Deg270,
    }
}

/// Where a calibration arrow, drawn pointing up, was seen on the panel.
#[derive(Clone, Copy, Debug, PartialEq, Eq, Structural)]
pub enum ArrowDirection {
    Up,
    Right,
    Down,
    Left,
}

/// The rotation that turns an arrow seen pointing `seen` back to pointing
/// up: the reverse of the turn it underwent.
pub fn calibration_rotation(seen: ArrowDirection) -> (r: Rotation)
    ensures
        r.spec_degrees() == match seen {
            ArrowDirection::Up => 0int,
            ArrowDirection::Right => 270,
            ArrowDirection::Down => 180,
            ArrowDirection::Left => 90,
        },
{
    match seen {
        ArrowDirection::Up => Rotation::Deg0,
        ArrowDirection::Right => Rotation::Deg270,
        ArrowDirection::Down => Rotation::Deg180,
        ArrowDirection::Left => Rotation::Deg90,
    }
}

} // verus!
