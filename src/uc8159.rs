use vstd::prelude::*;

use crate::common::{
    clamp_aspect_resize, lemma_mask_ink, lighten_image_in_place, logical_in_bounds,
    logical_to_physical_index, pack_buffer_nibbles, packed_nibbles, spec_logical_size,
    spec_physical_index, spec_prepared, Rgb8Image, Rotation,
};
use crate::error::InkyError;
use crate::protocol::{
    chunk_writes, push_chunked, push_step, steps_view, BusStep, OutputLine, ShowPlan, StepView,
};
use crate::quantize::{
    blend_palette, clamp_saturation, dither_into, dither_upto, lemma_dither_indices_in_range,
    spec_working, working_from_rgb, Channels, Rgb8,
};

verus! {

pub const UC8159_PSR: u8 = 0x00;
pub const UC8159_PWR: u8 = 0x01;
pub const UC8159_POF: u8 = 0x02;
pub const UC8159_PFS: u8 = 0x03;
pub const UC8159_PON: u8 = 0x04;
pub const UC8159_DTM1: u8 = 0x10;
pub const UC8159_DRF: u8 = 0x12;
pub const UC8159_PLL: u8 = 0x30;
pub const UC8159_TSE: u8 = 0x41;
pub const UC8159_CDI: u8 = 0x50;
pub const UC8159_TCON: u8 = 0x60;
pub const UC8159_TRES: u8 = 0x61;
pub const UC8159_DAM: u8 = 0x65;
pub const UC8159_PWS: u8 = 0xE3;

/// Number of inks of the seven-colour panel.
pub const UC8159_COLOURS: u8 = 7;

/// GPIO line numbers of the panel's control lines.
#[derive(Clone, Copy, Debug, PartialEq, Eq, Structural)]
pub struct Pins {
    pub cs: u32,
    pub dc: u32,
    pub reset: u32,
    pub busy: u32,
}

impl Default for Pins {
    fn default() -> (r: Self)
        ensures
            r == (Pins { cs: 8, dc: 22, reset: 27, busy: 17 }),
    {
        Pins { cs: 8, dc: 22, reset: 27, busy: 17 }
    }
}

/// Construction parameters of a seven-colour panel.
#[derive(Clone, Debug)]
pub struct InkyUc8159Config {
    pub width: u16,
    pub height: u16,
    pub spi_path: String,
    pub gpio_chip: String,
    pub pins: Pins,
    pub border_colour: u8,
    pub rotation: Rotation,
}

impl Default for InkyUc8159Config {
    fn default() -> (r: Self)
        ensures
            r.width == 600 && r.height == 448,
            r.spi_path@ == "/dev/spidev0.0"@,
            r.gpio_chip@ == "/dev/gpiochip0"@,
            r.pins == (Pins { cs: 8, dc: 22, reset: 27, busy: 17 }),
            r.border_colour == 1,
            r.rotation == Rotation::Deg0,
    {
        InkyUc8159Config {
            width: 600,
            height: 448,
            spi_path: String::from_str("/dev/spidev0.0"),
            gpio_chip: String::from_str("/dev/gpiochip0"),
            pins: Pins::default(),
            border_colour: 1,
            rotation: Rotation::Deg0,
        }
    }
}

/// Resolution setting bits of the panel-setting register for a supported
/// resolution.
pub open spec fn spec_resolution_setting(width: u16, height: u16) -> Option<u8> {
    if width == 600 && height == 448 {
        Some(3u8)
    } else if width == 640 && height == 400 {
        Some(2u8)
    } else {
        None
    }
}

/// Saturated form of each ink, in palette order.
pub open spec fn saturated_palette() -> Seq<Rgb8> {
    seq![(57u8, 48u8, 57u8), (255u8, 255u8, 255u8), (58u8, 91u8, 70u8), (61u8, 59u8, 94u8), (156u8, 72u8, 75u8), (208u8, 190u8, 71u8), (177u8, 106u8, 73u8)]
}

/// Desaturated form of each ink, in palette order.
pub open spec fn desaturated_palette() -> Seq<Rgb8> {
    seq![(0u8, 0u8, 0u8), (255u8, 255u8, 255u8), (0u8, 255u8, 0u8), (0u8, 0u8, 255u8), (255u8, 0u8, 0u8), (255u8, 255u8, 0u8), (255u8, 140u8, 0u8)]
}

/// Palette index to wire index: the identity for this controller.
pub open spec fn remap_table() -> Seq<u8> {
    seq![0u8, 1u8, 2u8, 3u8, 4u8, 5u8, 6u8]
}

fn saturated_entries() -> (r: Vec<Rgb8>)
    ensures
        r@ == saturated_palette(),
{
    let r = vec![(57u8, 48u8, 57u8), (255u8, 255u8, 255u8), (58u8, 91u8, 70u8), (61u8, 59u8, 94u8), (156u8, 72u8, 75u8), (208u8, 190u8, 71u8), (177u8, 106u8, 73u8)];
    assert(r@ =~= saturated_palette());
    r
}

fn desaturated_entries() -> (r: Vec<Rgb8>)
    ensures
        r@ == desaturated_palette(),
{
    let r = vec![(0u8, 0u8, 0u8), (255u8, 255u8, 255u8), (0u8, 255u8, 0u8), (0u8, 0u8, 255u8), (255u8, 0u8, 0u8), (255u8, 255u8, 0u8), (255u8, 140u8, 0u8)];
    assert(r@ =~= desaturated_palette());
    r
}

fn remap_entries() -> (r: Vec<u8>)
    ensures
        r@ == remap_table(),
{
    let r = vec![0u8, 1u8, 2u8, 3u8, 4u8, 5u8, 6u8];
    assert(r@ =~= remap_table());
    r
}

/// The working palette at a saturation, entry by entry.
pub open spec fn uc8159_palette(saturation: u32) -> Seq<Channels> {
    Seq::new(
        7,
        |i: int|
            crate::quantize::blend_entry(
                saturated_palette()[i],
                desaturated_palette()[i],
                clamp_saturation(saturation),
            ),
    )
}

/// The working palette at a saturation (`FIXED_ONE` is fully saturated).
pub fn build_palette(saturation: u32) -> (r: Vec<Channels>)
    ensures
        r@ == uc8159_palette(saturation),
        r@.len() == 7,
        forall|i: int|
            0 <= i < 7 ==> #[trigger] r@[i] == crate::quantize::blend_entry(
                saturated_palette()[i],
                desaturated_palette()[i],
                clamp_saturation(saturation),
            ),
        crate::quantize::all_colours_ok(r@),
{
    let sat = saturated_entries();
    let desat = desaturated_entries();
    let r = blend_palette(sat.as_slice(), desat.as_slice(), saturation);
    assert(r@ =~= uc8159_palette(saturation));
    r
}

/// Mathematical state of a seven-colour panel driver.
pub struct Uc8159View {
    pub width: u16,
    pub height: u16,
    pub resolution_setting: u8,
    pub buffer: Seq<u8>,
    pub border_colour: u8,
    pub initialised: bool,
    pub rotation: Rotation,
}

/// Driver state of a seven-colour UC8159 panel: its native frame buffer and
/// the protocol state.  The serial bus and control lines are the host's.
#[derive(Debug)]
pub struct InkyUc8159 {
    width: u16,
    height: u16,
    resolution_setting: u8,
    buffer: Vec<u8>,
    border_colour: u8,
    initialised: bool,
    rotation: Rotation,
}

impl View for InkyUc8159 {
    type V = Uc8159View;

    closed spec fn view(&self) -> Uc8159View {
        Uc8159View {
            width: self.width,
            height: self.height,
            resolution_setting: self.resolution_setting,
            buffer: self.buffer@,
            border_colour: self.border_colour,
            initialised: self.initialised,
            rotation: self.rotation,
        }
    }
}

/// The invariant of a driver: a supported resolution, a buffer of exactly
/// one entry per native pixel, and a border colour within the inks.
pub open spec fn uc8159_wf(v: Uc8159View) -> bool {
    &&& spec_resolution_setting(v.width, v.height) == Some(v.resolution_setting)
    &&& v.buffer.len() == v.width * v.height
    &&& v.border_colour < 8
}

impl InkyUc8159 {
    /// The driver's invariant holds.
    pub open spec fn wf(&self) -> bool {
        uc8159_wf(self@)
    }

    /// A driver for a panel of the configured size; only 600x448 and
    /// 640x400 are supported.  The buffer starts all zero and the panel
    /// uninitialised.
    pub fn new(config: InkyUc8159Config) -> (r: Result<InkyUc8159, InkyError>)
        ensures
            spec_resolution_setting(config.width, config.height) is None <==> r is Err,
            r matches Err(e) ==> e == InkyError::UnsupportedResolution(config.width, config.height),
            r matches Ok(d) ==> {
                &&& d.wf()
                &&& d@.width == config.width
                &&& d@.height == config.height
                &&& d@.resolution_setting == spec_resolution_setting(config.width, config.height)->0
                &&& d@.buffer == Seq::new((config.width * config.height) as nat, |i: int| 0u8)
                &&& d@.border_colour == config.border_colour & 7
                &&& !d@.initialised
                &&& d@.rotation == config.rotation
            },
    {
        let resolution_setting: u8 = if config.width == 600 && config.height == 448 {
            3
        } else if config.width == 640 && config.height == 400 {
            2
        } else {
            return Err(InkyError::UnsupportedResolution(config.width, config.height));
        };
        let n: usize = config.width as usize * config.height as usize;
        let buffer: Vec<u8> = vec![0u8; n];
        assert(buffer@ =~= Seq::new((config.width * config.height) as nat, |i: int| 0u8));
        let border_colour = config.border_colour & 7;
        proof {
            lemma_mask_ink(config.border_colour);
        }
        Ok(InkyUc8159 {
            width: config.width,
            height: config.height,
            resolution_setting,
            buffer,
            border_colour,
            initialised: false,
            rotation: config.rotation,
        })
    }

    pub fn width(&self) -> (r: u16)
        requires
            self.wf(),
        ensures
            r == self@.width,
    {
        self.width
    }

    pub fn height(&self) -> (r: u16)
        requires
            self.wf(),
        ensures
            r == self@.height,
    {
        self.height
    }

    pub fn rotation(&self) -> (r: Rotation)
        requires
            self.wf(),
        ensures
            r == self@.rotation,
    {
        self.rotation
    }

    pub fn set_rotation(&mut self, rotation: Rotation)
        requires
            old(self).wf(),
        ensures
            final(self).wf(),
            final(self)@ == (Uc8159View { rotation, ..old(self)@ }),
    {
        self.rotation = rotation;
    }

    /// Logical size that callers draw in: width and height swap at 90 and
    /// 270 degrees.
    pub fn input_dimensions(&self) -> (r: (u16, u16))
        requires
            self.wf(),
        ensures
            (r.0 as int, r.1 as int) == spec_logical_size(
                self@.rotation,
                self@.width as int,
                self@.height as int,
            ),
    {
        self.rotation.target_dimensions(self.width, self.height)
    }

    /// The native frame buffer, one ink index per pixel.
    pub fn buffer(&self) -> (r: &[u8])
        requires
            self.wf(),
        ensures
            r@ == self@.buffer,
    {
        self.buffer.as_slice()
    }

    /// Mutable access to the native frame buffer; its length cannot change.
    pub fn buffer_mut(&mut self) -> (r: &mut [u8])
        ensures
            r@ == old(self)@.buffer,
            final(self)@ == (Uc8159View { buffer: final(r)@, ..old(self)@ }),
    {
        self.buffer.as_mut_slice()
    }

    /// Fills the buffer with one ink (masked to three bits).
    pub fn clear(&mut self, colour: u8)
        requires
            old(self).wf(),
        ensures
            final(self).wf(),
            final(self)@ == (Uc8159View {
                buffer: Seq::new(old(self)@.buffer.len(), |i: int| colour & 7),
                ..old(self)@
            }),
    {
        let value = colour & 7;
        let n = self.buffer.len();
        let mut fresh: Vec<u8> = Vec::with_capacity(n);
        let mut i: usize = 0;
        while i < n
            invariant
                i <= n,
                fresh@.len() == i,
                forall|j: int| 0 <= j < i ==> #[trigger] fresh@[j] == value,
            decreases n - i,
        {
            fresh.push(value);
            i = i + 1;
        }
        assert(fresh@ =~= Seq::new(n as nat, |i: int| colour & 7));
        self.buffer = fresh;
    }

    /// Sets the logical pixel `(x, y)` to an ink (masked to three bits);
    /// coordinates outside the rotated panel are ignored.
    pub fn set_pixel(&mut self, x: usize, y: usize, colour: u8)
        requires
            old(self).wf(),
        ensures
            final(self).wf(),
            logical_in_bounds(old(self)@.rotation, old(self)@.width as int, old(self)@.height as int, x as int, y as int)
                ==> final(self)@ == (Uc8159View {
                buffer: old(self)@.buffer.update(
                    spec_physical_index(
                        old(self)@.rotation,
                        old(self)@.width as int,
                        old(self)@.height as int,
                        x as int,
                        y as int,
                    ),
                    colour & 7,
                ),
                ..old(self)@
            }),
            !logical_in_bounds(old(self)@.rotation, old(self)@.width as int, old(self)@.height as int, x as int, y as int)
                ==> final(self)@ == old(self)@,
    {
        let (lw, lh) = self.input_dimensions();
        if x >= lw as usize || y >= lh as usize {
            return;
        }
        let index = logical_to_physical_index(self.rotation, self.width, self.height, x, y);
        self.buffer.set(index, colour & 7);
    }

    /// Sets the border ink (masked to three bits); a change makes the next
    /// show re-run initialisation.
    pub fn set_border(&mut self, colour: u8)
        requires
            old(self).wf(),
        ensures
            final(self).wf(),
            final(self)@ == (if colour & 7 == old(self)@.border_colour {
                old(self)@
            } else {
                Uc8159View { border_colour: colour & 7, initialised: false, ..old(self)@ }
            }),
    {
        let value = colour & 7;
        proof {
            lemma_mask_ink(colour);
        }
        if self.border_colour != value {
            self.border_colour = value;
            self.initialised = false;
        }
    }

    /// Loads a whole logical image of ink indices (row-major in the rotated
    /// frame), each masked to three bits.  The length must be the logical
    /// width times height.
    pub fn set_buffer(&mut self, data: &[u8]) -> (r: Result<(), InkyError>)
        requires
            old(self).wf(),
        ensures
            final(self).wf(),
            ({
                let (lw, lh) = spec_logical_size(old(self)@.rotation, old(self)@.width as int, old(self)@.height as int);
                &&& data@.len() != lw * lh <==> r is Err
                &&& r matches Err(e) ==> e == InkyError::InvalidBufferSize {
                    expected: (lw * lh) as usize,
                    received: data@.len() as usize,
                }
                &&& r is Err ==> final(self)@ == old(self)@
                &&& r is Ok ==> {
                    &&& final(self)@ == (Uc8159View { buffer: final(self)@.buffer, ..old(self)@ })
                    &&& final(self)@.buffer.len() == old(self)@.buffer.len()
                    &&& forall|x: int, y: int|
                        0 <= x < lw && 0 <= y < lh ==> #[trigger] final(self)@.buffer[spec_physical_index(
                            old(self)@.rotation,
                            old(self)@.width as int,
                            old(self)@.height as int,
                            x,
                            y,
                        )] == data@[y * lw + x] & 7
                }
            }),
    {
        let (lw16, lh16) = self.input_dimensions();
        let lw = lw16 as usize;
        let lh = lh16 as usize;
        assert(lw * lh <= 0xFFFF_FFFF) by (nonlinear_arith)
            requires lw <= 0xFFFF, lh <= 0xFFFF;
        let expected = lw * lh;
        if data.len() != expected {
            return Err(InkyError::InvalidBufferSize { expected, received: data.len() });
        }
        let ghost rot = self.rotation;
        let ghost w = self.width as int;
        let ghost h = self.height as int;
        let mut idx: usize = 0;
        while idx < data.len()
            invariant
                uc8159_wf(self@),
                self@.rotation == rot,
                self@.width == w,
                self@.height == h,
                self@ == (Uc8159View { buffer: self@.buffer, ..old(self)@ }),
                (lw as int, lh as int) == spec_logical_size(rot, w, h),
                data@.len() == lw * lh,
                lw > 0,
                idx <= data@.len(),
                forall|x: int, y: int|
                    0 <= x < lw && 0 <= y < lh && y * lw + x < idx ==> #[trigger] self@.buffer[spec_physical_index(rot, w, h, x, y)]
                        == data@[y * lw + x] & 7,
            decreases data@.len() - idx,
        {
            let x = idx % lw;
            let y = idx / lw;
            proof {
                assert(y * lw + x == idx) by (nonlinear_arith)
                    requires x == idx % lw, y == idx / lw, lw > 0;
                assert(y < lh) by (nonlinear_arith)
                    requires y == idx / lw, idx < lw * lh, lw > 0;
            }
            let physical = logical_to_physical_index(self.rotation, self.width, self.height, x, y);
            let ghost before = self@.buffer;
            self.buffer.set(physical, data[idx] & 7);
            proof {
                assert forall|xx: int, yy: int|
                    0 <= xx < lw && 0 <= yy < lh && yy * lw + xx < idx + 1 implies #[trigger] self@.buffer[spec_physical_index(rot, w, h, xx, yy)]
                        == data@[yy * lw + xx] & 7 by {
                    crate::common::lemma_physical_index_bijective(rot, w, h, xx, yy, x as int, y as int);
                    crate::common::lemma_row_major_unique(lw as int, lh as int, xx, yy, x as int, y as int);
                }
            }
            idx = idx + 1;
        }
        assert forall|x: int, y: int| 0 <= x < lw && 0 <= y < lh implies #[trigger] self@.buffer[spec_physical_index(rot, w, h, x, y)]
            == data@[y * lw + x] & 7 by {
            crate::common::lemma_row_major_unique(lw as int, lh as int, x, y, x, y);
        }
        Ok(())
    }

    /// The image prepared for quantization: cropped and resized to the
    /// logical size, then turned into the native orientation.  Fails only
    /// when the resize's working buffers would not fit in memory.
    pub fn prepare_image(&self, image: &Rgb8Image) -> (r: Result<Rgb8Image, InkyError>)
        requires
            self.wf(),
        ensures
            r matches Ok(p) ==> p.spec_width() == self@.width && p.spec_height() == self@.height
                && p.spec_data() == spec_prepared(self@.rotation, self@.width, self@.height, *image),
            r matches Err(e) ==> e is InvalidImageDimensions,
            r is Err <==> !crate::common::resize_fits(image.spec_width(), self@.width, self@.height),
    {
        let (tw, th) = self.input_dimensions();
        if !crate::common::check_resize_fits(image.width(), self.width, self.height) {
            return Err(InkyError::InvalidImageDimensions {
                expected: (tw, th),
                received: (image.width(), image.height()),
            });
        }
        let ghost m: int = if self.width > self.height { self.width as int } else { self.height as int };
        assert(image.spec_width() * th * 4 <= image.spec_width() * m * 4) by (nonlinear_arith)
            requires th <= m, 0 <= image.spec_width();
        assert(tw * th * 3 == self.width * self.height * 3) by (nonlinear_arith)
            requires (tw == self.width && th == self.height) || (tw == self.height && th == self.width);
        let prepared = clamp_aspect_resize(image, tw as u32, th as u32);
        Ok(self.rotation.apply(prepared))
    }

    /// Quantizes a native-size RGB image into the buffer with the given
    /// working palette (seven entries, palette index = ink index).
    pub fn quantize_into_buffer(&mut self, rgb: &Rgb8Image, palette: &[Channels])
        requires
            old(self).wf(),
            rgb.spec_width() == old(self)@.width,
            rgb.spec_height() == old(self)@.height,
            palette@.len() == 7,
            crate::quantize::all_colours_ok(palette@),
        ensures
            final(self).wf(),
            final(self)@ == (Uc8159View { buffer: final(self)@.buffer, ..old(self)@ }),
            final(self)@.buffer == dither_upto(
                palette@,
                remap_table(),
                old(self)@.width as int,
                old(self)@.height as int,
                spec_working(rgb.spec_data()),
                old(self)@.buffer,
                old(self)@.width * old(self)@.height,
            ).1,
            forall|i: int| 0 <= i < final(self)@.buffer.len() ==> #[trigger] final(self)@.buffer[i] < UC8159_COLOURS,
    {
        let bytes = rgb.as_bytes();
        let working = working_from_rgb(bytes);
        let remap = remap_entries();
        let ghost work0 = working@;
        let ghost buf0 = self.buffer@;
        let w = self.width as usize;
        let h = self.height as usize;
        dither_into(working, palette, remap.as_slice(), w, h, &mut self.buffer);
        proof {
            crate::quantize::lemma_dither_channels_in_range(palette@, remap@, w as int, h as int, work0, buf0, (w * h) as int);
            lemma_dither_indices_in_range(palette@, remap@, w as int, h as int, work0, buf0, (w * h) as int, 7);
        }
    }

    /// Fills the buffer from an image: prepared for the panel, mapped
    /// through the tone curve `lighten`, then quantized against the palette
    /// at the given saturation (`FIXED_ONE` is fully saturated).
    pub fn set_image(&mut self, image: &Rgb8Image, saturation: u32, lighten: &[u8; 256]) -> (r: Result<(), InkyError>)
        requires
            old(self).wf(),
        ensures
            final(self).wf(),
            r is Err <==> !crate::common::resize_fits(image.spec_width(), old(self)@.width, old(self)@.height),
            r matches Err(e) ==> e is InvalidImageDimensions,
            r is Err ==> final(self)@ == old(self)@,
            final(self)@ == (Uc8159View { buffer: final(self)@.buffer, ..old(self)@ }),
            final(self)@.buffer.len() == old(self)@.buffer.len(),
            r is Ok ==> forall|i: int| 0 <= i < final(self)@.buffer.len() ==> #[trigger] final(self)@.buffer[i] < UC8159_COLOURS,
            r is Ok ==> final(self)@.buffer == dither_upto(
                uc8159_palette(saturation),
                remap_table(),
                old(self)@.width as int,
                old(self)@.height as int,
                spec_working(
                    crate::common::spec_toned(
                        spec_prepared(old(self)@.rotation, old(self)@.width, old(self)@.height, *image),
                        lighten@,
                    ),
                ),
                old(self)@.buffer,
                old(self)@.width * old(self)@.height,
            ).1,
    {
        let mut rgb = match self.prepare_image(image) {
            Ok(p) => p,
            Err(e) => return Err(e),
        };
        lighten_image_in_place(&mut rgb, lighten);
        let palette = build_palette(saturation);
        self.quantize_into_buffer(&rgb, palette.as_slice());
        Ok(())
    }
}

/// Framing of one serial transfer: the data/command line set for the kind of
/// payload, chip-select asserted (low), the payload in chunks, chip-select
/// released.
pub open spec fn spi_frame(is_data: bool, payload: Seq<u8>) -> Seq<StepView> {
    seq![
        StepView::SetLine(OutputLine::DataCommand, if is_data { 1u8 } else { 0u8 }),
        StepView::SetLine(OutputLine::ChipSelect, 0u8),
    ] + chunk_writes(payload) + seq![StepView::SetLine(OutputLine::ChipSelect, 1u8)]
}

/// A command: its opcode as a command transfer, then its parameters (if
/// any) as a data transfer.
pub open spec fn uc_command(opcode: u8, data: Seq<u8>) -> Seq<StepView> {
    spi_frame(false, seq![opcode]) + if data.len() == 0 {
        Seq::<StepView>::empty()
    } else {
        spi_frame(true, data)
    }
}

/// Initialisation: reset pulse, a soft wait on the busy line, then the
/// controller's fixed register sequence.
pub open spec fn uc8159_init_steps(v: Uc8159View) -> Seq<StepView> {
    seq![
        StepView::SetLine(OutputLine::Reset, 0u8),
        StepView::Sleep(100u64),
        StepView::SetLine(OutputLine::Reset, 1u8),
        StepView::Sleep(100u64),
        StepView::WaitBusy(1000u64, false),
    ] + uc_command(
        UC8159_TRES,
        seq![(v.width / 256) as u8, (v.width % 256) as u8, (v.height / 256) as u8, (v.height % 256) as u8],
    ) + uc_command(UC8159_PSR, seq![(v.resolution_setting * 64 + 0x2F) as u8, 0x08u8]) + uc_command(
        UC8159_PWR,
        seq![0x37u8, 0x00u8, 0x23u8, 0x23u8],
    ) + uc_command(UC8159_PLL, seq![0x3Cu8]) + uc_command(UC8159_TSE, seq![0x00u8]) + uc_command(
        UC8159_CDI,
        seq![(v.border_colour * 32 + 0x17) as u8],
    ) + uc_command(UC8159_TCON, seq![0x22u8]) + uc_command(UC8159_DAM, seq![0x00u8])
        + uc_command(UC8159_PWS, seq![0xAAu8]) + uc_command(UC8159_PFS, seq![0x00u8])
}

/// Frame transfer: the nibble-packed buffer, power on (soft wait), refresh
/// (hard wait of 32 s), power off (soft wait).
pub open spec fn uc8159_transfer_steps(v: Uc8159View) -> Seq<StepView> {
    uc_command(UC8159_DTM1, packed_nibbles(v.buffer)) + uc_command(UC8159_PON, seq![])
        + seq![StepView::WaitBusy(200u64, false)] + uc_command(UC8159_DRF, seq![])
        + seq![StepView::WaitBusy(32000u64, true)] + uc_command(UC8159_POF, seq![])
        + seq![StepView::WaitBusy(200u64, false)]
}

fn push_frame(steps: &mut Vec<BusStep>, is_data: bool, payload: &[u8])
    ensures
        steps_view(final(steps)@) == steps_view(old(steps)@) + spi_frame(is_data, payload@),
{
    let ghost start = steps_view(steps@);
    push_step(steps, BusStep::SetLine { line: OutputLine::DataCommand, value: if is_data { 1 } else { 0 } });
    push_step(steps, BusStep::SetLine { line: OutputLine::ChipSelect, value: 0 });
    push_chunked(steps, payload);
    push_step(steps, BusStep::SetLine { line: OutputLine::ChipSelect, value: 1 });
    assert(steps_view(steps@) =~= start + spi_frame(is_data, payload@));
}

fn push_command(steps: &mut Vec<BusStep>, opcode: u8, data: &[u8])
    ensures
        steps_view(final(steps)@) == steps_view(old(steps)@) + uc_command(opcode, data@),
{
    let ghost start = steps_view(steps@);
    let op = vec![opcode];
    assert(op@ =~= seq![opcode]);
    push_frame(steps, false, op.as_slice());
    if data.len() > 0 {
        push_frame(steps, true, data);
    }
    assert(steps_view(steps@) =~= start + uc_command(opcode, data@));
}

impl InkyUc8159 {
    /// Decodes image bytes, applies their embedded orientation, and fills
    /// the buffer from the result as `set_image` does.
    pub fn set_image_from_bytes(&mut self, bytes: &[u8], saturation: u32, lighten: &[u8; 256]) -> (r: Result<(), InkyError>)
        requires
            old(self).wf(),
        ensures
            final(self).wf(),
            crate::common::decoded_rgb(bytes@) is None ==> (r matches Err(e) && e is Image),
            crate::common::decoded_rgb(bytes@) matches Some((w, h, data)) ==> {
                let (ow, oh) = crate::common::oriented_size(bytes@, w, h);
                &&& r is Ok <==> crate::common::resize_fits(ow, old(self)@.width, old(self)@.height)
                &&& r matches Err(e) ==> e is InvalidImageDimensions
                &&& r is Ok ==> final(self)@.buffer == dither_upto(
                    uc8159_palette(saturation),
                    remap_table(),
                    old(self)@.width as int,
                    old(self)@.height as int,
                    spec_working(
                        crate::common::spec_toned(
                            crate::common::spec_prepared_raw(
                                old(self)@.rotation,
                                old(self)@.width,
                                old(self)@.height,
                                ow,
                                oh,
                                crate::common::oriented_bytes(bytes@, w, h, data),
                            ),
                            lighten@,
                        ),
                    ),
                    old(self)@.buffer,
                    old(self)@.width * old(self)@.height,
                ).1
            },
            r is Err ==> final(self)@ == old(self)@,
            final(self)@ == (Uc8159View { buffer: final(self)@.buffer, ..old(self)@ }),
            r is Ok ==> forall|i: int| 0 <= i < final(self)@.buffer.len() ==> #[trigger] final(self)@.buffer[i] < UC8159_COLOURS,
    {
        let image = match crate::common::load_image_respecting_exif(bytes) {
            Ok(img) => img,
            Err(e) => return Err(e),
        };
        self.set_image(&image, saturation, lighten)
    }

    /// Steps that initialise the controller.
    pub fn initialise_plan(&self) -> (r: Vec<BusStep>)
        requires
            self.wf(),
        ensures
            steps_view(r@) == uc8159_init_steps(self@),
    {
        let mut steps: Vec<BusStep> = Vec::new();
        assert(steps_view(steps@) =~= Seq::<StepView>::empty());
        push_step(&mut steps, BusStep::SetLine { line: OutputLine::Reset, value: 0 });
        push_step(&mut steps, BusStep::Sleep { millis: 100 });
        push_step(&mut steps, BusStep::SetLine { line: OutputLine::Reset, value: 1 });
        push_step(&mut steps, BusStep::Sleep { millis: 100 });
        push_step(&mut steps, BusStep::WaitBusy { millis: 1000, fatal: false });
        let w = self.width;
        let h = self.height;
        let tres = vec![(w / 256) as u8, (w % 256) as u8, (h / 256) as u8, (h % 256) as u8];
        push_command(&mut steps, UC8159_TRES, tres.as_slice());
        let psr = vec![self.resolution_setting * 64 + 0x2F, 0x08];
        push_command(&mut steps, UC8159_PSR, psr.as_slice());
        let pwr = vec![0x37u8, 0x00, 0x23, 0x23];
        push_command(&mut steps, UC8159_PWR, pwr.as_slice());
        let pll = vec![0x3Cu8];
        push_command(&mut steps, UC8159_PLL, pll.as_slice());
        let tse = vec![0x00u8];
        push_command(&mut steps, UC8159_TSE, tse.as_slice());
        let cdi = vec![self.border_colour * 32 + 0x17];
        push_command(&mut steps, UC8159_CDI, cdi.as_slice());
        let tcon = vec![0x22u8];
        push_command(&mut steps, UC8159_TCON, tcon.as_slice());
        let dam = vec![0x00u8];
        push_command(&mut steps, UC8159_DAM, dam.as_slice());
        let pws = vec![0xAAu8];
        push_command(&mut steps, UC8159_PWS, pws.as_slice());
        let pfs = vec![0x00u8];
        push_command(&mut steps, UC8159_PFS, pfs.as_slice());
        proof {
            assert(tres@ =~= seq![(w / 256) as u8, (w % 256) as u8, (h / 256) as u8, (h % 256) as u8]);
            assert(psr@ =~= seq![(self.resolution_setting * 64 + 0x2F) as u8, 0x08u8]);
            assert(pwr@ =~= seq![0x37u8, 0x00u8, 0x23u8, 0x23u8]);
            assert(pll@ =~= seq![0x3Cu8]);
            assert(tse@ =~= seq![0x00u8]);
            assert(cdi@ =~= seq![(self.border_colour * 32 + 0x17) as u8]);
            assert(tcon@ =~= seq![0x22u8]);
            assert(dam@ =~= seq![0x00u8]);
            assert(pws@ =~= seq![0xAAu8]);
            assert(pfs@ =~= seq![0x00u8]);
            assert(steps_view(steps@) =~= uc8159_init_steps(self@));
        }
        steps
    }

    /// Steps that transfer the frame buffer and refresh the panel.
    pub fn transfer_plan(&self) -> (r: Vec<BusStep>)
        requires
            self.wf(),
        ensures
            steps_view(r@) == uc8159_transfer_steps(self@),
    {
        let mut steps: Vec<BusStep> = Vec::new();
        assert(steps_view(steps@) =~= Seq::<StepView>::empty());
        let packed = pack_buffer_nibbles(self.buffer.as_slice());
        let none: Vec<u8> = Vec::new();
        assert(none@ =~= Seq::<u8>::empty());
        push_command(&mut steps, UC8159_DTM1, packed.as_slice());
        push_command(&mut steps, UC8159_PON, none.as_slice());
        push_step(&mut steps, BusStep::WaitBusy { millis: 200, fatal: false });
        push_command(&mut steps, UC8159_DRF, none.as_slice());
        push_step(&mut steps, BusStep::WaitBusy { millis: 32000, fatal: true });
        push_command(&mut steps, UC8159_POF, none.as_slice());
        push_step(&mut steps, BusStep::WaitBusy { millis: 200, fatal: false });
        assert(steps_view(steps@) =~= uc8159_transfer_steps(self@));
        steps
    }

    /// The work of `show`: initialisation first when the panel is not
    /// initialised, then the transfer.
    pub fn show_plan(&self) -> (r: ShowPlan)
        requires
            self.wf(),
        ensures
            self@.initialised ==> r.initialise is None,
            !self@.initialised ==> (r.initialise matches Some(init) && steps_view(init@)
                == uc8159_init_steps(self@)),
            steps_view(r.transfer@) == uc8159_transfer_steps(self@),
    {
        let initialise = if self.initialised {
            None
        } else {
            Some(self.initialise_plan())
        };
        ShowPlan { initialise, transfer: self.transfer_plan() }
    }

    /// Records that the initialisation steps completed.
    pub fn mark_initialised(&mut self)
        requires
            old(self).wf(),
        ensures
            final(self).wf(),
            final(self)@ == (Uc8159View { initialised: true, ..old(self)@ }),
    {
        self.initialised = true;
    }

    /// Whether the controller has been initialised since the last change
    /// that requires it.
    pub fn is_initialised(&self) -> (r: bool)
        ensures
            r == self@.initialised,
    {
        self.initialised
    }
}

} // verus!
