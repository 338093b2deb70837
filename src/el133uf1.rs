use vstd::prelude::*;

use crate::common::{
    clamp_aspect_resize, lighten_image_in_place, logical_in_bounds, logical_to_physical_index,
    pack_luma_nibbles, rotate270_gray, spec_logical_size, spec_pack_luma, spec_physical_index,
    spec_prepared, spec_rotated270_gray, Rgb8Image, Rotation,
};
use crate::error::InkyError;
use crate::protocol::{
    chunk_writes, push_chunked, push_step, steps_view, BusStep, OutputLine, ShowPlan, StepView,
};
use crate::quantize::{
    blend_palette, clamp_saturation, dither_into, dither_upto, lemma_dither_indices_in_range,
    spec_working, working_from_rgb, Channels, Rgb8,
};

verus! {

pub const CS0_SEL: u8 = 0b01;
pub const CS1_SEL: u8 = 0b10;
pub const CS_BOTH_SEL: u8 = 0b11;

pub const EL133UF1_PSR: u8 = 0x00;
pub const EL133UF1_PWR: u8 = 0x01;
pub const EL133UF1_POF: u8 = 0x02;
pub const EL133UF1_PON: u8 = 0x04;
pub const EL133UF1_BTST_N: u8 = 0x05;
pub const EL133UF1_BTST_P: u8 = 0x06;
pub const EL133UF1_DTM: u8 = 0x10;
pub const EL133UF1_DRF: u8 = 0x12;
pub const EL133UF1_PLL: u8 = 0x30;
pub const EL133UF1_CDI: u8 = 0x50;
pub const EL133UF1_TCON: u8 = 0x60;
pub const EL133UF1_TRES: u8 = 0x61;
pub const EL133UF1_AGID: u8 = 0x86;
pub const EL133UF1_PWS: u8 = 0xE3;
pub const EL133UF1_CCSET: u8 = 0xE0;
pub const EL133UF1_CMD66: u8 = 0xF0;
pub const EL133UF1_ANTM: u8 = 0x74;
pub const EL133UF1_EN_BUF: u8 = 0xB6;
pub const EL133UF1_BOOST_VDDP_EN: u8 = 0xB7;
pub const EL133UF1_BUCK_BOOST_VDDN: u8 = 0xB0;
pub const EL133UF1_TFT_VCOM_POWER: u8 = 0xB1;

/// Largest wire index of the six-colour panel's inks.
pub const EL133UF1_MAX_INDEX: u8 = 6;

/// GPIO line numbers of the two-chip panel's control lines.
#[derive(Clone, Copy, Debug, PartialEq, Eq, Structural)]
pub struct SpectraPins {
    pub cs0: u32,
    pub cs1: u32,
    pub dc: u32,
    pub reset: u32,
    pub busy: u32,
}

impl Default for SpectraPins {
    fn default() -> (r: Self)
        ensures
            r == (SpectraPins { cs0: 26, cs1: 16, dc: 22, reset: 27, busy: 17 }),
    {
        SpectraPins { cs0: 26, cs1: 16, dc: 22, reset: 27, busy: 17 }
    }
}

/// Construction parameters of a six-colour two-chip panel.
#[derive(Clone, Debug)]
pub struct InkyEl133Uf1Config {
    pub width: u16,
    pub height: u16,
    pub spi_path: String,
    pub gpio_chip: String,
    pub pins: SpectraPins,
    pub rotation: Rotation,
}

impl Default for InkyEl133Uf1Config {
    fn default() -> (r: Self)
        ensures
            r.width == 1600 && r.height == 1200,
            r.spi_path@ == "/dev/spidev0.0"@,
            r.gpio_chip@ == "/dev/gpiochip0"@,
            r.pins == (SpectraPins { cs0: 26, cs1: 16, dc: 22, reset: 27, busy: 17 }),
            r.rotation == Rotation::Deg0,
    {
        InkyEl133Uf1Config {
            width: 1600,
            height: 1200,
            spi_path: String::from_str("/dev/spidev0.0"),
            gpio_chip: String::from_str("/dev/gpiochip0"),
            pins: SpectraPins::default(),
            rotation: Rotation::Deg0,
        }
    }
}

/// Saturated form of each ink, in palette order.
pub open spec fn saturated_palette() -> Seq<Rgb8> {
    seq![(0u8, 0u8, 0u8), (161u8, 164u8, 165u8), (208u8, 190u8, 71u8), (156u8, 72u8, 75u8), (61u8, 59u8, 94u8), (58u8, 91u8, 70u8)]
}

/// Desaturated form of each ink, in palette order.
pub open spec fn desaturated_palette() -> Seq<Rgb8> {
    seq![(0u8, 0u8, 0u8), (255u8, 255u8, 255u8), (255u8, 255u8, 0u8), (255u8, 0u8, 0u8), (0u8, 0u8, 255u8), (0u8, 255u8, 0u8)]
}

/// Palette index to the controller's wire index.
pub open spec fn remap_table() -> Seq<u8> {
    seq![0u8, 1u8, 2u8, 3u8, 5u8, 6u8]
}

fn saturated_entries() -> (r: Vec<Rgb8>)
    ensures
        r@ == saturated_palette(),
{
    let r = vec![(0u8, 0u8, 0u8), (161u8, 164u8, 165u8), (208u8, 190u8, 71u8), (156u8, 72u8, 75u8), (61u8, 59u8, 94u8), (58u8, 91u8, 70u8)];
    assert(r@ =~= saturated_palette());
    r
}

fn desaturated_entries() -> (r: Vec<Rgb8>)
    ensures
        r@ == desaturated_palette(),
{
    let r = vec![(0u8, 0u8, 0u8), (255u8, 255u8, 255u8), (255u8, 255u8, 0u8), (255u8, 0u8, 0u8), (0u8, 0u8, 255u8), (0u8, 255u8, 0u8)];
    assert(r@ =~= desaturated_palette());
    r
}

fn remap_entries() -> (r: Vec<u8>)
    ensures
        r@ == remap_table(),
{
    let r = vec![0u8, 1u8, 2u8, 3u8, 5u8, 6u8];
    assert(r@ =~= remap_table());
    r
}

/// The working palette at a saturation, entry by entry.
pub open spec fn spectra_palette(saturation: u32) -> Seq<Channels> {
    Seq::new(
        6,
        |i: int|
            crate::quantize::blend_entry(
                saturated_palette()[i],
                desaturated_palette()[i],
                clamp_saturation(saturation),
            ),
    )
}

/// The working palette at a saturation (`FIXED_ONE` is fully saturated).
pub fn blend_spectra_palette(saturation: u32) -> (r: Vec<Channels>)
    ensures
        r@ == spectra_palette(saturation),
        r@.len() == 6,
        forall|i: int|
            0 <= i < 6 ==> #[trigger] r@[i] == crate::quantize::blend_entry(
                saturated_palette()[i],
                desaturated_palette()[i],
                clamp_saturation(saturation),
            ),
        crate::quantize::all_colours_ok(r@),
{
    let sat = saturated_entries();
    let desat = desaturated_entries();
    let r = blend_palette(sat.as_slice(), desat.as_slice(), saturation);
    assert(r@ =~= spectra_palette(saturation));
    r
}

/// Mathematical state of a two-chip panel driver.
pub struct El133Uf1View {
    pub width: u16,
    pub height: u16,
    pub rotation: Rotation,
    pub buffer: Seq<u8>,
    pub initialised: bool,
}

/// Driver state of a six-colour two-chip EL133UF1 panel.
#[derive(Debug)]
pub struct InkyEl133Uf1 {
    width: u16,
    height: u16,
    rotation: Rotation,
    buffer: Vec<u8>,
    initialised: bool,
}

impl View for InkyEl133Uf1 {
    type V = El133Uf1View;

    closed spec fn view(&self) -> El133Uf1View {
        El133Uf1View {
            width: self.width,
            height: self.height,
            rotation: self.rotation,
            buffer: self.buffer@,
            initialised: self.initialised,
        }
    }
}

/// Framing of one command: the selected chip-selects asserted (low), the
/// opcode as a command byte, the parameters (if any) as data in chunks, then
/// both chip-selects released and the data/command line cleared.
pub open spec fn el_command(opcode: u8, select: u8, data: Seq<u8>) -> Seq<StepView> {
    (if select % 2 == 1 {
        seq![StepView::SetLine(OutputLine::ChipSelect0, 0u8)]
    } else {
        Seq::<StepView>::empty()
    }) + (if (select / 2) % 2 == 1 {
        seq![StepView::SetLine(OutputLine::ChipSelect1, 0u8)]
    } else {
        Seq::<StepView>::empty()
    }) + seq![StepView::SetLine(OutputLine::DataCommand, 0u8), StepView::Write(seq![opcode])] + (
    if data.len() == 0 {
        Seq::<StepView>::empty()
    } else {
        seq![StepView::SetLine(OutputLine::DataCommand, 1u8)] + chunk_writes(data)
    }) + seq![
        StepView::SetLine(OutputLine::ChipSelect0, 1u8),
        StepView::SetLine(OutputLine::ChipSelect1, 1u8),
        StepView::SetLine(OutputLine::DataCommand, 0u8),
    ]
}

/// Initialisation: reset pulse, a soft wait, then the fixed register
/// sequence, each command to its chip or to both.
pub open spec fn el133uf1_init_steps() -> Seq<StepView> {
    seq![
        StepView::SetLine(OutputLine::Reset, 0u8),
        StepView::Sleep(30u64),
        StepView::SetLine(OutputLine::Reset, 1u8),
        StepView::Sleep(30u64),
        StepView::WaitBusy(300u64, false),
    ] + el_command(
        EL133UF1_ANTM,
        CS0_SEL,
        seq![0xC0u8, 0x1Cu8, 0x1Cu8, 0xCCu8, 0xCCu8, 0xCCu8, 0x15u8, 0x15u8, 0x55u8],
    ) + el_command(EL133UF1_CMD66, CS_BOTH_SEL, seq![0x49u8, 0x55u8, 0x13u8, 0x5Du8, 0x05u8, 0x10u8])
        + el_command(EL133UF1_PSR, CS_BOTH_SEL, seq![0xDFu8, 0x69u8]) + el_command(
        EL133UF1_PLL,
        CS_BOTH_SEL,
        seq![0x08u8],
    ) + el_command(EL133UF1_CDI, CS_BOTH_SEL, seq![0xF7u8]) + el_command(
        EL133UF1_TCON,
        CS_BOTH_SEL,
        seq![0x03u8, 0x03u8],
    ) + el_command(EL133UF1_AGID, CS_BOTH_SEL, seq![0x10u8]) + el_command(
        EL133UF1_PWS,
        CS_BOTH_SEL,
        seq![0x22u8],
    ) + el_command(EL133UF1_CCSET, CS_BOTH_SEL, seq![0x01u8]) + el_command(
        EL133UF1_TRES,
        CS_BOTH_SEL,
        seq![0x04u8, 0xB0u8, 0x03u8, 0x20u8],
    ) + el_command(EL133UF1_PWR, CS0_SEL, seq![0x0Fu8, 0x00u8, 0x28u8, 0x2Cu8, 0x28u8, 0x38u8])
        + el_command(EL133UF1_EN_BUF, CS0_SEL, seq![0x07u8]) + el_command(
        EL133UF1_BTST_P,
        CS0_SEL,
        seq![0xD8u8, 0x18u8],
    ) + el_command(EL133UF1_BOOST_VDDP_EN, CS0_SEL, seq![0x01u8]) + el_command(
        EL133UF1_BTST_N,
        CS0_SEL,
        seq![0xD8u8, 0x18u8],
    ) + el_command(EL133UF1_BUCK_BOOST_VDDN, CS0_SEL, seq![0x01u8]) + el_command(
        EL133UF1_TFT_VCOM_POWER,
        CS0_SEL,
        seq![0x02u8],
    )
}

/// The two halves sent to the chips: the buffer turned three quarter turns,
/// then its left and right column halves nibble-packed row by row.
pub open spec fn spectra_halves(v: El133Uf1View) -> (Seq<u8>, Seq<u8>) {
    let rotated = spec_rotated270_gray(v.buffer, v.width as int, v.height as int);
    let rw = v.height as int;
    let split = rw / 2;
    (
        spec_pack_luma(rotated, rw, v.width as int, 0, split),
        spec_pack_luma(rotated, rw, v.width as int, split, rw),
    )
}

/// Frame transfer: each half to its chip, power on (soft wait), refresh
/// (hard wait of 32 s), power off (soft wait).
pub open spec fn el133uf1_transfer_steps(v: El133Uf1View) -> Seq<StepView> {
    let (a, b) = spectra_halves(v);
    el_command(EL133UF1_DTM, CS0_SEL, a) + el_command(EL133UF1_DTM, CS1_SEL, b) + el_command(
        EL133UF1_PON,
        CS_BOTH_SEL,
        seq![],
    ) + seq![StepView::WaitBusy(200u64, false)] + el_command(EL133UF1_DRF, CS_BOTH_SEL, seq![0x00u8])
        + seq![StepView::WaitBusy(32000u64, true)] + el_command(EL133UF1_POF, CS_BOTH_SEL, seq![0x00u8])
        + seq![StepView::WaitBusy(200u64, false)]
}

fn push_command(steps: &mut Vec<BusStep>, opcode: u8, select: u8, data: &[u8])
    ensures
        steps_view(final(steps)@) == steps_view(old(steps)@) + el_command(opcode, select, data@),
{
    let ghost start = steps_view(steps@);
    assert(select & CS0_SEL == select % 2 && (select & CS1_SEL != 0) == ((select / 2) % 2 == 1))
        by (bit_vector);
    if select & CS0_SEL != 0 {
        push_step(steps, BusStep::SetLine { line: OutputLine::ChipSelect0, value: 0 });
    }
    if select & CS1_SEL != 0 {
        push_step(steps, BusStep::SetLine { line: OutputLine::ChipSelect1, value: 0 });
    }
    push_step(steps, BusStep::SetLine { line: OutputLine::DataCommand, value: 0 });
    let op = vec![opcode];
    assert(op@ =~= seq![opcode]);
    push_step(steps, BusStep::Write(op));
    if data.len() > 0 {
        push_step(steps, BusStep::SetLine { line: OutputLine::DataCommand, value: 1 });
        push_chunked(steps, data);
    }
    push_step(steps, BusStep::SetLine { line: OutputLine::ChipSelect0, value: 1 });
    push_step(steps, BusStep::SetLine { line: OutputLine::ChipSelect1, value: 1 });
    push_step(steps, BusStep::SetLine { line: OutputLine::DataCommand, value: 0 });
    assert(steps_view(steps@) =~= start + el_command(opcode, select, data@));
}

impl InkyEl133Uf1 {
    /// The driver's invariant: one buffer entry per native pixel.
    pub open spec fn wf(&self) -> bool {
        self@.buffer.len() == self@.width * self@.height
    }

    /// A driver for a panel of the configured size; the buffer starts all
    /// zero and the panel uninitialised.
    pub fn new(config: InkyEl133Uf1Config) -> (r: InkyEl133Uf1)
        ensures
            r.wf(),
            r@.width == config.width,
            r@.height == config.height,
            r@.rotation == config.rotation,
            r@.buffer == Seq::new((config.width * config.height) as nat, |i: int| 0u8),
            !r@.initialised,
    {
        assert(config.width * config.height <= 0xFFFF_FFFF) by (nonlinear_arith)
            requires config.width <= 0xFFFF, config.height <= 0xFFFF;
        let n: usize = config.width as usize * config.height as usize;
        let buffer: Vec<u8> = vec![0u8; n];
        assert(buffer@ =~= Seq::new((config.width * config.height) as nat, |i: int| 0u8));
        InkyEl133Uf1 {
            width: config.width,
            height: config.height,
            rotation: config.rotation,
            buffer,
            initialised: false,
        }
    }

    pub fn width(&self) -> (r: u16)
        ensures
            r == self@.width,
    {
        self.width
    }

    pub fn height(&self) -> (r: u16)
        ensures
            r == self@.height,
    {
        self.height
    }

    pub fn rotation(&self) -> (r: Rotation)
        ensures
            r == self@.rotation,
    {
        self.rotation
    }

    pub fn set_rotation(&mut self, rotation: Rotation)
        ensures
            final(self)@ == (El133Uf1View { rotation, ..old(self)@ }),
    {
        self.rotation = rotation;
    }

    /// Logical size that callers draw in: width and height swap at 90 and
    /// 270 degrees.
    pub fn input_dimensions(&self) -> (r: (u16, u16))
        ensures
            (r.0 as int, r.1 as int) == spec_logical_size(
                self@.rotation,
                self@.width as int,
                self@.height as int,
            ),
    {
        self.rotation.target_dimensions(self.width, self.height)
    }

    /// The native frame buffer, one wire index per pixel.
    pub fn buffer(&self) -> (r: &[u8])
        ensures
            r@ == self@.buffer,
    {
        self.buffer.as_slice()
    }

    /// Fills the buffer with one ink (masked to three bits).
    pub fn clear(&mut self, colour: u8)
        ensures
            final(self)@ == (El133Uf1View {
                buffer: Seq::new(old(self)@.buffer.len(), |i: int| colour & 7),
                ..old(self)@
            }),
    {
        let value = colour & 7;
        let n = self.buffer.len();
        let mut fresh: Vec<u8> = Vec::with_capacity(n);
        let mut i: usize = 0;
        while i < n
            invariant
                i <= n,
                fresh@.len() == i,
                forall|j: int| 0 <= j < i ==> #[trigger] fresh@[j] == value,
            decreases n - i,
        {
            fresh.push(value);
            i = i + 1;
        }
        assert(fresh@ =~= Seq::new(n as nat, |i: int| colour & 7));
        self.buffer = fresh;
    }

    /// Sets the logical pixel `(x, y)` to an ink (masked to three bits);
    /// coordinates outside the rotated panel are ignored.
    pub fn set_pixel(&mut self, x: usize, y: usize, colour: u8)
        requires
            old(self).wf(),
        ensures
            final(self).wf(),
            logical_in_bounds(old(self)@.rotation, old(self)@.width as int, old(self)@.height as int, x as int, y as int)
                ==> final(self)@ == (El133Uf1View {
                buffer: old(self)@.buffer.update(
                    spec_physical_index(
                        old(self)@.rotation,
                        old(self)@.width as int,
                        old(self)@.height as int,
                        x as int,
                        y as int,
                    ),
                    colour & 7,
                ),
                ..old(self)@
            }),
            !logical_in_bounds(old(self)@.rotation, old(self)@.width as int, old(self)@.height as int, x as int, y as int)
                ==> final(self)@ == old(self)@,
    {
        let (lw, lh) = self.input_dimensions();
        if x >= lw as usize || y >= lh as usize {
            return;
        }
        let index = logical_to_physical_index(self.rotation, self.width, self.height, x, y);
        self.buffer.set(index, colour & 7);
    }

    /// The image prepared for quantization: cropped and resized to the
    /// logical size, then turned into the native orientation.  Fails only
    /// when the resize's working buffers would not fit in memory.
    pub fn prepare_image(&self, image: &Rgb8Image) -> (r: Result<Rgb8Image, InkyError>)
        ensures
            r matches Ok(p) ==> p.spec_width() == self@.width && p.spec_height() == self@.height
                && p.spec_data() == spec_prepared(self@.rotation, self@.width, self@.height, *image),
            r matches Err(e) ==> e is InvalidImageDimensions,
            r is Err <==> !crate::common::resize_fits(image.spec_width(), self@.width, self@.height)
                || self@.width == 0 || self@.height == 0,
    {
        let (tw, th) = self.input_dimensions();
        if !crate::common::check_resize_fits(image.width(), self.width, self.height) || tw == 0
            || th == 0 {
            return Err(InkyError::InvalidImageDimensions {
                expected: (tw, th),
                received: (image.width(), image.height()),
            });
        }
        let ghost m: int = if self.width > self.height { self.width as int } else { self.height as int };
        assert(image.spec_width() * th * 4 <= image.spec_width() * m * 4) by (nonlinear_arith)
            requires th <= m, 0 <= image.spec_width();
        assert(tw * th * 3 == self.width * self.height * 3) by (nonlinear_arith)
            requires (tw == self.width && th == self.height) || (tw == self.height && th == self.width);
        let prepared = clamp_aspect_resize(image, tw as u32, th as u32);
        Ok(self.rotation.apply(prepared))
    }

    /// Quantizes a native-size RGB image into the buffer with the given
    /// six-entry working palette, storing wire indices.
    pub fn quantize_into_buffer(&mut self, rgb: &Rgb8Image, palette: &[Channels])
        requires
            old(self).wf(),
            rgb.spec_width() == old(self)@.width,
            rgb.spec_height() == old(self)@.height,
            palette@.len() == 6,
            crate::quantize::all_colours_ok(palette@),
        ensures
            final(self).wf(),
            final(self)@ == (El133Uf1View { buffer: final(self)@.buffer, ..old(self)@ }),
            final(self)@.buffer == dither_upto(
                palette@,
                remap_table(),
                old(self)@.width as int,
                old(self)@.height as int,
                spec_working(rgb.spec_data()),
                old(self)@.buffer,
                old(self)@.width * old(self)@.height,
            ).1,
            forall|i: int| 0 <= i < final(self)@.buffer.len() ==> #[trigger] final(self)@.buffer[i] <= EL133UF1_MAX_INDEX,
            forall|i: int| 0 <= i < final(self)@.buffer.len() ==> #[trigger] final(self)@.buffer[i] != 4,
    {
        let bytes = rgb.as_bytes();
        let working = working_from_rgb(bytes);
        let remap = remap_entries();
        let ghost work0 = working@;
        let ghost buf0 = self.buffer@;
        let w = self.width as usize;
        let h = self.height as usize;
        dither_into(working, palette, remap.as_slice(), w, h, &mut self.buffer);
        proof {
            crate::quantize::lemma_dither_channels_in_range(palette@, remap@, w as int, h as int, work0, buf0, (w * h) as int);
            lemma_dither_indices_in_range(palette@, remap@, w as int, h as int, work0, buf0, (w * h) as int, 7);
            crate::quantize::lemma_dither_indices_from_table(palette@, remap@, w as int, h as int, work0, buf0, (w * h) as int);
            assert forall|i: int| 0 <= i < self@.buffer.len() implies #[trigger] self@.buffer[i] != 4 by {
                let j = choose|j: int| 0 <= j < remap@.len() && self@.buffer[i] == remap@[j];
                assert(remap@ == remap_table());
            }
        }
    }

    /// Fills the buffer from an image: prepared for the panel, mapped
    /// through the tone curve `lighten`, then quantized against the palette
    /// at the given saturation (`FIXED_ONE` is fully saturated).
    pub fn set_image(&mut self, image: &Rgb8Image, saturation: u32, lighten: &[u8; 256]) -> (r: Result<(), InkyError>)
        requires
            old(self).wf(),
        ensures
            final(self).wf(),
            r is Err <==> !crate::common::resize_fits(image.spec_width(), old(self)@.width, old(self)@.height)
                || old(self)@.width == 0 || old(self)@.height == 0,
            r matches Err(e) ==> e is InvalidImageDimensions,
            r is Err ==> final(self)@ == old(self)@,
            final(self)@ == (El133Uf1View { buffer: final(self)@.buffer, ..old(self)@ }),
            r is Ok ==> forall|i: int| 0 <= i < final(self)@.buffer.len() ==> #[trigger] final(self)@.buffer[i] <= EL133UF1_MAX_INDEX
                && final(self)@.buffer[i] != 4,
            r is Ok ==> final(self)@.buffer == dither_upto(
                spectra_palette(saturation),
                remap_table(),
                old(self)@.width as int,
                old(self)@.height as int,
                spec_working(
                    crate::common::spec_toned(
                        spec_prepared(old(self)@.rotation, old(self)@.width, old(self)@.height, *image),
                        lighten@,
                    ),
                ),
                old(self)@.buffer,
                old(self)@.width * old(self)@.height,
            ).1,
    {
        let mut rgb = match self.prepare_image(image) {
            Ok(p) => p,
            Err(e) => return Err(e),
        };
        lighten_image_in_place(&mut rgb, lighten);
        let palette = blend_spectra_palette(saturation);
        self.quantize_into_buffer(&rgb, palette.as_slice());
        Ok(())
    }

    /// Decodes image bytes, applies their embedded orientation, and fills
    /// the buffer from the result as `set_image` does.
    pub fn set_image_from_bytes(&mut self, bytes: &[u8], saturation: u32, lighten: &[u8; 256]) -> (r: Result<(), InkyError>)
        requires
            old(self).wf(),
        ensures
            final(self).wf(),
            crate::common::decoded_rgb(bytes@) is None ==> (r matches Err(e) && e is Image),
            crate::common::decoded_rgb(bytes@) matches Some((w, h, data)) ==> {
                let (ow, oh) = crate::common::oriented_size(bytes@, w, h);
                &&& r is Ok <==> crate::common::resize_fits(ow, old(self)@.width, old(self)@.height) && old(self)@.width > 0 && old(self)@.height > 0
                &&& r matches Err(e) ==> e is InvalidImageDimensions
                &&& r is Ok ==> final(self)@.buffer == dither_upto(
                    spectra_palette(saturation),
                    remap_table(),
                    old(self)@.width as int,
                    old(self)@.height as int,
                    spec_working(
                        crate::common::spec_toned(
                            crate::common::spec_prepared_raw(
                                old(self)@.rotation,
                                old(self)@.width,
                                old(self)@.height,
                                ow,
                                oh,
                                crate::common::oriented_bytes(bytes@, w, h, data),
                            ),
                            lighten@,
                        ),
                    ),
                    old(self)@.buffer,
                    old(self)@.width * old(self)@.height,
                ).1
            },
            r is Err ==> final(self)@ == old(self)@,
            final(self)@ == (El133Uf1View { buffer: final(self)@.buffer, ..old(self)@ }),
            r is Ok ==> forall|i: int| 0 <= i < final(self)@.buffer.len() ==> #[trigger] final(self)@.buffer[i] <= EL133UF1_MAX_INDEX
                && final(self)@.buffer[i] != 4,
    {
        let image = match crate::common::load_image_respecting_exif(bytes) {
            Ok(img) => img,
            Err(e) => return Err(e),
        };
        self.set_image(&image, saturation, lighten)
    }

    /// Steps that initialise both controller chips.
    pub fn initialise_plan(&self) -> (r: Vec<BusStep>)
        ensures
            steps_view(r@) == el133uf1_init_steps(),
    {
        let mut steps: Vec<BusStep> = Vec::new();
        assert(steps_view(steps@) =~= Seq::<StepView>::empty());
        push_step(&mut steps, BusStep::SetLine { line: OutputLine::Reset, value: 0 });
        push_step(&mut steps, BusStep::Sleep { millis: 30 });
        push_step(&mut steps, BusStep::SetLine { line: OutputLine::Reset, value: 1 });
        push_step(&mut steps, BusStep::Sleep { millis: 30 });
        push_step(&mut steps, BusStep::WaitBusy { millis: 300, fatal: false });
        let antm = vec![0xC0u8, 0x1C, 0x1C, 0xCC, 0xCC, 0xCC, 0x15, 0x15, 0x55];
        push_command(&mut steps, EL133UF1_ANTM, CS0_SEL, antm.as_slice());
        let cmd66 = vec![0x49u8, 0x55, 0x13, 0x5D, 0x05, 0x10];
        push_command(&mut steps, EL133UF1_CMD66, CS_BOTH_SEL, cmd66.as_slice());
        let psr = vec![0xDFu8, 0x69];
        push_command(&mut steps, EL133UF1_PSR, CS_BOTH_SEL, psr.as_slice());
        let pll = vec![0x08u8];
        push_command(&mut steps, EL133UF1_PLL, CS_BOTH_SEL, pll.as_slice());
        let cdi = vec![0xF7u8];
        push_command(&mut steps, EL133UF1_CDI, CS_BOTH_SEL, cdi.as_slice());
        let tcon = vec![0x03u8, 0x03];
        push_command(&mut steps, EL133UF1_TCON, CS_BOTH_SEL, tcon.as_slice());
        let agid = vec![0x10u8];
        push_command(&mut steps, EL133UF1_AGID, CS_BOTH_SEL, agid.as_slice());
        let pws = vec![0x22u8];
        push_command(&mut steps, EL133UF1_PWS, CS_BOTH_SEL, pws.as_slice());
        let ccset = vec![0x01u8];
        push_command(&mut steps, EL133UF1_CCSET, CS_BOTH_SEL, ccset.as_slice());
        let tres = vec![0x04u8, 0xB0, 0x03, 0x20];
        push_command(&mut steps, EL133UF1_TRES, CS_BOTH_SEL, tres.as_slice());
        let pwr = vec![0x0Fu8, 0x00, 0x28, 0x2C, 0x28, 0x38];
        push_command(&mut steps, EL133UF1_PWR, CS0_SEL, pwr.as_slice());
        let en_buf = vec![0x07u8];
        push_command(&mut steps, EL133UF1_EN_BUF, CS0_SEL, en_buf.as_slice());
        let btst_p = vec![0xD8u8, 0x18];
        push_command(&mut steps, EL133UF1_BTST_P, CS0_SEL, btst_p.as_slice());
        let vddp = vec![0x01u8];
        push_command(&mut steps, EL133UF1_BOOST_VDDP_EN, CS0_SEL, vddp.as_slice());
        let btst_n = vec![0xD8u8, 0x18];
        push_command(&mut steps, EL133UF1_BTST_N, CS0_SEL, btst_n.as_slice());
        let vddn = vec![0x01u8];
        push_command(&mut steps, EL133UF1_BUCK_BOOST_VDDN, CS0_SEL, vddn.as_slice());
        let vcom = vec![0x02u8];
        push_command(&mut steps, EL133UF1_TFT_VCOM_POWER, CS0_SEL, vcom.as_slice());
        proof {
            assert(antm@ =~= seq![0xC0u8, 0x1Cu8, 0x1Cu8, 0xCCu8, 0xCCu8, 0xCCu8, 0x15u8, 0x15u8, 0x55u8]);
            assert(cmd66@ =~= seq![0x49u8, 0x55u8, 0x13u8, 0x5Du8, 0x05u8, 0x10u8]);
            assert(psr@ =~= seq![0xDFu8, 0x69u8]);
            assert(pll@ =~= seq![0x08u8]);
            assert(cdi@ =~= seq![0xF7u8]);
            assert(tcon@ =~= seq![0x03u8, 0x03u8]);
            assert(agid@ =~= seq![0x10u8]);
            assert(pws@ =~= seq![0x22u8]);
            assert(ccset@ =~= seq![0x01u8]);
            assert(tres@ =~= seq![0x04u8, 0xB0u8, 0x03u8, 0x20u8]);
            assert(pwr@ =~= seq![0x0Fu8, 0x00u8, 0x28u8, 0x2Cu8, 0x28u8, 0x38u8]);
            assert(en_buf@ =~= seq![0x07u8]);
            assert(btst_p@ =~= seq![0xD8u8, 0x18u8]);
            assert(vddp@ =~= seq![0x01u8]);
            assert(btst_n@ =~= seq![0xD8u8, 0x18u8]);
            assert(vddn@ =~= seq![0x01u8]);
            assert(vcom@ =~= seq![0x02u8]);
            assert(steps_view(steps@) =~= el133uf1_init_steps());
        }
        steps
    }

    /// Steps that send the frame to both chips and refresh the panel.
    pub fn transfer_plan(&self) -> (r: Vec<BusStep>)
        requires
            self.wf(),
        ensures
            steps_view(r@) == el133uf1_transfer_steps(self@),
    {
        let mut steps: Vec<BusStep> = Vec::new();
        assert(steps_view(steps@) =~= Seq::<StepView>::empty());
        let rotated = rotate270_gray(&self.buffer, self.width as u32, self.height as u32);
        let rw = self.height as usize;
        let split = rw / 2;
        assert(rw * self.width == self.width * self.height) by (nonlinear_arith)
            requires rw == self.height;
        let buf_a = pack_luma_nibbles(rotated.as_slice(), rw, self.width as usize, 0, split);
        let buf_b = pack_luma_nibbles(rotated.as_slice(), rw, self.width as usize, split, rw);
        push_command(&mut steps, EL133UF1_DTM, CS0_SEL, buf_a.as_slice());
        push_command(&mut steps, EL133UF1_DTM, CS1_SEL, buf_b.as_slice());
        let none: Vec<u8> = Vec::new();
        assert(none@ =~= Seq::<u8>::empty());
        push_command(&mut steps, EL133UF1_PON, CS_BOTH_SEL, none.as_slice());
        push_step(&mut steps, BusStep::WaitBusy { millis: 200, fatal: false });
        let zero = vec![0x00u8];
        assert(zero@ =~= seq![0x00u8]);
        push_command(&mut steps, EL133UF1_DRF, CS_BOTH_SEL, zero.as_slice());
        push_step(&mut steps, BusStep::WaitBusy { millis: 32000, fatal: true });
        push_command(&mut steps, EL133UF1_POF, CS_BOTH_SEL, zero.as_slice());
        push_step(&mut steps, BusStep::WaitBusy { millis: 200, fatal: false });
        assert(steps_view(steps@) =~= el133uf1_transfer_steps(self@));
        steps
    }

    /// The work of `show`: initialisation first when the panel is not
    /// initialised, then the transfer.
    pub fn show_plan(&self) -> (r: ShowPlan)
        requires
            self.wf(),
        ensures
            self@.initialised ==> r.initialise is None,
            !self@.initialised ==> (r.initialise matches Some(init) && steps_view(init@)
                == el133uf1_init_steps()),
            steps_view(r.transfer@) == el133uf1_transfer_steps(self@),
    {
        let initialise = if self.initialised {
            None
        } else {
            Some(self.initialise_plan())
        };
        ShowPlan { initialise, transfer: self.transfer_plan() }
    }

    /// Records that the initialisation steps completed.
    pub fn mark_initialised(&mut self)
        ensures
            final(self)@ == (El133Uf1View { initialised: true, ..old(self)@ }),
    {
        self.initialised = true;
    }

    pub fn is_initialised(&self) -> (r: bool)
        ensures
            r == self@.initialised,
    {
        self.initialised
    }
}

} // verus!
