use paperwave::{
    busy_next, distribute_error, nearest_colour, BusStep, BusyAction, BusyEvent, Channels,
    ControllerFamily, InkyEl133Uf1, InkyEl133Uf1Config, InkyError, InkyUc8159, InkyUc8159Config,
    OutputLine, Pins, Rgb8Image, Rotation, SpectraPins, FIXED_ONE, SPI_CHUNK_SIZE,
};

const ONE: i64 = FIXED_ONE;

fn identity_curve() -> [u8; 256] {
    let mut c = [0u8; 256];
    for (i, v) in c.iter_mut().enumerate() {
        *v = i as u8;
    }
    c
}

fn uc8159() -> InkyUc8159 {
    InkyUc8159::new(InkyUc8159Config::default()).unwrap()
}

#[test]
fn defaults_match_the_hardware() {
    assert_eq!(Pins::default(), Pins { cs: 8, dc: 22, reset: 27, busy: 17 });
    assert_eq!(
        SpectraPins::default(),
        SpectraPins { cs0: 26, cs1: 16, dc: 22, reset: 27, busy: 17 }
    );
    let c = InkyUc8159Config::default();
    assert_eq!((c.width, c.height, c.border_colour), (600, 448, 1));
    assert_eq!(c.spi_path, "/dev/spidev0.0");
    let c = InkyEl133Uf1Config::default();
    assert_eq!((c.width, c.height), (1600, 1200));
    assert_eq!(c.gpio_chip, "/dev/gpiochip0");
}

#[test]
fn unsupported_resolution_is_rejected() {
    let mut config = InkyUc8159Config::default();
    config.width = 800;
    config.height = 480;
    assert!(matches!(InkyUc8159::new(config), Err(InkyError::UnsupportedResolution(800, 480))));
    let mut config = InkyUc8159Config::default();
    config.width = 640;
    config.height = 400;
    let d = InkyUc8159::new(config).unwrap();
    assert_eq!((d.width(), d.height()), (640, 400));
    assert_eq!(d.buffer().len(), 640 * 400);
}

#[test]
fn input_dimensions_follow_rotation() {
    let mut d = uc8159();
    assert_eq!(d.input_dimensions(), (600, 448));
    d.set_rotation(Rotation::Deg90);
    assert_eq!(d.rotation(), Rotation::Deg90);
    assert_eq!(d.input_dimensions(), (448, 600));
    d.set_rotation(Rotation::Deg180);
    assert_eq!(d.input_dimensions(), (600, 448));
    d.set_rotation(Rotation::Deg270);
    assert_eq!(d.input_dimensions(), (448, 600));
}

fn expected_index(rot: Rotation, w: usize, h: usize, x: usize, y: usize) -> usize {
    match rot {
        Rotation::Deg0 => y * w + x,
        Rotation::Deg90 => x * w + (w - 1 - y),
        Rotation::Deg180 => (h - 1 - y) * w + (w - 1 - x),
        Rotation::Deg270 => (h - 1 - x) * w + y,
    }
}

#[test]
fn set_pixel_lands_on_rotated_index() {
    for rot in [Rotation::Deg0, Rotation::Deg90, Rotation::Deg180, Rotation::Deg270] {
        let mut d = uc8159();
        d.set_rotation(rot);
        let (lw, lh) = d.input_dimensions();
        for &(x, y) in &[(0usize, 0usize), (lw as usize - 1, 0), (3, lh as usize - 1), (17, 5)] {
            d.set_pixel(x, y, 0x0D);
            let idx = expected_index(rot, 600, 448, x, y);
            assert_eq!(d.buffer()[idx], 5);
        }
        let before = d.buffer().to_vec();
        d.set_pixel(lw as usize, 0, 3);
        d.set_pixel(0, lh as usize, 3);
        assert_eq!(d.buffer(), &before[..]);
    }
}

#[test]
fn clear_masks_colour() {
    let mut d = uc8159();
    d.clear(9);
    assert!(d.buffer().iter().all(|&v| v == 1));
    let mut e = InkyEl133Uf1::new(InkyEl133Uf1Config { width: 4, height: 3, ..InkyEl133Uf1Config::default() });
    e.clear(0xFE);
    assert_eq!(e.buffer(), &[6u8; 12][..]);
}

#[test]
fn set_buffer_checks_length_and_rotates() {
    let mut d = uc8159();
    let r = d.set_buffer(&[0u8; 10]);
    assert!(matches!(r, Err(InkyError::InvalidBufferSize { expected: 268800, received: 10 })));
    d.set_rotation(Rotation::Deg90);
    let mut data = vec![0u8; 448 * 600];
    data[0] = 4;
    data[448 + 2] = 0x0B;
    d.set_buffer(&data).unwrap();
    assert_eq!(d.buffer()[expected_index(Rotation::Deg90, 600, 448, 0, 0)], 4);
    assert_eq!(d.buffer()[expected_index(Rotation::Deg90, 600, 448, 2, 1)], 3);
}

#[test]
fn border_change_requires_reinitialisation() {
    let mut d = uc8159();
    d.mark_initialised();
    assert!(d.is_initialised());
    d.set_border(9);
    assert!(d.is_initialised());
    d.set_border(2);
    assert!(!d.is_initialised());
    let plan = d.show_plan();
    let init = plan.initialise.unwrap();
    // The CDI parameter carries the border in its top three bits.
    let cdi_pos = init
        .iter()
        .position(|s| matches!(s, BusStep::Write(b) if b == &vec![0x50]))
        .unwrap();
    assert!(matches!(&init[cdi_pos + 4], BusStep::Write(b) if b == &vec![(2 << 5) | 0x17]));
}

fn writes(steps: &[BusStep]) -> Vec<Vec<u8>> {
    steps
        .iter()
        .filter_map(|s| match s {
            BusStep::Write(b) => Some(b.clone()),
            _ => None,
        })
        .collect()
}

#[test]
fn uc8159_initialise_sequence() {
    let d = uc8159();
    let plan = d.show_plan();
    let init = plan.initialise.unwrap();
    assert!(matches!(init[0], BusStep::SetLine { line: OutputLine::Reset, value: 0 }));
    assert!(matches!(init[1], BusStep::Sleep { millis: 100 }));
    assert!(matches!(init[2], BusStep::SetLine { line: OutputLine::Reset, value: 1 }));
    assert!(matches!(init[3], BusStep::Sleep { millis: 100 }));
    assert!(matches!(init[4], BusStep::WaitBusy { millis: 1000, fatal: false }));
    let w = writes(&init);
    assert_eq!(
        w,
        vec![
            vec![0x61],
            vec![0x02, 0x58, 0x01, 0xC0],
            vec![0x00],
            vec![0xEF, 0x08],
            vec![0x01],
            vec![0x37, 0x00, 0x23, 0x23],
            vec![0x30],
            vec![0x3C],
            vec![0x41],
            vec![0x00],
            vec![0x50],
            vec![0x37],
            vec![0x60],
            vec![0x22],
            vec![0x65],
            vec![0x00],
            vec![0xE3],
            vec![0xAA],
            vec![0x03],
            vec![0x00],
        ]
    );
    // Each transfer is framed: DC, CS low, payload, CS high.
    assert!(matches!(init[5], BusStep::SetLine { line: OutputLine::DataCommand, value: 0 }));
    assert!(matches!(init[6], BusStep::SetLine { line: OutputLine::ChipSelect, value: 0 }));
    assert!(matches!(init[8], BusStep::SetLine { line: OutputLine::ChipSelect, value: 1 }));
    assert!(matches!(init[9], BusStep::SetLine { line: OutputLine::DataCommand, value: 1 }));
}

#[test]
fn uc8159_transfer_is_chunked_and_waits() {
    let mut d = uc8159();
    d.clear(3);
    d.mark_initialised();
    let plan = d.show_plan();
    assert!(plan.initialise.is_none());
    let w = writes(&plan.transfer);
    assert_eq!(w[0], vec![0x10]);
    let payload: Vec<u8> = w[1..34].concat();
    assert_eq!(payload.len(), 600 * 448 / 2);
    assert!(payload.iter().all(|&b| b == 0x33));
    assert!(w[1..33].iter().all(|c| c.len() == SPI_CHUNK_SIZE));
    assert_eq!(w[33].len(), 134400 - 32 * SPI_CHUNK_SIZE);
    assert_eq!(&w[34..], &[vec![0x04], vec![0x12], vec![0x02]]);
    let waits: Vec<(u64, bool)> = plan
        .transfer
        .iter()
        .filter_map(|s| match s {
            BusStep::WaitBusy { millis, fatal } => Some((*millis, *fatal)),
            _ => None,
        })
        .collect();
    assert_eq!(waits, vec![(200, false), (32000, true), (200, false)]);
}

#[test]
fn el133uf1_plan_targets_chips() {
    let mut e = InkyEl133Uf1::new(InkyEl133Uf1Config { width: 4, height: 2, ..InkyEl133Uf1Config::default() });
    // Native 4 x 2 buffer, row-major.
    for (i, v) in [1u8, 2, 3, 4, 5, 6, 0, 1].iter().enumerate() {
        e.set_pixel(i % 4, i / 4, *v);
    }
    let plan = e.show_plan();
    let init = plan.initialise.unwrap();
    assert!(matches!(init[1], BusStep::Sleep { millis: 30 }));
    assert!(matches!(init[4], BusStep::WaitBusy { millis: 300, fatal: false }));
    // The first command goes to chip 0 only.
    assert!(matches!(init[5], BusStep::SetLine { line: OutputLine::ChipSelect0, value: 0 }));
    assert!(matches!(init[6], BusStep::SetLine { line: OutputLine::DataCommand, value: 0 }));
    assert!(matches!(&init[7], BusStep::Write(b) if b == &vec![0x74]));
    let w = writes(&init);
    assert_eq!(w.len(), 34);
    assert_eq!(w[19], vec![0x04, 0xB0, 0x03, 0x20]);
    // Rotated 270: a 2 x 4 image whose rows are the native columns, last first.
    // Rows: [4, 1], [3, 0], [2, 6], [1, 5]; halves are column 0 and column 1.
    let t = writes(&plan.transfer);
    assert_eq!(t[0], vec![0x10]);
    assert_eq!(t[1], vec![0x40, 0x30, 0x20, 0x10]);
    assert_eq!(t[2], vec![0x10]);
    assert_eq!(t[3], vec![0x10, 0x00, 0x60, 0x50]);
    assert_eq!(&t[4..], &[vec![0x04], vec![0x12], vec![0x00], vec![0x02], vec![0x00]]);
}

#[test]
fn busy_wait_decisions_differ_by_family() {
    let uc = ControllerFamily::Uc8159;
    let el = ControllerFamily::El133Uf1;
    assert_eq!(busy_next(uc, BusyEvent::Begin, 200), BusyAction::ReadFirst);
    assert_eq!(
        busy_next(uc, BusyEvent::FirstLevel(true), 200),
        BusyAction::Sleep { millis: 200, finish: true }
    );
    assert_eq!(busy_next(uc, BusyEvent::FirstLevel(false), 200), BusyAction::CheckClock);
    assert_eq!(busy_next(uc, BusyEvent::Clock(50), 200), BusyAction::Read);
    assert_eq!(busy_next(uc, BusyEvent::Clock(200), 200), BusyAction::TimedOut);
    assert_eq!(busy_next(uc, BusyEvent::Level(true), 200), BusyAction::Finish);
    assert_eq!(
        busy_next(uc, BusyEvent::Level(false), 200),
        BusyAction::Sleep { millis: 10, finish: false }
    );
    assert_eq!(busy_next(uc, BusyEvent::Slept { finish: true }, 200), BusyAction::Finish);
    assert_eq!(busy_next(el, BusyEvent::Begin, 200), BusyAction::CheckClock);
    assert_eq!(busy_next(el, BusyEvent::Level(false), 200), BusyAction::Finish);
    assert_eq!(
        busy_next(el, BusyEvent::Level(true), 200),
        BusyAction::Sleep { millis: 10, finish: false }
    );
    assert_eq!(busy_next(el, BusyEvent::Slept { finish: false }, 200), BusyAction::CheckClock);
}

#[test]
fn nearest_colour_prefers_lowest_index_on_ties() {
    let palette: Vec<Channels> = vec![(0, 0, 0), (10 * ONE, 0, 0), (0, 10 * ONE, 0), (10 * ONE, 0, 0)];
    assert_eq!(nearest_colour(&palette, (9 * ONE, 0, 0)), (1, (10 * ONE, 0, 0)));
    assert_eq!(nearest_colour(&palette, (5 * ONE, 5 * ONE, 0)).0, 0);
    assert_eq!(nearest_colour(&palette, (ONE, 0, 0)).0, 0);
}

#[test]
fn error_diffusion_weights_and_clamping() {
    let max = 255 * ONE;
    let mut working: Vec<Channels> = vec![(100 * ONE, 100 * ONE, 100 * ONE); 9];
    working[4] = (max, max, 0);
    distribute_error(&mut working, 3, 3, 1, 1, (16 * ONE, -16 * ONE, -32 * ONE));
    // Right neighbour gets 7/16, clamped into range.
    assert_eq!(working[5], (107 * ONE, 93 * ONE, 86 * ONE));
    // Below-left 3/16, below 5/16, below-right 1/16.
    assert_eq!(working[6], (103 * ONE, 97 * ONE, 94 * ONE));
    assert_eq!(working[7], (105 * ONE, 95 * ONE, 90 * ONE));
    assert_eq!(working[8], (101 * ONE, 99 * ONE, 98 * ONE));
    // Visited pixels are untouched.
    assert_eq!(working[3], (100 * ONE, 100 * ONE, 100 * ONE));
    let mut edge: Vec<Channels> = vec![(max, 0, 0); 2];
    distribute_error(&mut edge, 2, 1, 0, 0, (max, -max, 0));
    assert_eq!(edge[1], (max, 0, 0));
}

#[test]
fn white_image_quantizes_to_white_at_any_saturation() {
    let white = Rgb8Image::filled(600, 448, (255, 255, 255));
    let mut d = uc8159();
    d.set_image(&white, 0, &identity_curve()).unwrap();
    assert!(d.buffer().iter().all(|&v| v == 1));
    let mut d = uc8159();
    d.set_image(&white, FIXED_ONE as u32, &identity_curve()).unwrap();
    assert!(d.buffer().iter().all(|&v| v == 1));
}

#[test]
fn spectra_white_uses_blended_white_entry() {
    let config = InkyEl133Uf1Config { width: 8, height: 6, ..InkyEl133Uf1Config::default() };
    let white = Rgb8Image::filled(8, 6, (255, 255, 255));
    let mut e = InkyEl133Uf1::new(config);
    e.set_image(&white, 0, &identity_curve()).unwrap();
    assert!(e.buffer().iter().all(|&v| v == 1));
    let config = InkyEl133Uf1Config { width: 8, height: 6, ..InkyEl133Uf1Config::default() };
    let mut e = InkyEl133Uf1::new(config);
    e.set_image(&white, FIXED_ONE as u32, &identity_curve()).unwrap();
    assert!(e.buffer().iter().all(|&v| v == 1));
}

#[test]
fn quantized_entries_stay_in_ink_range() {
    let mut data = Vec::new();
    for i in 0..(60u32 * 40) {
        data.extend_from_slice(&[(i * 7 % 256) as u8, (i * 13 % 256) as u8, (i * 29 % 256) as u8]);
    }
    let img = Rgb8Image::from_raw(60, 40, data).unwrap();
    let mut d = uc8159();
    d.set_image(&img, FIXED_ONE as u32 / 2, &identity_curve()).unwrap();
    assert!(d.buffer().iter().all(|&v| v < 7));
    assert!(d.buffer().iter().any(|&v| v != d.buffer()[0]));
    let mut e = InkyEl133Uf1::new(InkyEl133Uf1Config { width: 30, height: 20, ..InkyEl133Uf1Config::default() });
    e.set_image(&img, FIXED_ONE as u32, &identity_curve()).unwrap();
    assert!(e.buffer().iter().all(|&v| [0, 1, 2, 3, 5, 6].contains(&v)));
}

#[test]
fn black_image_quantizes_to_black() {
    let black = Rgb8Image::filled(600, 448, (0, 0, 0));
    let mut d = uc8159();
    d.clear(4);
    d.set_image(&black, 0, &identity_curve()).unwrap();
    assert!(d.buffer().iter().all(|&v| v == 0));
}

#[test]
fn buffer_mut_writes_through() {
    let mut d = uc8159();
    d.buffer_mut()[5] = 6;
    assert_eq!(d.buffer()[5], 6);
    assert_eq!(d.buffer().len(), 600 * 448);
}

#[test]
fn set_image_from_bytes_decodes_and_quantizes() {
    let img = image::RgbImage::from_pixel(600, 448, image::Rgb([255, 255, 255]));
    let mut out = std::io::Cursor::new(Vec::new());
    img.write_to(&mut out, image::ImageFormat::Png).unwrap();
    let bytes = out.into_inner();
    let mut d = uc8159();
    d.clear(0);
    d.set_image_from_bytes(&bytes, 0, &identity_curve()).unwrap();
    assert!(d.buffer().iter().all(|&v| v == 1));
    let mut e = InkyEl133Uf1::new(InkyEl133Uf1Config { width: 8, height: 6, ..InkyEl133Uf1Config::default() });
    assert!(matches!(e.set_image_from_bytes(&[0, 1, 2], 0, &identity_curve()), Err(InkyError::Image(_))));
}
