//! Drivers and image pipeline for colour e-paper panels.
//!
//! The library holds the logic of the panels: the rotation-aware frame
//! buffer, the palette quantizer with error diffusion, the identification
//! record decoder and the controller protocols.  What touches hardware (the
//! serial bus, the control lines, the clock) is described here as plans of
//! bus steps and busy-wait decisions, which a host program carries out.

pub mod common;
pub mod detect;
pub mod el133uf1;
pub mod error;
pub mod exif;
pub mod protocol;
pub mod quantize;
pub mod uc8159;

pub use common::{
    apply_exif_orientation_bytes, calibration_rotation, clamp_aspect_resize, combine_rotation,
    crop_rect, ArrowDirection,
    lighten_image_in_place, load_image_respecting_exif, pack_buffer_nibbles, pack_luma_nibbles,
    Rgb8Image, Rotation,
};
pub use detect::{
    classify_eeprom, handle_io_error, is_blank_eeprom, parse_eeprom, probe_system, read_eeprom,
    uc8159_resolution_from_probe, DisplaySpec, EepromInfo, EepromRead, I2cBusReport,
    I2cProbeStatus, InvalidRecord, IoErrorClass, ProbeError, ProbeInfo, SystemScan,
    EEPROM_ADDRESS, EEPROM_LENGTH,
};
pub use el133uf1::{InkyEl133Uf1, InkyEl133Uf1Config, SpectraPins};
pub use error::InkyError;
pub use exif::{exif_orientation_from_jpeg, parse_tiff_orientation};
pub use protocol::{
    busy_next, BusStep, BusyAction, BusyEvent, ControllerFamily, OutputLine, ShowPlan,
    SPI_CHUNK_SIZE,
};
pub use quantize::{distribute_error, nearest_colour, Channels, FIXED_ONE};
pub use uc8159::{InkyUc8159, InkyUc8159Config, Pins};
