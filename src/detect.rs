use vstd::prelude::*;
use vstd::string::*;

verus! {

/// Length in bytes of the identification record read from the panel's EEPROM.
pub const EEPROM_LENGTH: usize = 29;

/// Bus address of the identification EEPROM.
pub const EEPROM_ADDRESS: u16 = 0x50;

/// Decoded identification record.
#[derive(Clone, Copy, Debug, PartialEq, Eq, Structural)]
pub struct EepromInfo {
    pub width: u16,
    pub height: u16,
    pub color: u8,
    pub pcb_variant: u8,
    pub display_variant: u8,
}

/// Controller family and native resolution of a detected panel.
#[derive(Clone, Copy, Debug, PartialEq, Eq, Structural)]
pub enum DisplaySpec {
    Uc8159 { width: u16, height: u16, variant: u8 },
    El133Uf1 { width: u16, height: u16 },
}

/// Why a non-blank record was rejected.
#[derive(Clone, Copy, Debug, PartialEq, Eq, Structural)]
pub enum InvalidRecord {
    /// Width or height is zero or the all-ones sentinel.
    Dimensions { width: u16, height: u16 },
    /// The display-variant byte holds the sentinel 255.
    DisplayVariant,
}

/// Outcome of probing one identification bus.
#[derive(Clone, Debug)]
pub enum I2cProbeStatus {
    Found(EepromInfo),
    Blank,
    Invalid(InvalidRecord),
    Unavailable,
    Error(String),
}

/// One probed bus and what was found on it.
#[derive(Clone, Debug)]
pub struct I2cBusReport {
    pub path: String,
    pub status: I2cProbeStatus,
}

/// The diagnostic kept for reporting when no record (or not only a record)
/// was accepted.
#[derive(Clone, Debug)]
pub enum ProbeError {
    Invalid(InvalidRecord),
    Error(String),
}

/// Coarse class of an I/O failure, as the host reports it.
#[derive(Clone, Copy, Debug, PartialEq, Eq, Structural)]
pub enum IoErrorClass {
    NotFound,
    PermissionDenied,
    Other,
}

/// Everything the host enumerated before aggregation: device paths in sorted
/// order and the status of each identification bus, in bus order.
#[derive(Clone, Debug)]
pub struct SystemScan {
    pub spi_devices: Vec<String>,
    pub gpio_chips: Vec<String>,
    pub gpio_chip_labels: Vec<String>,
    pub i2c_bus_results: Vec<I2cBusReport>,
}

/// Aggregated probe report.
#[derive(Clone, Debug)]
pub struct ProbeInfo {
    pub eeprom: Option<EepromInfo>,
    pub eeprom_error: Option<ProbeError>,
    pub display: Option<DisplaySpec>,
    pub eeprom_bus: Option<String>,
    pub spi_devices: Vec<String>,
    pub gpio_chips: Vec<String>,
    pub gpio_chip_labels: Vec<String>,
    pub i2c_buses: Vec<String>,
    pub i2c_bus_results: Vec<I2cBusReport>,
}

/// Panel spec looked up from the display-variant byte.
pub open spec fn spec_display_spec(info: EepromInfo) -> Option<DisplaySpec> {
    if info.display_variant == 14 {
        Some(DisplaySpec::Uc8159 { width: 600, height: 448, variant: 14 })
    } else if info.display_variant == 16 {
        Some(DisplaySpec::Uc8159 { width: 640, height: 400, variant: 16 })
    } else if info.display_variant == 21 {
        Some(DisplaySpec::El133Uf1 { width: info.width, height: info.height })
    } else {
        None
    }
}

/// Little-endian 16-bit value at `off`.
pub open spec fn le_u16(data: Seq<u8>, off: int) -> u16 {
    (data[off] + 256 * data[off + 1]) as u16
}

/// The record that the first seven bytes describe, before validation.
pub open spec fn spec_record(data: Seq<u8>) -> EepromInfo {
    EepromInfo {
        width: le_u16(data, 0),
        height: le_u16(data, 2),
        color: data[4],
        pcb_variant: data[5],
        display_variant: data[6],
    }
}

/// A dimension that no real panel has: zero or the all-ones sentinel.
pub open spec fn bad_dimension(v: u16) -> bool {
    v == 0 || v == 0xFFFF
}

/// Every byte is erased (0xFF) or cleared (0x00).
pub open spec fn spec_blank(data: Seq<u8>) -> bool {
    forall|i: int| 0 <= i < data.len() ==> #[trigger] data[i] == 0 || data[i] == 0xFF
}

/// The probe status that a complete read of `data` yields.
pub open spec fn spec_classify(data: Seq<u8>) -> I2cProbeStatus {
    let rec = spec_record(data);
    if spec_blank(data) {
        I2cProbeStatus::Blank
    } else if bad_dimension(rec.width) || bad_dimension(rec.height) {
        I2cProbeStatus::Invalid(InvalidRecord::Dimensions { width: rec.width, height: rec.height })
    } else if rec.display_variant == 255 {
        I2cProbeStatus::Invalid(InvalidRecord::DisplayVariant)
    } else {
        I2cProbeStatus::Found(rec)
    }
}

/// Name of a display variant; variants without a name read "Unknown".
pub open spec fn spec_variant_label(v: u8) -> &'static str {
    if v == 255 {
        "Unknown"
    } else if v == 1 {
        "Red pHAT (High-Temp)"
    } else if v == 2 {
        "Yellow wHAT"
    } else if v == 3 {
        "Black wHAT"
    } else if v == 4 {
        "Black pHAT"
    } else if v == 5 {
        "Yellow pHAT"
    } else if v == 6 {
        "Red wHAT"
    } else if v == 7 {
        "Red wHAT (High-Temp)"
    } else if v == 8 {
        "Red wHAT"
    } else if v == 10 {
        "Black pHAT (SSD1608)"
    } else if v == 11 {
        "Red pHAT (SSD1608)"
    } else if v == 12 {
        "Yellow pHAT (SSD1608)"
    } else if v == 14 {
        "7-Colour (UC8159) 600x448"
    } else if v == 15 {
        "7-Colour 640x400 (UC8159)"
    } else if v == 16 {
        "7-Colour 640x400 (UC8159)"
    } else if v == 17 {
        "Black wHAT (SSD1683)"
    } else if v == 18 {
        "Red wHAT (SSD1683)"
    } else if v == 19 {
        "Yellow wHAT (SSD1683)"
    } else if v == 20 {
        "7-Colour 800x480 (AC073TC1A)"
    } else if v == 21 {
        "Spectra 6 13.3 1600x1200 (EL133UF1)"
    } else if v == 22 {
        "Spectra 6 7.3 800x480 (E673)"
    } else if v == 23 {
        "Red/Yellow pHAT (JD79661)"
    } else if v == 24 {
        "Red/Yellow wHAT (JD79668)"
    } else {
        "Unknown"
    }
}

impl EepromInfo {
    /// Human-readable name of the display variant.
    pub fn variant_name(&self) -> (r: &'static str)
        ensures
            r == spec_variant_label(self.display_variant),
    {
        match self.display_variant {
            1 => "Red pHAT (High-Temp)",
            2 => "Yellow wHAT",
            3 => "Black wHAT",
            4 => "Black pHAT",
            5 => "Yellow pHAT",
            6 => "Red wHAT",
            7 => "Red wHAT (High-Temp)",
            8 => "Red wHAT",
            10 => "Black pHAT (SSD1608)",
            11 => "Red pHAT (SSD1608)",
            12 => "Yellow pHAT (SSD1608)",
            14 => "7-Colour (UC8159) 600x448",
            15 => "7-Colour 640x400 (UC8159)",
            16 => "7-Colour 640x400 (UC8159)",
            17 => "Black wHAT (SSD1683)",
            18 => "Red wHAT (SSD1683)",
            19 => "Yellow wHAT (SSD1683)",
            20 => "7-Colour 800x480 (AC073TC1A)",
            21 => "Spectra 6 13.3 1600x1200 (EL133UF1)",
            22 => "Spectra 6 7.3 800x480 (E673)",
            23 => "Red/Yellow pHAT (JD79661)",
            24 => "Red/Yellow wHAT (JD79668)",
            _ => "Unknown",
        }
    }

    /// The panel spec that this record's display variant maps to, if any.
    pub fn display_spec(&self) -> (r: Option<DisplaySpec>)
        ensures
            r == spec_display_spec(*self),
    {
        match self.display_variant {
            14 => Some(DisplaySpec::Uc8159 { width: 600, height: 448, variant: self.display_variant }),
            16 => Some(DisplaySpec::Uc8159 { width: 640, height: 400, variant: self.display_variant }),
            21 => Some(DisplaySpec::El133Uf1 { width: self.width, height: self.height }),
            _ => None,
        }
    }
}

/// Every byte of the record is 0x00 or 0xFF: the EEPROM was never written or
/// was wiped.
pub fn is_blank_eeprom(data: &[u8]) -> (r: bool)
    ensures
        r == spec_blank(data@),
{
    let mut i: usize = 0;
    while i < data.len()
        invariant
            i <= data@.len(),
            forall|j: int| 0 <= j < i ==> #[trigger] data@[j] == 0 || data@[j] == 0xFF,
        decreases data@.len() - i,
    {
        if data[i] != 0x00 && data[i] != 0xFF {
            return false;
        }
        i = i + 1;
    }
    true
}

/// Decodes the fixed fields of a record and validates them.
pub fn parse_eeprom(data: &[u8]) -> (r: Result<EepromInfo, InvalidRecord>)
    requires
        data@.len() >= 7,
    ensures
        ({
            let rec = spec_record(data@);
            if bad_dimension(rec.width) || bad_dimension(rec.height) {
                r == Err::<EepromInfo, InvalidRecord>(
                    InvalidRecord::Dimensions { width: rec.width, height: rec.height },
                )
            } else if rec.display_variant == 255 {
                r == Err::<EepromInfo, InvalidRecord>(InvalidRecord::DisplayVariant)
            } else {
                r == Ok::<EepromInfo, InvalidRecord>(rec)
            }
        }),
{
    let width: u16 = data[0] as u16 + 256 * (data[1] as u16);
    let height: u16 = data[2] as u16 + 256 * (data[3] as u16);
    let color = data[4];
    let pcb_variant = data[5];
    let display_variant = data[6];
    if width == 0 || height == 0 || width == u16::MAX || height == u16::MAX {
        return Err(InvalidRecord::Dimensions { width, height });
    }
    if display_variant == u8::MAX {
        return Err(InvalidRecord::DisplayVariant);
    }
    Ok(EepromInfo { width, height, color, pcb_variant, display_variant })
}

/// Classifies a record read in full from an identification bus.
pub fn classify_eeprom(data: &[u8]) -> (r: I2cProbeStatus)
    requires
        data@.len() >= 7,
    ensures
        r == spec_classify(data@),
{
    if is_blank_eeprom(data) {
        return I2cProbeStatus::Blank;
    }
    match parse_eeprom(data) {
        Ok(parsed) => I2cProbeStatus::Found(parsed),
        Err(reason) => I2cProbeStatus::Invalid(reason),
    }
}

/// Status for a bus whose open, write or read failed: a missing device or a
/// refused permission means the bus is unavailable, anything else is an error
/// carrying the host's message.
pub fn handle_io_error(class: IoErrorClass, message: String) -> (r: I2cProbeStatus)
    ensures
        (class is NotFound || class is PermissionDenied) ==> r is Unavailable,
        class is Other ==> r == I2cProbeStatus::Error(message),
{
    match class {
        IoErrorClass::NotFound | IoErrorClass::PermissionDenied => I2cProbeStatus::Unavailable,
        IoErrorClass::Other => I2cProbeStatus::Error(message),
    }
}

/// A read attempt: the bytes read, or the class and message of the failure.
#[derive(Clone, Debug)]
pub enum EepromRead {
    Data(Vec<u8>),
    Failed { class: IoErrorClass, message: String },
}

/// Status of one identification bus from the outcome of its read.  A read
/// that returned fewer bytes than the fixed fields need counts as an error.
pub fn read_eeprom(read: EepromRead) -> (r: I2cProbeStatus)
    ensures
        match read {
            EepromRead::Data(d) => if d@.len() >= 7 {
                r == spec_classify(d@)
            } else {
                r is Error
            },
            EepromRead::Failed { class, message } => if class is Other {
                r == I2cProbeStatus::Error(message)
            } else {
                r is Unavailable
            },
        },
{
    match read {
        EepromRead::Data(d) => {
            if d.len() >= 7 {
                classify_eeprom(d.as_slice())
            } else {
                I2cProbeStatus::Error(String::from_str("short read"))
            }
        },
        EepromRead::Failed { class, message } => handle_io_error(class, message),
    }
}

/// The diagnostic that a non-accepted status contributes, if any.
pub open spec fn spec_diagnostic(s: I2cProbeStatus) -> Option<ProbeError> {
    match s {
        I2cProbeStatus::Invalid(reason) => Some(ProbeError::Invalid(reason)),
        I2cProbeStatus::Error(msg) => Some(ProbeError::Error(msg)),
        _ => None,
    }
}

/// A record that is not blank is rejected when its width or height is zero
/// or 0xFFFF, or its display variant is 255; an erased or cleared record is
/// blank whatever its fields say.
pub proof fn lemma_sentinels_are_rejected(data: Seq<u8>)
    requires
        data.len() >= 7,
    ensures
        spec_blank(data) ==> spec_classify(data) is Blank,
        !spec_blank(data) && (bad_dimension(spec_record(data).width) || bad_dimension(
            spec_record(data).height,
        ) || spec_record(data).display_variant == 255) ==> spec_classify(data) is Invalid,
        !spec_blank(data) && !bad_dimension(spec_record(data).width) && !bad_dimension(
            spec_record(data).height,
        ) && spec_record(data).display_variant != 255 ==> spec_classify(data) == I2cProbeStatus::Found(
            spec_record(data),
        ),
{
}

/// Index of the first bus, among the first `n`, that holds a record.
pub open spec fn first_found(results: Seq<I2cBusReport>, n: int) -> Option<int>
    decreases n,
{
    if n <= 0 {
        None
    } else {
        match first_found(results, n - 1) {
            Some(k) => Some(k),
            None => if results[n - 1].status is Found {
                Some(n - 1)
            } else {
                None
            },
        }
    }
}

/// Index of the first bus in `[start, n)` that gives a diagnostic.
pub open spec fn first_diagnostic(results: Seq<I2cBusReport>, start: int, n: int) -> Option<int>
    decreases n - start,
{
    if n <= start {
        None
    } else {
        match first_diagnostic(results, start, n - 1) {
            Some(k) => Some(k),
            None => if spec_diagnostic(results[n - 1].status) is Some {
                Some(n - 1)
            } else {
                None
            },
        }
    }
}

proof fn lemma_first_diagnostic_gives_one(results: Seq<I2cBusReport>, start: int, n: int)
    requires
        0 <= start,
        n <= results.len(),
    ensures
        first_diagnostic(results, start, n) matches Some(d) ==> start <= d < n
            && spec_diagnostic(results[d].status) is Some,
    decreases n - start,
{
    if n > start {
        lemma_first_diagnostic_gives_one(results, start, n - 1);
    }
}

proof fn lemma_first_found_gives_one(results: Seq<I2cBusReport>, n: int)
    requires
        n <= results.len(),
    ensures
        first_found(results, n) matches Some(k) ==> 0 <= k < n && results[k].status is Found,
    decreases n,
{
    if n > 0 {
        lemma_first_found_gives_one(results, n - 1);
    }
}

/// The record of the first bus that holds one.
pub open spec fn spec_accepted(results: Seq<I2cBusReport>) -> Option<EepromInfo> {
    match first_found(results, results.len() as int) {
        Some(k) => Some(results[k].status->Found_0),
        None => None,
    }
}

/// The diagnostic kept: the first one over all buses, whether or not a
/// record was accepted on a later bus.
pub open spec fn spec_eeprom_error(results: Seq<I2cBusReport>) -> Option<ProbeError> {
    match first_diagnostic(results, 0, results.len() as int) {
        Some(d) => spec_diagnostic(results[d].status),
        None => None,
    }
}

/// Aggregates what the host enumerated into one report: the first record
/// found is authoritative, every bus result is kept for diagnostics.
pub fn probe_system(scan: SystemScan) -> (info: ProbeInfo)
    ensures
        info.eeprom == spec_accepted(scan.i2c_bus_results@),
        info.eeprom_bus == (match first_found(scan.i2c_bus_results@, scan.i2c_bus_results@.len() as int) {
            Some(k) => Some(scan.i2c_bus_results@[k].path),
            None => None::<String>,
        }),
        info.display == (match spec_accepted(scan.i2c_bus_results@) {
            Some(e) => spec_display_spec(e),
            None => None,
        }),
        info.eeprom_error == spec_eeprom_error(scan.i2c_bus_results@),
        info.i2c_bus_results@ == scan.i2c_bus_results@,
        info.i2c_buses@.len() == scan.i2c_bus_results@.len(),
        forall|i: int| 0 <= i < info.i2c_buses@.len() ==> #[trigger] info.i2c_buses@[i]
            == scan.i2c_bus_results@[i].path,
        info.spi_devices == scan.spi_devices,
        info.gpio_chips == scan.gpio_chips,
        info.gpio_chip_labels == scan.gpio_chip_labels,
{
    let SystemScan { spi_devices, gpio_chips, gpio_chip_labels, i2c_bus_results } = scan;
    let ghost results = i2c_bus_results@;
    let mut eeprom: Option<EepromInfo> = None;
    let mut eeprom_bus: Option<String> = None;
    let mut eeprom_error: Option<ProbeError> = None;
    let mut display: Option<DisplaySpec> = None;
    let mut i2c_buses: Vec<String> = Vec::new();
    let mut i: usize = 0;
    while i < i2c_bus_results.len()
        invariant
            results == i2c_bus_results@,
            i <= results.len(),
            i2c_buses@.len() == i,
            forall|j: int| 0 <= j < i ==> #[trigger] i2c_buses@[j] == results[j].path,
            eeprom == (match first_found(results, i as int) {
                Some(k) => Some(results[k].status->Found_0),
                None => None,
            }),
            eeprom_bus == (match first_found(results, i as int) {
                Some(k) => Some(results[k].path),
                None => None::<String>,
            }),
            display == (match eeprom {
                Some(e) => spec_display_spec(e),
                None => None,
            }),
            eeprom_error == (match first_diagnostic(results, 0, i as int) {
                Some(d) => spec_diagnostic(results[d].status),
                None => None,
            }),
        decreases results.len() - i,
    {
        proof {
            lemma_first_found_gives_one(results, i as int);
            lemma_first_diagnostic_gives_one(results, 0, i as int);
        }
        let report = &i2c_bus_results[i];
        i2c_buses.push(report.path.clone());
        match &report.status {
            I2cProbeStatus::Found(found) => {
                if eeprom.is_none() {
                    display = found.display_spec();
                    eeprom = Some(*found);
                    eeprom_bus = Some(report.path.clone());
                }
            },
            I2cProbeStatus::Invalid(reason) => {
                if eeprom_error.is_none() {
                    eeprom_error = Some(ProbeError::Invalid(*reason));
                }
            },
            I2cProbeStatus::Error(message) => {
                if eeprom_error.is_none() {
                    eeprom_error = Some(ProbeError::Error(message.clone()));
                }
            },
            _ => {},
        }
        i = i + 1;
    }
    ProbeInfo {
        eeprom,
        eeprom_error,
        display,
        eeprom_bus,
        spi_devices,
        gpio_chips,
        gpio_chip_labels,
        i2c_buses,
        i2c_bus_results,
    }
}

/// Native resolution of a detected UC8159 panel.
pub fn uc8159_resolution_from_probe(probe: &ProbeInfo) -> (r: Option<(u16, u16)>)
    ensures
        r == (match probe.display {
            Some(DisplaySpec::Uc8159 { width, height, .. }) => Some((width, height)),
            _ => None,
        }),
{
    match probe.display {
        Some(DisplaySpec::Uc8159 { width, height, .. }) => Some((width, height)),
        _ => None,
    }
}

} // verus!
