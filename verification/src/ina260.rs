//! The current and voltage sensor: its registers, the words of its
//! configuration register, and the scaling of what it measures.

use vstd::prelude::*;
use crate::units::{MilliAmp, MilliVolt};

verus! {

/// A register of the sensor.
#[allow(non_camel_case_types)]
#[derive(Debug, Clone, Copy, PartialEq, Eq, Structural)]
pub enum Register {
    /// Configuration.
    CONFIG,
    /// The current through the shunt.
    CURRENT,
    /// The bus voltage.
    VOLTAGE,
    /// The power delivered to the load.
    POWER,
    /// Alert configuration and the conversion-ready flag.
    MASK_ENABLE,
    /// The limit that the selected alert compares with.
    ALERT_LIMIT,
    /// The manufacturer's identification.
    MANUFACTURER_ID,
    /// The die's identification.
    DIE_ID,
}

impl Register {
    /// The register's address.
    pub open spec fn spec_addr(self) -> u8 {
        match self {
            Register::CONFIG => 0x00,
            Register::CURRENT => 0x01,
            Register::VOLTAGE => 0x02,
            Register::POWER => 0x03,
            Register::MASK_ENABLE => 0x06,
            Register::ALERT_LIMIT => 0x07,
            Register::MANUFACTURER_ID => 0xFE,
            Register::DIE_ID => 0xFF,
        }
    }

    /// The register's address.
    #[verifier::when_used_as_spec(spec_addr)]
    pub fn addr(self) -> (r: u8)
        ensures
            r == self.spec_addr(),
    {
        match self {
            Register::CONFIG => 0x00,
            Register::CURRENT => 0x01,
            Register::VOLTAGE => 0x02,
            Register::POWER => 0x03,
            Register::MASK_ENABLE => 0x06,
            Register::ALERT_LIMIT => 0x07,
            Register::MANUFACTURER_ID => 0xFE,
            Register::DIE_ID => 0xFF,
        }
    }
}

impl From<Register> for u8 {
    fn from(r: Register) -> (b: u8) {
        r.addr()
    }
}

impl vstd::std_specs::convert::FromSpecImpl<Register> for u8 {
    open spec fn obeys_from_spec() -> bool {
        true
    }

    open spec fn from_spec(r: Register) -> u8 {
        r.spec_addr()
    }
}

/// The number of samples that are collected and averaged.
#[derive(Debug, Clone, Copy, PartialEq, Eq, Structural)]
pub enum Averaging {
    AVG1,
    AVG4,
    AVG16,
    AVG64,
    AVG128,
    AVG256,
    AVG512,
    AVG1024,
}

impl Averaging {
    /// The field's bits in the configuration word: bits 9 to 11.
    pub open spec fn spec_bits(self) -> u16 {
        match self {
            Averaging::AVG1 => 0x0000,
            Averaging::AVG4 => 0x0200,
            Averaging::AVG16 => 0x0400,
            Averaging::AVG64 => 0x0600,
            Averaging::AVG128 => 0x0800,
            Averaging::AVG256 => 0x0A00,
            Averaging::AVG512 => 0x0C00,
            Averaging::AVG1024 => 0x0E00,
        }
    }

    /// The field's bits in the configuration word.
    #[verifier::when_used_as_spec(spec_bits)]
    pub fn bits(self) -> (r: u16)
        ensures
            r == self.spec_bits(),
    {
        match self {
            Averaging::AVG1 => 0x0000,
            Averaging::AVG4 => 0x0200,
            Averaging::AVG16 => 0x0400,
            Averaging::AVG64 => 0x0600,
            Averaging::AVG128 => 0x0800,
            Averaging::AVG256 => 0x0A00,
            Averaging::AVG512 => 0x0C00,
            Averaging::AVG1024 => 0x0E00,
        }
    }
}

/// The conversion time of the bus voltage measurement.
#[allow(non_camel_case_types)]
#[derive(Debug, Clone, Copy, PartialEq, Eq, Structural)]
pub enum BVConvTime {
    US140,
    US204,
    US332,
    US588,
    MS1_1,
    MS2_116,
    MS4_156,
    MS8_244,
}

impl BVConvTime {
    /// The field's bits in the configuration word: bits 6 to 8.
    pub open spec fn spec_bits(self) -> u16 {
        match self {
            BVConvTime::US140 => 0x0000,
            BVConvTime::US204 => 0x0040,
            BVConvTime::US332 => 0x0080,
            BVConvTime::US588 => 0x00C0,
            BVConvTime::MS1_1 => 0x0100,
            BVConvTime::MS2_116 => 0x0140,
            BVConvTime::MS4_156 => 0x0180,
            BVConvTime::MS8_244 => 0x01C0,
        }
    }

    /// The field's bits in the configuration word.
    #[verifier::when_used_as_spec(spec_bits)]
    pub fn bits(self) -> (r: u16)
        ensures
            r == self.spec_bits(),
    {
        match self {
            BVConvTime::US140 => 0x0000,
            BVConvTime::US204 => 0x0040,
            BVConvTime::US332 => 0x0080,
            BVConvTime::US588 => 0x00C0,
            BVConvTime::MS1_1 => 0x0100,
            BVConvTime::MS2_116 => 0x0140,
            BVConvTime::MS4_156 => 0x0180,
            BVConvTime::MS8_244 => 0x01C0,
        }
    }
}

/// The conversion time of the shunt current measurement.
#[allow(non_camel_case_types)]
#[derive(Debug, Clone, Copy, PartialEq, Eq, Structural)]
pub enum SCConvTime {
    US140,
    US204,
    US332,
    US588,
    MS1_1,
    MS2_116,
    MS4_156,
    MS8_244,
}

impl SCConvTime {
    /// The field's bits in the configuration word: bits 3 to 5.
    pub open spec fn spec_bits(self) -> u16 {
        match self {
            SCConvTime::US140 => 0x0000,
            SCConvTime::US204 => 0x0008,
            SCConvTime::US332 => 0x0010,
            SCConvTime::US588 => 0x0018,
            SCConvTime::MS1_1 => 0x0020,
            SCConvTime::MS2_116 => 0x0028,
            SCConvTime::MS4_156 => 0x0030,
            SCConvTime::MS8_244 => 0x0038,
        }
    }

    /// The field's bits in the configuration word.
    #[verifier::when_used_as_spec(spec_bits)]
    pub fn bits(self) -> (r: u16)
        ensures
            r == self.spec_bits(),
    {
        match self {
            SCConvTime::US140 => 0x0000,
            SCConvTime::US204 => 0x0008,
            SCConvTime::US332 => 0x0010,
            SCConvTime::US588 => 0x0018,
            SCConvTime::MS1_1 => 0x0020,
            SCConvTime::MS2_116 => 0x0028,
            SCConvTime::MS4_156 => 0x0030,
            SCConvTime::MS8_244 => 0x0038,
        }
    }
}

/// Continuous, triggered or power-down operation.
#[derive(Debug, Clone, Copy, PartialEq, Eq, Structural)]
pub enum OperMode {
    /// Power-down.
    SHUTDOWN,
    /// Shunt current, triggered.
    SCT,
    /// Bus voltage, triggered.
    BVT,
    /// Shunt current and bus voltage, triggered.
    SCBVT,
    /// Shunt current, continuous.
    SCC,
    /// Bus voltage, continuous.
    BVC,
    /// Shunt current and bus voltage, continuous.
    SCBVC,
}

impl OperMode {
    /// The field's bits in the configuration word: bits 0 to 2.
    pub open spec fn spec_bits(self) -> u16 {
        match self {
            OperMode::SHUTDOWN => 0x0000,
            OperMode::SCT => 0x0001,
            OperMode::BVT => 0x0002,
            OperMode::SCBVT => 0x0003,
            OperMode::SCC => 0x0005,
            OperMode::BVC => 0x0006,
            OperMode::SCBVC => 0x0007,
        }
    }

    /// The field's bits in the configuration word.
    #[verifier::when_used_as_spec(spec_bits)]
    pub fn bits(self) -> (r: u16)
        ensures
            r == self.spec_bits(),
    {
        match self {
            OperMode::SHUTDOWN => 0x0000,
            OperMode::SCT => 0x0001,
            OperMode::BVT => 0x0002,
            OperMode::SCBVT => 0x0003,
            OperMode::SCC => 0x0005,
            OperMode::BVC => 0x0006,
            OperMode::SCBVC => 0x0007,
        }
    }
}

/// A bit of the mask/enable register, which selects what asserts the alert
/// pin and how.
#[derive(Debug, Clone, Copy, PartialEq, Eq, Structural)]
pub enum MaskEnable {
    /// Over-current limit.
    OCL,
    /// Under-current limit.
    UCL,
    /// Bus over-voltage.
    BOL,
    /// Bus under-voltage.
    BUL,
    /// Power over-limit.
    POL,
    /// Conversion ready.
    CNVR,
    /// Alert function flag.
    AFF,
    /// Conversion ready flag.
    CVRF,
    /// Math overflow flag.
    OVF,
    /// Alert polarity.
    APOL,
    /// Alert latch enable.
    LEN,
}

impl MaskEnable {
    /// The bit's mask in the register.
    pub open spec fn spec_bits(self) -> u16 {
        match self {
            MaskEnable::OCL => 0x8000,
            MaskEnable::UCL => 0x4000,
            MaskEnable::BOL => 0x2000,
            MaskEnable::BUL => 0x1000,
            MaskEnable::POL => 0x0800,
            MaskEnable::CNVR => 0x0400,
            MaskEnable::AFF => 0x0010,
            MaskEnable::CVRF => 0x0008,
            MaskEnable::OVF => 0x0004,
            MaskEnable::APOL => 0x0002,
            MaskEnable::LEN => 0x0001,
        }
    }

    /// The bit's mask in the register.
    #[verifier::when_used_as_spec(spec_bits)]
    pub fn bits(self) -> (r: u16)
        ensures
            r == self.spec_bits(),
    {
        match self {
            MaskEnable::OCL => 0x8000,
            MaskEnable::UCL => 0x4000,
            MaskEnable::BOL => 0x2000,
            MaskEnable::BUL => 0x1000,
            MaskEnable::POL => 0x0800,
            MaskEnable::CNVR => 0x0400,
            MaskEnable::AFF => 0x0010,
            MaskEnable::CVRF => 0x0008,
            MaskEnable::OVF => 0x0004,
            MaskEnable::APOL => 0x0002,
            MaskEnable::LEN => 0x0001,
        }
    }
}

/// The address of the sensor on the bus: both address pads open.
pub const INA260_VIN_ADDRESS: u8 = 0x40;

/// A setting of the configuration register.
#[derive(Debug, Clone, Copy, PartialEq, Eq, Structural)]
pub struct INA260Config {
    om: OperMode,
    am: Averaging,
    scct: SCConvTime,
    bvct: BVConvTime,
}

/// What an [`INA260Config`] holds.
pub struct Ina260Settings {
    pub om: OperMode,
    pub am: Averaging,
    pub scct: SCConvTime,
    pub bvct: BVConvTime,
}

impl Ina260Settings {
    /// The sensor's settings after power-up, with four-fold averaging.
    pub open spec fn initial() -> Ina260Settings {
        Ina260Settings {
            om: OperMode::SCBVC,
            am: Averaging::AVG4,
            scct: SCConvTime::MS1_1,
            bvct: BVConvTime::MS1_1,
        }
    }

    /// The settings of the battery interface: four-fold averaging, current
    /// and voltage measured continuously, 4.156 ms for each conversion.
    pub open spec fn measuring() -> Ina260Settings {
        Ina260Settings {
            om: OperMode::SCBVC,
            am: Averaging::AVG4,
            scct: SCConvTime::MS4_156,
            bvct: BVConvTime::MS4_156,
        }
    }

    /// The configuration word: each field in its own bits.
    pub open spec fn word(self) -> u16 {
        self.om.spec_bits() | self.am.spec_bits() | self.scct.spec_bits() | self.bvct.spec_bits()
    }
}

impl View for INA260Config {
    type V = Ina260Settings;

    closed spec fn view(&self) -> Ina260Settings {
        Ina260Settings { om: self.om, am: self.am, scct: self.scct, bvct: self.bvct }
    }
}

impl Default for INA260Config {
    fn default() -> (r: Self)
        ensures
            r@ == Ina260Settings::initial(),
    {
        INA260Config::new()
    }
}

impl INA260Config {
    /// The sensor's settings after power-up, with four-fold averaging.
    pub fn new() -> (r: Self)
        ensures
            r@ == Ina260Settings::initial(),
    {
        INA260Config {
            om: OperMode::SCBVC,
            am: Averaging::AVG4,
            scct: SCConvTime::MS1_1,
            bvct: BVConvTime::MS1_1,
        }
    }

    /// Sets the operating mode; returns the setting for the next change.
    pub fn set_operating_mode(&mut self, om: OperMode) -> (r: &mut Self)
        ensures
            r@ == (Ina260Settings { om, ..old(self)@ }),
            *final(self) == *final(r),
    {
        self.om = om;
        self
    }

    /// Sets the averaging; returns the setting for the next change.
    pub fn set_averaging_mode(&mut self, am: Averaging) -> (r: &mut Self)
        ensures
            r@ == (Ina260Settings { am, ..old(self)@ }),
            *final(self) == *final(r),
    {
        self.am = am;
        self
    }

    /// Sets the conversion time of the current; returns the setting for the
    /// next change.
    pub fn set_sccov_time(&mut self, scct: SCConvTime) -> (r: &mut Self)
        ensures
            r@ == (Ina260Settings { scct, ..old(self)@ }),
            *final(self) == *final(r),
    {
        self.scct = scct;
        self
    }

    /// Sets the conversion time of the voltage; returns the setting for the
    /// next change.
    pub fn set_bvcov_time(&mut self, bvct: BVConvTime) -> (r: &mut Self)
        ensures
            r@ == (Ina260Settings { bvct, ..old(self)@ }),
            *final(self) == *final(r),
    {
        self.bvct = bvct;
        self
    }

    /// The configuration word, most significant byte first.
    pub fn as_be_bytes(&self) -> (r: [u8; 2])
        ensures
            r@ == be_bytes(self@.word()),
    {
        let word: u16 = self.om.bits() | self.am.bits() | self.scct.bits() | self.bvct.bits();
        u16_to_be_bytes(word)
    }
}

/// The two bytes of a word, most significant first.
pub open spec fn be_bytes(word: u16) -> Seq<u8> {
    seq![(word / 256) as u8, (word % 256) as u8]
}

/// The word that two bytes make, most significant first.
pub open spec fn be_word(bytes: Seq<u8>) -> u16 {
    (bytes[0] * 256 + bytes[1]) as u16
}

/// The two bytes of a word, most significant first.
pub fn u16_to_be_bytes(word: u16) -> (r: [u8; 2])
    ensures
        r@ == be_bytes(word),
{
    let r: [u8; 2] = [(word / 256) as u8, (word % 256) as u8];
    proof {
        assert(r@ =~= be_bytes(word));
    }
    r
}

/// The word that two bytes make, most significant first.
pub fn u16_from_be_bytes(bytes: [u8; 2]) -> (r: u16)
    ensures
        r == be_word(bytes@),
{
    (bytes[0] as u16) * 256 + bytes[1] as u16
}

/// The current that a reading of the current register stands for: the
/// magnitude of the signed reading at 1.25 mA a step, rounded down.
pub open spec fn milliamps_of_raw(raw: u16) -> int {
    let magnitude = if raw >= 0x8000 {
        0x1_0000 - raw
    } else {
        raw as int
    };
    magnitude * 1250 / 1000
}

/// The voltage that a reading of the voltage register stands for: 1.25 mV a
/// step, rounded down, and reduced to 16 bits.
pub open spec fn millivolts_of_raw(raw: u16) -> int {
    (raw * 1250 / 1000) % 0x1_0000
}

/// Scales a reading of the current register.
pub fn amps_from_raw(buffer: [u8; 2]) -> (r: MilliAmp)
    ensures
        r.0 == milliamps_of_raw(be_word(buffer@)),
{
    let raw = u16_from_be_bytes(buffer);
    let magnitude: u32 = if raw >= 0x8000 {
        0x1_0000 - raw as u32
    } else {
        raw as u32
    };
    MilliAmp::new((magnitude * 1250 / 1000) as u16)
}

/// Scales a reading of the voltage register.
pub fn volts_from_raw(buffer: [u8; 2]) -> (r: MilliVolt)
    ensures
        r.0 == millivolts_of_raw(be_word(buffer@)),
{
    let raw: u32 = u16_from_be_bytes(buffer) as u32;
    MilliVolt::new(((raw * 1250 / 1000) % 0x1_0000) as u16)
}

/// The chip identification and the die revision in a reading of the die
/// identification register: the upper twelve bits and the lower four.
pub fn decode_die_id(buffer: [u8; 2]) -> (r: (u16, u16))
    ensures
        r.0 == be_word(buffer@) / 16,
        r.1 == be_word(buffer@) % 16,
{
    let id = u16_from_be_bytes(buffer);
    (id / 16, id % 16)
}

/// The bytes to write to the sensor to set its configuration: the address
/// of the configuration register, then the word.
pub fn config_frame(conf: INA260Config) -> (r: [u8; 3])
    ensures
        r@ == seq![Register::CONFIG.spec_addr()] + be_bytes(conf@.word()),
{
    let bytes = conf.as_be_bytes();
    let r: [u8; 3] = [Register::CONFIG.addr(), bytes[0], bytes[1]];
    proof {
        assert(r@ =~= seq![Register::CONFIG.spec_addr()] + be_bytes(conf@.word()));
    }
    r
}

/// The bytes to write to the sensor to power it down.
pub fn shutdown_frame() -> (r: [u8; 3])
    ensures
        r@ == seq![0u8, 0u8, 0u8],
{
    let bytes = u16_to_be_bytes(OperMode::SHUTDOWN.bits());
    let r: [u8; 3] = [Register::CONFIG.addr(), bytes[0], bytes[1]];
    proof {
        assert(r@ =~= seq![0u8, 0u8, 0u8]);
    }
    r
}

/// The configuration that the battery interface gives the sensor.
pub fn measuring_config() -> (conf: INA260Config)
    ensures
        conf@ == Ina260Settings::measuring(),
        conf@.word() == 0x03B7,
{
    let mut conf = INA260Config::new();
    conf.set_averaging_mode(Averaging::AVG4).set_operating_mode(OperMode::SCBVC).set_sccov_time(
        SCConvTime::MS4_156,
    ).set_bvcov_time(BVConvTime::MS4_156);
    proof {
        assert(0x0007u16 | 0x0200u16 | 0x0030u16 | 0x0180u16 == 0x03B7u16) by (bit_vector);
    }
    conf
}

} // verus!
