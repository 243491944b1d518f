//! Devices under test: the type taxonomy of two-terminal and bias-driven
//! three-terminal devices, their configurations, bias-level schedules and
//! connection hints.

use vstd::prelude::*;

use crate::aoi::AreaOfInterest;
use crate::scalar::{of_u64_bits, spec_add, spec_div, spec_mul, spec_sub, Real, ONE_BITS, ZERO_BITS};

verus! {

/// Encoding of minus one: the polarity of inverted devices.
pub const NEG_ONE_BITS: u64 = 0xBFF0_0000_0000_0000;

/// Encoding of the 0.05 A current ceiling of a device sweep.
pub const SWEEP_MAX_I_BITS: u64 = 0x3FA9_9999_9999_999A;

/// Encoding of the 5 V voltage ceiling of a device sweep.
pub const SWEEP_MAX_V_BITS: u64 = 0x4014_0000_0000_0000;

/// Encoding of the 10 microampere default minimum bias current.
pub const MIN_BIAS_CURRENT_BITS: u64 = 0x3EE4_F8B5_88E3_68F1;

/// Encoding of the 50 microampere default maximum bias current.
pub const MAX_BIAS_CURRENT_BITS: u64 = 0x3F0A_36E2_EB1C_432D;

/// Encoding of one million: bias currents are scheduled in microamperes.
pub const MICRO_SCALE_BITS: u64 = 0x412E_8480_0000_0000;

/// What a three-terminal device's auxiliary terminal is driven with.
pub enum BiasDrive {
    Voltage,
    Current,
}

/// The evenly spaced schedule from `a` to `b` with `n` entries: entry `i`
/// is `a + step * i` with `step = (b - a) / (n - 1)`, or `a + 0 * i` for
/// a schedule of fewer than two entries.
pub open spec fn spec_linspace(a: Real, b: Real, n: nat) -> Seq<Real> {
    let step = if n > 1 {
        spec_div(
            spec_sub(b, a),
            spec_sub((Real { bits: of_u64_bits(n as u64) }), (Real { bits: ONE_BITS })),
        )
    } else {
        (Real { bits: ZERO_BITS })
    };
    Seq::new(n, |i: int| spec_add(a, spec_mul(step, (Real { bits: of_u64_bits(i as u64) }))))
}

/// The evenly spaced schedule from `a` to `b` with `n` entries.
pub fn linspace(a: Real, b: Real, n: usize) -> (r: Vec<Real>)
    ensures
        r@ == spec_linspace(a, b, n as nat),
{
    let step = if n > 1 {
        b.sub(a).div(Real::of_u64(n as u64).sub(Real::one()))
    } else {
        Real::zero()
    };
    let mut out: Vec<Real> = Vec::new();
    let mut i: usize = 0;
    while i < n
        invariant
            i <= n,
            out@.len() == i,
            step == (if n > 1 {
                spec_div(
                    spec_sub(b, a),
                    spec_sub((Real { bits: of_u64_bits(n as u64) }), (Real { bits: ONE_BITS })),
                )
            } else {
                (Real { bits: ZERO_BITS })
            }),
            forall|k: int| 0 <= k < i ==> out@[k] == (spec_linspace(a, b, n as nat)[k]),
        decreases n - i,
    {
        out.push(a.add(step.mul(Real::of_u64(i as u64))));
        i = i + 1;
    }
    proof {
        assert(out@ =~= spec_linspace(a, b, n as nat));
    }
    out
}

/// The configuration of a two-terminal device: nothing to configure.
#[derive(Clone, Copy)]
pub struct TwoTerminalDeviceConfig {}

/// The family of two-terminal devices.
#[derive(Clone, Copy, PartialEq, Eq, Structural, Debug)]
pub enum TwoTerminalDeviceType {
    Diode,
}

/// A two-terminal device under test.
#[derive(Clone)]
pub enum TwoTerminalDevice {
    Diode,
}

impl TwoTerminalDeviceType {
    /// The display name of the family.
    pub fn as_str(self) -> (r: &'static str)
        ensures
            r@ == "PN"@,
    {
        "PN"
    }

    /// The family named by a display name.
    pub fn from_str(s: &str) -> (r: Result<TwoTerminalDeviceType, ()>)
        ensures
            s@ == "PN"@ ==> r == Result::<TwoTerminalDeviceType, ()>::Ok(
                TwoTerminalDeviceType::Diode,
            ),
            s@ != "PN"@ ==> r is Err,
    {
        if crate::options::str_eq(s, "PN") {
            Ok(TwoTerminalDeviceType::Diode)
        } else {
            Err(())
        }
    }
}

impl TwoTerminalDevice {
    /// The family of this device.
    pub fn device_type(&self) -> (r: TwoTerminalDeviceType)
        ensures
            r == TwoTerminalDeviceType::Diode,
    {
        TwoTerminalDeviceType::Diode
    }

    /// The area a diode sweep is expected to cover, with slack.
    pub fn area_of_interest(&self) -> (r: AreaOfInterest)
        ensures
            r == (crate::aoi::spec_extended(
                AreaOfInterest {
                    min_v: (Real { bits: ZERO_BITS }),
                    max_v: (Real { bits: SWEEP_MAX_V_BITS }),
                    min_i: (Real { bits: ZERO_BITS }),
                    max_i: (Real { bits: SWEEP_MAX_I_BITS }),
                },
            )),
    {
        AreaOfInterest::new_pos_i_pos_v(
            Real::from_bits(SWEEP_MAX_I_BITS),
            Real::from_bits(SWEEP_MAX_V_BITS),
        ).extended()
    }

    /// The device's configuration.
    pub fn config(&self) -> TwoTerminalDeviceConfig {
        TwoTerminalDeviceConfig {  }
    }

    /// Accepts a configuration; a two-terminal device has none to take.
    pub fn set_config(&mut self, config: &TwoTerminalDeviceConfig) {
    }
}

/// The configuration of a current-biased device: its bias current span.
#[derive(Clone, Copy)]
pub struct CurrentBiasedDeviceConfig {
    pub min_bias_current: Real,
    pub max_bias_current: Real,
}

impl Default for CurrentBiasedDeviceConfig {
    /// The default bias span: 10 to 50 microamperes.
    fn default() -> (r: Self)
        ensures
            r.min_bias_current.bits == MIN_BIAS_CURRENT_BITS,
            r.max_bias_current.bits == MAX_BIAS_CURRENT_BITS,
    {
        CurrentBiasedDeviceConfig {
            min_bias_current: Real::from_bits(MIN_BIAS_CURRENT_BITS),
            max_bias_current: Real::from_bits(MAX_BIAS_CURRENT_BITS),
        }
    }
}

/// The family of current-biased three-terminal devices.
#[derive(Clone, Copy, PartialEq, Eq, Structural, Debug)]
pub enum CurrentBiasedDeviceType {
    NPN,
    PNP,
}

/// A current-biased three-terminal device under test.
#[derive(Clone)]
pub struct CurrentBiasedDevice {
    pub config: CurrentBiasedDeviceConfig,
    pub device_type: CurrentBiasedDeviceType,
}

impl CurrentBiasedDeviceType {
    /// The display name of the family.
    pub fn as_str(self) -> (r: &'static str)
        ensures
            self is NPN ==> r@ == "NPN"@,
            self is PNP ==> r@ == "PNP"@,
    {
        match self {
            CurrentBiasedDeviceType::NPN => "NPN",
            CurrentBiasedDeviceType::PNP => "PNP",
        }
    }

    /// The family named by a display name.
    pub fn from_str(s: &str) -> (r: Result<CurrentBiasedDeviceType, ()>)
        ensures
            s@ == "NPN"@ ==> r == Result::<CurrentBiasedDeviceType, ()>::Ok(
                CurrentBiasedDeviceType::NPN,
            ),
            s@ == "PNP"@ ==> r == Result::<CurrentBiasedDeviceType, ()>::Ok(
                CurrentBiasedDeviceType::PNP,
            ),
            s@ != "NPN"@ && s@ != "PNP"@ ==> r is Err,
    {
        proof {
            reveal_strlit("NPN");
            reveal_strlit("PNP");
            assert("NPN"@ != "PNP"@) by {
                assert("NPN"@[0] == 'N' && "PNP"@[0] == 'P');
            }
        }
        if crate::options::str_eq(s, "NPN") {
            Ok(CurrentBiasedDeviceType::NPN)
        } else if crate::options::str_eq(s, "PNP") {
            Ok(CurrentBiasedDeviceType::PNP)
        } else {
            Err(())
        }
    }
}

impl CurrentBiasedDevice {
    /// A device of the family under the default configuration.
    pub fn from_type(device_type: CurrentBiasedDeviceType) -> (r: Self)
        ensures
            r.device_type == device_type,
            r.config.min_bias_current.bits == MIN_BIAS_CURRENT_BITS,
            r.config.max_bias_current.bits == MAX_BIAS_CURRENT_BITS,
    {
        CurrentBiasedDevice { config: Default::default(), device_type }
    }

    /// The sweep polarity: positive for NPN, negative for PNP.
    pub fn polarity(&self) -> (r: Real)
        ensures
            self.device_type is NPN ==> r.bits == ONE_BITS,
            self.device_type is PNP ==> r.bits == NEG_ONE_BITS,
    {
        match self.device_type {
            CurrentBiasedDeviceType::NPN => Real::one(),
            CurrentBiasedDeviceType::PNP => Real::from_bits(NEG_ONE_BITS),
        }
    }

    /// Five bias currents evenly spanning the configured range, scaled to
    /// amperes with the device's polarity applied.
    pub fn bias_levels(&self) -> (r: Vec<Real>)
        ensures
            r@.len() == 5,
            r@ == (spec_bias_currents(
                self.config.min_bias_current,
                self.config.max_bias_current,
                (if self.device_type is NPN {
                    Real { bits: ONE_BITS }
                } else {
                    Real { bits: NEG_ONE_BITS }
                }),
            )),
    {
        let polarity = self.polarity();
        let base = linspace(self.config.min_bias_current, self.config.max_bias_current, 5);
        let scale = Real::from_bits(MICRO_SCALE_BITS);
        let mut out: Vec<Real> = Vec::new();
        let mut i: usize = 0;
        while i < base.len()
            invariant
                i <= base@.len(),
                base@.len() == 5,
                scale.bits == MICRO_SCALE_BITS,
                base@ == spec_linspace(
                    self.config.min_bias_current,
                    self.config.max_bias_current,
                    5,
                ),
                polarity == (if self.device_type is NPN {
                    Real { bits: ONE_BITS }
                } else {
                    Real { bits: NEG_ONE_BITS }
                }),
                out@.len() == i,
                forall|k: int|
                    0 <= k < i ==> out@[k] == (spec_div(
                        spec_mul(base@[k], polarity),
                        (Real { bits: MICRO_SCALE_BITS }),
                    )),
            decreases base@.len() - i,
        {
            out.push(base[i].mul(polarity).div(scale));
            i = i + 1;
        }
        proof {
            assert(out@ =~= spec_bias_currents(
                self.config.min_bias_current,
                self.config.max_bias_current,
                polarity,
            ));
        }
        out
    }

    /// The area the sweep is expected to cover, by polarity.
    pub fn area_of_interest(&self) -> (r: AreaOfInterest) {
        match self.device_type {
            CurrentBiasedDeviceType::NPN => AreaOfInterest::new_pos_i_pos_v(
                Real::from_bits(SWEEP_MAX_I_BITS),
                Real::from_bits(SWEEP_MAX_V_BITS),
            ).extended(),
            CurrentBiasedDeviceType::PNP => AreaOfInterest::new_pos_i_neg_v(
                Real::from_bits(SWEEP_MAX_I_BITS),
                Real::from_bits(SWEEP_MAX_V_BITS),
            ).extended(),
        }
    }

    /// The device's configuration.
    pub fn config(&self) -> (r: CurrentBiasedDeviceConfig)
        ensures
            r.min_bias_current == self.config.min_bias_current,
            r.max_bias_current == self.config.max_bias_current,
    {
        self.config.clone()
    }

    /// Replaces the device's configuration.
    pub fn set_config(&mut self, config: &CurrentBiasedDeviceConfig)
        ensures
            final(self).config.min_bias_current == config.min_bias_current,
            final(self).config.max_bias_current == config.max_bias_current,
            final(self).device_type == old(self).device_type,
    {
        self.config = config.clone();
    }
}

/// The bias currents of a schedule: each entry of the base schedule times
/// the polarity, scaled from microamperes to amperes.
pub open spec fn spec_bias_currents(min: Real, max: Real, polarity: Real) -> Seq<Real> {
    spec_linspace(min, max, 5).map_values(
        |l: Real| spec_div(spec_mul(l, polarity), (Real { bits: MICRO_SCALE_BITS })),
    )
}

/// The configuration of a voltage-biased device: its bias voltage span.
#[derive(Clone, Copy)]
pub struct VoltageBiasedDeviceConfig {
    pub min_bias_voltage: Real,
    pub max_bias_voltage: Real,
    pub device_type: VoltageBiasedDeviceType,
}

impl VoltageBiasedDeviceConfig {
    /// The default span for a family: 0 to 5 volts.
    pub fn new_with_device_type(device_type: VoltageBiasedDeviceType) -> (r: Self)
        ensures
            r.min_bias_voltage.bits == ZERO_BITS,
            r.max_bias_voltage.bits == SWEEP_MAX_V_BITS,
            r.device_type == device_type,
    {
        VoltageBiasedDeviceConfig {
            min_bias_voltage: Real::zero(),
            max_bias_voltage: Real::from_bits(SWEEP_MAX_V_BITS),
            device_type,
        }
    }
}

/// The family of voltage-biased three-terminal devices.
#[derive(Clone, Copy, PartialEq, Eq, Structural, Debug)]
pub enum VoltageBiasedDeviceType {
    NEFET,
    PEFET,
    NDFET,
    PDFET,
}

/// A voltage-biased three-terminal device under test.
#[derive(Clone)]
pub struct VoltageBiasedDevice {
    pub config: VoltageBiasedDeviceConfig,
    pub device_type: VoltageBiasedDeviceType,
}

impl VoltageBiasedDeviceType {
    /// The display name of the family.
    pub fn as_str(self) -> (r: &'static str)
        ensures
            self is NEFET ==> r@ == "NEFET"@,
            self is PEFET ==> r@ == "PEFET"@,
            self is NDFET ==> r@ == "NDFET"@,
            self is PDFET ==> r@ == "PDFET"@,
    {
        match self {
            VoltageBiasedDeviceType::NEFET => "NEFET",
            VoltageBiasedDeviceType::PEFET => "PEFET",
            VoltageBiasedDeviceType::NDFET => "NDFET",
            VoltageBiasedDeviceType::PDFET => "PDFET",
        }
    }

    /// The family named by a display name.
    pub fn from_str(s: &str) -> (r: Result<VoltageBiasedDeviceType, ()>)
        ensures
            s@ == "NEFET"@ ==> r == Result::<VoltageBiasedDeviceType, ()>::Ok(
                VoltageBiasedDeviceType::NEFET,
            ),
            s@ == "PEFET"@ ==> r == Result::<VoltageBiasedDeviceType, ()>::Ok(
                VoltageBiasedDeviceType::PEFET,
            ),
            s@ == "NDFET"@ ==> r == Result::<VoltageBiasedDeviceType, ()>::Ok(
                VoltageBiasedDeviceType::NDFET,
            ),
            s@ == "PDFET"@ ==> r == Result::<VoltageBiasedDeviceType, ()>::Ok(
                VoltageBiasedDeviceType::PDFET,
            ),
            s@ != "NEFET"@ && s@ != "PEFET"@ && s@ != "NDFET"@ && s@ != "PDFET"@ ==> r is Err,
    {
        proof {
            reveal_strlit("NEFET");
            reveal_strlit("PEFET");
            reveal_strlit("NDFET");
            reveal_strlit("PDFET");
            assert("NEFET"@[0] == 'N' && "PEFET"@[0] == 'P' && "NDFET"@[0] == 'N'
                && "PDFET"@[0] == 'P');
            assert("NEFET"@[1] == 'E' && "PEFET"@[1] == 'E' && "NDFET"@[1] == 'D'
                && "PDFET"@[1] == 'D');
            assert("NEFET"@ != "PEFET"@ && "NEFET"@ != "NDFET"@ && "NEFET"@ != "PDFET"@);
            assert("PEFET"@ != "NDFET"@ && "PEFET"@ != "PDFET"@);
            assert("NDFET"@ != "PDFET"@);
        }
        if crate::options::str_eq(s, "NEFET") {
            Ok(VoltageBiasedDeviceType::NEFET)
        } else if crate::options::str_eq(s, "PEFET") {
            Ok(VoltageBiasedDeviceType::PEFET)
        } else if crate::options::str_eq(s, "NDFET") {
            Ok(VoltageBiasedDeviceType::NDFET)
        } else if crate::options::str_eq(s, "PDFET") {
            Ok(VoltageBiasedDeviceType::PDFET)
        } else {
            Err(())
        }
    }
}

impl VoltageBiasedDevice {
    /// A device of the family under the default configuration.
    pub fn from_type(device_type: VoltageBiasedDeviceType) -> (r: Self)
        ensures
            r.device_type == device_type,
            r.config.device_type == device_type,
            r.config.min_bias_voltage.bits == ZERO_BITS,
            r.config.max_bias_voltage.bits == SWEEP_MAX_V_BITS,
    {
        VoltageBiasedDevice {
            config: VoltageBiasedDeviceConfig::new_with_device_type(device_type),
            device_type,
        }
    }

    /// The sweep polarity: positive for N-channel families.
    pub fn polarity(&self) -> (r: Real)
        ensures
            (self.device_type is NEFET || self.device_type is NDFET) ==> r.bits == ONE_BITS,
            (self.device_type is PEFET || self.device_type is PDFET) ==> r.bits == NEG_ONE_BITS,
    {
        match self.device_type {
            VoltageBiasedDeviceType::NEFET | VoltageBiasedDeviceType::NDFET => Real::one(),
            VoltageBiasedDeviceType::PEFET | VoltageBiasedDeviceType::PDFET => Real::from_bits(
                NEG_ONE_BITS,
            ),
        }
    }

    /// The bias polarity: positive for enhancement-mode N and
    /// depletion-mode P families.
    pub fn bias_polarity(&self) -> (r: Real)
        ensures
            (self.device_type is NEFET || self.device_type is PDFET) ==> r.bits == ONE_BITS,
            (self.device_type is NDFET || self.device_type is PEFET) ==> r.bits == NEG_ONE_BITS,
    {
        match self.device_type {
            VoltageBiasedDeviceType::NEFET | VoltageBiasedDeviceType::PDFET => Real::one(),
            VoltageBiasedDeviceType::NDFET | VoltageBiasedDeviceType::PEFET => Real::from_bits(
                NEG_ONE_BITS,
            ),
        }
    }

    /// Five bias voltages evenly spanning the configured range, with the
    /// bias polarity applied.
    pub fn bias_levels(&self) -> (r: Vec<Real>)
        ensures
            r@.len() == 5,
            r@ == (spec_bias_voltages(
                self.config.min_bias_voltage,
                self.config.max_bias_voltage,
                (if self.device_type is NEFET || self.device_type is PDFET {
                    Real { bits: ONE_BITS }
                } else {
                    Real { bits: NEG_ONE_BITS }
                }),
            )),
    {
        let bias_polarity = self.bias_polarity();
        let base = linspace(self.config.min_bias_voltage, self.config.max_bias_voltage, 5);
        let mut out: Vec<Real> = Vec::new();
        let mut i: usize = 0;
        while i < base.len()
            invariant
                i <= base@.len(),
                base@.len() == 5,
                base@ == spec_linspace(
                    self.config.min_bias_voltage,
                    self.config.max_bias_voltage,
                    5,
                ),
                bias_polarity == (if self.device_type is NEFET || self.device_type is PDFET {
                    Real { bits: ONE_BITS }
                } else {
                    Real { bits: NEG_ONE_BITS }
                }),
                out@.len() == i,
                forall|k: int| 0 <= k < i ==> out@[k] == (spec_mul(base@[k], bias_polarity)),
            decreases base@.len() - i,
        {
            out.push(base[i].mul(bias_polarity));
            i = i + 1;
        }
        proof {
            assert(out@ =~= spec_bias_voltages(
                self.config.min_bias_voltage,
                self.config.max_bias_voltage,
                bias_polarity,
            ));
        }
        out
    }

    /// The area the sweep is expected to cover, by polarity.
    pub fn area_of_interest(&self) -> (r: AreaOfInterest) {
        match self.device_type {
            VoltageBiasedDeviceType::NEFET | VoltageBiasedDeviceType::NDFET => {
                AreaOfInterest::new_pos_i_pos_v(
                    Real::from_bits(SWEEP_MAX_I_BITS),
                    Real::from_bits(SWEEP_MAX_V_BITS),
                ).extended()
            },
            VoltageBiasedDeviceType::PEFET | VoltageBiasedDeviceType::PDFET => {
                AreaOfInterest::new_pos_i_neg_v(
                    Real::from_bits(SWEEP_MAX_I_BITS),
                    Real::from_bits(SWEEP_MAX_V_BITS),
                ).extended()
            },
        }
    }

    /// The device's configuration.
    pub fn config(&self) -> (r: VoltageBiasedDeviceConfig)
        ensures
            r.min_bias_voltage == self.config.min_bias_voltage,
            r.max_bias_voltage == self.config.max_bias_voltage,
            r.device_type == self.config.device_type,
    {
        self.config.clone()
    }

    /// Replaces the device's configuration.
    pub fn set_config(&mut self, config: &VoltageBiasedDeviceConfig)
        ensures
            final(self).config.min_bias_voltage == config.min_bias_voltage,
            final(self).config.max_bias_voltage == config.max_bias_voltage,
            final(self).device_type == old(self).device_type,
    {
        self.config = config.clone();
    }
}

/// The bias voltages of a schedule: each entry of the base schedule times
/// the bias polarity.
pub open spec fn spec_bias_voltages(min: Real, max: Real, bias_polarity: Real) -> Seq<Real> {
    spec_linspace(min, max, 5).map_values(|l: Real| spec_mul(l, bias_polarity))
}

/// The family of three-terminal devices, by terminal naming.
#[derive(Clone, Copy, PartialEq, Eq, Structural, Debug)]
pub enum ThreeTerminalDeviceType {
    NPN,
    PNP,
    NFET,
    PFET,
}

impl ThreeTerminalDeviceType {
    /// The display name of the family.
    pub fn as_str(self) -> (r: &'static str)
        ensures
            self is NPN ==> r@ == "NPN"@,
            self is PNP ==> r@ == "PNP"@,
            self is NFET ==> r@ == "NFET"@,
            self is PFET ==> r@ == "PFET"@,
    {
        match self {
            ThreeTerminalDeviceType::NPN => "NPN",
            ThreeTerminalDeviceType::PNP => "PNP",
            ThreeTerminalDeviceType::NFET => "NFET",
            ThreeTerminalDeviceType::PFET => "PFET",
        }
    }

    /// What the auxiliary terminal of the family is driven with.
    pub fn bias_drive(self) -> (r: BiasDrive)
        ensures
            (self is NPN || self is PNP) <==> r is Current,
    {
        match self {
            ThreeTerminalDeviceType::NPN | ThreeTerminalDeviceType::PNP => BiasDrive::Current,
            ThreeTerminalDeviceType::NFET | ThreeTerminalDeviceType::PFET => BiasDrive::Voltage,
        }
    }
}

/// Any device family this instrument traces.
#[derive(Clone, Copy, PartialEq, Eq, Structural, Debug)]
pub enum SomeDeviceType {
    TwoTerminal(TwoTerminalDeviceType),
    VoltageBiased(VoltageBiasedDeviceType),
    CurrentBiased(CurrentBiasedDeviceType),
}

/// Any device under test.
#[derive(Clone)]
pub enum SomeDevice {
    TwoTerminal(TwoTerminalDevice),
    VoltageBiased(VoltageBiasedDevice),
    CurrentBiased(CurrentBiasedDevice),
}

/// The configuration any device carries, for the front end to edit.
pub enum DeviceConfig {
    Bare,
    FET(VoltageBiasedDeviceConfig),
    BJT(CurrentBiasedDeviceConfig),
}

/// A device family that knows the concrete device it names.
pub trait DeviceType {
    /// The device the family names.
    type Device;

    /// A fresh device of the family.
    fn to_device(&self) -> Self::Device;
}

impl SomeDeviceType {
    /// How the device's pins meet the instrument's sockets.
    pub fn connection_hint(self) -> (r: &'static str)
        ensures
            r@ == spec_connection_hint(self),
    {
        match self {
            SomeDeviceType::TwoTerminal(TwoTerminalDeviceType::Diode) => "Top row: AKKKKKK",
            SomeDeviceType::CurrentBiased(CurrentBiasedDeviceType::NPN) => "Bottom row: CBECBEC",
            SomeDeviceType::CurrentBiased(CurrentBiasedDeviceType::PNP) => {
                "Bottom row: EBCEBCE (reversed E/C)"
            },
            SomeDeviceType::VoltageBiased(VoltageBiasedDeviceType::NEFET)
            | SomeDeviceType::VoltageBiased(VoltageBiasedDeviceType::NDFET) => {
                "Bottom row: DGSDGSD"
            },
            SomeDeviceType::VoltageBiased(VoltageBiasedDeviceType::PEFET)
            | SomeDeviceType::VoltageBiased(VoltageBiasedDeviceType::PDFET) => {
                "Bottom row: SGDSGDS (reversed S/D)"
            },
        }
    }
}

/// The connection hint of each family.
pub open spec fn spec_connection_hint(t: SomeDeviceType) -> Seq<char> {
    match t {
        SomeDeviceType::TwoTerminal(TwoTerminalDeviceType::Diode) => "Top row: AKKKKKK"@,
        SomeDeviceType::CurrentBiased(CurrentBiasedDeviceType::NPN) => "Bottom row: CBECBEC"@,
        SomeDeviceType::CurrentBiased(CurrentBiasedDeviceType::PNP) => {
            "Bottom row: EBCEBCE (reversed E/C)"@
        },
        SomeDeviceType::VoltageBiased(VoltageBiasedDeviceType::NEFET)
        | SomeDeviceType::VoltageBiased(VoltageBiasedDeviceType::NDFET) => "Bottom row: DGSDGSD"@,
        SomeDeviceType::VoltageBiased(VoltageBiasedDeviceType::PEFET)
        | SomeDeviceType::VoltageBiased(VoltageBiasedDeviceType::PDFET) => {
            "Bottom row: SGDSGDS (reversed S/D)"@
        },
    }
}

impl DeviceType for SomeDeviceType {
    type Device = SomeDevice;

    /// A fresh device of the named family, under default configuration.
    fn to_device(&self) -> (r: SomeDevice)
        ensures
            (match *self {
                SomeDeviceType::TwoTerminal(_) => r is TwoTerminal,
                SomeDeviceType::VoltageBiased(t) => r matches SomeDevice::VoltageBiased(d)
                    && d.device_type == t,
                SomeDeviceType::CurrentBiased(t) => r matches SomeDevice::CurrentBiased(d)
                    && d.device_type == t,
            }),
    {
        match *self {
            SomeDeviceType::TwoTerminal(TwoTerminalDeviceType::Diode) => SomeDevice::TwoTerminal(
                TwoTerminalDevice::Diode,
            ),
            SomeDeviceType::CurrentBiased(t) => SomeDevice::CurrentBiased(
                CurrentBiasedDevice::from_type(t),
            ),
            SomeDeviceType::VoltageBiased(t) => SomeDevice::VoltageBiased(
                VoltageBiasedDevice::from_type(t),
            ),
        }
    }
}

impl SomeDevice {
    /// The family of this device.
    pub fn device_type(&self) -> (r: SomeDeviceType)
        ensures
            (match *self {
                SomeDevice::TwoTerminal(_) => r == SomeDeviceType::TwoTerminal(
                    TwoTerminalDeviceType::Diode,
                ),
                SomeDevice::VoltageBiased(ref d) => r == SomeDeviceType::VoltageBiased(
                    d.device_type,
                ),
                SomeDevice::CurrentBiased(ref d) => r == SomeDeviceType::CurrentBiased(
                    d.device_type,
                ),
            }),
    {
        match self {
            SomeDevice::TwoTerminal(_) => SomeDeviceType::TwoTerminal(TwoTerminalDeviceType::Diode),
            SomeDevice::VoltageBiased(d) => SomeDeviceType::VoltageBiased(d.device_type),
            SomeDevice::CurrentBiased(d) => SomeDeviceType::CurrentBiased(d.device_type),
        }
    }

    /// The area the device's sweep is expected to cover.
    pub fn area_of_interest(&self) -> AreaOfInterest {
        match self {
            SomeDevice::TwoTerminal(d) => d.area_of_interest(),
            SomeDevice::VoltageBiased(d) => d.area_of_interest(),
            SomeDevice::CurrentBiased(d) => d.area_of_interest(),
        }
    }

    /// The device's configuration, wrapped by its kind.
    pub fn config(&self) -> (r: DeviceConfig)
        ensures
            (match *self {
                SomeDevice::TwoTerminal(_) => r is Bare,
                SomeDevice::VoltageBiased(ref d) => r matches DeviceConfig::FET(c)
                    && c.min_bias_voltage == d.config.min_bias_voltage
                    && c.max_bias_voltage == d.config.max_bias_voltage,
                SomeDevice::CurrentBiased(ref d) => r matches DeviceConfig::BJT(c)
                    && c.min_bias_current == d.config.min_bias_current
                    && c.max_bias_current == d.config.max_bias_current,
            }),
    {
        match self {
            SomeDevice::TwoTerminal(_) => DeviceConfig::Bare,
            SomeDevice::VoltageBiased(d) => DeviceConfig::FET(d.config()),
            SomeDevice::CurrentBiased(d) => DeviceConfig::BJT(d.config()),
        }
    }

    /// Takes over a configuration of the device's own kind; one of
    /// another kind changes nothing.
    pub fn set_config(&mut self, config: &DeviceConfig)
        ensures
            (match *old(self) {
                SomeDevice::TwoTerminal(_) => *final(self) == *old(self),
                SomeDevice::VoltageBiased(ref d) => (match *config {
                    DeviceConfig::FET(c) => *final(self) matches SomeDevice::VoltageBiased(nd)
                        && nd.config.min_bias_voltage == c.min_bias_voltage
                        && nd.config.max_bias_voltage == c.max_bias_voltage
                        && nd.device_type == d.device_type,
                    _ => *final(self) == *old(self),
                }),
                SomeDevice::CurrentBiased(ref d) => (match *config {
                    DeviceConfig::BJT(c) => *final(self) matches SomeDevice::CurrentBiased(nd)
                        && nd.config.min_bias_current == c.min_bias_current
                        && nd.config.max_bias_current == c.max_bias_current
                        && nd.device_type == d.device_type,
                    _ => *final(self) == *old(self),
                }),
            }),
    {
        match self {
            SomeDevice::TwoTerminal(_) => {},
            SomeDevice::VoltageBiased(d) => {
                match config {
                    DeviceConfig::FET(c) => d.set_config(c),
                    _ => {},
                }
            },
            SomeDevice::CurrentBiased(d) => {
                match config {
                    DeviceConfig::BJT(c) => d.set_config(c),
                    _ => {},
                }
            },
        }
    }
}

} // verus!
