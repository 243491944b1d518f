use curve_tracer::aoi::AreaOfInterest;
use curve_tracer::dut::{
    linspace, BiasDrive, CurrentBiasedDevice, CurrentBiasedDeviceType, DeviceType, SomeDevice,
    SomeDeviceType, ThreeTerminalDeviceType, TwoTerminalDevice, TwoTerminalDeviceType,
    VoltageBiasedDevice, VoltageBiasedDeviceType,
};
use curve_tracer::options::{CliBackendOption, CliOpt, LogLevel};
use curve_tracer::util::Try;
use curve_tracer::Real;

fn r(x: f64) -> Real {
    Real::from_bits(x.to_bits())
}

fn back(x: Real) -> f64 {
    f64::from_bits(x.to_bits())
}

#[test]
fn connection_hints_name_the_socket_rows() {
    assert_eq!(
        SomeDeviceType::TwoTerminal(TwoTerminalDeviceType::Diode).connection_hint(),
        "Top row: AKKKKKK"
    );
    assert_eq!(
        SomeDeviceType::CurrentBiased(CurrentBiasedDeviceType::NPN).connection_hint(),
        "Bottom row: CBECBEC"
    );
    assert_eq!(
        SomeDeviceType::CurrentBiased(CurrentBiasedDeviceType::PNP).connection_hint(),
        "Bottom row: EBCEBCE (reversed E/C)"
    );
    assert_eq!(
        SomeDeviceType::VoltageBiased(VoltageBiasedDeviceType::NEFET).connection_hint(),
        "Bottom row: DGSDGSD"
    );
    assert_eq!(
        SomeDeviceType::VoltageBiased(VoltageBiasedDeviceType::PDFET).connection_hint(),
        "Bottom row: SGDSGDS (reversed S/D)"
    );
}

#[test]
fn family_names_round_trip() {
    assert_eq!(TwoTerminalDeviceType::from_str("PN"), Ok(TwoTerminalDeviceType::Diode));
    assert_eq!(TwoTerminalDeviceType::Diode.as_str(), "PN");
    assert!(TwoTerminalDeviceType::from_str("NPN").is_err());
    for t in [CurrentBiasedDeviceType::NPN, CurrentBiasedDeviceType::PNP] {
        assert_eq!(CurrentBiasedDeviceType::from_str(t.as_str()), Ok(t));
    }
    assert!(CurrentBiasedDeviceType::from_str("FET").is_err());
    for t in [
        VoltageBiasedDeviceType::NEFET,
        VoltageBiasedDeviceType::PEFET,
        VoltageBiasedDeviceType::NDFET,
        VoltageBiasedDeviceType::PDFET,
    ] {
        assert_eq!(VoltageBiasedDeviceType::from_str(t.as_str()), Ok(t));
    }
    assert!(VoltageBiasedDeviceType::from_str("QFET").is_err());
    assert_eq!(ThreeTerminalDeviceType::NFET.as_str(), "NFET");
    assert!(matches!(ThreeTerminalDeviceType::NPN.bias_drive(), BiasDrive::Current));
    assert!(matches!(ThreeTerminalDeviceType::PFET.bias_drive(), BiasDrive::Voltage));
}

#[test]
fn a_family_makes_a_device_of_its_own_kind() {
    let d = SomeDeviceType::CurrentBiased(CurrentBiasedDeviceType::PNP).to_device();
    assert_eq!(
        d.device_type(),
        SomeDeviceType::CurrentBiased(CurrentBiasedDeviceType::PNP)
    );
    let d = SomeDeviceType::TwoTerminal(TwoTerminalDeviceType::Diode).to_device();
    assert!(matches!(d, SomeDevice::TwoTerminal(TwoTerminalDevice::Diode)));
}

#[test]
fn linspace_matches_the_numpy_style_rule() {
    let got = linspace(r(0.0), r(5.0), 5);
    let want: Vec<f64> = itertools_num::linspace(0.0f64, 5.0, 5).collect();
    assert_eq!(got.len(), want.len());
    for (g, w) in got.iter().zip(want.iter()) {
        assert_eq!(g.to_bits(), w.to_bits());
    }
    assert!(linspace(r(1.0), r(2.0), 0).is_empty());
    assert_eq!(back(linspace(r(1.5), r(9.0), 1)[0]), 1.5);
}

#[test]
fn bias_currents_scale_microamperes_by_polarity() {
    let npn = CurrentBiasedDevice::from_type(CurrentBiasedDeviceType::NPN);
    let got = npn.bias_levels();
    let want: Vec<f64> = itertools_num::linspace(0.000_010f64, 0.000_050, 5)
        .map(|l| l * 1.0 / 1_000_000.0)
        .collect();
    assert_eq!(got.len(), 5);
    for (g, w) in got.iter().zip(want.iter()) {
        assert_eq!(g.to_bits(), w.to_bits());
    }
    let pnp = CurrentBiasedDevice::from_type(CurrentBiasedDeviceType::PNP);
    for (g, w) in pnp.bias_levels().iter().zip(want.iter()) {
        assert_eq!(back(*g).to_bits(), (-w).to_bits());
    }
}

#[test]
fn bias_voltages_follow_the_bias_polarity() {
    let nefet = VoltageBiasedDevice::from_type(VoltageBiasedDeviceType::NEFET);
    let want: Vec<f64> = itertools_num::linspace(0.0f64, 5.0, 5).collect();
    for (g, w) in nefet.bias_levels().iter().zip(want.iter()) {
        assert_eq!(g.to_bits(), w.to_bits());
    }
    // An enhancement-mode P device is biased with the opposite sign.
    let pefet = VoltageBiasedDevice::from_type(VoltageBiasedDeviceType::PEFET);
    for (g, w) in pefet.bias_levels().iter().zip(want.iter()) {
        assert_eq!(back(*g).to_bits(), (w * -1.0).to_bits());
    }
}

#[test]
fn the_area_of_interest_grows_by_a_tenth_per_side() {
    let aoi = TwoTerminalDevice::Diode.area_of_interest();
    assert_eq!(back(aoi.min_v), 0.0 - (5.0 - 0.0) * 0.1);
    assert_eq!(back(aoi.max_v), 5.0 + (5.0 - 0.0) * 0.1);
    assert_eq!(back(aoi.min_i), 0.0 - (0.05 - 0.0) * 0.1);
    assert_eq!(back(aoi.max_i), 0.05 + (0.05 - 0.0) * 0.1);
}

#[test]
fn voltage_polarity_flips_only_for_clearly_negative_areas() {
    let pos = AreaOfInterest::new_pos_i_pos_v(r(0.05), r(5.0));
    assert_eq!(back(pos.v_polarity()), 1.0);
    let neg = AreaOfInterest::new_pos_i_neg_v(r(0.05), r(5.0));
    assert_eq!(back(neg.v_polarity()), -1.0);
    let d: AreaOfInterest = Default::default();
    assert_eq!(back(d.max_v), 5.0);
    assert_eq!(back(d.max_i), 0.005);
}

#[test]
fn log_levels_parse_their_names() {
    for l in [
        LogLevel::Off,
        LogLevel::Error,
        LogLevel::Warn,
        LogLevel::Info,
        LogLevel::Debug,
        LogLevel::Trace,
    ] {
        assert_eq!(LogLevel::from_str(l.as_str()), Ok(l));
    }
    assert!(LogLevel::from_str("loud").is_err());
}

#[test]
fn the_cli_options_pick_the_hardware_backend_by_default() {
    let opt = CliOpt { device: None, log_level: LogLevel::Warn };
    assert!(opt.uses_hardware());
    assert!(opt.csv_file().is_none());
    let opt = CliOpt {
        device: Some(CliBackendOption::Csv { file: "trace.csv".to_string() }),
        log_level: LogLevel::Warn,
    };
    assert!(!opt.uses_hardware());
    assert_eq!(opt.csv_file().unwrap(), "trace.csv");
}

#[test]
fn an_absent_value_turns_into_an_error() {
    let some: Option<u32> = Some(7);
    assert!(matches!(some.into_result(), Ok(7)));
    let none: Option<u32> = None;
    assert!(none.into_result().is_err());
}
