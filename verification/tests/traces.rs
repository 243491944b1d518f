use curve_tracer::aoi::AreaOfInterest;
use curve_tracer::backend::RawTrace;
use curve_tracer::dut::{
    CurrentBiasedDeviceConfig, DeviceConfig, SomeDevice, VoltageBiasedDevice,
    VoltageBiasedDeviceType,
};
use curve_tracer::trace::{
    NullTrace, ThreeTerminalTrace, Trace, TraceWithModel, TwoTerminalGuiTrace, TwoTerminalTrace,
};
use curve_tracer::Real;

fn r(x: f64) -> Real {
    Real::from_bits(x.to_bits())
}

fn back(x: Real) -> f64 {
    f64::from_bits(x.to_bits())
}

fn aoi() -> AreaOfInterest {
    AreaOfInterest::new_pos_i_pos_v(r(0.05), r(5.0))
}

fn diode_samples(n: usize) -> (Vec<Real>, Vec<Real>) {
    let mut vs = Vec::new();
    let mut is = Vec::new();
    for k in 0..n {
        let v = 0.8 * (k as f64) / (n as f64);
        let i = -0.000_1 + 0.000_000_02 * ((v / 0.055f64).exp() - 1.0);
        vs.push(r(v));
        is.push(r(i));
    }
    (vs, is)
}

#[test]
fn a_raw_trace_pairs_voltage_with_current() {
    let t = RawTrace::new(vec![r(1.0), r(2.0)], vec![r(0.25), r(0.5)]);
    assert_eq!(t.len(), 2);
    assert_eq!(t.iter(), vec![(r(0.25), r(1.0)), (r(0.5), r(2.0))]);
}

#[test]
fn filling_a_model_fits_the_diode_once() {
    let (vs, is) = diode_samples(3000);
    let tt = TwoTerminalTrace::from_raw_trace(RawTrace::new(is, vs), aoi());
    let mut gui = TwoTerminalGuiTrace::new(tt);
    assert!(gui.model.is_none());
    gui.fill_model();
    assert!(gui.filled);
    let model = gui.model.clone().expect("a clean diode trace must fit");
    assert!(back(model.n_vt()) > 0.0);
    let report = gui.model_report();
    assert!(report.contains("I<sub>S</sub>"));
    assert!(report.contains("n\u{22c5}V<sub>T</sub>"));
}

#[test]
fn an_unfittable_trace_reports_nothing() {
    let tt = TwoTerminalTrace::from_raw_trace(RawTrace::new(Vec::new(), Vec::new()), aoi());
    let mut gui = TwoTerminalGuiTrace::new(tt);
    gui.fill_model();
    assert!(gui.filled);
    assert!(gui.model.is_none());
    assert_eq!(gui.model_report(), "");
}

#[test]
fn csv_records_render_the_samples_after_a_header() {
    let t = RawTrace::new(vec![r(0.001), r(0.002)], vec![r(0.5), r(1.5)]);
    let tt = TwoTerminalTrace::from_raw_trace(t, aoi());
    let rows = tt.csv_records();
    assert_eq!(rows[0], vec!["v".to_string(), "i".to_string()]);
    assert_eq!(rows[1], vec![format!("{}", 0.5), format!("{}", 0.001)]);
    assert_eq!(rows[2], vec![format!("{}", 1.5), format!("{}", 0.002)]);
}

#[test]
fn the_null_trace_has_nothing_to_say() {
    let mut n = NullTrace {};
    n.fill_model();
    assert_eq!(n.model_report(), "");
    assert!(n.csv_records().is_empty());
}

#[test]
fn records_group_by_bias_level_in_ascending_order() {
    let mut t = ThreeTerminalTrace::new(false);
    t.add_record(r(0.00002), r(0.1), r(0.5), aoi());
    t.add_record(r(0.00001), r(0.2), r(0.6), aoi());
    t.add_record(r(0.00002), r(0.3), r(0.7), aoi());
    t.add_record(r(0.00003), r(0.4), r(0.8), aoi());
    assert_eq!(t.traces.len(), 3);
    assert_eq!(back(t.traces[0].0), 0.00001);
    assert_eq!(back(t.traces[1].0), 0.00002);
    assert_eq!(back(t.traces[2].0), 0.00003);
    // The two samples of the middle level arrived in order.
    let middle = &t.traces[1].1;
    assert_eq!(middle.trace.iter(), vec![(r(0.1), r(0.5)), (r(0.3), r(0.7))]);
}

#[test]
fn negative_bias_levels_sort_below_positive_ones() {
    let mut t = ThreeTerminalTrace::new(true);
    t.add_record(r(0.00001), r(0.1), r(0.1), aoi());
    t.add_record(r(-0.00001), r(0.2), r(0.2), aoi());
    t.add_record(r(-0.00003), r(0.3), r(0.3), aoi());
    assert!(t.reverse_order);
    assert_eq!(back(t.traces[0].0), -0.00003);
    assert_eq!(back(t.traces[1].0), -0.00001);
    assert_eq!(back(t.traces[2].0), 0.00001);
}

#[test]
fn three_terminal_records_export_with_their_bias() {
    let mut t = ThreeTerminalTrace::new(false);
    t.add_record(r(0.00002), r(0.25), r(0.5), aoi());
    t.add_record(r(0.00001), r(0.125), r(0.25), aoi());
    let rows = t.csv_records();
    assert_eq!(rows[0], vec!["v".to_string(), "i".to_string(), "bias".to_string()]);
    assert_eq!(rows[1], vec![format!("{}", 0.125), format!("{}", 0.25), format!("{}", 0.00001)]);
    assert_eq!(rows[2], vec![format!("{}", 0.25), format!("{}", 0.5), format!("{}", 0.00002)]);
    assert_eq!(back(Trace::area_of_interest(&t).max_v), 5.0);
    let mut t = t;
    t.fill_model();
    assert_eq!(t.model_report(), "");
}

#[test]
fn a_device_trades_configurations_of_its_own_kind() {
    let mut d = SomeDevice::VoltageBiased(VoltageBiasedDevice::from_type(
        VoltageBiasedDeviceType::NEFET,
    ));
    let c = d.config();
    assert!(matches!(c, DeviceConfig::FET(_)));
    match d.config() {
        DeviceConfig::FET(mut fc) => {
            fc.max_bias_voltage = r(3.0);
            d.set_config(&DeviceConfig::FET(fc));
        },
        _ => unreachable!(),
    }
    match d.config() {
        DeviceConfig::FET(fc) => assert_eq!(back(fc.max_bias_voltage), 3.0),
        _ => unreachable!(),
    }
    // A configuration of another kind changes nothing.
    d.set_config(&DeviceConfig::BJT(CurrentBiasedDeviceConfig::default()));
    match d.config() {
        DeviceConfig::FET(fc) => assert_eq!(back(fc.max_bias_voltage), 3.0),
        _ => unreachable!(),
    }
}
