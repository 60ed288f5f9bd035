use vindskrivare::fmt::format_metric;
use vindskrivare::readings::{Health, Readings};

fn present_all(v: i64) -> Readings {
    Readings {
        pm1_0: Some(v),
        pm2_5: Some(v),
        pm4_0: Some(v),
        pm10_0: Some(v),
        voc_index: Some(v),
        nox_index: Some(v),
        temperature: Some(22_000),
        humidity: Some(45_000),
    }
}

#[test]
fn calm_snapshot_is_ok() {
    // every air-quality metric sits at or below its warning threshold
    let r = Readings {
        pm1_0: Some(25_000),
        pm2_5: Some(25_000),
        pm4_0: Some(25_000),
        pm10_0: Some(25_000),
        voc_index: Some(225_000),
        nox_index: Some(2_500),
        temperature: Some(60_000),
        humidity: Some(99_000),
    };
    assert_eq!(r.health(), Health::Okay);
}

#[test]
fn each_particulate_metric_triggers_warning() {
    for i in 0..4 {
        let mut r = present_all(0);
        let v = Some(25_001);
        match i {
            0 => r.pm1_0 = v,
            1 => r.pm2_5 = v,
            2 => r.pm4_0 = v,
            _ => r.pm10_0 = v,
        }
        assert_eq!(r.health(), Health::Warning);
    }
}

#[test]
fn gas_indices_trigger_warning() {
    let mut r = present_all(0);
    r.voc_index = Some(225_001);
    assert_eq!(r.health(), Health::Warning);
    let mut r = present_all(0);
    r.nox_index = Some(2_501);
    assert_eq!(r.health(), Health::Warning);
}

#[test]
fn each_metric_triggers_dangerous_over_its_danger_threshold() {
    let danger = [100_001, 100_001, 100_001, 100_001, 400_001, 5_001];
    for i in 0..6 {
        let mut r = present_all(0);
        let v = Some(danger[i]);
        match i {
            0 => r.pm1_0 = v,
            1 => r.pm2_5 = v,
            2 => r.pm4_0 = v,
            3 => r.pm10_0 = v,
            4 => r.voc_index = v,
            _ => r.nox_index = v,
        }
        assert_eq!(r.health(), Health::Dangerous);
    }
}

#[test]
fn danger_dominates_warning() {
    let mut r = present_all(30_000);
    r.nox_index = Some(6_000);
    assert_eq!(r.health(), Health::Dangerous);
}

#[test]
fn temperature_and_humidity_carry_no_severity() {
    let mut r = present_all(0);
    r.temperature = Some(500_000);
    r.humidity = Some(500_000);
    assert_eq!(r.health(), Health::Okay);
}

#[test]
fn absent_metrics_default_to_ok() {
    let r = Readings::empty();
    assert_eq!(r.health(), Health::Okay);
}

#[test]
fn example_scenario_pm2_5_warning() {
    // PM2.5 at 30.0, every other air-quality metric at zero
    let r = Readings {
        pm1_0: Some(0),
        pm2_5: Some(30_000),
        pm4_0: Some(0),
        pm10_0: Some(0),
        voc_index: Some(0),
        nox_index: Some(0),
        temperature: Some(22_000),
        humidity: Some(45_000),
    };
    assert_eq!(r.health(), Health::Warning);
    assert_eq!(format_metric(&r.pm2_5), "30.0");
}
