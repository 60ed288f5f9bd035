use vindskrivare::hass::{
    discovery_topic, get_discovery_payload, state_topic, DeviceConfig, StateMessage,
};
use vindskrivare::readings::Readings;

fn config() -> DeviceConfig {
    DeviceConfig {
        identifier: String::from("airq1"),
        name: String::from("Office monitor"),
        manufacturer: String::from("mrbran4"),
        model: String::from("Vindskrivare"),
        sw_version: String::from("0.1.0"),
        hw_version: String::from("PicoW_SEN55_v1.0"),
        url: String::from("https://github.com/mrbran4/Vindskrivare"),
    }
}

#[test]
fn topics_derive_from_the_identifier() {
    assert_eq!(state_topic("airq1"), "/vindskrivare/airq1/state");
    assert_eq!(
        discovery_topic("homeassistant", "airq1"),
        "homeassistant/device/airq1/config"
    );
}

#[test]
fn discovery_payload_carries_the_device_identity() {
    let msg = get_discovery_payload(&config());
    assert_eq!(msg.device.identifier, "airq1");
    assert_eq!(msg.device.name, "Office monitor");
    assert_eq!(msg.device.manufacturer, "mrbran4");
    assert_eq!(msg.device.model, "Vindskrivare");
    assert_eq!(msg.device.sw_version, "0.1.0");
    assert_eq!(msg.device.hw_version, "PicoW_SEN55_v1.0");
    assert_eq!(msg.origin.name, "Office monitor");
    assert_eq!(msg.origin.sw_version, "0.1.0");
    assert_eq!(msg.origin.url, "https://github.com/mrbran4/Vindskrivare");
    assert_eq!(msg.state_topic, "/vindskrivare/airq1/state");
}

#[test]
fn discovery_payload_lists_all_eight_components() {
    let msg = get_discovery_payload(&config());
    assert_eq!(msg.components.len(), 8);
    let expected = [
        ("temperature", "°C", "Temperature", "{{ value_json.temperature }}", "airq1_t"),
        ("humidity", "%", "Humidity", "{{ value_json.humidity }}", "airq1_h"),
        ("pm1", "µg/m³", "PM1.0", "{{ value_json.pm1 }}", "airq1_pm1"),
        ("pm25", "µg/m³", "PM2.5", "{{ value_json.pm2_5 }}", "airq1_pm2_5"),
        ("pm25", "µg/m³", "PM4.0", "{{ value_json.pm4 }}", "airq1_pm4"),
        ("pm10", "µg/m³", "PM10.0", "{{ value_json.pm10 }}", "airq1_pm10"),
        (
            "volatile_organic_compounds",
            "µg/m³",
            "tVOC",
            "{{ value_json.voc }}",
            "airq1_voc",
        ),
        ("nitrous_oxide", "ppb", "tNOx", "{{ value_json.nox }}", "airq1_nox"),
    ];
    for (c, (device_class, unit, name, template, unique_id)) in
        msg.components.iter().zip(expected)
    {
        assert_eq!(c.platform, "sensor");
        assert_eq!(c.device_class, device_class);
        assert_eq!(c.unit_of_measurement, unit);
        assert_eq!(c.name, name);
        assert_eq!(c.value_template, template);
        assert_eq!(c.unique_id, unique_id);
    }
}

#[test]
fn component_identifiers_never_collide() {
    let msg = get_discovery_payload(&config());
    for (i, a) in msg.components.iter().enumerate() {
        for (j, b) in msg.components.iter().enumerate() {
            if i != j {
                assert_ne!(a.unique_id, b.unique_id);
            }
        }
    }
}

#[test]
fn state_message_carries_the_snapshot_under_hub_names() {
    let r = Readings {
        pm1_0: Some(1_000),
        pm2_5: Some(2_500),
        pm4_0: Some(4_000),
        pm10_0: None,
        voc_index: Some(120_000),
        nox_index: None,
        temperature: Some(21_500),
        humidity: Some(44_000),
    };
    let m = StateMessage::from(r);
    assert_eq!(m.pm1, Some(1_000));
    assert_eq!(m.pm2_5, Some(2_500));
    assert_eq!(m.pm4, Some(4_000));
    assert_eq!(m.pm10, None);
    assert_eq!(m.voc, Some(120_000));
    assert_eq!(m.nox, None);
    assert_eq!(m.temperature, Some(21_500));
    assert_eq!(m.humidity, Some(44_000));
}
