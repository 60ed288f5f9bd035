//! The home-automation hub's discovery and state payloads.
//!
//! On every new connection the publish worker announces the device once:
//! a retained discovery message naming the device, its origin, the
//! steady-state topic, and one component descriptor per published
//! metric.  The steady-state message is a flat record of the eight
//! optionally-present metric values.  Topic names and component
//! identifiers are derived deterministically from the device identifier.
//! Turning these records into wire bytes happens outside this crate; the
//! records themselves, and every derived name in them, are built and
//! pinned down here.

use vstd::prelude::*;

use crate::readings::Readings;

verus! {

/// The build-time identity a device carries.
pub struct DeviceConfig {
    /// The unique device identifier every derived name starts from.
    pub identifier: String,
    /// The human-readable device name.
    pub name: String,
    pub manufacturer: String,
    pub model: String,
    pub sw_version: String,
    pub hw_version: String,
    /// Where the device's project lives.
    pub url: String,
}

/// The device block of the discovery message.
pub struct DiscoveryDevice {
    pub identifier: String,
    pub name: String,
    pub manufacturer: String,
    pub model: String,
    pub sw_version: String,
    pub hw_version: String,
}

/// The origin block of the discovery message.
pub struct DiscoveryOrigin {
    pub name: String,
    pub sw_version: String,
    pub url: String,
}

/// One component descriptor: how the hub should read one metric out of
/// the state message.
pub struct DiscoveryComponent {
    pub platform: String,
    pub device_class: String,
    pub unit_of_measurement: String,
    pub name: String,
    pub value_template: String,
    pub unique_id: String,
}

/// The retained announcement describing the device and its metrics.
pub struct DiscoveryMessage {
    pub device: DiscoveryDevice,
    pub origin: DiscoveryOrigin,
    /// The topic steady-state messages are published on.
    pub state_topic: String,
    /// The component descriptors, one per metric, each under a unique
    /// identifier.
    pub components: Vec<DiscoveryComponent>,
}

/// The steady-state message: the eight metric values, each possibly
/// absent, fixed-point thousandths.
#[derive(Clone, Copy, Debug, PartialEq, Eq)]
pub struct StateMessage {
    pub temperature: Option<i64>,
    pub humidity: Option<i64>,
    pub pm1: Option<i64>,
    pub pm2_5: Option<i64>,
    pub pm4: Option<i64>,
    pub pm10: Option<i64>,
    pub voc: Option<i64>,
    pub nox: Option<i64>,
}

impl From<Readings> for StateMessage {
    /// A state message is the snapshot's fields under the hub's names.
    fn from(readings: Readings) -> (r: StateMessage) {
        StateMessage {
            temperature: readings.temperature,
            humidity: readings.humidity,
            pm1: readings.pm1_0,
            pm2_5: readings.pm2_5,
            pm4: readings.pm4_0,
            pm10: readings.pm10_0,
            voc: readings.voc_index,
            nox: readings.nox_index,
        }
    }
}

impl vstd::std_specs::convert::FromSpecImpl<Readings> for StateMessage {
    open spec fn obeys_from_spec() -> bool {
        true
    }

    open spec fn from_spec(readings: Readings) -> StateMessage {
        StateMessage {
            temperature: readings.temperature,
            humidity: readings.humidity,
            pm1: readings.pm1_0,
            pm2_5: readings.pm2_5,
            pm4: readings.pm4_0,
            pm10: readings.pm10_0,
            voc: readings.voc_index,
            nox: readings.nox_index,
        }
    }
}

/// The topic steady-state messages are published on, derived from the
/// device identifier.
pub fn state_topic(identifier: &str) -> (r: String)
    ensures
        r@ == "/vindskrivare/"@ + identifier@ + "/state"@,
{
    let mut s = String::from_str("/vindskrivare/");
    s.append(identifier);
    s.append("/state");
    proof {
        assert(s@ =~= "/vindskrivare/"@ + identifier@ + "/state"@);
    }
    s
}

/// The topic the discovery message is published on, under the hub's
/// configured discovery prefix.
pub fn discovery_topic(prefix: &str, identifier: &str) -> (r: String)
    ensures
        r@ == prefix@ + "/device/"@ + identifier@ + "/config"@,
{
    let mut s = String::from_str("");
    s.append(prefix);
    s.append("/device/");
    s.append(identifier);
    s.append("/config");
    proof {
        reveal_strlit("");
        assert(s@ =~= prefix@ + "/device/"@ + identifier@ + "/config"@);
    }
    s
}

/// A component's unique identifier: the device identifier with the
/// metric's suffix.
pub fn component_id(identifier: &str, suffix: &str) -> (r: String)
    ensures
        r@ == identifier@ + suffix@,
{
    let mut s = String::from_str(identifier);
    s.append(suffix);
    s
}

/// Whether a component descriptor carries exactly these six fields.
pub open spec fn component_matches(
    c: DiscoveryComponent,
    platform: Seq<char>,
    device_class: Seq<char>,
    unit: Seq<char>,
    name: Seq<char>,
    template: Seq<char>,
    unique_id: Seq<char>,
) -> bool {
    &&& c.platform@ == platform
    &&& c.device_class@ == device_class
    &&& c.unit_of_measurement@ == unit
    &&& c.name@ == name
    &&& c.value_template@ == template
    &&& c.unique_id@ == unique_id
}

/// Build one component descriptor.
fn component(
    platform: &str,
    device_class: &str,
    unit: &str,
    name: &str,
    template: &str,
    unique_id: String,
) -> (c: DiscoveryComponent)
    ensures
        component_matches(
            c,
            platform@,
            device_class@,
            unit@,
            name@,
            template@,
            unique_id@,
        ),
{
    DiscoveryComponent {
        platform: String::from_str(platform),
        device_class: String::from_str(device_class),
        unit_of_measurement: String::from_str(unit),
        name: String::from_str(name),
        value_template: String::from_str(template),
        unique_id,
    }
}

/// Build the retained discovery message for a device: its identity and
/// origin blocks, the derived state topic, and the eight component
/// descriptors — temperature, humidity, the four particulate cutoffs,
/// and the two gas indices — each under an identifier derived from the
/// device identifier with its metric suffix.
pub fn get_discovery_payload(cfg: &DeviceConfig) -> (r: DiscoveryMessage)
    ensures
        r.device.identifier@ == cfg.identifier@,
        r.device.name@ == cfg.name@,
        r.device.manufacturer@ == cfg.manufacturer@,
        r.device.model@ == cfg.model@,
        r.device.sw_version@ == cfg.sw_version@,
        r.device.hw_version@ == cfg.hw_version@,
        r.origin.name@ == cfg.name@,
        r.origin.sw_version@ == cfg.sw_version@,
        r.origin.url@ == cfg.url@,
        r.state_topic@ == "/vindskrivare/"@ + cfg.identifier@ + "/state"@,
        r.components@.len() == 8,
        component_matches(
            r.components@[0],
            "sensor"@,
            "temperature"@,
            "°C"@,
            "Temperature"@,
            "{{ value_json.temperature }}"@,
            cfg.identifier@ + "_t"@,
        ),
        component_matches(
            r.components@[1],
            "sensor"@,
            "humidity"@,
            "%"@,
            "Humidity"@,
            "{{ value_json.humidity }}"@,
            cfg.identifier@ + "_h"@,
        ),
        component_matches(
            r.components@[2],
            "sensor"@,
            "pm1"@,
            "µg/m³"@,
            "PM1.0"@,
            "{{ value_json.pm1 }}"@,
            cfg.identifier@ + "_pm1"@,
        ),
        component_matches(
            r.components@[3],
            "sensor"@,
            "pm25"@,
            "µg/m³"@,
            "PM2.5"@,
            "{{ value_json.pm2_5 }}"@,
            cfg.identifier@ + "_pm2_5"@,
        ),
        component_matches(
            r.components@[4],
            "sensor"@,
            "pm25"@,
            "µg/m³"@,
            "PM4.0"@,
            "{{ value_json.pm4 }}"@,
            cfg.identifier@ + "_pm4"@,
        ),
        component_matches(
            r.components@[5],
            "sensor"@,
            "pm10"@,
            "µg/m³"@,
            "PM10.0"@,
            "{{ value_json.pm10 }}"@,
            cfg.identifier@ + "_pm10"@,
        ),
        component_matches(
            r.components@[6],
            "sensor"@,
            "volatile_organic_compounds"@,
            "µg/m³"@,
            "tVOC"@,
            "{{ value_json.voc }}"@,
            cfg.identifier@ + "_voc"@,
        ),
        component_matches(
            r.components@[7],
            "sensor"@,
            "nitrous_oxide"@,
            "ppb"@,
            "tNOx"@,
            "{{ value_json.nox }}"@,
            cfg.identifier@ + "_nox"@,
        ),
        forall|i: int, j: int|
            0 <= i < j < 8 ==> r.components@[i].unique_id@ != r.components@[j].unique_id@,
{
    let device = DiscoveryDevice {
        identifier: String::from_str(cfg.identifier.as_str()),
        name: String::from_str(cfg.name.as_str()),
        manufacturer: String::from_str(cfg.manufacturer.as_str()),
        model: String::from_str(cfg.model.as_str()),
        sw_version: String::from_str(cfg.sw_version.as_str()),
        hw_version: String::from_str(cfg.hw_version.as_str()),
    };
    let origin = DiscoveryOrigin {
        name: String::from_str(cfg.name.as_str()),
        sw_version: String::from_str(cfg.sw_version.as_str()),
        url: String::from_str(cfg.url.as_str()),
    };
    let mut components: Vec<DiscoveryComponent> = Vec::new();
    components.push(
        component(
            "sensor",
            "temperature",
            "°C",
            "Temperature",
            "{{ value_json.temperature }}",
            component_id(cfg.identifier.as_str(), "_t"),
        ),
    );
    components.push(
        component(
            "sensor",
            "humidity",
            "%",
            "Humidity",
            "{{ value_json.humidity }}",
            component_id(cfg.identifier.as_str(), "_h"),
        ),
    );
    components.push(
        component(
            "sensor",
            "pm1",
            "µg/m³",
            "PM1.0",
            "{{ value_json.pm1 }}",
            component_id(cfg.identifier.as_str(), "_pm1"),
        ),
    );
    components.push(
        component(
            "sensor",
            "pm25",
            "µg/m³",
            "PM2.5",
            "{{ value_json.pm2_5 }}",
            component_id(cfg.identifier.as_str(), "_pm2_5"),
        ),
    );
    components.push(
        component(
            "sensor",
            "pm25",
            "µg/m³",
            "PM4.0",
            "{{ value_json.pm4 }}",
            component_id(cfg.identifier.as_str(), "_pm4"),
        ),
    );
    components.push(
        component(
            "sensor",
            "pm10",
            "µg/m³",
            "PM10.0",
            "{{ value_json.pm10 }}",
            component_id(cfg.identifier.as_str(), "_pm10"),
        ),
    );
    components.push(
        component(
            "sensor",
            "volatile_organic_compounds",
            "µg/m³",
            "tVOC",
            "{{ value_json.voc }}",
            component_id(cfg.identifier.as_str(), "_voc"),
        ),
    );
    components.push(
        component(
            "sensor",
            "nitrous_oxide",
            "ppb",
            "tNOx",
            "{{ value_json.nox }}",
            component_id(cfg.identifier.as_str(), "_nox"),
        ),
    );
    let state_topic = state_topic(cfg.identifier.as_str());
    proof {
        // the eight suffixes end in eight different characters, so the
        // derived identifiers cannot collide
        reveal_strlit("_t");
        reveal_strlit("_h");
        reveal_strlit("_pm1");
        reveal_strlit("_pm2_5");
        reveal_strlit("_pm4");
        reveal_strlit("_pm10");
        reveal_strlit("_voc");
        reveal_strlit("_nox");
        let id = cfg.identifier@;
        assert((id + "_t"@).last() == 't');
        assert((id + "_h"@).last() == 'h');
        assert((id + "_pm1"@).last() == '1');
        assert((id + "_pm2_5"@).last() == '5');
        assert((id + "_pm4"@).last() == '4');
        assert((id + "_pm10"@).last() == '0');
        assert((id + "_voc"@).last() == 'c');
        assert((id + "_nox"@).last() == 'x');
    }
    DiscoveryMessage { device, origin, state_topic, components }
}

} // verus!
