//! End-to-end tests of the route table, dispatcher and decoders.

use mqtt2influx::glow::{GlowConfig, MeterReading, Units};
use mqtt2influx::tasmota_plug::{TasmotaPlug, TasmotaPlugConfig};
use mqtt2influx::zigbee::{Zigbee, ZigbeeConfig, ZigbeeReading};
use mqtt2influx::{Config, Error, InfluxDbConfig, MqttConfig, MqttMessage, Router};

fn base_config() -> Config {
    Config {
        mqtt: MqttConfig { url: "mqtt://localhost:1883".to_string() },
        influxdb: InfluxDbConfig {
            url: "http://localhost:8086".to_string(),
            org: "home".to_string(),
            token: "SECRET-REDACTED".to_string(),
        },
        glow: None,
        tasmota_plug: None,
        zigbee: None,
    }
}

fn elec_payload() -> Vec<u8> {
    br#"{"electricitymeter":{"timestamp":"2023-06-01T12:30:45Z","energy":{"export":{"cumulative":0.1,"units":"kWh"},"import":{"cumulative":1234.567,"day":1.5,"week":10.5,"month":40.2,"units":"kWh","mpan":"1234567890123","supplier":"ACME Energy","price":{"unitrate":0.2876,"standingcharge":0.4935}}},"power":{"value":0.42,"units":"kW"}}}"#.to_vec()
}

fn gas_payload() -> Vec<u8> {
    br#"{"gasmeter":{"timestamp":"2023-06-01T12:30:45Z","energy":{"import":{"cumulative":4321.9,"day":2.5,"week":17.0,"month":68.25,"units":"kWh","cumulativevol":390.125,"cumulativevolunits":"m3","dayvol":2.5,"weekvol":17.0,"monthvol":68.25,"dayweekmonthvolunits":"kWh","mprn":"9876543210","supplier":"ACME Energy","price":{"unitrate":0.07,"standingcharge":0.2651}}}}}"#.to_vec()
}

fn plug_payload() -> Vec<u8> {
    br#"{"Time":"2023-06-01T12:30:45Z","ENERGY":{"TotalStartTime":"2022-01-01T00:00:00","Total":123.456,"Yesterday":0.9,"Today":1.25,"Power":60,"ApparentPower":62,"ReactivePower":15,"Factor":0.97,"Voltage":240,"Current":0.26}}"#.to_vec()
}

// 2023-06-01T12:30:45Z is 1685622645 seconds after the Unix epoch.
const TS: &str = "1685622645";

#[test]
fn electricity_round_trip_exact_line() {
    let reading = MeterReading::from_payload(&elec_payload()).expect("fixture decodes");
    let line = reading.to_line();
    assert_eq!(
        line,
        format!(
            "electricity,mpan=1234567890123 power=0.42,cumulative=1234.567,price=0.2876,standing=0.4935 {TS}"
        )
    );
}

#[test]
fn gas_round_trip_exact_line() {
    let reading = MeterReading::from_payload(&gas_payload()).expect("fixture decodes");
    let line = reading.to_line();
    assert_eq!(
        line,
        format!(
            "gas,mprn=9876543210 cumulative=4321.9,cumulativevol=390.125,price=0.07,standing=0.2651 {TS}"
        )
    );
}

#[test]
fn electricity_fields_are_extracted() {
    match MeterReading::from_payload(&elec_payload()) {
        Some(MeterReading::Electricity(m)) => {
            assert_eq!(m.timestamp, 1685622645);
            assert_eq!(m.energy.import.mpan, "1234567890123");
            assert_eq!(m.energy.import.supplier, "ACME Energy");
            assert_eq!(m.energy.import.units, Units::kWh);
            assert_eq!(m.power.units, Units::kW);
            assert_eq!(m.power.value.text().as_str(), "0.42");
            assert_eq!(m.energy.import.day.text().as_str(), "1.5");
            assert_eq!(m.energy.export.cumulative.text().as_str(), "0.1");
        }
        _ => panic!("fixture must decode as an electricity reading"),
    }
}

#[test]
fn gas_fields_are_extracted() {
    match MeterReading::from_payload(&gas_payload()) {
        Some(MeterReading::Gas(m)) => {
            assert_eq!(m.timestamp, 1685622645);
            assert_eq!(m.energy.import.mprn, "9876543210");
            assert_eq!(m.energy.import.cumulativevolunits, Units::m3);
            assert_eq!(m.energy.import.cumulativevol.text().as_str(), "390.125");
        }
        _ => panic!("fixture must decode as a gas reading"),
    }
}

#[test]
fn glow_route_produces_one_submission() {
    let mut config = base_config();
    config.glow = Some(vec![GlowConfig {
        topic: "glow/abcdef".to_string(),
        bucket: "energy".to_string(),
    }]);
    let router = Router::new(&config).expect("valid config");
    assert_eq!(router.topics, vec!["glow/abcdef/#".to_string()]);
    let message = MqttMessage {
        topic: "glow/abcdef/SENSOR/electricitymeter".to_string(),
        payload: elec_payload(),
    };
    let subs = router.route_message_at(&message, 0);
    assert_eq!(subs.len(), 1);
    assert_eq!(subs[0].bucket, "energy");
    assert!(subs[0].line.starts_with("electricity,mpan=1234567890123 "));
}

#[test]
fn few_segments_yield_no_submission() {
    let mut config = base_config();
    config.glow = Some(vec![GlowConfig {
        topic: "glow/abcdef".to_string(),
        bucket: "energy".to_string(),
    }]);
    let router = Router::new(&config).expect("valid config");
    // The remainder after the prefix is empty: a single empty segment.
    let message = MqttMessage { topic: "glow/abcdef".to_string(), payload: elec_payload() };
    assert_eq!(router.route_message_at(&message, 0).len(), 0);
}

#[test]
fn wrong_sentinel_yields_no_submission() {
    let mut config = base_config();
    config.glow = Some(vec![GlowConfig {
        topic: "glow/abcdef".to_string(),
        bucket: "energy".to_string(),
    }]);
    let router = Router::new(&config).expect("valid config");
    let message = MqttMessage {
        topic: "glow/abcdef/STATE/electricitymeter".to_string(),
        payload: elec_payload(),
    };
    assert_eq!(router.route_message_at(&message, 0).len(), 0);
}

#[test]
fn malformed_payload_yields_no_submission() {
    let mut config = base_config();
    config.glow = Some(vec![GlowConfig {
        topic: "glow/abcdef".to_string(),
        bucket: "energy".to_string(),
    }]);
    let router = Router::new(&config).expect("valid config");
    let message = MqttMessage {
        topic: "glow/abcdef/SENSOR/electricitymeter".to_string(),
        payload: b"{not json".to_vec(),
    };
    assert_eq!(router.route_message_at(&message, 0).len(), 0);
}

#[test]
fn extra_top_level_member_rejects_reading() {
    // The payload is a tagged union: its sole top-level member must be
    // the family tag.
    let payload = String::from_utf8(elec_payload()).unwrap();
    let payload = format!("{},\"extra\":1}}", &payload[..payload.len() - 1]);
    assert!(MeterReading::from_payload(&payload.into_bytes()).is_none());
}

#[test]
fn float_fields_render_positionally() {
    // Scientific notation in the payload never reaches the line output.
    let keys = vec!["big".to_string(), "small".to_string()];
    let payload = br#"{"big": 1e30, "small": 2.5e-7}"#.to_vec();
    let reading = ZigbeeReading::from_payload(&keys, &payload, 3).expect("decodes");
    let line = reading.to_line("m", "n");
    assert_eq!(line, "m,name=n big=1000000000000000000000000000000,small=0.00000025 3");
}

#[test]
fn config_error_keeps_earlier_routes() {
    // Entries built before the offending prefix are registered, as route
    // construction fails only when it reaches the bad entry.
    let configs = vec![
        GlowConfig { topic: "glow/a".to_string(), bucket: "x".to_string() },
        GlowConfig { topic: "glow/b/".to_string(), bucket: "y".to_string() },
        GlowConfig { topic: "glow/c".to_string(), bucket: "z".to_string() },
    ];
    let mut topics: Vec<String> = Vec::new();
    let mut submittables = Vec::new();
    match mqtt2influx::glow::Glow::from_configs(&configs, &mut topics, &mut submittables) {
        Err(Error::ConfigTopicSlash(topic)) => assert_eq!(topic, "glow/b/"),
        _ => panic!("the trailing-slash prefix must be rejected"),
    }
    assert_eq!(topics, vec!["glow/a/#".to_string()]);
    assert_eq!(submittables.len(), 1);
    assert_eq!(submittables[0].0, "glow/a");
}

#[test]
fn unknown_unit_string_rejects_reading() {
    let payload = String::from_utf8(elec_payload()).unwrap().replace("\"kW\"", "\"MW\"");
    assert!(MeterReading::from_payload(&payload.into_bytes()).is_none());
}

#[test]
fn missing_field_rejects_reading() {
    let payload = String::from_utf8(elec_payload()).unwrap().replace("\"supplier\":\"ACME Energy\",", "");
    assert!(MeterReading::from_payload(&payload.into_bytes()).is_none());
}

#[test]
fn trailing_slash_topic_is_a_configuration_error() {
    let mut config = base_config();
    config.tasmota_plug = Some(vec![TasmotaPlugConfig {
        topic: "devices/lamp/".to_string(),
        name: "Lamp".to_string(),
        bucket: "power".to_string(),
    }]);
    match Router::new(&config) {
        Err(Error::ConfigTopicSlash(topic)) => assert_eq!(topic, "devices/lamp/"),
        _ => panic!("a trailing-slash prefix must be rejected"),
    }
}

#[test]
fn plug_route_end_to_end() {
    let mut config = base_config();
    config.tasmota_plug = Some(vec![TasmotaPlugConfig {
        topic: "devices/lamp".to_string(),
        name: "Lamp, Desk".to_string(),
        bucket: "power".to_string(),
    }]);
    let router = Router::new(&config).expect("valid config");
    assert_eq!(router.topics, vec!["devices/lamp/#".to_string()]);
    let message = MqttMessage { topic: "devices/lamp/SENSOR".to_string(), payload: plug_payload() };
    let subs = router.route_message_at(&message, 0);
    assert_eq!(subs.len(), 1);
    assert_eq!(subs[0].bucket, "power");
    assert!(subs[0].line.starts_with("tasmota_plug,name=Lamp\\,\\ Desk "));
    assert_eq!(
        subs[0].line,
        format!("tasmota_plug,name=Lamp\\,\\ Desk power=60,cumulative=123.456,today=1.25,voltage=240 {TS}")
    );
}

#[test]
fn plug_missing_field_yields_no_submission() {
    let plug = TasmotaPlug::new(&TasmotaPlugConfig {
        topic: "devices/lamp".to_string(),
        name: "Lamp".to_string(),
        bucket: "power".to_string(),
    });
    let payload = String::from_utf8(plug_payload()).unwrap().replace("\"Voltage\":240,", "");
    let message = MqttMessage {
        topic: "devices/lamp/SENSOR".to_string(),
        payload: payload.into_bytes(),
    };
    assert!(plug.to_submission(&message).is_none());
}

#[test]
fn overlapping_prefixes_all_fire() {
    let mut config = base_config();
    config.tasmota_plug = Some(vec![
        TasmotaPlugConfig {
            topic: "devices".to_string(),
            name: "One".to_string(),
            bucket: "a".to_string(),
        },
        TasmotaPlugConfig {
            topic: "devices/lamp".to_string(),
            name: "Two".to_string(),
            bucket: "b".to_string(),
        },
    ]);
    let router = Router::new(&config).expect("valid config");
    let message = MqttMessage {
        topic: "devices/lamp/SENSOR".to_string(),
        payload: plug_payload(),
    };
    // "devices" leaves remainder "/lamp/SENSOR": second segment is "lamp",
    // so only the second, exact route fires... and insertion order is kept.
    let subs = router.route_message_at(&message, 0);
    assert_eq!(subs.len(), 1);
    assert_eq!(subs[0].bucket, "b");

    // A deeper topic makes both remainders pass the sentinel guard.
    let message = MqttMessage {
        topic: "devices/SENSOR".to_string(),
        payload: plug_payload(),
    };
    let subs = router.route_message_at(&message, 0);
    assert_eq!(subs.len(), 1);
    assert_eq!(subs[0].bucket, "a");
}

#[test]
fn zigbee_configured_keys_filter_fields() {
    let keys = vec!["temperature".to_string(), "battery".to_string()];
    let payload = br#"{"temperature": 21.5, "humidity": 40}"#.to_vec();
    let reading = ZigbeeReading::from_payload(&keys, &payload, 1700000000).expect("decodes");
    assert_eq!(reading.values.len(), 1);
    assert_eq!(reading.values[0].0, "temperature");
    assert_eq!(reading.values[0].1.text().as_str(), "21.5");
    assert_eq!(reading.time, 1700000000);
    let line = reading.to_line("climate", "Bedroom");
    assert_eq!(line, "climate,name=Bedroom temperature=21.5 1700000000");
}

#[test]
fn zigbee_last_seen_overrides_clock() {
    let keys = vec!["temperature".to_string()];
    let payload =
        br#"{"temperature": 21.5, "last_seen": "2023-06-01T12:30:45Z"}"#.to_vec();
    let reading = ZigbeeReading::from_payload(&keys, &payload, 1700000000).expect("decodes");
    assert_eq!(reading.time, 1685622645);
}

#[test]
fn zigbee_bad_last_seen_falls_back_to_clock() {
    // A present but unparseable `last_seen` does not reject the message:
    // the current wall-clock time stands in.
    let keys = vec!["temperature".to_string()];
    let payload = br#"{"temperature": 21.5, "last_seen": 12345}"#.to_vec();
    let reading = ZigbeeReading::from_payload(&keys, &payload, 1700000000).expect("decodes");
    assert_eq!(reading.time, 1700000000);
    let payload = br#"{"temperature": 21.5, "last_seen": "yesterday"}"#.to_vec();
    let reading = ZigbeeReading::from_payload(&keys, &payload, 1700000000).expect("decodes");
    assert_eq!(reading.time, 1700000000);
}

#[test]
fn zigbee_invalid_json_rejects_message() {
    let keys = vec!["temperature".to_string()];
    assert!(ZigbeeReading::from_payload(&keys, &b"][".to_vec(), 0).is_none());
}

#[test]
fn zigbee_route_end_to_end() {
    let mut config = base_config();
    config.zigbee = Some(vec![ZigbeeConfig {
        topic: "zigbee2mqtt/sensor1".to_string(),
        name: "Bedroom".to_string(),
        bucket: "climate".to_string(),
        measurement: "air".to_string(),
        keys: vec!["temperature".to_string(), "humidity".to_string()],
    }]);
    let router = Router::new(&config).expect("valid config");
    assert_eq!(router.topics, vec!["zigbee2mqtt/sensor1/#".to_string()]);
    let message = MqttMessage {
        topic: "zigbee2mqtt/sensor1".to_string(),
        payload: br#"{"temperature": 21.5, "humidity": 40, "voltage": 3000}"#.to_vec(),
    };
    let subs = router.route_message_at(&message, 42);
    assert_eq!(subs.len(), 1);
    assert_eq!(subs[0].bucket, "climate");
    assert_eq!(subs[0].line, "air,name=Bedroom temperature=21.5,humidity=40 42");
}

#[test]
fn zigbee_no_matching_keys_gives_empty_field_set() {
    let zigbee = Zigbee::new(&ZigbeeConfig {
        topic: "zigbee2mqtt/sensor1".to_string(),
        name: "Bedroom".to_string(),
        bucket: "climate".to_string(),
        measurement: "air".to_string(),
        keys: vec!["pressure".to_string()],
    });
    let message = MqttMessage {
        topic: "zigbee2mqtt/sensor1".to_string(),
        payload: br#"{"temperature": 21.5}"#.to_vec(),
    };
    let sub = zigbee.to_submission(&message, 7).expect("decodes");
    assert_eq!(sub.line, "air,name=Bedroom  7");
}

#[test]
fn field_values_are_carried_verbatim() {
    // A 20-digit integer would lose precision in any float representation;
    // the decoder carries the decimal text through unchanged.
    let keys = vec!["energy".to_string()];
    let payload = br#"{"energy": 18446744073709551615}"#.to_vec();
    let reading = ZigbeeReading::from_payload(&keys, &payload, 9).expect("decodes");
    let line = reading.to_line("meter", "Main");
    assert_eq!(line, "meter,name=Main energy=18446744073709551615 9");
}

#[test]
fn unmatched_topic_yields_no_submission() {
    let mut config = base_config();
    config.glow = Some(vec![GlowConfig {
        topic: "glow/abcdef".to_string(),
        bucket: "energy".to_string(),
    }]);
    let router = Router::new(&config).expect("valid config");
    let message = MqttMessage {
        topic: "other/abcdef/SENSOR".to_string(),
        payload: elec_payload(),
    };
    assert_eq!(router.route_message_at(&message, 0).len(), 0);
}

#[test]
fn route_order_is_insertion_order_across_families() {
    let mut config = base_config();
    config.glow = Some(vec![GlowConfig {
        topic: "home".to_string(),
        bucket: "g".to_string(),
    }]);
    config.tasmota_plug = Some(vec![TasmotaPlugConfig {
        topic: "home".to_string(),
        name: "Plug".to_string(),
        bucket: "p".to_string(),
    }]);
    let router = Router::new(&config).expect("valid config");
    assert_eq!(router.topics, vec!["home/#".to_string(), "home/#".to_string()]);
    let message = MqttMessage {
        topic: "home/SENSOR".to_string(),
        payload: plug_payload(),
    };
    // Both routes match the topic; only the plug payload decodes.
    let subs = router.route_message_at(&message, 0);
    assert_eq!(subs.len(), 1);
    assert_eq!(subs[0].bucket, "p");
}
