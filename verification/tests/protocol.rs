use daikin_matter::info::{info_properties, normalize_version, parse_edid, parse_version, str2edid, DaikinInfo, EdidError, InfoProperties};
use daikin_matter::property::{code_reading, int_reading, text_reading, Property};
use daikin_matter::response::{deserialize_empty_object, write_accepted, DaikinResponse, Payload, Response};
use daikin_matter::status::{
    status_readings, status_settings, write_request, AutoModeWindSettings, ModeWindSettings, StatusReadings, WindCodes, WindSettings, OP_WRITE,
};
use daikin_matter::types::{AutoModeWindSpeed, HorizontalDirection, Mode, VerticalDirection, WindSpeed};

#[test]
fn mode_codes_round_trip() {
    let all = [Mode::Fan, Mode::Heating, Mode::Cooling, Mode::Auto, Mode::Dehumidify, Mode::Unknown];
    let codes = [0u8, 1, 2, 3, 5, 255];
    for (m, c) in all.iter().zip(codes.iter()) {
        assert_eq!(m.to_u8(), *c);
        assert_eq!(Mode::try_from(*c), Ok(*m));
    }
    assert_eq!(Mode::try_from(4u8), Err(()));
    assert_eq!(Mode::try_from(6u8), Err(()));
    assert_eq!(Mode::try_from(254u8), Err(()));
}

#[test]
fn wind_speed_codes_round_trip() {
    let all = [
        WindSpeed::Silent,
        WindSpeed::Lev1,
        WindSpeed::Lev2,
        WindSpeed::Lev3,
        WindSpeed::Lev4,
        WindSpeed::Lev5,
        WindSpeed::Auto,
        WindSpeed::Unknown,
    ];
    let codes = [0x0Bu8, 0x03, 0x04, 0x05, 0x06, 0x07, 0x0A, 0xFF];
    for (w, c) in all.iter().zip(codes.iter()) {
        assert_eq!(w.to_u8(), *c);
        assert_eq!(WindSpeed::try_from(*c), Ok(*w));
    }
    assert_eq!(WindSpeed::try_from(0x00u8), Err(()));
    assert_eq!(WindSpeed::try_from(0x08u8), Err(()));
}

#[test]
fn auto_mode_wind_speed_codes_round_trip() {
    assert_eq!(AutoModeWindSpeed::Silent.to_u8(), 0x0B);
    assert_eq!(AutoModeWindSpeed::Auto.to_u8(), 0x0A);
    assert_eq!(AutoModeWindSpeed::Unknown.to_u8(), 0xFF);
    assert_eq!(AutoModeWindSpeed::try_from(0x0Bu8), Ok(AutoModeWindSpeed::Silent));
    assert_eq!(AutoModeWindSpeed::try_from(0x0Au8), Ok(AutoModeWindSpeed::Auto));
    assert_eq!(AutoModeWindSpeed::try_from(0xFFu8), Ok(AutoModeWindSpeed::Unknown));
    assert_eq!(AutoModeWindSpeed::try_from(0x03u8), Err(()));
}

#[test]
fn vertical_direction_codes_round_trip() {
    let all = [
        VerticalDirection::TopMost,
        VerticalDirection::Top,
        VerticalDirection::Center,
        VerticalDirection::Bottom,
        VerticalDirection::BottomMost,
        VerticalDirection::Swing,
        VerticalDirection::Auto,
        VerticalDirection::Nice,
        VerticalDirection::Unknown,
    ];
    let codes = [0x01u8, 0x02, 0x03, 0x04, 0x05, 0x0F, 0x10, 0x17, 0xFF];
    for (v, c) in all.iter().zip(codes.iter()) {
        assert_eq!(v.to_u8(), *c);
        assert_eq!(VerticalDirection::try_from(*c), Ok(*v));
    }
    assert_eq!(VerticalDirection::try_from(0x00u8), Err(()));
    assert_eq!(VerticalDirection::try_from(0x06u8), Err(()));
}

#[test]
fn horizontal_direction_codes_round_trip() {
    let all = [
        HorizontalDirection::LeftMost,
        HorizontalDirection::Left,
        HorizontalDirection::LeftCenter,
        HorizontalDirection::Center,
        HorizontalDirection::RightCenter,
        HorizontalDirection::Right,
        HorizontalDirection::RightMost,
        HorizontalDirection::Swing,
        HorizontalDirection::Auto,
        HorizontalDirection::Unknown,
    ];
    let codes = [0x02u8, 0x03, 0x04, 0x05, 0x06, 0x07, 0x08, 0x0F, 0x10, 0xFF];
    for (h, c) in all.iter().zip(codes.iter()) {
        assert_eq!(h.to_u8(), *c);
        assert_eq!(HorizontalDirection::try_from(*c), Ok(*h));
    }
    assert_eq!(HorizontalDirection::try_from(0x01u8), Err(()));
    assert_eq!(HorizontalDirection::try_from(0x09u8), Err(()));
}

#[test]
fn versions_are_normalised() {
    assert_eq!(normalize_version("2_7_0"), "2.7.0");
    assert_eq!(normalize_version("3.11.0"), "3.11.0");
    assert_eq!(normalize_version(""), "");
    assert_eq!(normalize_version("__"), "..");
    assert_eq!(parse_version("2_2"), "2.2");
}

#[test]
fn edid_is_read_as_big_endian_hex() {
    assert_eq!(str2edid("0000000001234567"), Some(19088743));
    assert_eq!(str2edid("00000000000000ff"), Some(255));
    assert_eq!(str2edid("00000000000000FF"), Some(255));
    assert_eq!(str2edid("ffffffffffffffff"), Some(u64::MAX));
    assert_eq!(str2edid("0102030405060708"), Some(0x0102030405060708));
}

#[test]
fn malformed_edid_is_refused() {
    assert_eq!(str2edid(""), None);
    assert_eq!(str2edid("01234567"), None);
    assert_eq!(str2edid("000000000123456"), None);
    assert_eq!(str2edid("00000000012345678"), None);
    assert_eq!(str2edid("000000000123456g"), None);
    assert_eq!(str2edid("00000000012345é"), None);
    assert_eq!(parse_edid("0000000001234567"), Ok(19088743));
    assert_eq!(parse_edid("not an edid"), Err(EdidError::InvalidFormat));
    assert_eq!(EdidError::InvalidFormat.message(), "Invalid EDID format");
}

#[test]
fn edid_formatting_round_trips() {
    for v in [0u64, 1, 0x4567, 19088743, 0x0123_4567_89AB_CDEF, u64::MAX] {
        assert_eq!(str2edid(&format!("{:016x}", v)), Some(v));
        assert_eq!(str2edid(&format!("{:016X}", v)), Some(v));
    }
}

fn adapter_properties() -> InfoProperties {
    InfoProperties {
        name: Some("display_name".to_string()),
        mac: Some("00005E005342".to_string()),
        version: Some("2_7_0".to_string()),
        edid: Some("0000000001234567".to_string()),
        en_ipower: Some(1),
        rssi: Some(-30),
        ssid: Some("WLAN_SSID".to_string()),
        security_type: Some("WPA2".to_string()),
    }
}

#[test]
fn info_getter() {
    let info = DaikinInfo::from_properties(adapter_properties());
    assert_eq!(info.name, "display_name");
    assert_eq!(info.mac, "00005E005342");
    assert_eq!(info.version, "2.7.0");
    assert_eq!(info.edid, 19088743);
    assert!(info.en_ipower);
    assert_eq!(info.rssi, Some(-30));
    assert_eq!(info.ssid.as_deref(), Some("WLAN_SSID"));
    assert_eq!(info.security_type.as_deref(), Some("WPA2"));
}

#[test]
fn http_response_leaves_adapter_fields_unset() {
    let info = DaikinInfo::from_properties(adapter_properties());
    assert_eq!(info.adp_kind, None);
    assert_eq!(info.api_ver, None);
}

#[test]
fn missing_adapter_properties_fall_back() {
    let info = DaikinInfo::from_properties(InfoProperties {
        name: None,
        mac: None,
        version: None,
        edid: Some("bogus".to_string()),
        en_ipower: Some(0),
        rssi: Some(300),
        ssid: Some(String::new()),
        security_type: None,
    });
    assert_eq!(info.name, "");
    assert_eq!(info.mac, "");
    assert_eq!(info.version, "");
    assert_eq!(info.edid, 0);
    assert!(!info.en_ipower);
    assert_eq!(info.rssi, Some(44));
    assert_eq!(info.ssid, None);
    assert_eq!(info.security_type, None);
}

/// Reads a response's `pc` member the way the device answer is read: a
/// property object, an empty object, or `null`.
fn payload_of(pc: &serde_json::Value) -> Result<Payload<serde_json::Value>, String> {
    match pc {
        serde_json::Value::Null => Ok(Payload::Null),
        serde_json::Value::Object(m) if m.is_empty() => Ok(Payload::Empty),
        serde_json::Value::Object(m) if m.contains_key("pn") => Ok(Payload::Data(pc.clone())),
        _ => Err("object, empty object or null".to_string()),
    }
}

/// Reads a device answer into the library's response type, each `pc`
/// through `deserialize_empty_object`.
fn daikin_response(json_data: &str) -> Result<DaikinResponse<serde_json::Value>, String> {
    let value: serde_json::Value = serde_json::from_str(json_data).map_err(|e| e.to_string())?;
    let entries = value["responses"].as_array().ok_or("missing field `responses`")?;
    let mut responses = Vec::new();
    for entry in entries {
        let from = entry["fr"].as_str().ok_or("missing field `fr`")?.to_string();
        let status_code = entry["rsc"].as_u64().ok_or("missing field `rsc`")? as u32;
        let content = deserialize_empty_object(payload_of(&entry["pc"]))?;
        responses.push(Response { from, content, status_code });
    }
    Ok(DaikinResponse { responses })
}

#[test]
fn test_valid_status_code() {
    let json_data = r#"
        {
            "responses": [
                {
                    "fr": "/dsiot/edge/adr_0100.dgc_status",
                    "pt": 1,
                    "pc": { "pn": "1234", "pt": 3, "pv": "ok", "md": { "pt": "s" } },
                    "rsc": 2000
                }
            ]
        }
        "#;
    let response = daikin_response(json_data).expect("Failed to deserialize");
    assert_eq!(response.responses[0].status_code, 2000);
}

#[test]
fn test_empty_object() {
    let json_data = r#"
        {
            "responses": [
                {
                    "fr": "/dsiot/edge/adr_0100.i_power.year_power",
                    "pc": {},
                    "rsc": 4042
                }
            ]
        }
        "#;
    let response = daikin_response(json_data).expect("Failed to deserialize");
    assert!(response.responses[0].content.is_none());
}

#[test]
fn responses_are_found_by_source() {
    let entry = |from: &str, rsc: u32| Response::<u8> { from: from.to_string(), content: None, status_code: rsc };
    let response = DaikinResponse {
        responses: vec![
            entry("/dsiot/edge.adp_i", 2000),
            entry("/dsiot/edge/adr_0100.dgc_status", 2000),
            entry("/dsiot/edge/adr_0100.dgc_status", 4042),
        ],
    };
    assert_eq!(response.position_from("/dsiot/edge/adr_0100.dgc_status"), Some(1));
    assert_eq!(response.position_from("/dsiot/edge.adp_i"), Some(0));
    assert_eq!(response.position_from("/dsiot/edge.adp_d"), None);
    assert_eq!(response.position_from("/dsiot/edge"), None);
}

#[test]
fn property_payload_is_kept() {
    let json_data = r#"{ "pn": "1234", "pt": 3, "pv": "ok", "md": { "pt": "s" } }"#;
    let pc: serde_json::Value = serde_json::from_str(json_data).unwrap();
    let content = deserialize_empty_object(payload_of(&pc)).unwrap();
    assert_eq!(content, Some(pc));
    assert!(deserialize_empty_object(payload_of(&serde_json::Value::from(3))).is_err());
}

#[test]
fn payload_shapes_are_read() {
    let data: Result<Payload<u32>, String> = Ok(Payload::Data(7));
    assert_eq!(deserialize_empty_object(data), Ok(Some(7)));
    let null: Result<Payload<u32>, String> = Ok(Payload::Null);
    assert_eq!(deserialize_empty_object(null), Ok(None));
    let bad: Result<Payload<u32>, String> = Err("object, empty object or null".to_string());
    assert_eq!(deserialize_empty_object(bad), Err("object, empty object or null".to_string()));
}

#[test]
fn wind_settings_compare_by_value() {
    let cooling = ModeWindSettings {
        speed: Some(WindSpeed::Auto),
        vertical_direction: Some(VerticalDirection::Auto),
        horizontal_direction: Some(HorizontalDirection::Auto),
    };
    let auto = AutoModeWindSettings {
        speed: Some(AutoModeWindSpeed::Auto),
        vertical_direction: None,
        horizontal_direction: None,
    };
    let a = WindSettings { cooling, heating: cooling, fan: cooling, dehumidify: cooling, auto };
    let mut b = a;
    assert_eq!(a, b);
    b.cooling.speed = Some(WindSpeed::Lev4);
    assert_ne!(a, b);
}

fn codes(speed: u8, vertical: u8, horizontal: u8) -> WindCodes {
    WindCodes { speed: Some(speed), vertical_direction: Some(vertical), horizontal_direction: Some(horizontal) }
}

#[test]
fn status_settings_are_decoded_per_property() {
    let readings = StatusReadings {
        mode: Some(2),
        cooling: codes(0x0A, 0x10, 0x10),
        heating: codes(0x0A, 0x05, 0x06),
        fan: WindCodes { speed: Some(0x03), vertical_direction: None, horizontal_direction: Some(0x42) },
        dehumidify: codes(0x0B, 0x0F, 0x0F),
        auto: codes(0x0A, 0x17, 0x02),
    };
    let s = status_settings(&readings);
    assert_eq!(s.mode, Some(Mode::Cooling));
    assert_eq!(s.wind.cooling.speed, Some(WindSpeed::Auto));
    assert_eq!(s.wind.cooling.vertical_direction, Some(VerticalDirection::Auto));
    assert_eq!(s.wind.cooling.horizontal_direction, Some(HorizontalDirection::Auto));
    assert_eq!(s.wind.heating.vertical_direction, Some(VerticalDirection::BottomMost));
    assert_eq!(s.wind.heating.horizontal_direction, Some(HorizontalDirection::RightCenter));
    assert_eq!(s.wind.fan.speed, Some(WindSpeed::Lev1));
    assert_eq!(s.wind.fan.vertical_direction, None);
    assert_eq!(s.wind.fan.horizontal_direction, None);
    assert_eq!(s.wind.dehumidify.speed, Some(WindSpeed::Silent));
    assert_eq!(s.wind.auto.speed, Some(AutoModeWindSpeed::Auto));
    assert_eq!(s.wind.auto.vertical_direction, Some(VerticalDirection::Nice));
    assert_eq!(s.wind.auto.horizontal_direction, Some(HorizontalDirection::LeftMost));
}

fn leaf(name: &str, pv: &str) -> Property {
    Property { name: name.to_string(), value: Some(pv.to_string()), children: Vec::new() }
}

fn node(name: &str, children: Vec<Property>) -> Property {
    Property { name: name.to_string(), value: None, children }
}

fn answer_from(from: &str, tree: Property) -> DaikinResponse<Property> {
    DaikinResponse { responses: vec![Response { from: from.to_string(), content: Some(tree), status_code: 2000 }] }
}

/// A status answer whose airflow leaves all read Auto.
fn status_answer(mode_pv: &str) -> DaikinResponse<Property> {
    let mut leaves = vec![leaf("p_01", mode_pv), leaf("p_02", "3100")];
    for (speed, vertical, horizontal) in [
        ("p_09", "p_05", "p_06"),
        ("p_0A", "p_07", "p_08"),
        ("p_28", "p_24", "p_25"),
        ("p_27", "p_22", "p_23"),
        ("p_26", "p_20", "p_21"),
    ] {
        leaves.push(leaf(speed, "0A00"));
        leaves.push(leaf(vertical, "100000"));
        leaves.push(leaf(horizontal, "100000"));
    }
    let tree = node(
        "dgc_status",
        vec![node("e_1002", vec![node("e_A002", vec![leaf("p_01", "01")]), node("e_3001", leaves)])],
    );
    answer_from("/dsiot/edge/adr_0100.dgc_status", tree)
}

#[test]
fn status_is_read_from_the_answer_tree() {
    let answer = status_answer("0200");
    let status = status_settings(&status_readings(&answer));
    assert_eq!(status.mode, Some(Mode::Cooling));
    assert_eq!(status.wind.cooling.speed, Some(WindSpeed::Auto));
    assert_eq!(status.wind.cooling.vertical_direction, Some(VerticalDirection::Auto));
    assert_eq!(status.wind.cooling.horizontal_direction, Some(HorizontalDirection::Auto));
    assert_eq!(status.wind.heating.speed, Some(WindSpeed::Auto));
    assert_eq!(status.wind.auto.speed, Some(AutoModeWindSpeed::Auto));
    // A value with a non-zero high byte, or no hex at all, is no code.
    assert_eq!(status_readings(&status_answer("0201")).mode, None);
    assert_eq!(status_readings(&status_answer("zz")).mode, None);
    assert_eq!(status_readings(&status_answer("")).mode, None);
    // An answer from elsewhere carries no status.
    let other = DaikinResponse { responses: vec![Response { from: "/dsiot/edge.adp_i".to_string(), content: Some(node("dgc_status", vec![])), status_code: 2000 }] };
    assert_eq!(status_readings(&other).mode, None);
}

#[test]
fn setter() {
    let mut status = status_settings(&status_readings(&status_answer("0100")));
    status.mode = Some(Mode::Cooling);
    status.wind.cooling.speed = Some(WindSpeed::Lev4);
    status.wind.cooling.vertical_direction = Some(VerticalDirection::BottomMost);
    status.wind.cooling.horizontal_direction = Some(HorizontalDirection::RightCenter);
    status.wind.auto.speed = Some(AutoModeWindSpeed::Silent);

    let req = write_request(&status);
    assert_eq!(req.op, OP_WRITE);
    assert_eq!(req.op, 3);
    assert_eq!(req.to, "/dsiot/edge/adr_0100.dgc_status");
    assert_eq!(req.pc.name, "dgc_status");
    assert_eq!(req.pc.children.len(), 1);
    assert_eq!(req.pc.children[0].name, "e_1002");
    let group = &req.pc.children[0].children[0];
    assert_eq!(group.name, "e_3001");
    assert_eq!(group.children.len(), 16);
    let value_of = |leaf: &str| req.pc.find(&["e_1002", "e_3001", leaf]).and_then(|p| p.value.clone());
    assert_eq!(value_of("p_01").as_deref(), Some("02"));
    assert_eq!(value_of("p_09").as_deref(), Some("06"));
    assert_eq!(value_of("p_05").as_deref(), Some("05"));
    assert_eq!(value_of("p_06").as_deref(), Some("06"));
    assert_eq!(value_of("p_26").as_deref(), Some("0B"));
    assert_eq!(value_of("p_0A").as_deref(), Some("0A"));
    assert_eq!(value_of("p_20").as_deref(), Some("10"));
    assert_eq!(group.children[0].name, "p_01");
    assert_eq!(group.children[15].name, "p_21");
}

#[test]
fn written_settings_read_back() {
    let readings = StatusReadings {
        mode: Some(3),
        cooling: codes(0x04, 0x01, 0x07),
        heating: codes(0x05, 0x02, 0x08),
        fan: codes(0x06, 0x03, 0x0F),
        dehumidify: codes(0x07, 0x04, 0x10),
        auto: WindCodes { speed: Some(0xFF), vertical_direction: None, horizontal_direction: Some(0x03) },
    };
    let settings = status_settings(&readings);
    let req = write_request(&settings);
    assert_eq!(req.pc.children[0].children[0].children.len(), 15);
    assert!(req.pc.find(&["e_1002", "e_3001", "p_20"]).is_none());
    let again = status_readings(&answer_from("/dsiot/edge/adr_0100.dgc_status", req.pc));
    assert_eq!(again, readings);
    assert_eq!(status_settings(&again), settings);
}

#[test]
fn properties_are_found_by_path() {
    let tree = node("adp_r", vec![node("wlan_info", vec![leaf("ssid", "home"), leaf("rssi", "E2"), leaf("ssid", "other")])]);
    assert_eq!(tree.find(&[]).map(|p| p.name.as_str()), Some("adp_r"));
    assert_eq!(tree.find(&["wlan_info", "ssid"]).and_then(|p| p.value.as_deref()), Some("home"));
    assert!(tree.find(&["wlan_info", "bssid"]).is_none());
    assert!(tree.find(&["ssid"]).is_none());
    assert_eq!(int_reading(tree.find(&["wlan_info", "rssi"])), Some(-30));
    assert_eq!(int_reading(Some(&leaf("x", "01"))), Some(1));
    assert_eq!(int_reading(Some(&leaf("x", "FFFF"))), Some(-1));
    assert_eq!(int_reading(Some(&leaf("x", "3412"))), Some(0x1234));
    assert_eq!(int_reading(Some(&leaf("x", "010203"))), None);
    assert_eq!(code_reading(Some(&leaf("x", "0500"))), Some(5));
    assert_eq!(code_reading(Some(&leaf("x", "ff"))), Some(255));
    assert_eq!(code_reading(Some(&leaf("x", "5"))), None);
    assert_eq!(code_reading(None), None);
    assert_eq!(text_reading(tree.find(&["wlan_info"])), None);
    assert_eq!(text_reading(tree.find(&["wlan_info", "ssid"])).as_deref(), Some("home"));
}

#[test]
fn adapter_properties_are_read_from_the_answer() {
    let answer = DaikinResponse {
        responses: vec![
            Response {
                from: "/dsiot/edge.adp_i".to_string(),
                content: Some(node(
                    "adp_i",
                    vec![
                        leaf("mac", "00005E005342"),
                        leaf("ver", "2_7_0"),
                        leaf("edid", "0000000001234567"),
                        node("func", vec![leaf("en_ipower", "01")]),
                    ],
                )),
                status_code: 2000,
            },
            Response {
                from: "/dsiot/edge.adp_d".to_string(),
                content: Some(node("adp_d", vec![leaf("name", "display_name")])),
                status_code: 2000,
            },
            Response {
                from: "/dsiot/edge.adp_r".to_string(),
                content: Some(node("adp_r", vec![node("wlan_info", vec![leaf("rssi", "E2"), leaf("ssid", ""), leaf("sec_type", "wpa2")])])),
                status_code: 2000,
            },
        ],
    };
    let info = DaikinInfo::from_properties(info_properties(&answer));
    assert_eq!(info.name, "display_name");
    assert_eq!(info.mac, "00005E005342");
    assert_eq!(info.version, "2.7.0");
    assert_eq!(info.edid, 19088743);
    assert!(info.en_ipower);
    assert_eq!(info.rssi, Some(-30));
    assert_eq!(info.ssid, None);
    assert_eq!(info.security_type.as_deref(), Some("wpa2"));
    let empty: DaikinResponse<Property> = DaikinResponse { responses: vec![] };
    let bare = DaikinInfo::from_properties(info_properties(&empty));
    assert_eq!(bare.name, "");
    assert_eq!(bare.edid, 0);
    assert!(!bare.en_ipower);
    assert_eq!(bare.rssi, None);
}

#[test]
fn writes_are_accepted_only_on_success_codes() {
    let answer = |codes: &[u32]| DaikinResponse::<Property> {
        responses: codes.iter().map(|c| Response { from: "/dsiot/edge/adr_0100.dgc_status".to_string(), content: None, status_code: *c }).collect(),
    };
    assert!(write_accepted(&answer(&[2004])));
    assert!(write_accepted(&answer(&[2000, 2004])));
    assert!(write_accepted(&answer(&[])));
    assert!(!write_accepted(&answer(&[4042])));
    assert!(!write_accepted(&answer(&[2004, 4000])));
    assert!(!write_accepted(&answer(&[1999])));
    assert!(!write_accepted(&answer(&[3000])));
}
