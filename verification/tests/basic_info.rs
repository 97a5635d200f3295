use daikin_matter::basic_info::{basic_info_value, check_adapter_support, parse_basic_info, AdapterSupport, BASIC_INFO_PORT};
use daikin_matter::client::Scheme;
use daikin_matter::info::{parse_edid, parse_version};
use daikin_matter::text::{same_text, starts_with};

const ANSWER: &str = "ret=OK,type=GPF,cdev=RA,protocol=DGC,reg=jp,ver=2_7_0,rev=aabbcc00,comm_err=0,lpw_flag=0,adp_kind=4,mac=00005E005342,ssid=DaikinAP12345,adp_mode=ap_run,method=polling,name=%64%69%73%70%6c%61%79%5f%6e%61%6d%65,icon=23,edid=0000000001234567,sw_id=1900294D,api_ver=2_2";

fn pairs(list: &[(&str, &str)]) -> Vec<(String, String)> {
    list.iter().map(|(k, v)| (k.to_string(), v.to_string())).collect()
}

#[test]
fn basic_info_answer_is_read() {
    let fields = parse_basic_info(ANSWER);
    assert_eq!(fields.len(), 19);
    assert_eq!(fields[0], ("ret".to_string(), "OK".to_string()));
    assert_eq!(basic_info_value(&fields, "mac").map(String::as_str), Some("00005E005342"));
    assert_eq!(basic_info_value(&fields, "adp_kind").map(String::as_str), Some("4"));
    assert_eq!(basic_info_value(&fields, "api_ver").map(String::as_str), Some("2_2"));
    assert_eq!(basic_info_value(&fields, "missing"), None);
    assert_eq!(parse_version(basic_info_value(&fields, "ver").unwrap()), "2.7.0");
    assert_eq!(parse_edid(basic_info_value(&fields, "edid").unwrap()), Ok(19088743));
    assert_eq!(check_adapter_support(&fields, false), AdapterSupport::Supported(Scheme::Http));
    assert_eq!(BASIC_INFO_PORT, 30050);
}

#[test]
fn basic_info_fields_are_split_like_the_device_sends_them() {
    assert_eq!(parse_basic_info(""), vec![]);
    assert_eq!(parse_basic_info("a=1,,b=2=3,c,=x"), pairs(&[("a", "1"), ("b", "2=3"), ("", "x")]));
    let later = parse_basic_info("k=1,k=2");
    assert_eq!(basic_info_value(&later, "k").map(String::as_str), Some("2"));
}

#[test]
fn gen5_adapters_need_the_local_api_key() {
    let gen5 = pairs(&[("adp_kind", "5"), ("api_ver", "3_0")]);
    assert_eq!(check_adapter_support(&gen5, true), AdapterSupport::Supported(Scheme::Https));
    assert_eq!(check_adapter_support(&gen5, false), AdapterSupport::NeedsLocalApiKey);
    let legacy = pairs(&[("adp_kind", "3"), ("api_ver", "1_4")]);
    assert_eq!(check_adapter_support(&legacy, true), AdapterSupport::Unknown);
    let mismatched = pairs(&[("adp_kind", "4"), ("api_ver", "3_0")]);
    assert_eq!(check_adapter_support(&mismatched, true), AdapterSupport::Unknown);
    assert_eq!(check_adapter_support(&pairs(&[("adp_kind", "4")]), false), AdapterSupport::Unknown);
}

#[test]
fn text_comparisons() {
    assert!(starts_with("2_7", "2_"));
    assert!(!starts_with("2", "2_"));
    assert!(starts_with("abc", ""));
    assert!(same_text("abc", "abc"));
    assert!(!same_text("abc", "abd"));
    assert!(!same_text("abc", "ab"));
}
