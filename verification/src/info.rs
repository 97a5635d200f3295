//! Adapter information (`DaikinInfo`): version normalisation, EDID decoding
//! and assembly from the properties that a device reports.

use vstd::prelude::*;
use crate::property::{int_reading, int_value, lookup, path_view, text_reading, text_value, Property};
use crate::response::DaikinResponse;
use crate::text::push_char;

verus! {

/// Adapter identity and connection details of one device.
pub struct DaikinInfo {
    pub name: String,
    pub mac: String,
    pub version: String,
    pub edid: u64,
    pub en_ipower: bool,
    pub adp_kind: Option<u8>,
    pub api_ver: Option<String>,
    pub rssi: Option<i8>,
    pub ssid: Option<String>,
    pub security_type: Option<String>,
}

/// `raw` with every `_` replaced by `.` (firmware reports `2_7_0` for `2.7.0`).
pub open spec fn normalized_version(raw: Seq<char>) -> Seq<char> {
    raw.map_values(|c: char| if c == '_' { '.' } else { c })
}

/// Rewrites a firmware version such as `2_7_0` as `2.7.0`.
pub fn normalize_version(raw: &str) -> (res: String)
    ensures
        res@ == normalized_version(raw@),
{
    let n = raw.unicode_len();
    let mut res = String::new();
    let mut i: usize = 0;
    while i < n
        invariant
            n == raw@.len(),
            i <= n,
            res@ == normalized_version(raw@.take(i as int)),
        decreases n - i,
    {
        let c = raw.get_char(i);
        if c == '_' {
            push_char(&mut res, '.');
        } else {
            push_char(&mut res, c);
        }
        assert(raw@.take(i + 1) == raw@.take(i as int).push(c));
        i = i + 1;
    }
    assert(raw@.take(n as int) == raw@);
    res
}

/// The `ver` field of a device answer, after it was read as a string: the
/// normalised version.
pub fn parse_version(raw: &str) -> (res: String)
    ensures
        res@ == normalized_version(raw@),
{
    normalize_version(raw)
}

/// Value of one hexadecimal digit (either case).
pub open spec fn hex_digit_value(c: char) -> Option<u8> {
    if '0' <= c && c <= '9' {
        Some((c as u32 - '0' as u32) as u8)
    } else if 'a' <= c && c <= 'f' {
        Some((c as u32 - 'a' as u32 + 10) as u8)
    } else if 'A' <= c && c <= 'F' {
        Some((c as u32 - 'A' as u32 + 10) as u8)
    } else {
        None
    }
}

/// Every character of `s` is a hexadecimal digit.
pub open spec fn is_hex_text(s: Seq<char>) -> bool {
    forall|i: int| 0 <= i < s.len() ==> (#[trigger] hex_digit_value(s[i])) is Some
}

/// The bytes that the digit pairs of `s` stand for, high digit first.
pub open spec fn hex_bytes(s: Seq<char>) -> Seq<u8> {
    Seq::new(
        s.len() / 2,
        |k: int|
            (hex_digit_value(s[2 * k]).unwrap() * 16 + hex_digit_value(s[2 * k + 1]).unwrap()) as u8,
    )
}

/// The unsigned number that `bytes` stand for, most significant byte first.
pub open spec fn big_endian_value(bytes: Seq<u8>) -> nat
    decreases bytes.len(),
{
    if bytes.len() == 0 {
        0
    } else {
        big_endian_value(bytes.drop_last()) * 256 + bytes.last() as nat
    }
}

/// The EDID that a text stands for: exactly sixteen hexadecimal digits, read
/// as a big-endian 64-bit number.
pub open spec fn edid_value(s: Seq<char>) -> Option<u64> {
    if s.len() == 16 && is_hex_text(s) {
        Some(big_endian_value(hex_bytes(s)) as u64)
    } else {
        None
    }
}

/// 256 to the power `n`.
pub open spec fn pow256(n: nat) -> nat
    decreases n,
{
    if n == 0 {
        1
    } else {
        256 * pow256((n - 1) as nat)
    }
}

#[verifier::external_type_specification]
#[verifier::external_body]
pub struct ExFromHexError(hex::FromHexError);

/// `hex::decode_to_slice` into an eight-byte buffer. It succeeds exactly when
/// the text is sixteen hexadecimal digits (upper or lower case); the buffer
/// then holds the bytes of the digit pairs, high digit first. What the buffer
/// holds after a failure is not stated.
#[verifier::external_body]
fn decode_hex_into(data: &str, out: &mut [u8; 8]) -> (r: Result<(), hex::FromHexError>)
    ensures
        r is Ok <==> (data@.len() == 16 && is_hex_text(data@)),
        r is Ok ==> final(out)@ == hex_bytes(data@),
{
    hex::decode_to_slice(data, out)
}

proof fn lemma_big_endian_bound(bytes: Seq<u8>)
    ensures
        big_endian_value(bytes) < pow256(bytes.len()),
    decreases bytes.len(),
{
    if bytes.len() > 0 {
        let rest = bytes.drop_last();
        lemma_big_endian_bound(rest);
        let v = big_endian_value(rest);
        let p = pow256(rest.len());
        assert(v * 256 + bytes.last() < 256 * p) by (nonlinear_arith)
            requires
                v < p,
                bytes.last() < 256,
        ;
    }
}

/// The big-endian value of eight bytes (`u64::from_be_bytes`).
fn u64_from_be_bytes(bytes: &[u8; 8]) -> (r: u64)
    ensures
        r == big_endian_value(bytes@),
{
    let mut v: u64 = 0;
    let mut i: usize = 0;
    assert(pow256(8) == 0x1_0000_0000_0000_0000) by {
        reveal_with_fuel(pow256, 9);
    }
    while i < 8
        invariant
            i <= 8,
            bytes@.len() == 8,
            v == big_endian_value(bytes@.take(i as int)),
            pow256(8) == 0x1_0000_0000_0000_0000,
        decreases 8 - i,
    {
        let b = bytes[i];
        let ghost prefix = bytes@.take(i as int);
        assert(bytes@.take(i + 1).drop_last() == prefix);
        proof {
            lemma_big_endian_bound(bytes@.take(i + 1));
            lemma_pow256_monotone((i + 1) as nat, 8);
        }
        v = v * 256 + b as u64;
        i = i + 1;
    }
    assert(bytes@.take(8) == bytes@);
    v
}

proof fn lemma_pow256_monotone(a: nat, b: nat)
    requires
        a <= b,
    ensures
        pow256(a) <= pow256(b),
    decreases b - a,
{
    if a < b {
        lemma_pow256_monotone(a, (b - 1) as nat);
    }
}

/// Decodes the sixteen-digit hexadecimal EDID of an adapter.
pub fn str2edid(edid: &str) -> (r: Option<u64>)
    ensures
        r == edid_value(edid@),
{
    let mut bytes = [0u8; 8];
    match decode_hex_into(edid, &mut bytes) {
        Ok(_) => {},
        Err(_) => return None,
    }
    let v = u64_from_be_bytes(&bytes);
    proof {
        lemma_big_endian_bound(bytes@);
    }
    Some(v)
}

/// The hexadecimal digit character of `d` (< 16), in upper or lower case.
pub open spec fn hex_digit_char(d: nat, upper: bool) -> char {
    if d < 10 {
        (48 + d) as char
    } else if upper {
        (55 + d) as char
    } else {
        (87 + d) as char
    }
}

/// Two hexadecimal digits per byte, high digit first.
pub open spec fn hex_text(bytes: Seq<u8>, upper: bool) -> Seq<char> {
    Seq::new(
        2 * bytes.len(),
        |i: int|
            if i % 2 == 0 {
                hex_digit_char((bytes[i / 2] / 16) as nat, upper)
            } else {
                hex_digit_char((bytes[i / 2] % 16) as nat, upper)
            },
    )
}

/// The `n` low bytes of `v`, most significant first.
pub open spec fn be_bytes(v: nat, n: nat) -> Seq<u8>
    decreases n,
{
    if n == 0 {
        Seq::empty()
    } else {
        be_bytes(v / 256, (n - 1) as nat).push((v % 256) as u8)
    }
}

/// The sixteen-digit hexadecimal rendering of `v` (`{:016x}` or `{:016X}`).
pub open spec fn edid_text(v: u64, upper: bool) -> Seq<char> {
    hex_text(be_bytes(v as nat, 8), upper)
}

proof fn lemma_be_bytes_value(v: nat, n: nat)
    ensures
        be_bytes(v, n).len() == n,
        big_endian_value(be_bytes(v, n)) == v % pow256(n),
    decreases n,
{
    if n > 0 {
        lemma_be_bytes_value(v / 256, (n - 1) as nat);
        let b = be_bytes(v, n);
        assert(b.drop_last() == be_bytes(v / 256, (n - 1) as nat));
        assert(pow256((n - 1) as nat) > 0) by {
            lemma_pow256_positive((n - 1) as nat);
        }
        vstd::arithmetic::div_mod::lemma_mod_breakdown(v as int, 256, pow256((n - 1) as nat) as int);
        assert(big_endian_value(b) == big_endian_value(b.drop_last()) * 256 + (v % 256));
        assert(256 * ((v / 256) % pow256((n - 1) as nat)) == ((v / 256) % pow256((n - 1) as nat)) * 256) by (nonlinear_arith);
    }
}

proof fn lemma_pow256_positive(n: nat)
    ensures
        pow256(n) > 0,
    decreases n,
{
    if n > 0 {
        lemma_pow256_positive((n - 1) as nat);
    }
}

proof fn lemma_hex_digit_roundtrip(d: nat, upper: bool)
    requires
        d < 16,
    ensures
        hex_digit_value(hex_digit_char(d, upper)) == Some(d as u8),
{
}

pub(crate) proof fn lemma_hex_text_roundtrip(bytes: Seq<u8>, upper: bool)
    ensures
        is_hex_text(hex_text(bytes, upper)),
        hex_bytes(hex_text(bytes, upper)) == bytes,
{
    let t = hex_text(bytes, upper);
    assert forall|i: int| 0 <= i < t.len() implies (#[trigger] hex_digit_value(t[i])) is Some by {
        if i % 2 == 0 {
            lemma_hex_digit_roundtrip((bytes[i / 2] / 16) as nat, upper);
        } else {
            lemma_hex_digit_roundtrip((bytes[i / 2] % 16) as nat, upper);
        }
    }
    assert forall|k: int| 0 <= k < bytes.len() implies #[trigger] hex_bytes(t)[k] == bytes[k] by {
        assert((2 * k) % 2 == 0 && (2 * k) / 2 == k);
        assert((2 * k + 1) % 2 == 1 && (2 * k + 1) / 2 == k);
        let b = bytes[k];
        lemma_hex_digit_roundtrip((b / 16) as nat, upper);
        lemma_hex_digit_roundtrip((b % 16) as nat, upper);
        assert((b / 16) * 16 + b % 16 == b);
    }
    assert(hex_bytes(t) =~= bytes);
}

/// The sixteen-digit hexadecimal rendering of any EDID, in either case,
/// decodes back to that EDID.
pub proof fn lemma_edid_text_roundtrip(v: u64, upper: bool)
    ensures
        edid_value(edid_text(v, upper)) == Some(v),
{
    let bytes = be_bytes(v as nat, 8);
    lemma_be_bytes_value(v as nat, 8);
    lemma_hex_text_roundtrip(bytes, upper);
    assert(pow256(8) == 0x1_0000_0000_0000_0000) by {
        reveal_with_fuel(pow256, 9);
    }
}

/// Why an EDID field was refused.
#[derive(Debug, PartialEq, Eq, Clone, Copy, Structural)]
pub enum EdidError {
    /// Not exactly sixteen hexadecimal digits.
    InvalidFormat,
}

impl EdidError {
    /// The message that a refused EDID field is reported with.
    pub fn message(&self) -> (m: &'static str)
        ensures
            m@ == "Invalid EDID format"@,
    {
        proof {
            reveal_strlit("Invalid EDID format");
        }
        "Invalid EDID format"
    }
}

/// The `edid` field of a device answer, after it was read as a string.
pub fn parse_edid(raw: &str) -> (r: Result<u64, EdidError>)
    ensures
        match edid_value(raw@) {
            Some(v) => r == Ok::<u64, EdidError>(v),
            None => r == Err::<u64, EdidError>(EdidError::InvalidFormat),
        },
{
    match str2edid(raw) {
        Some(v) => Ok(v),
        None => Err(EdidError::InvalidFormat),
    }
}

/// The adapter properties that `DaikinInfo` is built from, as the device
/// reported them (`None` where a property is absent). Integer-valued items are
/// given by their integer reading.
pub struct InfoProperties {
    /// `name` of `/dsiot/edge.adp_d`.
    pub name: Option<String>,
    /// `mac` of `/dsiot/edge.adp_i`.
    pub mac: Option<String>,
    /// `ver` of `/dsiot/edge.adp_i`.
    pub version: Option<String>,
    /// `edid` of `/dsiot/edge.adp_i`.
    pub edid: Option<String>,
    /// `func.en_ipower` of `/dsiot/edge.adp_i`.
    pub en_ipower: Option<i32>,
    /// `wlan_info.rssi` of `/dsiot/edge.adp_r`.
    pub rssi: Option<i32>,
    /// `wlan_info.ssid` of `/dsiot/edge.adp_r`.
    pub ssid: Option<String>,
    /// `wlan_info.sec_type` of `/dsiot/edge.adp_r`.
    pub security_type: Option<String>,
}

/// The text of an optional string, empty when absent.
pub open spec fn text_or_empty(s: Option<String>) -> Seq<char> {
    match s {
        Some(t) => t@,
        None => Seq::empty(),
    }
}

/// An optional string with the empty string taken as absent.
pub open spec fn non_empty(s: Option<String>) -> Option<String> {
    match s {
        Some(t) => if t@.len() > 0 { Some(t) } else { None },
        None => None,
    }
}

/// The byte that an integer reading is truncated to.
pub open spec fn truncated_rssi(v: Option<i32>) -> Option<i8> {
    match v {
        Some(x) => Some(x as i8),
        None => None,
    }
}

fn string_or_empty(s: Option<String>) -> (r: String)
    ensures
        r@ == text_or_empty(s),
{
    match s {
        Some(t) => t,
        None => String::new(),
    }
}

fn filter_non_empty(s: Option<String>) -> (r: Option<String>)
    ensures
        r == non_empty(s),
{
    match s {
        Some(t) => if t.unicode_len() > 0 { Some(t) } else { None },
        None => None,
    }
}

impl DaikinInfo {
    /// Builds the adapter information from what the device reported: absent
    /// texts become empty, the version is normalised, an EDID that does not
    /// decode becomes 0, instantaneous power is enabled when its flag reads 1,
    /// the signal strength is truncated to a byte, and an empty SSID or
    /// security type counts as absent. Fields that only the UDP answer carries
    /// (`adp_kind`, `api_ver`) stay unset.
    pub fn from_properties(p: InfoProperties) -> (info: DaikinInfo)
        ensures
            info.name@ == text_or_empty(p.name),
            info.mac@ == text_or_empty(p.mac),
            info.version@ == normalized_version(text_or_empty(p.version)),
            info.edid == (match edid_value(text_or_empty(p.edid)) {
                Some(v) => v,
                None => 0u64,
            }),
            info.en_ipower == (p.en_ipower == Some(1i32)),
            info.adp_kind is None,
            info.api_ver is None,
            info.rssi == truncated_rssi(p.rssi),
            info.ssid == non_empty(p.ssid),
            info.security_type == non_empty(p.security_type),
    {
        let version = string_or_empty(p.version);
        let edid_text = string_or_empty(p.edid);
        let edid = match str2edid(edid_text.as_str()) {
            Some(v) => v,
            None => 0,
        };
        let en_ipower = match p.en_ipower {
            Some(v) => v == 1,
            None => false,
        };
        let rssi = match p.rssi {
            Some(v) => Some(v as i8),
            None => None,
        };
        DaikinInfo {
            name: string_or_empty(p.name),
            mac: string_or_empty(p.mac),
            version: normalize_version(version.as_str()),
            edid,
            en_ipower,
            adp_kind: None,
            api_ver: None,
            rssi,
            ssid: filter_non_empty(p.ssid),
            security_type: filter_non_empty(p.security_type),
        }
    }
}

/// The text view of an optional string.
pub open spec fn opt_text(s: Option<String>) -> Option<Seq<char>> {
    match s {
        Some(t) => Some(t@),
        None => None,
    }
}

/// The value text at `path` in the payload of the first entry of `answer`
/// that comes from `source`.
pub open spec fn text_in(answer: DaikinResponse<Property>, source: Seq<char>, path: Seq<Seq<char>>) -> Option<Seq<char>> {
    match answer.content_from(source) {
        Some(t) => text_value(lookup(t, path)),
        None => None,
    }
}

/// The integer value at `path` in the payload of the first entry of
/// `answer` that comes from `source`.
pub open spec fn int_in(answer: DaikinResponse<Property>, source: Seq<char>, path: Seq<Seq<char>>) -> Option<i32> {
    match answer.content_from(source) {
        Some(t) => int_value(lookup(t, path)),
        None => None,
    }
}

fn text_at(answer: &DaikinResponse<Property>, source: &str, path: &[&str]) -> (r: Option<String>)
    ensures
        opt_text(r) == text_in(*answer, source@, path_view(path@)),
{
    match answer.content(source) {
        Some(t) => text_reading(t.find(path)),
        None => None,
    }
}

fn int_at(answer: &DaikinResponse<Property>, source: &str, path: &[&str]) -> (r: Option<i32>)
    ensures
        r == int_in(*answer, source@, path_view(path@)),
{
    match answer.content(source) {
        Some(t) => int_reading(t.find(path)),
        None => None,
    }
}

/// The adapter properties that a device answer carries: `name` of
/// `/dsiot/edge.adp_d`; `mac`, `ver`, `edid` and `func.en_ipower` of
/// `/dsiot/edge.adp_i`; `wlan_info.rssi`, `wlan_info.ssid` and
/// `wlan_info.sec_type` of `/dsiot/edge.adp_r`.
pub fn info_properties(answer: &DaikinResponse<Property>) -> (p: InfoProperties)
    ensures
        opt_text(p.name) == text_in(*answer, "/dsiot/edge.adp_d"@, seq!["name"@]),
        opt_text(p.mac) == text_in(*answer, "/dsiot/edge.adp_i"@, seq!["mac"@]),
        opt_text(p.version) == text_in(*answer, "/dsiot/edge.adp_i"@, seq!["ver"@]),
        opt_text(p.edid) == text_in(*answer, "/dsiot/edge.adp_i"@, seq!["edid"@]),
        p.en_ipower == int_in(*answer, "/dsiot/edge.adp_i"@, seq!["func"@, "en_ipower"@]),
        p.rssi == int_in(*answer, "/dsiot/edge.adp_r"@, seq!["wlan_info"@, "rssi"@]),
        opt_text(p.ssid) == text_in(*answer, "/dsiot/edge.adp_r"@, seq!["wlan_info"@, "ssid"@]),
        opt_text(p.security_type) == text_in(*answer, "/dsiot/edge.adp_r"@, seq!["wlan_info"@, "sec_type"@]),
{
    let name: [&str; 1] = ["name"];
    let mac: [&str; 1] = ["mac"];
    let ver: [&str; 1] = ["ver"];
    let edid: [&str; 1] = ["edid"];
    let en_ipower: [&str; 2] = ["func", "en_ipower"];
    let rssi: [&str; 2] = ["wlan_info", "rssi"];
    let ssid: [&str; 2] = ["wlan_info", "ssid"];
    let sec_type: [&str; 2] = ["wlan_info", "sec_type"];
    assert(path_view(name@) =~= seq!["name"@]);
    assert(path_view(mac@) =~= seq!["mac"@]);
    assert(path_view(ver@) =~= seq!["ver"@]);
    assert(path_view(edid@) =~= seq!["edid"@]);
    assert(path_view(en_ipower@) =~= seq!["func"@, "en_ipower"@]);
    assert(path_view(rssi@) =~= seq!["wlan_info"@, "rssi"@]);
    assert(path_view(ssid@) =~= seq!["wlan_info"@, "ssid"@]);
    assert(path_view(sec_type@) =~= seq!["wlan_info"@, "sec_type"@]);
    InfoProperties {
        name: text_at(answer, "/dsiot/edge.adp_d", &name),
        mac: text_at(answer, "/dsiot/edge.adp_i", &mac),
        version: text_at(answer, "/dsiot/edge.adp_i", &ver),
        edid: text_at(answer, "/dsiot/edge.adp_i", &edid),
        en_ipower: int_at(answer, "/dsiot/edge.adp_i", &en_ipower),
        rssi: int_at(answer, "/dsiot/edge.adp_r", &rssi),
        ssid: text_at(answer, "/dsiot/edge.adp_r", &ssid),
        security_type: text_at(answer, "/dsiot/edge.adp_r", &sec_type),
    }
}

} // verus!
