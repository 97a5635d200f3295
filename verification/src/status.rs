//! Airflow settings of a device, per operating mode.

use vstd::prelude::*;
use crate::info::{hex_bytes, hex_digit_char, hex_text, lemma_hex_text_roundtrip};
use crate::property::{
    child_named, code_reading, code_value, deref_opt, is_first_named, lemma_first_named_unique, lookup, path_view, Property,
};
use crate::text::push_char;
use crate::response::DaikinResponse;
use crate::types::{
    lemma_auto_mode_wind_speed_opt_roundtrip, lemma_horizontal_direction_opt_roundtrip,
    lemma_mode_opt_roundtrip, lemma_vertical_direction_opt_roundtrip, lemma_wind_speed_opt_roundtrip,
    AutoModeWindSpeed, HorizontalDirection, Mode, VerticalDirection, WindSpeed,
};

verus! {

/// Wind/airflow settings for a specific mode (cooling, heating, fan,
/// dehumidify). Each field is the value the device reported, `None` where it
/// reported none.
#[derive(Debug, PartialEq, Eq, Clone, Copy, Structural)]
pub struct ModeWindSettings {
    /// Fan speed setting.
    pub speed: Option<WindSpeed>,
    /// Vertical air direction.
    pub vertical_direction: Option<VerticalDirection>,
    /// Horizontal air direction.
    pub horizontal_direction: Option<HorizontalDirection>,
}

/// Wind/airflow settings for auto mode (limited speed options).
#[derive(Debug, PartialEq, Eq, Clone, Copy, Structural)]
pub struct AutoModeWindSettings {
    /// Fan speed setting (Auto or Silent only).
    pub speed: Option<AutoModeWindSpeed>,
    /// Vertical air direction.
    pub vertical_direction: Option<VerticalDirection>,
    /// Horizontal air direction.
    pub horizontal_direction: Option<HorizontalDirection>,
}

/// Wind/airflow control settings per operating mode.
#[derive(Debug, PartialEq, Eq, Clone, Copy, Structural)]
pub struct WindSettings {
    /// Wind settings for cooling mode.
    pub cooling: ModeWindSettings,
    /// Wind settings for heating mode.
    pub heating: ModeWindSettings,
    /// Wind settings for fan mode.
    pub fan: ModeWindSettings,
    /// Wind settings for dehumidify mode.
    pub dehumidify: ModeWindSettings,
    /// Wind settings for auto mode.
    pub auto: AutoModeWindSettings,
}

/// Raw wire bytes of the airflow properties of one mode, `None` where the
/// device reported none.
#[derive(Debug, PartialEq, Eq, Clone, Copy, Structural)]
pub struct WindCodes {
    pub speed: Option<u8>,
    pub vertical_direction: Option<u8>,
    pub horizontal_direction: Option<u8>,
}

/// Raw wire bytes of the enumerated status properties of the indoor unit
/// (`/dsiot/edge/adr_0100.dgc_status`, group `e_1002.e_3001`).
#[derive(Debug, PartialEq, Eq, Clone, Copy, Structural)]
pub struct StatusReadings {
    /// `p_01`: operating mode.
    pub mode: Option<u8>,
    /// `p_09`, `p_05`, `p_06`: speed, vertical and horizontal direction in cooling.
    pub cooling: WindCodes,
    /// `p_0A`, `p_07`, `p_08`: the same in heating.
    pub heating: WindCodes,
    /// `p_28`, `p_24`, `p_25`: the same in fan mode.
    pub fan: WindCodes,
    /// `p_27`, `p_22`, `p_23`: the same in dehumidify mode.
    pub dehumidify: WindCodes,
    /// `p_26`, `p_20`, `p_21`: the same in auto mode.
    pub auto: WindCodes,
}

/// The operating mode and airflow settings of a device.
#[derive(Debug, PartialEq, Eq, Clone, Copy, Structural)]
pub struct StatusSettings {
    pub mode: Option<Mode>,
    pub wind: WindSettings,
}

/// The airflow settings that the wire bytes of one mode stand for.
pub open spec fn mode_wind_of(c: WindCodes) -> ModeWindSettings {
    ModeWindSettings {
        speed: WindSpeed::decode_opt(c.speed),
        vertical_direction: VerticalDirection::decode_opt(c.vertical_direction),
        horizontal_direction: HorizontalDirection::decode_opt(c.horizontal_direction),
    }
}

/// The auto-mode airflow settings that wire bytes stand for.
pub open spec fn auto_wind_of(c: WindCodes) -> AutoModeWindSettings {
    AutoModeWindSettings {
        speed: AutoModeWindSpeed::decode_opt(c.speed),
        vertical_direction: VerticalDirection::decode_opt(c.vertical_direction),
        horizontal_direction: HorizontalDirection::decode_opt(c.horizontal_direction),
    }
}

/// The path of the indoor unit's status in a device answer.
pub open spec fn status_source() -> Seq<char> {
    "/dsiot/edge/adr_0100.dgc_status"@
}

/// The enumeration code at `e_1002.e_3001.<leaf>` of a status tree.
pub open spec fn status_code(tree: Option<Property>, leaf: Seq<char>) -> Option<u8> {
    match tree {
        Some(t) => code_value(lookup(t, seq!["e_1002"@, "e_3001"@, leaf])),
        None => None,
    }
}

/// The airflow codes at three leaves of a status tree.
pub open spec fn wind_codes_at(tree: Option<Property>, speed: Seq<char>, vertical: Seq<char>, horizontal: Seq<char>) -> WindCodes {
    WindCodes {
        speed: status_code(tree, speed),
        vertical_direction: status_code(tree, vertical),
        horizontal_direction: status_code(tree, horizontal),
    }
}

/// The readings that a status tree holds: each code taken at the path that
/// holds it, nothing where there is no tree.
pub open spec fn tree_readings(t: Option<Property>) -> StatusReadings {
    StatusReadings {
        mode: status_code(t, "p_01"@),
        cooling: wind_codes_at(t, "p_09"@, "p_05"@, "p_06"@),
        heating: wind_codes_at(t, "p_0A"@, "p_07"@, "p_08"@),
        fan: wind_codes_at(t, "p_28"@, "p_24"@, "p_25"@),
        dehumidify: wind_codes_at(t, "p_27"@, "p_22"@, "p_23"@),
        auto: wind_codes_at(t, "p_26"@, "p_20"@, "p_21"@),
    }
}

/// The readings that a device answer carries: those of the indoor unit's
/// status tree.
pub open spec fn readings_in(answer: DaikinResponse<Property>) -> StatusReadings {
    tree_readings(answer.content_from(status_source()))
}

fn status_code_at(tree: Option<&Property>, leaf: &str) -> (r: Option<u8>)
    ensures
        r == status_code(deref_opt(tree), leaf@),
{
    match tree {
        Some(t) => {
            let path: [&str; 3] = ["e_1002", "e_3001", leaf];
            let found = t.find(&path);
            assert(path_view(path@) =~= seq!["e_1002"@, "e_3001"@, leaf@]);
            code_reading(found)
        },
        None => None,
    }
}

fn wind_codes_in(tree: Option<&Property>, speed: &str, vertical: &str, horizontal: &str) -> (c: WindCodes)
    ensures
        c == wind_codes_at(deref_opt(tree), speed@, vertical@, horizontal@),
{
    WindCodes {
        speed: status_code_at(tree, speed),
        vertical_direction: status_code_at(tree, vertical),
        horizontal_direction: status_code_at(tree, horizontal),
    }
}

/// The status readings that a device answer carries (see `readings_in`).
pub fn status_readings(answer: &DaikinResponse<Property>) -> (r: StatusReadings)
    ensures
        r == readings_in(*answer),
{
    let t = answer.content("/dsiot/edge/adr_0100.dgc_status");
    StatusReadings {
        mode: status_code_at(t, "p_01"),
        cooling: wind_codes_in(t, "p_09", "p_05", "p_06"),
        heating: wind_codes_in(t, "p_0A", "p_07", "p_08"),
        fan: wind_codes_in(t, "p_28", "p_24", "p_25"),
        dehumidify: wind_codes_in(t, "p_27", "p_22", "p_23"),
        auto: wind_codes_in(t, "p_26", "p_20", "p_21"),
    }
}

/// The settings that a status reading stands for: each byte decoded, an
/// absent or unknown byte giving no value.
pub open spec fn settings_of(r: StatusReadings) -> StatusSettings {
    StatusSettings {
        mode: Mode::decode_opt(r.mode),
        wind: WindSettings {
            cooling: mode_wind_of(r.cooling),
            heating: mode_wind_of(r.heating),
            fan: mode_wind_of(r.fan),
            dehumidify: mode_wind_of(r.dehumidify),
            auto: auto_wind_of(r.auto),
        },
    }
}

fn mode_wind(c: &WindCodes) -> (w: ModeWindSettings)
    ensures
        w == mode_wind_of(*c),
{
    ModeWindSettings {
        speed: WindSpeed::from_code(c.speed),
        vertical_direction: VerticalDirection::from_code(c.vertical_direction),
        horizontal_direction: HorizontalDirection::from_code(c.horizontal_direction),
    }
}

fn auto_wind(c: &WindCodes) -> (w: AutoModeWindSettings)
    ensures
        w == auto_wind_of(*c),
{
    AutoModeWindSettings {
        speed: AutoModeWindSpeed::from_code(c.speed),
        vertical_direction: VerticalDirection::from_code(c.vertical_direction),
        horizontal_direction: HorizontalDirection::from_code(c.horizontal_direction),
    }
}

/// Decodes the mode and airflow settings from a status reading.
pub fn status_settings(r: &StatusReadings) -> (s: StatusSettings)
    ensures
        s == settings_of(*r),
{
    StatusSettings {
        mode: Mode::from_code(r.mode),
        wind: WindSettings {
            cooling: mode_wind(&r.cooling),
            heating: mode_wind(&r.heating),
            fan: mode_wind(&r.fan),
            dehumidify: mode_wind(&r.dehumidify),
            auto: auto_wind(&r.auto),
        },
    }
}

/// Operation code of a write in a multi-request.
pub const OP_WRITE: u8 = 3;

/// A write of status properties to the indoor unit: the operation code, the
/// resource written, and the property tree (`pc`) that carries the values.
pub struct WriteRequest {
    /// Operation code.
    pub op: u8,
    /// Resource path.
    pub to: String,
    /// The tree written, rooted at `dgc_status`.
    pub pc: Property,
}

/// The value text that carries an enumeration code: its byte as two
/// upper-case hexadecimal digits.
pub open spec fn code_text(code: u8) -> Seq<char> {
    hex_text(seq![code], true)
}

/// The leaf names below `e_1002.e_3001` and the codes that a write of `s`
/// puts there, in the order mode, then speed, vertical and horizontal
/// direction for cooling, heating, fan, dehumidify and auto; `None` for a
/// setting without a value.
pub open spec fn write_list(s: StatusSettings) -> Seq<(Seq<char>, Option<u8>)> {
    let r = readings_of(s);
    seq![
        ("p_01"@, r.mode),
        ("p_09"@, r.cooling.speed), ("p_05"@, r.cooling.vertical_direction), ("p_06"@, r.cooling.horizontal_direction),
        ("p_0A"@, r.heating.speed), ("p_07"@, r.heating.vertical_direction), ("p_08"@, r.heating.horizontal_direction),
        ("p_28"@, r.fan.speed), ("p_24"@, r.fan.vertical_direction), ("p_25"@, r.fan.horizontal_direction),
        ("p_27"@, r.dehumidify.speed), ("p_22"@, r.dehumidify.vertical_direction), ("p_23"@, r.dehumidify.horizontal_direction),
        ("p_26"@, r.auto.speed), ("p_20"@, r.auto.vertical_direction), ("p_21"@, r.auto.horizontal_direction),
    ]
}

/// The entries written for a list of leaves: one per leaf that has a code,
/// in list order.
pub open spec fn entries(list: Seq<(Seq<char>, Option<u8>)>) -> Seq<(Seq<char>, u8)>
    decreases list.len(),
{
    if list.len() == 0 {
        Seq::empty()
    } else {
        entries(list.drop_last()) + match list.last().1 {
            Some(c) => seq![(list.last().0, c)],
            None => Seq::<(Seq<char>, u8)>::empty(),
        }
    }
}

/// Whether `p` is a leaf named `e.0` that carries code `e.1`.
pub open spec fn is_leaf_for(p: Property, e: (Seq<char>, u8)) -> bool {
    &&& p.name@ == e.0
    &&& p.value matches Some(v) && v@ == code_text(e.1)
    &&& p.children@.len() == 0
}

/// Whether `children` are leaves for the entries `e`, one for one.
pub open spec fn holds_leaves(children: Seq<Property>, e: Seq<(Seq<char>, u8)>) -> bool {
    &&& children.len() == e.len()
    &&& forall|k: int| 0 <= k < e.len() ==> is_leaf_for(#[trigger] children[k], e[k])
}

/// Whether `n` has no value and exactly one child.
pub open spec fn is_group(n: Property, name: Seq<char>) -> bool {
    &&& n.name@ == name
    &&& n.value is None
    &&& n.children@.len() == 1
}

/// The tree that writes `s`: `dgc_status`, holding `e_1002`, holding
/// `e_3001`, whose leaves are the entries of `write_list(s)`.
pub open spec fn is_write_tree(pc: Property, s: StatusSettings) -> bool {
    &&& is_group(pc, "dgc_status"@)
    &&& is_group(pc.children@[0], "e_1002"@)
    &&& pc.children@[0].children@[0].name@ == "e_3001"@
    &&& pc.children@[0].children@[0].value is None
    &&& holds_leaves(pc.children@[0].children@[0].children@, entries(write_list(s)))
}

fn hex_digit(d: u8) -> (c: char)
    requires
        d < 16,
    ensures
        c == hex_digit_char(d as nat, true),
{
    if d < 10 {
        (48 + d) as char
    } else {
        (55 + d) as char
    }
}

fn leaf(name: &str, code: u8) -> (p: Property)
    ensures
        is_leaf_for(p, (name@, code)),
{
    let mut value = String::new();
    push_char(&mut value, hex_digit(code / 16));
    push_char(&mut value, hex_digit(code % 16));
    assert(value@ =~= code_text(code));
    Property { name: String::from_str(name), value: Some(value), children: Vec::new() }
}

fn group(name: &str, child: Property) -> (p: Property)
    ensures
        is_group(p, name@),
        p.children@[0] == child,
{
    let mut children: Vec<Property> = Vec::new();
    children.push(child);
    Property { name: String::from_str(name), value: None, children }
}

/// The request that writes a device's mode and airflow settings to the
/// indoor unit's status: its tree holds, below `e_1002.e_3001`, a leaf for
/// every setting that has a value, at the name the status read takes that
/// setting from.
pub fn write_request(s: &StatusSettings) -> (q: WriteRequest)
    ensures
        q.op == OP_WRITE,
        q.to@ == "/dsiot/edge/adr_0100.dgc_status"@,
        is_write_tree(q.pc, *s),
{
    let items: [(&str, Option<u8>); 16] = [
        ("p_01", Mode::to_code(s.mode)),
        ("p_09", WindSpeed::to_code(s.wind.cooling.speed)),
        ("p_05", VerticalDirection::to_code(s.wind.cooling.vertical_direction)),
        ("p_06", HorizontalDirection::to_code(s.wind.cooling.horizontal_direction)),
        ("p_0A", WindSpeed::to_code(s.wind.heating.speed)),
        ("p_07", VerticalDirection::to_code(s.wind.heating.vertical_direction)),
        ("p_08", HorizontalDirection::to_code(s.wind.heating.horizontal_direction)),
        ("p_28", WindSpeed::to_code(s.wind.fan.speed)),
        ("p_24", VerticalDirection::to_code(s.wind.fan.vertical_direction)),
        ("p_25", HorizontalDirection::to_code(s.wind.fan.horizontal_direction)),
        ("p_27", WindSpeed::to_code(s.wind.dehumidify.speed)),
        ("p_22", VerticalDirection::to_code(s.wind.dehumidify.vertical_direction)),
        ("p_23", HorizontalDirection::to_code(s.wind.dehumidify.horizontal_direction)),
        ("p_26", AutoModeWindSpeed::to_code(s.wind.auto.speed)),
        ("p_20", VerticalDirection::to_code(s.wind.auto.vertical_direction)),
        ("p_21", HorizontalDirection::to_code(s.wind.auto.horizontal_direction)),
    ];
    let ghost list = items@.map_values(|it: (&str, Option<u8>)| (it.0@, it.1));
    assert(list =~= write_list(*s));
    let mut leaves: Vec<Property> = Vec::new();
    let mut i: usize = 0;
    assert(list.take(0) =~= Seq::<(Seq<char>, Option<u8>)>::empty());
    while i < 16
        invariant
            i <= 16,
            items@.len() == 16,
            list == items@.map_values(|it: (&str, Option<u8>)| (it.0@, it.1)),
            holds_leaves(leaves@, entries(list.take(i as int))),
        decreases 16 - i,
    {
        let (name, code) = items[i];
        let ghost before = entries(list.take(i as int));
        assert(list.take(i + 1).drop_last() =~= list.take(i as int));
        assert(list.take(i + 1).last() == (name@, code));
        match code {
            Some(c) => {
                leaves.push(leaf(name, c));
                assert(entries(list.take(i + 1)) =~= before + seq![(name@, c)]);
            },
            None => {
                assert(entries(list.take(i + 1)) =~= before);
            },
        }
        i = i + 1;
    }
    assert(list.take(16) =~= list);
    let e3001 = Property { name: String::from_str("e_3001"), value: None, children: leaves };
    let e1002 = group("e_1002", e3001);
    let pc = group("dgc_status", e1002);
    WriteRequest { op: OP_WRITE, to: String::from_str("/dsiot/edge/adr_0100.dgc_status"), pc }
}

/// The wire bytes of a device's mode and airflow settings, property by
/// property (what `write_request` writes to each leaf).
pub open spec fn readings_of(s: StatusSettings) -> StatusReadings {
    StatusReadings {
        mode: Mode::encode_opt(s.mode),
        cooling: WindCodes {
            speed: WindSpeed::encode_opt(s.wind.cooling.speed),
            vertical_direction: VerticalDirection::encode_opt(s.wind.cooling.vertical_direction),
            horizontal_direction: HorizontalDirection::encode_opt(s.wind.cooling.horizontal_direction),
        },
        heating: WindCodes {
            speed: WindSpeed::encode_opt(s.wind.heating.speed),
            vertical_direction: VerticalDirection::encode_opt(s.wind.heating.vertical_direction),
            horizontal_direction: HorizontalDirection::encode_opt(s.wind.heating.horizontal_direction),
        },
        fan: WindCodes {
            speed: WindSpeed::encode_opt(s.wind.fan.speed),
            vertical_direction: VerticalDirection::encode_opt(s.wind.fan.vertical_direction),
            horizontal_direction: HorizontalDirection::encode_opt(s.wind.fan.horizontal_direction),
        },
        dehumidify: WindCodes {
            speed: WindSpeed::encode_opt(s.wind.dehumidify.speed),
            vertical_direction: VerticalDirection::encode_opt(s.wind.dehumidify.vertical_direction),
            horizontal_direction: HorizontalDirection::encode_opt(s.wind.dehumidify.horizontal_direction),
        },
        auto: WindCodes {
            speed: AutoModeWindSpeed::encode_opt(s.wind.auto.speed),
            vertical_direction: VerticalDirection::encode_opt(s.wind.auto.vertical_direction),
            horizontal_direction: HorizontalDirection::encode_opt(s.wind.auto.horizontal_direction),
        },
    }
}

proof fn lemma_mode_wind_roundtrip(w: ModeWindSettings)
    ensures
        mode_wind_of(
            WindCodes {
                speed: WindSpeed::encode_opt(w.speed),
                vertical_direction: VerticalDirection::encode_opt(w.vertical_direction),
                horizontal_direction: HorizontalDirection::encode_opt(w.horizontal_direction),
            },
        ) == w,
{
    lemma_wind_speed_opt_roundtrip(w.speed);
    lemma_vertical_direction_opt_roundtrip(w.vertical_direction);
    lemma_horizontal_direction_opt_roundtrip(w.horizontal_direction);
}

/// Reading back the bytes that a write of some settings puts on the device
/// gives those settings.
pub proof fn lemma_settings_read_after_write(s: StatusSettings)
    ensures
        settings_of(readings_of(s)) == s,
{
    lemma_mode_opt_roundtrip(s.mode);
    lemma_mode_wind_roundtrip(s.wind.cooling);
    lemma_mode_wind_roundtrip(s.wind.heating);
    lemma_mode_wind_roundtrip(s.wind.fan);
    lemma_mode_wind_roundtrip(s.wind.dehumidify);
    lemma_auto_mode_wind_speed_opt_roundtrip(s.wind.auto.speed);
    lemma_vertical_direction_opt_roundtrip(s.wind.auto.vertical_direction);
    lemma_horizontal_direction_opt_roundtrip(s.wind.auto.horizontal_direction);
}

/// Whether `e[k]` is the first entry named `n`.
pub open spec fn is_first_entry(e: Seq<(Seq<char>, u8)>, n: Seq<char>, k: int) -> bool {
    &&& 0 <= k < e.len()
    &&& e[k].0 == n
    &&& forall|j: int| 0 <= j < k ==> e[j].0 != n
}

/// Whether no two leaves of a list share a name.
pub open spec fn names_distinct(list: Seq<(Seq<char>, Option<u8>)>) -> bool {
    forall|a: int, b: int| 0 <= a < b < list.len() ==> list[a].0 != list[b].0
}

proof fn lemma_entries_from_list(list: Seq<(Seq<char>, Option<u8>)>, k: int)
    requires
        0 <= k < entries(list).len(),
    ensures
        exists|j: int| 0 <= j < list.len() && list[j].0 == entries(list)[k].0,
    decreases list.len(),
{
    let init = list.drop_last();
    if k < entries(init).len() {
        lemma_entries_from_list(init, k);
        let j = choose|j: int| 0 <= j < init.len() && init[j].0 == entries(init)[k].0;
        assert(list[j] == init[j]);
    } else {
        assert(list[list.len() - 1] == list.last());
    }
}

proof fn lemma_entry_of(list: Seq<(Seq<char>, Option<u8>)>, i: int)
    requires
        names_distinct(list),
        0 <= i < list.len(),
    ensures
        match list[i].1 {
            Some(c) => exists|k: int| is_first_entry(entries(list), list[i].0, k) && entries(list)[k].1 == c,
            None => forall|k: int| 0 <= k < entries(list).len() ==> entries(list)[k].0 != list[i].0,
        },
    decreases list.len(),
{
    let init = list.drop_last();
    let n = list[i].0;
    let ei = entries(init);
    assert(list[list.len() - 1] == list.last());
    if i == list.len() - 1 {
        assert forall|k: int| 0 <= k < ei.len() implies ei[k].0 != n by {
            lemma_entries_from_list(init, k);
            let j = choose|j: int| 0 <= j < init.len() && init[j].0 == ei[k].0;
            assert(init[j] == list[j]);
        }
        match list[i].1 {
            Some(c) => {
                assert(is_first_entry(entries(list), n, ei.len() as int));
            },
            None => {},
        }
    } else {
        assert(names_distinct(init)) by {
            assert forall|a: int, b: int| 0 <= a < b < init.len() implies init[a].0 != init[b].0 by {
                assert(init[a] == list[a] && init[b] == list[b]);
            }
        }
        assert(init[i] == list[i]);
        lemma_entry_of(init, i);
        match list[i].1 {
            Some(c) => {
                let k = choose|k: int| is_first_entry(ei, n, k) && ei[k].1 == c;
                assert(is_first_entry(entries(list), n, k));
            },
            None => {},
        }
    }
}

proof fn lemma_leaf_code(p: Property, e: (Seq<char>, u8))
    requires
        is_leaf_for(p, e),
    ensures
        code_value(Some(p)) == Some(e.1),
{
    lemma_hex_text_roundtrip(seq![e.1], true);
    assert(hex_bytes(code_text(e.1)) =~= seq![e.1]);
}

proof fn lemma_leaf_found(children: Seq<Property>, list: Seq<(Seq<char>, Option<u8>)>, i: int)
    requires
        names_distinct(list),
        0 <= i < list.len(),
        holds_leaves(children, entries(list)),
    ensures
        code_value(child_named(children, list[i].0)) == list[i].1,
{
    let e = entries(list);
    let n = list[i].0;
    lemma_entry_of(list, i);
    match list[i].1 {
        Some(c) => {
            let k = choose|k: int| is_first_entry(e, n, k) && e[k].1 == c;
            assert(is_leaf_for(children[k], e[k]));
            assert forall|j: int| 0 <= j < k implies children[j].name@ != n by {
                assert(is_leaf_for(children[j], e[j]));
            }
            assert(is_first_named(children, n, k));
            let k2 = choose|k2: int| is_first_named(children, n, k2);
            lemma_first_named_unique(children, n, k, k2);
            lemma_leaf_code(children[k], e[k]);
        },
        None => {
            assert forall|k: int| !is_first_named(children, n, k) by {
                if 0 <= k < children.len() {
                    assert(is_leaf_for(children[k], e[k]));
                }
            }
        },
    }
}

proof fn lemma_lookup_leaf(pc: Property, s: StatusSettings, name: Seq<char>)
    requires
        is_write_tree(pc, s),
    ensures
        lookup(pc, seq!["e_1002"@, "e_3001"@, name]) == child_named(pc.children@[0].children@[0].children@, name),
{
    let a = pc.children@[0];
    let b = a.children@[0];
    assert(is_first_named(pc.children@, "e_1002"@, 0));
    lemma_first_named_unique(pc.children@, "e_1002"@, 0, choose|k: int| is_first_named(pc.children@, "e_1002"@, k));
    assert(is_first_named(a.children@, "e_3001"@, 0));
    lemma_first_named_unique(a.children@, "e_3001"@, 0, choose|k: int| is_first_named(a.children@, "e_3001"@, k));
    let path = seq!["e_1002"@, "e_3001"@, name];
    assert(path.drop_first() =~= seq!["e_3001"@, name]);
    assert(path.drop_first().drop_first() =~= seq![name]);
    assert(seq![name].drop_first() =~= Seq::<Seq<char>>::empty());
    reveal_with_fuel(lookup, 4);
}

/// Every setting that a write request carries sits in its tree at the path
/// that the status read takes it from: reading the written tree back gives
/// the wire bytes of the settings, and so the settings themselves.
pub proof fn lemma_write_tree_read_back(pc: Property, s: StatusSettings)
    requires
        is_write_tree(pc, s),
    ensures
        tree_readings(Some(pc)) == readings_of(s),
        settings_of(tree_readings(Some(pc))) == s,
{
    let list = write_list(s);
    let leaves = pc.children@[0].children@[0].children@;
    reveal_strlit("p_01");
    reveal_strlit("p_09");
    reveal_strlit("p_05");
    reveal_strlit("p_06");
    reveal_strlit("p_0A");
    reveal_strlit("p_07");
    reveal_strlit("p_08");
    reveal_strlit("p_28");
    reveal_strlit("p_24");
    reveal_strlit("p_25");
    reveal_strlit("p_27");
    reveal_strlit("p_22");
    reveal_strlit("p_23");
    reveal_strlit("p_26");
    reveal_strlit("p_20");
    reveal_strlit("p_21");
    assert forall|a: int, b: int| 0 <= a < b < list.len() implies list[a].0 != list[b].0 by {
        assert(a == 0 || a == 1 || a == 2 || a == 3 || a == 4 || a == 5 || a == 6 || a == 7 || a == 8 || a == 9 || a == 10 || a == 11 || a == 12 || a == 13 || a == 14 || a == 15);
        assert(b == 0 || b == 1 || b == 2 || b == 3 || b == 4 || b == 5 || b == 6 || b == 7 || b == 8 || b == 9 || b == 10 || b == 11 || b == 12 || b == 13 || b == 14 || b == 15);
        if list[a].0 == list[b].0 {
            assert(list[a].0[2] == list[b].0[2] && list[a].0[3] == list[b].0[3]);
        }
    }
    assert forall|j: int| 0 <= j < 16 implies status_code(Some(pc), #[trigger] list[j].0) == list[j].1 by {
        lemma_leaf_found(leaves, list, j);
        lemma_lookup_leaf(pc, s, list[j].0);
    }
    assert(status_code(Some(pc), list[0].0) == list[0].1);
    assert(status_code(Some(pc), list[1].0) == list[1].1);
    assert(status_code(Some(pc), list[2].0) == list[2].1);
    assert(status_code(Some(pc), list[3].0) == list[3].1);
    assert(status_code(Some(pc), list[4].0) == list[4].1);
    assert(status_code(Some(pc), list[5].0) == list[5].1);
    assert(status_code(Some(pc), list[6].0) == list[6].1);
    assert(status_code(Some(pc), list[7].0) == list[7].1);
    assert(status_code(Some(pc), list[8].0) == list[8].1);
    assert(status_code(Some(pc), list[9].0) == list[9].1);
    assert(status_code(Some(pc), list[10].0) == list[10].1);
    assert(status_code(Some(pc), list[11].0) == list[11].1);
    assert(status_code(Some(pc), list[12].0) == list[12].1);
    assert(status_code(Some(pc), list[13].0) == list[13].1);
    assert(status_code(Some(pc), list[14].0) == list[14].1);
    assert(status_code(Some(pc), list[15].0) == list[15].1);
    lemma_settings_read_after_write(s);
}

/// A device answer whose indoor-unit status tree is the tree that wrote
/// some settings is read back as those settings.
pub proof fn lemma_answer_read_back(answer: DaikinResponse<Property>, pc: Property, s: StatusSettings)
    requires
        answer.content_from(status_source()) == Some(pc),
        is_write_tree(pc, s),
    ensures
        readings_in(answer) == readings_of(s),
        settings_of(readings_in(answer)) == s,
{
    lemma_write_tree_read_back(pc, s);
}

/// Where the status read takes each setting from: the mode from
/// `e_1002.e_3001.p_01` of the indoor unit's status tree; for cooling,
/// heating, fan, dehumidify and auto the speed from `p_09`, `p_0A`, `p_28`,
/// `p_27`, `p_26`, the vertical direction from `p_05`, `p_07`, `p_24`,
/// `p_22`, `p_20` and the horizontal direction from `p_06`, `p_08`, `p_25`,
/// `p_23`, `p_21`; each setting is the decoding of the code found there.
pub proof fn lemma_status_read_paths(answer: DaikinResponse<Property>, tree: Property)
    requires
        answer.content_from("/dsiot/edge/adr_0100.dgc_status"@) == Some(tree),
    ensures
        readings_in(answer).mode == code_value(lookup(tree, seq!["e_1002"@, "e_3001"@, "p_01"@])),
        readings_in(answer).cooling.speed == code_value(lookup(tree, seq!["e_1002"@, "e_3001"@, "p_09"@])),
        readings_in(answer).cooling.vertical_direction == code_value(lookup(tree, seq!["e_1002"@, "e_3001"@, "p_05"@])),
        readings_in(answer).cooling.horizontal_direction == code_value(lookup(tree, seq!["e_1002"@, "e_3001"@, "p_06"@])),
        readings_in(answer).heating.speed == code_value(lookup(tree, seq!["e_1002"@, "e_3001"@, "p_0A"@])),
        readings_in(answer).heating.vertical_direction == code_value(lookup(tree, seq!["e_1002"@, "e_3001"@, "p_07"@])),
        readings_in(answer).heating.horizontal_direction == code_value(lookup(tree, seq!["e_1002"@, "e_3001"@, "p_08"@])),
        readings_in(answer).fan.speed == code_value(lookup(tree, seq!["e_1002"@, "e_3001"@, "p_28"@])),
        readings_in(answer).fan.vertical_direction == code_value(lookup(tree, seq!["e_1002"@, "e_3001"@, "p_24"@])),
        readings_in(answer).fan.horizontal_direction == code_value(lookup(tree, seq!["e_1002"@, "e_3001"@, "p_25"@])),
        readings_in(answer).dehumidify.speed == code_value(lookup(tree, seq!["e_1002"@, "e_3001"@, "p_27"@])),
        readings_in(answer).dehumidify.vertical_direction == code_value(lookup(tree, seq!["e_1002"@, "e_3001"@, "p_22"@])),
        readings_in(answer).dehumidify.horizontal_direction == code_value(lookup(tree, seq!["e_1002"@, "e_3001"@, "p_23"@])),
        readings_in(answer).auto.speed == code_value(lookup(tree, seq!["e_1002"@, "e_3001"@, "p_26"@])),
        readings_in(answer).auto.vertical_direction == code_value(lookup(tree, seq!["e_1002"@, "e_3001"@, "p_20"@])),
        readings_in(answer).auto.horizontal_direction == code_value(lookup(tree, seq!["e_1002"@, "e_3001"@, "p_21"@])),
        settings_of(readings_in(answer)).mode == Mode::decode_opt(code_value(lookup(tree, seq!["e_1002"@, "e_3001"@, "p_01"@]))),
        settings_of(readings_in(answer)).wind.cooling.speed == WindSpeed::decode_opt(code_value(lookup(tree, seq!["e_1002"@, "e_3001"@, "p_09"@]))),
        settings_of(readings_in(answer)).wind.cooling.vertical_direction == VerticalDirection::decode_opt(code_value(lookup(tree, seq!["e_1002"@, "e_3001"@, "p_05"@]))),
        settings_of(readings_in(answer)).wind.cooling.horizontal_direction == HorizontalDirection::decode_opt(code_value(lookup(tree, seq!["e_1002"@, "e_3001"@, "p_06"@]))),
        settings_of(readings_in(answer)).wind.heating.speed == WindSpeed::decode_opt(code_value(lookup(tree, seq!["e_1002"@, "e_3001"@, "p_0A"@]))),
        settings_of(readings_in(answer)).wind.heating.vertical_direction == VerticalDirection::decode_opt(code_value(lookup(tree, seq!["e_1002"@, "e_3001"@, "p_07"@]))),
        settings_of(readings_in(answer)).wind.heating.horizontal_direction == HorizontalDirection::decode_opt(code_value(lookup(tree, seq!["e_1002"@, "e_3001"@, "p_08"@]))),
        settings_of(readings_in(answer)).wind.fan.speed == WindSpeed::decode_opt(code_value(lookup(tree, seq!["e_1002"@, "e_3001"@, "p_28"@]))),
        settings_of(readings_in(answer)).wind.fan.vertical_direction == VerticalDirection::decode_opt(code_value(lookup(tree, seq!["e_1002"@, "e_3001"@, "p_24"@]))),
        settings_of(readings_in(answer)).wind.fan.horizontal_direction == HorizontalDirection::decode_opt(code_value(lookup(tree, seq!["e_1002"@, "e_3001"@, "p_25"@]))),
        settings_of(readings_in(answer)).wind.dehumidify.speed == WindSpeed::decode_opt(code_value(lookup(tree, seq!["e_1002"@, "e_3001"@, "p_27"@]))),
        settings_of(readings_in(answer)).wind.dehumidify.vertical_direction == VerticalDirection::decode_opt(code_value(lookup(tree, seq!["e_1002"@, "e_3001"@, "p_22"@]))),
        settings_of(readings_in(answer)).wind.dehumidify.horizontal_direction == HorizontalDirection::decode_opt(code_value(lookup(tree, seq!["e_1002"@, "e_3001"@, "p_23"@]))),
        settings_of(readings_in(answer)).wind.auto.speed == AutoModeWindSpeed::decode_opt(code_value(lookup(tree, seq!["e_1002"@, "e_3001"@, "p_26"@]))),
        settings_of(readings_in(answer)).wind.auto.vertical_direction == VerticalDirection::decode_opt(code_value(lookup(tree, seq!["e_1002"@, "e_3001"@, "p_20"@]))),
        settings_of(readings_in(answer)).wind.auto.horizontal_direction == HorizontalDirection::decode_opt(code_value(lookup(tree, seq!["e_1002"@, "e_3001"@, "p_21"@]))),
{
}

/// An answer without an indoor-unit status tree carries no setting.
pub proof fn lemma_status_read_without_tree(answer: DaikinResponse<Property>)
    requires
        answer.content_from("/dsiot/edge/adr_0100.dgc_status"@) is None,
    ensures
        readings_in(answer).mode is None,
        readings_in(answer).cooling.speed is None,
        readings_in(answer).cooling.vertical_direction is None,
        readings_in(answer).cooling.horizontal_direction is None,
        readings_in(answer).heating.speed is None,
        readings_in(answer).heating.vertical_direction is None,
        readings_in(answer).heating.horizontal_direction is None,
        readings_in(answer).fan.speed is None,
        readings_in(answer).fan.vertical_direction is None,
        readings_in(answer).fan.horizontal_direction is None,
        readings_in(answer).dehumidify.speed is None,
        readings_in(answer).dehumidify.vertical_direction is None,
        readings_in(answer).dehumidify.horizontal_direction is None,
        readings_in(answer).auto.speed is None,
        readings_in(answer).auto.vertical_direction is None,
        readings_in(answer).auto.horizontal_direction is None,
{
}

/// Where a write puts each setting: the code of every setting that has a
/// value sits at the same leaf of `e_1002.e_3001` that the status read
/// takes it from (the fan's vertical direction at `p_24`, its horizontal
/// direction at `p_25`, and so on for every mode), below a root named
/// `dgc_status`; a setting without a value has no leaf.
pub proof fn lemma_write_paths(pc: Property, s: StatusSettings)
    requires
        is_write_tree(pc, s),
    ensures
        pc.name@ == "dgc_status"@,
        code_value(lookup(pc, seq!["e_1002"@, "e_3001"@, "p_01"@])) == Mode::encode_opt(s.mode),
        code_value(lookup(pc, seq!["e_1002"@, "e_3001"@, "p_09"@])) == WindSpeed::encode_opt(s.wind.cooling.speed),
        code_value(lookup(pc, seq!["e_1002"@, "e_3001"@, "p_05"@])) == VerticalDirection::encode_opt(s.wind.cooling.vertical_direction),
        code_value(lookup(pc, seq!["e_1002"@, "e_3001"@, "p_06"@])) == HorizontalDirection::encode_opt(s.wind.cooling.horizontal_direction),
        code_value(lookup(pc, seq!["e_1002"@, "e_3001"@, "p_0A"@])) == WindSpeed::encode_opt(s.wind.heating.speed),
        code_value(lookup(pc, seq!["e_1002"@, "e_3001"@, "p_07"@])) == VerticalDirection::encode_opt(s.wind.heating.vertical_direction),
        code_value(lookup(pc, seq!["e_1002"@, "e_3001"@, "p_08"@])) == HorizontalDirection::encode_opt(s.wind.heating.horizontal_direction),
        code_value(lookup(pc, seq!["e_1002"@, "e_3001"@, "p_28"@])) == WindSpeed::encode_opt(s.wind.fan.speed),
        code_value(lookup(pc, seq!["e_1002"@, "e_3001"@, "p_24"@])) == VerticalDirection::encode_opt(s.wind.fan.vertical_direction),
        code_value(lookup(pc, seq!["e_1002"@, "e_3001"@, "p_25"@])) == HorizontalDirection::encode_opt(s.wind.fan.horizontal_direction),
        code_value(lookup(pc, seq!["e_1002"@, "e_3001"@, "p_27"@])) == WindSpeed::encode_opt(s.wind.dehumidify.speed),
        code_value(lookup(pc, seq!["e_1002"@, "e_3001"@, "p_22"@])) == VerticalDirection::encode_opt(s.wind.dehumidify.vertical_direction),
        code_value(lookup(pc, seq!["e_1002"@, "e_3001"@, "p_23"@])) == HorizontalDirection::encode_opt(s.wind.dehumidify.horizontal_direction),
        code_value(lookup(pc, seq!["e_1002"@, "e_3001"@, "p_26"@])) == AutoModeWindSpeed::encode_opt(s.wind.auto.speed),
        code_value(lookup(pc, seq!["e_1002"@, "e_3001"@, "p_20"@])) == VerticalDirection::encode_opt(s.wind.auto.vertical_direction),
        code_value(lookup(pc, seq!["e_1002"@, "e_3001"@, "p_21"@])) == HorizontalDirection::encode_opt(s.wind.auto.horizontal_direction),
{
    lemma_write_tree_read_back(pc, s);
}

} // verus!
