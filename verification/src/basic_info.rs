//! The adapter's UDP basic-info answer (`key=value` fields separated by
//! commas) and what it says about the supported transport.

use vstd::prelude::*;
use crate::client::Scheme;
use crate::text::{has_prefix, push_char, same_text, starts_with};

verus! {

/// Port that answers basic-info probes.
pub const BASIC_INFO_PORT: u16 = 30050;

/// The pieces of `s` between the occurrences of `sep` (`str::split`): one
/// more piece than there are separators, empty pieces included.
pub open spec fn split_on(s: Seq<char>, sep: char) -> Seq<Seq<char>>
    decreases s.len(),
{
    if s.len() == 0 {
        seq![Seq::<char>::empty()]
    } else {
        let rest = split_on(s.drop_last(), sep);
        if s.last() == sep {
            rest.push(Seq::<char>::empty())
        } else {
            rest.update(rest.len() - 1, rest.last().push(s.last()))
        }
    }
}

/// Index of the first `c` in `s`.
pub open spec fn first_index_of(s: Seq<char>, c: char) -> Option<int>
    decreases s.len(),
{
    if s.len() == 0 {
        None
    } else if s[0] == c {
        Some(0)
    } else {
        match first_index_of(s.drop_first(), c) {
            Some(i) => Some(i + 1),
            None => None,
        }
    }
}

/// A field split at its first `=` into key and value (`str::split_once`);
/// nothing for a field without `=`.
pub open spec fn key_value(field: Seq<char>) -> Option<(Seq<char>, Seq<char>)> {
    match first_index_of(field, '=') {
        Some(i) => Some((field.take(i), field.skip(i + 1))),
        None => None,
    }
}

/// The key/value pairs of the fields, in order, fields without `=` dropped.
pub open spec fn pairs_of(fields: Seq<Seq<char>>) -> Seq<(Seq<char>, Seq<char>)>
    decreases fields.len(),
{
    if fields.len() == 0 {
        Seq::empty()
    } else {
        let rest = pairs_of(fields.drop_last());
        match key_value(fields.last()) {
            Some(kv) => rest.push(kv),
            None => rest,
        }
    }
}

/// The key/value pairs of a basic-info answer.
pub open spec fn basic_info_pairs(text: Seq<char>) -> Seq<(Seq<char>, Seq<char>)> {
    pairs_of(split_on(text, ','))
}

/// The texts of a list of string pairs.
pub open spec fn pair_views(pairs: Seq<(String, String)>) -> Seq<(Seq<char>, Seq<char>)> {
    pairs.map_values(|p: (String, String)| (p.0@, p.1@))
}

proof fn lemma_split_on_len(s: Seq<char>, sep: char)
    ensures
        split_on(s, sep).len() >= 1,
    decreases s.len(),
{
    if s.len() > 0 {
        lemma_split_on_len(s.drop_last(), sep);
    }
}

proof fn lemma_first_index_of(s: Seq<char>, c: char, i: int)
    requires
        0 <= i < s.len(),
        s[i] == c,
        forall|j: int| 0 <= j < i ==> s[j] != c,
    ensures
        first_index_of(s, c) == Some(i),
    decreases i,
{
    if i > 0 {
        lemma_first_index_of(s.drop_first(), c, i - 1);
    }
}

proof fn lemma_no_index_of(s: Seq<char>, c: char)
    requires
        forall|j: int| 0 <= j < s.len() ==> s[j] != c,
    ensures
        first_index_of(s, c) is None,
    decreases s.len(),
{
    if s.len() > 0 {
        lemma_no_index_of(s.drop_first(), c);
    }
}

/// Splits one field at its first `=`.
fn split_field(field: &String) -> (r: Option<(String, String)>)
    ensures
        match key_value(field@) {
            Some((k, v)) => r matches Some(p) && p.0@ == k && p.1@ == v,
            None => r is None,
        },
{
    let s = field.as_str();
    let n = s.unicode_len();
    let mut i: usize = 0;
    while i < n
        invariant
            n == s@.len(),
            s@ == field@,
            i <= n,
            forall|j: int| 0 <= j < i ==> s@[j] != '=',
        decreases n - i,
    {
        if s.get_char(i) == '=' {
            proof {
                lemma_first_index_of(s@, '=', i as int);
            }
            let key = s.substring_char(0, i);
            let value = s.substring_char(i + 1, n);
            assert(s@.subrange(0, i as int) == s@.take(i as int));
            assert(s@.subrange(i + 1, n as int) == s@.skip(i + 1));
            return Some((String::from_str(key), String::from_str(value)));
        }
        i = i + 1;
    }
    proof {
        lemma_no_index_of(s@, '=');
    }
    None
}

/// The key/value pairs of a basic-info answer, in order; fields without `=`
/// are dropped.
pub fn parse_basic_info(text: &str) -> (pairs: Vec<(String, String)>)
    ensures
        pair_views(pairs@) == basic_info_pairs(text@),
{
    let n = text.unicode_len();
    let mut pairs: Vec<(String, String)> = Vec::new();
    let mut field = String::new();
    let mut i: usize = 0;
    while i < n
        invariant
            n == text@.len(),
            i <= n,
            pair_views(pairs@) == pairs_of(split_on(text@.take(i as int), ',').drop_last()),
            field@ == split_on(text@.take(i as int), ',').last(),
        decreases n - i,
    {
        let c = text.get_char(i);
        let ghost before = split_on(text@.take(i as int), ',');
        proof {
            lemma_split_on_len(text@.take(i as int), ',');
        }
        assert(text@.take(i + 1).drop_last() == text@.take(i as int));
        assert(text@.take(i + 1).last() == c);
        if c == ',' {
            let ghost done = before.push(Seq::<char>::empty()).drop_last();
            assert(done == before);
            assert(before.drop_last().push(before.last()) == before);
            match split_field(&field) {
                Some(kv) => {
                    pairs.push(kv);
                },
                None => {},
            }
            assert(pair_views(pairs@) == pairs_of(before));
            field = String::new();
        } else {
            let ghost after = before.update(before.len() - 1, before.last().push(c));
            assert(after.drop_last() == before.drop_last());
            push_char(&mut field, c);
        }
        i = i + 1;
    }
    let ghost all = split_on(text@.take(n as int), ',');
    proof {
        lemma_split_on_len(text@.take(n as int), ',');
    }
    assert(text@.take(n as int) == text@);
    assert(all.drop_last().push(all.last()) == all);
    match split_field(&field) {
        Some(kv) => {
            pairs.push(kv);
        },
        None => {},
    }
    assert(pair_views(pairs@) == pairs_of(all));
    pairs
}

/// The value of the last pair with key `key`: later fields replace earlier
/// ones.
pub open spec fn value_of(pairs: Seq<(Seq<char>, Seq<char>)>, key: Seq<char>) -> Option<Seq<char>>
    decreases pairs.len(),
{
    if pairs.len() == 0 {
        None
    } else if pairs.last().0 == key {
        Some(pairs.last().1)
    } else {
        value_of(pairs.drop_last(), key)
    }
}

/// The value that a basic-info answer gives for `key`.
pub fn basic_info_value<'a>(pairs: &'a [(String, String)], key: &str) -> (r: Option<&'a String>)
    ensures
        match value_of(pair_views(pairs@), key@) {
            Some(v) => r matches Some(s) && s@ == v,
            None => r is None,
        },
{
    let mut i: usize = pairs.len();
    assert(pairs@.take(i as int) == pairs@);
    while i > 0
        invariant
            i <= pairs@.len(),
            value_of(pair_views(pairs@), key@) == value_of(pair_views(pairs@.take(i as int)), key@),
        decreases i,
    {
        let ghost prefix = pairs@.take(i as int);
        assert(pair_views(prefix).drop_last() == pair_views(pairs@.take(i - 1)));
        assert(pair_views(prefix).last() == (pairs@[i - 1].0@, pairs@[i - 1].1@));
        if same_text(pairs[i - 1].0.as_str(), key) {
            return Some(&pairs[i - 1].1);
        }
        i = i - 1;
    }
    None
}

/// What a basic-info answer says about reaching the adapter.
#[derive(Debug, PartialEq, Eq, Clone, Copy, Structural)]
pub enum AdapterSupport {
    /// Supported over this transport.
    Supported(Scheme),
    /// An HTTPS adapter, but no local API key was given.
    NeedsLocalApiKey,
    /// An adapter kind and API version that are not known to work.
    Unknown,
}

/// Adapter kind 4 with API version `2_*` speaks plain HTTP; kind 5 with API
/// version `3_*` speaks HTTPS and needs the local API key; anything else, or
/// a missing field, is unknown.
pub open spec fn adapter_support(adp_kind: Option<Seq<char>>, api_ver: Option<Seq<char>>, has_local_api_key: bool) -> AdapterSupport {
    match (adp_kind, api_ver) {
        (Some(kind), Some(ver)) => if kind == "4"@ && has_prefix(ver, "2_"@) {
            AdapterSupport::Supported(Scheme::Http)
        } else if kind == "5"@ && has_prefix(ver, "3_"@) {
            if has_local_api_key {
                AdapterSupport::Supported(Scheme::Https)
            } else {
                AdapterSupport::NeedsLocalApiKey
            }
        } else {
            AdapterSupport::Unknown
        },
        _ => AdapterSupport::Unknown,
    }
}

/// Which adapters are supported, and how: a generation-4 adapter (kind `4`,
/// API version `2_*`) over plain HTTP, whether a local API key is
/// configured or not; a generation-5 adapter (kind `5`, API version `3_*`)
/// over HTTPS with a key and not without one. HTTPS is chosen for nothing
/// else, and the key changes the answer for nothing but a generation-5
/// adapter.
pub proof fn lemma_adapter_generations(adp_kind: Option<Seq<char>>, api_ver: Option<Seq<char>>, has_local_api_key: bool)
    ensures
        adp_kind == Some("4"@) && (api_ver matches Some(v) && has_prefix(v, "2_"@)) ==> adapter_support(
            adp_kind,
            api_ver,
            has_local_api_key,
        ) == AdapterSupport::Supported(Scheme::Http),
        adp_kind == Some("5"@) && (api_ver matches Some(v) && has_prefix(v, "3_"@)) ==> adapter_support(
            adp_kind,
            api_ver,
            true,
        ) == AdapterSupport::Supported(Scheme::Https) && adapter_support(adp_kind, api_ver, false)
            == AdapterSupport::NeedsLocalApiKey,
        adapter_support(adp_kind, api_ver, has_local_api_key) == AdapterSupport::Supported(Scheme::Https)
            ==> has_local_api_key && adp_kind == Some("5"@) && (api_ver matches Some(v) && has_prefix(v, "3_"@)),
        !(adp_kind == Some("5"@) && (api_ver matches Some(v) && has_prefix(v, "3_"@))) ==> adapter_support(
            adp_kind,
            api_ver,
            true,
        ) == adapter_support(adp_kind, api_ver, false),
        adapter_support(adp_kind, api_ver, has_local_api_key) == AdapterSupport::Supported(Scheme::Http)
            ==> adp_kind == Some("4"@) && (api_ver matches Some(v) && has_prefix(v, "2_"@)),
{
    reveal_strlit("4");
    reveal_strlit("5");
    assert("4"@[0] != "5"@[0]);
}

/// Decides from a basic-info answer whether, and over which transport, the
/// adapter is supported.
pub fn check_adapter_support(udp: &[(String, String)], has_local_api_key: bool) -> (r: AdapterSupport)
    ensures
        r == adapter_support(
            value_of(pair_views(udp@), "adp_kind"@),
            value_of(pair_views(udp@), "api_ver"@),
            has_local_api_key,
        ),
{
    let kind = basic_info_value(udp, "adp_kind");
    let ver = basic_info_value(udp, "api_ver");
    match (kind, ver) {
        (Some(kind), Some(ver)) => {
            if same_text(kind.as_str(), "4") && starts_with(ver.as_str(), "2_") {
                AdapterSupport::Supported(Scheme::Http)
            } else if same_text(kind.as_str(), "5") && starts_with(ver.as_str(), "3_") {
                if has_local_api_key {
                    AdapterSupport::Supported(Scheme::Https)
                } else {
                    AdapterSupport::NeedsLocalApiKey
                }
            } else {
                AdapterSupport::Unknown
            }
        },
        _ => AdapterSupport::Unknown,
    }
}

} // verus!
