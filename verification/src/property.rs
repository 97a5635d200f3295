//! The property tree of the DSIOT protocol: each node has a name (`pn`), an
//! optional value (`pv`) and children (`pch`). Properties are found by the
//! path of names that leads to them from the root.

use vstd::prelude::*;
use crate::info::{hex_bytes, is_hex_text};
use crate::text::same_text;

verus! {

/// One node of a property tree.
#[derive(Debug)]
pub struct Property {
    /// `pn`: the node's name.
    pub name: String,
    /// `pv`: the node's value, as the text the device sent.
    pub value: Option<String>,
    /// `pch`: the node's children, in order.
    pub children: Vec<Property>,
}

/// Whether child `i` is the first of `children` named `name`.
pub open spec fn is_first_named(children: Seq<Property>, name: Seq<char>, i: int) -> bool {
    &&& 0 <= i < children.len()
    &&& children[i].name@ == name
    &&& forall|j: int| 0 <= j < i ==> children[j].name@ != name
}

/// The first of `children` named `name`, if any is.
pub open spec fn child_named(children: Seq<Property>, name: Seq<char>) -> Option<Property> {
    if exists|i: int| is_first_named(children, name, i) {
        Some(children[choose|i: int| is_first_named(children, name, i)])
    } else {
        None
    }
}

/// The node that `path` leads to from `p`: at each step the first child
/// with the next name.
pub open spec fn lookup(p: Property, path: Seq<Seq<char>>) -> Option<Property>
    decreases path.len(),
{
    if path.len() == 0 {
        Some(p)
    } else {
        match child_named(p.children@, path[0]) {
            Some(c) => lookup(c, path.drop_first()),
            None => None,
        }
    }
}

/// The names of a path given as text slices.
pub open spec fn path_view(path: Seq<&str>) -> Seq<Seq<char>> {
    path.map_values(|s: &str| s@)
}

pub(crate) proof fn lemma_first_named_unique(children: Seq<Property>, name: Seq<char>, i: int, k: int)
    requires
        is_first_named(children, name, i),
        is_first_named(children, name, k),
    ensures
        i == k,
{
    if k < i {
        assert(children[k].name@ != name);
    } else if i < k {
        assert(children[i].name@ != name);
    }
}

impl Property {
    /// The first child named `name`, if any is.
    pub fn child(&self, name: &str) -> (r: Option<&Property>)
        ensures
            match r {
                Some(c) => child_named(self.children@, name@) == Some(*c),
                None => child_named(self.children@, name@) is None,
            },
    {
        let mut i: usize = 0;
        while i < self.children.len()
            invariant
                i <= self.children@.len(),
                forall|j: int| 0 <= j < i ==> self.children@[j].name@ != name@,
            decreases self.children@.len() - i,
        {
            if same_text(self.children[i].name.as_str(), name) {
                proof {
                    assert(is_first_named(self.children@, name@, i as int));
                    let k = choose|k: int| is_first_named(self.children@, name@, k);
                    lemma_first_named_unique(self.children@, name@, i as int, k);
                }
                return Some(&self.children[i]);
            }
            i = i + 1;
        }
        None
    }

    /// The node that `path` leads to from this one (see `lookup`).
    pub fn find(&self, path: &[&str]) -> (r: Option<&Property>)
        ensures
            match r {
                Some(c) => lookup(*self, path_view(path@)) == Some(*c),
                None => lookup(*self, path_view(path@)) is None,
            },
    {
        let ghost full = path_view(path@);
        let mut cur: &Property = self;
        let mut i: usize = 0;
        assert(full.skip(0) == full);
        while i < path.len()
            invariant
                i <= path@.len(),
                full == path_view(path@),
                lookup(*self, full) == lookup(*cur, full.skip(i as int)),
            decreases path@.len() - i,
        {
            let ghost rest = full.skip(i as int);
            assert(rest[0] == path@[i as int]@);
            assert(rest.drop_first() == full.skip(i + 1));
            match cur.child(path[i]) {
                Some(c) => {
                    cur = c;
                },
                None => {
                    return None;
                },
            }
            i = i + 1;
        }
        assert(full.skip(i as int).len() == 0);
        Some(cur)
    }
}

/// The node an optional reference points to.
pub open spec fn deref_opt(p: Option<&Property>) -> Option<Property> {
    match p {
        Some(q) => Some(*q),
        None => None,
    }
}

/// The value text of an optional node, when it has one.
pub open spec fn text_value(p: Option<Property>) -> Option<Seq<char>> {
    match p {
        Some(q) => match q.value {
            Some(v) => Some(v@),
            None => None,
        },
        None => None,
    }
}

/// The bytes that a binary value encodes: an even number of hexadecimal
/// digits, two per byte.
pub open spec fn binary_bytes(t: Seq<char>) -> Option<Seq<u8>> {
    if t.len() % 2 == 0 && is_hex_text(t) {
        Some(hex_bytes(t))
    } else {
        None
    }
}

/// An enumeration code stored little-endian: the first byte, when every
/// further byte is zero.
pub open spec fn code_of_bytes(b: Seq<u8>) -> Option<u8> {
    if b.len() > 0 && forall|k: int| 1 <= k < b.len() ==> b[k] == 0 {
        Some(b[0])
    } else {
        None
    }
}

/// A signed integer stored little-endian in one or two bytes (two's
/// complement).
pub open spec fn int_of_bytes(b: Seq<u8>) -> Option<i32> {
    if b.len() == 1 {
        Some(if b[0] < 128 { b[0] as i32 } else { (b[0] - 256) as i32 })
    } else if b.len() == 2 {
        let v = b[0] + 256 * b[1];
        Some(if v < 32768 { v as i32 } else { (v - 65536) as i32 })
    } else {
        None
    }
}

/// The enumeration code that an optional node holds.
pub open spec fn code_value(p: Option<Property>) -> Option<u8> {
    match text_value(p) {
        Some(t) => match binary_bytes(t) {
            Some(b) => code_of_bytes(b),
            None => None,
        },
        None => None,
    }
}

/// The integer that an optional node holds.
pub open spec fn int_value(p: Option<Property>) -> Option<i32> {
    match text_value(p) {
        Some(t) => match binary_bytes(t) {
            Some(b) => int_of_bytes(b),
            None => None,
        },
        None => None,
    }
}

/// `hex::decode`: the bytes of a text of hexadecimal digits, two digits per
/// byte, high digit first; an error for an odd length or a character that
/// is not a hexadecimal digit.
#[verifier::external_body]
fn hex_decode(data: &str) -> (r: Result<Vec<u8>, hex::FromHexError>)
    ensures
        r is Ok <==> (data@.len() % 2 == 0 && is_hex_text(data@)),
        r matches Ok(v) ==> v@ == hex_bytes(data@),
{
    hex::decode(data)
}

/// The bytes of the binary value of an optional node.
fn binary_reading(p: Option<&Property>) -> (r: Option<Vec<u8>>)
    ensures
        match r {
            Some(b) => text_value(deref_opt(p)) matches Some(t) && binary_bytes(t) == Some(b@),
            None => text_value(deref_opt(p)) matches Some(t) ==> binary_bytes(t) is None,
        },
{
    match p {
        Some(q) => match &q.value {
            Some(v) => match hex_decode(v.as_str()) {
                Ok(bytes) => Some(bytes),
                Err(_) => None,
            },
            None => None,
        },
        None => None,
    }
}

/// The value text of an optional node.
pub fn text_reading(p: Option<&Property>) -> (r: Option<String>)
    ensures
        match r {
            Some(s) => text_value(deref_opt(p)) == Some(s@),
            None => text_value(deref_opt(p)) is None,
        },
{
    match p {
        Some(q) => match &q.value {
            Some(v) => Some(v.clone()),
            None => None,
        },
        None => None,
    }
}

/// The enumeration code that an optional node holds (see `code_value`).
pub fn code_reading(p: Option<&Property>) -> (r: Option<u8>)
    ensures
        r == code_value(deref_opt(p)),
{
    match binary_reading(p) {
        Some(b) => {
            if b.len() == 0 {
                return None;
            }
            let mut k: usize = 1;
            while k < b.len()
                invariant
                    1 <= k <= b@.len(),
                    forall|j: int| 1 <= j < k ==> b@[j] == 0,
                    text_value(deref_opt(p)) matches Some(t) && binary_bytes(t) == Some(b@),
                decreases b@.len() - k,
            {
                if b[k] != 0 {
                    assert(!(forall|j: int| 1 <= j < b@.len() ==> b@[j] == 0)) by {
                        assert(b@[k as int] != 0);
                    }
                    return None;
                }
                k = k + 1;
            }
            Some(b[0])
        },
        None => None,
    }
}

/// The integer that an optional node holds (see `int_value`).
pub fn int_reading(p: Option<&Property>) -> (r: Option<i32>)
    ensures
        r == int_value(deref_opt(p)),
{
    match binary_reading(p) {
        Some(b) => {
            if b.len() == 1 {
                let v = b[0] as i32;
                Some(if v < 128 { v } else { v - 256 })
            } else if b.len() == 2 {
                let v = b[0] as i32 + 256 * (b[1] as i32);
                Some(if v < 32768 { v } else { v - 65536 })
            } else {
                None
            }
        },
        None => None,
    }
}

} // verus!
