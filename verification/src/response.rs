//! A device's answer to a multi-request, and reading the optional property
//! payload (`pc`) of each entry.

use crate::text::same_text;
use vstd::prelude::*;

verus! {

/// The shape that a response payload was read as: a property, an empty
/// object `{}`, or `null`.
pub enum Payload<T> {
    Data(T),
    Empty,
    Null,
}

/// The payload of a response: a property when the device sent one, nothing
/// for an empty object or `null`, and the reader's error when the value was
/// none of these.
pub fn deserialize_empty_object<T, E>(parsed: Result<Payload<T>, E>) -> (r: Result<Option<T>, E>)
    ensures
        match parsed {
            Ok(Payload::Data(d)) => r == Ok::<Option<T>, E>(Some(d)),
            Ok(Payload::Empty) => r == Ok::<Option<T>, E>(None),
            Ok(Payload::Null) => r == Ok::<Option<T>, E>(None),
            Err(e) => r == Err::<Option<T>, E>(e),
        },
{
    match parsed {
        Ok(Payload::Data(data)) => Ok(Some(data)),
        Ok(_) => Ok(None),
        Err(e) => Err(e),
    }
}

/// One entry of a device's answer: the path it is from (`fr`), its property
/// payload (`pc`) when there is one, and its status code (`rsc`). `P` is the
/// property tree as the transport holds it.
#[derive(Debug, Clone, PartialEq)]
pub struct Response<P> {
    pub from: String,
    pub content: Option<P>,
    pub status_code: u32,
}

/// A device's answer to a multi-request: one entry per request.
#[derive(Debug, Clone, PartialEq)]
pub struct DaikinResponse<P> {
    pub responses: Vec<Response<P>>,
}

impl<P> DaikinResponse<P> {
    /// The paths that the entries come from, in order.
    pub open spec fn sources(&self) -> Seq<Seq<char>> {
        self.responses@.map_values(|r: Response<P>| r.from@)
    }

    /// Whether entry `i` is the first one that comes from `path`.
    pub open spec fn is_first_from(&self, path: Seq<char>, i: int) -> bool {
        &&& 0 <= i < self.responses@.len()
        &&& self.sources()[i] == path
        &&& forall|j: int| 0 <= j < i ==> self.sources()[j] != path
    }

    /// The payload of the first entry that comes from `path`; nothing when
    /// no entry does, or when that entry carries none.
    pub open spec fn content_from(&self, path: Seq<char>) -> Option<P> {
        if exists|i: int| self.is_first_from(path, i) {
            self.responses@[choose|i: int| self.is_first_from(path, i)].content
        } else {
            None
        }
    }

    /// The payload of the first entry that comes from `path` (see
    /// `content_from`).
    pub fn content(&self, path: &str) -> (r: Option<&P>)
        ensures
            match r {
                Some(c) => self.content_from(path@) == Some(*c),
                None => self.content_from(path@) is None,
            },
    {
        match self.position_from(path) {
            Some(i) => {
                proof {
                    assert(self.is_first_from(path@, i as int));
                    let k = choose|k: int| self.is_first_from(path@, k);
                    assert(k == i as int) by {
                        if k < i as int {
                            assert(self.sources()[k] != path@);
                        } else if k > i as int {
                            assert(self.sources()[i as int] != path@);
                        }
                    }
                }
                match &self.responses[i].content {
                    Some(c) => Some(c),
                    None => None,
                }
            },
            None => None,
        }
    }

    /// Index of the first entry that comes from `path`, if any does.
    pub fn position_from(&self, path: &str) -> (r: Option<usize>)
        ensures
            match r {
                Some(i) => {
                    &&& i < self.responses@.len()
                    &&& self.sources()[i as int] == path@
                    &&& forall|j: int| 0 <= j < i ==> self.sources()[j] != path@
                },
                None => forall|j: int|
                    0 <= j < self.responses@.len() ==> self.sources()[j] != path@,
            },
    {
        let mut i: usize = 0;
        while i < self.responses.len()
            invariant
                i <= self.responses@.len(),
                forall|j: int| 0 <= j < i ==> self.sources()[j] != path@,
            decreases self.responses@.len() - i,
        {
            if same_text(self.responses[i].from.as_str(), path) {
                return Some(i);
            }
            i = i + 1;
        }
        None
    }
}

/// Whether a response status code reports success (the `2xxx` codes, such
/// as `2000` for a read and `2004` for a change; `4xxx` codes are errors).
pub open spec fn is_success_code(code: u32) -> bool {
    2000 <= code < 3000
}

/// Whether the device accepted a write: every entry of its answer carries a
/// success status code.
pub fn write_accepted<P>(answer: &DaikinResponse<P>) -> (r: bool)
    ensures
        r <==> forall|i: int|
            0 <= i < answer.responses@.len() ==> is_success_code(#[trigger] answer.responses@[i].status_code),
{
    let mut i: usize = 0;
    while i < answer.responses.len()
        invariant
            i <= answer.responses@.len(),
            forall|j: int| 0 <= j < i ==> is_success_code(#[trigger] answer.responses@[j].status_code),
        decreases answer.responses@.len() - i,
    {
        let code = answer.responses[i].status_code;
        if !(2000 <= code && code < 3000) {
            return false;
        }
        i = i + 1;
    }
    true
}

/// A write is accepted exactly when each answer's status code is in the
/// thousand of `2xxx` codes; a single `4xxx` (or any other) code among the
/// answers refuses it.
pub proof fn lemma_write_acceptance<P>(answer: DaikinResponse<P>, i: int)
    ensures
        forall|c: u32| #[trigger] is_success_code(c) <==> c / 1000 == 2,
        0 <= i < answer.responses@.len() && answer.responses@[i].status_code / 1000 != 2 ==> !(forall|j: int|
            0 <= j < answer.responses@.len() ==> is_success_code(#[trigger] answer.responses@[j].status_code)),
{
    assert forall|c: u32| #[trigger] is_success_code(c) <==> c / 1000 == 2 by {}
}

} // verus!
