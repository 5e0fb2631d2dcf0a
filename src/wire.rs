//! The wire form of a type: how it is written as JSON and read back.
use vstd::prelude::*;

use crate::error::{mismatch, OpenAIError};
use crate::json::{get_member, member, members, push_member, put_opt, Json, JsonNumber, JsonValue};

verus! {

/// A type with a JSON wire form.
///
/// `json` is the document a value is written as. `parse` gives, for each
/// document, the document of the value it reads as, or `None` where it does
/// not read as this type; reading is lenient (unknown members are ignored,
/// absent defaults are filled in), so that document is the canonical form.
pub trait Wire: Sized {
    spec fn json(&self) -> Json;

    spec fn parse(j: Json) -> Option<Json>;

    fn to_json(&self) -> (r: JsonValue)
        ensures
            r@ == self.json(),
    ;

    fn from_json(j: &JsonValue) -> (r: Result<Self, OpenAIError>)
        ensures
            r is Ok <==> Self::parse(j@) is Some,
            r is Ok ==> Self::parse(j@) == Some(r->Ok_0.json()),
            r is Err ==> r->Err_0 is SchemaMismatch,
    ;

    /// Reading a value's document gives back that value's document.
    proof fn lemma_round_trip(&self)
        ensures
            Self::parse(self.json()) == Some(self.json()),
    ;
}

pub open spec fn opt_json<T: Wire>(o: Option<T>) -> Option<Json> {
    match o {
        Some(x) => Some(x.json()),
        None => None,
    }
}

/// A required member `k` of `j`, read as `T`.
pub open spec fn parse_req<T: Wire>(j: Json, k: Seq<char>) -> Option<Json> {
    match member(j, k) {
        Some(v) => T::parse(v),
        None => None,
    }
}

/// An optional member `k` of `j`, read as `T`: `Some(None)` where it is absent,
/// `None` where it is there and does not read.
pub open spec fn parse_opt<T: Wire>(j: Json, k: Seq<char>) -> Option<Option<Json>> {
    match member(j, k) {
        None => Some(None),
        Some(v) => match T::parse(v) {
            Some(c) => Some(Some(c)),
            None => None,
        },
    }
}

/// A member `k` of `j` read as `T`, which is `d` where it is absent.
pub open spec fn parse_def<T: Wire>(j: Json, k: Seq<char>, d: T) -> Option<Json> {
    match member(j, k) {
        None => Some(d.json()),
        Some(v) => T::parse(v),
    }
}

pub proof fn lemma_parse_req<T: Wire>(j: Json, k: Seq<char>, x: T)
    requires
        member(j, k) == Some(x.json()),
    ensures
        parse_req::<T>(j, k) == Some(x.json()),
{
    x.lemma_round_trip();
}

pub proof fn lemma_parse_opt<T: Wire>(j: Json, k: Seq<char>, o: Option<T>)
    requires
        member(j, k) == opt_json(o),
    ensures
        parse_opt::<T>(j, k) == Some(opt_json(o)),
{
    if let Some(x) = o {
        x.lemma_round_trip();
    }
}

pub proof fn lemma_parse_def<T: Wire>(j: Json, k: Seq<char>, x: T, d: T)
    requires
        member(j, k) == Some(x.json()),
    ensures
        parse_def::<T>(j, k, d) == Some(x.json()),
{
    x.lemma_round_trip();
}

pub fn req_member<T: Wire>(j: &JsonValue, key: &str) -> (r: Result<T, OpenAIError>)
    ensures
        r is Ok <==> parse_req::<T>(j@, key@) is Some,
        r is Ok ==> parse_req::<T>(j@, key@) == Some(r->Ok_0.json()),
        r is Err ==> r->Err_0 is SchemaMismatch,
{
    match get_member(j, key) {
        Some(v) => T::from_json(v),
        None => Err(mismatch(key)),
    }
}

pub fn opt_member<T: Wire>(j: &JsonValue, key: &str) -> (r: Result<Option<T>, OpenAIError>)
    ensures
        r is Ok <==> parse_opt::<T>(j@, key@) is Some,
        r is Ok ==> parse_opt::<T>(j@, key@) == Some(opt_json(r->Ok_0)),
        r is Err ==> r->Err_0 is SchemaMismatch,
{
    match get_member(j, key) {
        Some(v) => match T::from_json(v) {
            Ok(x) => Ok(Some(x)),
            Err(e) => Err(e),
        },
        None => Ok(None),
    }
}

pub fn def_member<T: Wire>(j: &JsonValue, key: &str, d: T) -> (r: Result<T, OpenAIError>)
    ensures
        r is Ok <==> parse_def::<T>(j@, key@, d) is Some,
        r is Ok ==> parse_def::<T>(j@, key@, d) == Some(r->Ok_0.json()),
        r is Err ==> r->Err_0 is SchemaMismatch,
{
    match get_member(j, key) {
        Some(v) => T::from_json(v),
        None => Ok(d),
    }
}

/// Appends `key: value` where `value` is present; an absent optional member
/// is left out of the document.
pub fn push_opt<T: Wire>(entries: &mut Vec<(String, JsonValue)>, key: &str, value: &Option<T>)
    ensures
        members(final(entries)@) == put_opt(members(old(entries)@), key@, opt_json(*value)),
{
    if let Some(x) = value {
        push_member(entries, key, x.to_json());
    }
}

impl Wire for String {
    open spec fn json(&self) -> Json {
        Json::Str(self@)
    }

    open spec fn parse(j: Json) -> Option<Json> {
        match j {
            Json::Str(_) => Some(j),
            _ => None,
        }
    }

    fn to_json(&self) -> (r: JsonValue) {
        JsonValue::Str(self.clone())
    }

    fn from_json(j: &JsonValue) -> (r: Result<Self, OpenAIError>) {
        match j {
            JsonValue::Str(s) => Ok(s.clone()),
            _ => Err(mismatch("string")),
        }
    }

    proof fn lemma_round_trip(&self) {
    }
}

impl Wire for bool {
    open spec fn json(&self) -> Json {
        Json::Bool(*self)
    }

    open spec fn parse(j: Json) -> Option<Json> {
        match j {
            Json::Bool(_) => Some(j),
            _ => None,
        }
    }

    fn to_json(&self) -> (r: JsonValue) {
        JsonValue::Bool(*self)
    }

    fn from_json(j: &JsonValue) -> (r: Result<Self, OpenAIError>) {
        match j {
            JsonValue::Bool(b) => Ok(*b),
            _ => Err(mismatch("boolean")),
        }
    }

    proof fn lemma_round_trip(&self) {
    }
}

impl Wire for JsonNumber {
    open spec fn json(&self) -> Json {
        Json::Number(*self)
    }

    open spec fn parse(j: Json) -> Option<Json> {
        match j {
            Json::Number(_) => Some(j),
            _ => None,
        }
    }

    fn to_json(&self) -> (r: JsonValue) {
        JsonValue::Number(*self)
    }

    fn from_json(j: &JsonValue) -> (r: Result<Self, OpenAIError>) {
        match j {
            JsonValue::Number(n) => Ok(*n),
            _ => Err(mismatch("number")),
        }
    }

    proof fn lemma_round_trip(&self) {
    }
}

/// An unsigned 32-bit integer is a number that is not negative and has no
/// fractional digits or exponent.
impl Wire for u32 {
    open spec fn json(&self) -> Json {
        Json::Number(JsonNumber { negative: false, value: *self as u64, scale: 0 })
    }

    open spec fn parse(j: Json) -> Option<Json> {
        match j {
            Json::Number(n) => if !n.negative && n.scale == 0 && n.value <= u32::MAX {
                Some(j)
            } else {
                None
            },
            _ => None,
        }
    }

    fn to_json(&self) -> (r: JsonValue) {
        JsonValue::Number(JsonNumber { negative: false, value: *self as u64, scale: 0 })
    }

    fn from_json(j: &JsonValue) -> (r: Result<Self, OpenAIError>) {
        match j {
            JsonValue::Number(n) => if !n.negative && n.scale == 0 && n.value <= u32::MAX as u64 {
                Ok(n.value as u32)
            } else {
                Err(mismatch("u32"))
            },
            _ => Err(mismatch("u32")),
        }
    }

    proof fn lemma_round_trip(&self) {
    }
}

/// Any document, carried as it is.
impl Wire for JsonValue {
    open spec fn json(&self) -> Json {
        self@
    }

    open spec fn parse(j: Json) -> Option<Json> {
        Some(j)
    }

    fn to_json(&self) -> (r: JsonValue) {
        self.duplicate()
    }

    fn from_json(j: &JsonValue) -> (r: Result<Self, OpenAIError>) {
        Ok(j.duplicate())
    }

    proof fn lemma_round_trip(&self) {
    }
}

/// A list is an array of the items' documents, in order.
impl<T: Wire> Wire for Vec<T> {
    open spec fn json(&self) -> Json {
        Json::Array(Seq::new(self.len() as nat, |i: int| self[i].json()))
    }

    open spec fn parse(j: Json) -> Option<Json> {
        match j {
            Json::Array(a) => {
                if forall|i: int| 0 <= i < a.len() ==> (#[trigger] T::parse(a[i])) is Some {
                    Some(Json::Array(Seq::new(a.len(), |i: int| T::parse(a[i])->Some_0)))
                } else {
                    None
                }
            },
            _ => None,
        }
    }

    fn to_json(&self) -> (r: JsonValue) {
        let mut out: Vec<JsonValue> = Vec::new();
        let mut i: usize = 0;
        while i < self.len()
            invariant
                i <= self.len(),
                out.len() == i,
                forall|t: int| 0 <= t < i ==> (#[trigger] out[t])@ == self[t].json(),
            decreases self.len() - i,
        {
            out.push(self[i].to_json());
            i = i + 1;
        }
        let r = JsonValue::Array(out);
        proof {
            if let Json::Array(a) = r@ {
                assert(a =~= Seq::new(self.len() as nat, |i: int| self[i].json()));
            }
        }
        r
    }

    fn from_json(j: &JsonValue) -> (r: Result<Self, OpenAIError>) {
        match j {
            JsonValue::Array(items) => {
                let ghost a = crate::json::items_view(items);
                let mut out: Vec<T> = Vec::new();
                let mut i: usize = 0;
                while i < items.len()
                    invariant
                        j@ == Json::Array(a),
                        a.len() == items.len(),
                        forall|t: int| 0 <= t < items.len() ==> a[t] == (#[trigger] items[t])@,
                        i <= items.len(),
                        out.len() == i,
                        forall|t: int|
                            0 <= t < i ==> T::parse(a[t]) == Some((#[trigger] out[t]).json()),
                    decreases items.len() - i,
                {
                    match T::from_json(&items[i]) {
                        Ok(x) => out.push(x),
                        Err(e) => {
                            assert(T::parse(a[i as int]) is None);
                            return Err(e);
                        },
                    }
                    i = i + 1;
                }
                proof {
                    assert forall|t: int|
                        0 <= t < a.len() implies (#[trigger] T::parse(a[t])) is Some by {
                        assert(T::parse(a[t]) == Some(out[t].json()));
                    }
                    assert(Seq::new(a.len(), |i: int| T::parse(a[i])->Some_0) =~= Seq::new(
                        out.len() as nat,
                        |i: int| out[i].json(),
                    ));
                }
                Ok(out)
            },
            _ => Err(mismatch("array")),
        }
    }

    proof fn lemma_round_trip(&self) {
        let a = Seq::new(self.len() as nat, |i: int| self[i].json());
        assert forall|i: int|
            0 <= i < a.len() implies (#[trigger] T::parse(a[i])) == Some(a[i]) by {
            self[i].lemma_round_trip();
        }
        assert(Seq::new(a.len(), |i: int| T::parse(a[i])->Some_0) =~= a);
    }
}

} // verus!
