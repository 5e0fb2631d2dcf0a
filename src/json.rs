//! JSON documents: the model the contracts speak of, and the values the
//! library builds and reads.
use vstd::prelude::*;

verus! {

/// A JSON number written as `(-1)^negative * value * 10^(-scale)`: `0.7` is
/// `{ negative: false, value: 7, scale: 1 }`, `-90` is
/// `{ negative: true, value: 90, scale: 0 }`, and `2e30` is
/// `{ negative: false, value: 2, scale: -30 }`.
#[derive(Clone, Copy, Debug, PartialEq, Eq, Structural)]
pub struct JsonNumber {
    pub negative: bool,
    pub value: u64,
    pub scale: i32,
}

/// The mathematical model of a JSON document. An object is a map from keys
/// to values: the order of its members carries no meaning.
pub enum Json {
    Null,
    Bool(bool),
    Number(JsonNumber),
    Str(Seq<char>),
    Array(Seq<Json>),
    Object(Map<Seq<char>, Json>),
}

/// A JSON document as the library builds and reads it.
#[derive(Debug, PartialEq)]
pub enum JsonValue {
    Null,
    Bool(bool),
    Number(JsonNumber),
    Str(String),
    Array(Vec<JsonValue>),
    /// Members in the order they were written; where a key repeats, the
    /// last member wins.
    Object(Vec<(String, JsonValue)>),
}

/// The map that a list of members denotes: later members override earlier ones.
pub open spec fn pairs_to_map(s: Seq<(Seq<char>, Json)>) -> Map<Seq<char>, Json>
    decreases s.len(),
{
    if s.len() == 0 {
        Map::empty()
    } else {
        pairs_to_map(s.drop_last()).insert(s.last().0, s.last().1)
    }
}

/// The models of the items of an array.
pub open spec fn items_view(items: &Vec<JsonValue>) -> Seq<Json>
    decreases items,
{
    Seq::new(
        items.len() as nat,
        |i: int|
            if 0 <= i < items.len() {
                items[i].view()
            } else {
                Json::Null
            },
    )
}

/// The key and value models of the members of an object.
pub open spec fn entries_view(entries: &Vec<(String, JsonValue)>) -> Seq<(Seq<char>, Json)>
    decreases entries,
{
    Seq::new(
        entries.len() as nat,
        |i: int|
            if 0 <= i < entries.len() {
                (entries[i].0@, entries[i].1.view())
            } else {
                (Seq::empty(), Json::Null)
            },
    )
}

/// A JSON document with its members in written order: two values with the
/// same tree hold the same strings, numbers and members in the same order.
pub enum JsonTree {
    Null,
    Bool(bool),
    Number(JsonNumber),
    Str(Seq<char>),
    Array(Seq<JsonTree>),
    Object(Seq<(Seq<char>, JsonTree)>),
}

/// The trees of the items of an array.
pub open spec fn items_tree(items: &Vec<JsonValue>) -> Seq<JsonTree>
    decreases items,
{
    Seq::new(
        items.len() as nat,
        |i: int|
            if 0 <= i < items.len() {
                items[i].deep_view()
            } else {
                JsonTree::Null
            },
    )
}

/// The keys and value trees of the members of an object, in order.
pub open spec fn entries_tree(entries: &Vec<(String, JsonValue)>) -> Seq<(Seq<char>, JsonTree)>
    decreases entries,
{
    Seq::new(
        entries.len() as nat,
        |i: int|
            if 0 <= i < entries.len() {
                (entries[i].0@, entries[i].1.deep_view())
            } else {
                (Seq::empty(), JsonTree::Null)
            },
    )
}

impl DeepView for JsonValue {
    type V = JsonTree;

    open spec fn deep_view(&self) -> JsonTree
        decreases self,
    {
        match self {
            JsonValue::Null => JsonTree::Null,
            JsonValue::Bool(b) => JsonTree::Bool(*b),
            JsonValue::Number(n) => JsonTree::Number(*n),
            JsonValue::Str(s) => JsonTree::Str(s@),
            JsonValue::Array(items) => JsonTree::Array(items_tree(items)),
            JsonValue::Object(entries) => JsonTree::Object(entries_tree(entries)),
        }
    }
}

impl View for JsonValue {
    type V = Json;

    open spec fn view(&self) -> Json
        decreases self,
    {
        match self {
            JsonValue::Null => Json::Null,
            JsonValue::Bool(b) => Json::Bool(*b),
            JsonValue::Number(n) => Json::Number(*n),
            JsonValue::Str(s) => Json::Str(s@),
            JsonValue::Array(items) => Json::Array(items_view(items)),
            JsonValue::Object(entries) => Json::Object(pairs_to_map(entries_view(entries))),
        }
    }
}

/// The members of an object under construction, as key and value models.
pub open spec fn pairs_view(s: Seq<(String, JsonValue)>) -> Seq<(Seq<char>, Json)> {
    Seq::new(s.len(), |i: int| (s[i].0@, s[i].1@))
}

/// The map that a list of members under construction denotes.
pub open spec fn members(s: Seq<(String, JsonValue)>) -> Map<Seq<char>, Json> {
    pairs_to_map(pairs_view(s))
}

/// The value stored under `k` in the object `j`.
pub open spec fn member(j: Json, k: Seq<char>) -> Option<Json> {
    match j {
        Json::Object(m) => if m.contains_key(k) {
            Some(m[k])
        } else {
            None
        },
        _ => None,
    }
}

/// `m` with `k` bound to `v` where `v` is present, unchanged otherwise.
pub open spec fn put_opt(m: Map<Seq<char>, Json>, k: Seq<char>, v: Option<Json>) -> Map<
    Seq<char>,
    Json,
> {
    match v {
        Some(x) => m.insert(k, x),
        None => m,
    }
}

/// `c` with a `type` member set to `tag`, where `c` is an object.
pub open spec fn tagged(tag: Seq<char>, c: Json) -> Json {
    match c {
        Json::Object(m) => Json::Object(m.insert("type"@, Json::Str(tag))),
        _ => c,
    }
}

proof fn lemma_pairs_to_map_push(s: Seq<(Seq<char>, Json)>, p: (Seq<char>, Json))
    ensures
        pairs_to_map(s.push(p)) == pairs_to_map(s).insert(p.0, p.1),
{
    assert(s.push(p).drop_last() =~= s);
}

pub proof fn lemma_entries_view(e: &Vec<(String, JsonValue)>)
    ensures
        entries_view(e) == pairs_view(e@),
{
    assert(entries_view(e) =~= pairs_view(e@));
}

/// An object under construction with no members yet.
pub fn new_members() -> (r: Vec<(String, JsonValue)>)
    ensures
        members(r@) == Map::<Seq<char>, Json>::empty(),
{
    let r: Vec<(String, JsonValue)> = Vec::new();
    assert(pairs_view(r@).len() == 0);
    r
}

/// Whether `j` is an object.
pub fn is_object(j: &JsonValue) -> (r: bool)
    ensures
        r == (j@ is Object),
{
    match j {
        JsonValue::Object(_) => true,
        _ => false,
    }
}

/// `j` with a `type` member set to `tag`, where `j` is an object.
pub fn tag_object(j: JsonValue, tag: &str) -> (r: JsonValue)
    ensures
        r@ == tagged(tag@, j@),
{
    match j {
        JsonValue::Object(entries) => {
            proof {
                lemma_entries_view(&entries);
            }
            let mut entries = entries;
            push_member(&mut entries, "type", JsonValue::Str(tag.to_owned()));
            object(entries)
        },
        other => other,
    }
}

/// Whether `s` and `lit` hold the same characters.
pub fn text_is(s: &String, lit: &str) -> (r: bool)
    ensures
        r == (s@ == lit@),
{
    *s == lit.to_owned()
}

/// Appends the member `key: value` to an object under construction.
pub fn push_member(entries: &mut Vec<(String, JsonValue)>, key: &str, value: JsonValue)
    ensures
        members(final(entries)@) == members(old(entries)@).insert(key@, value@),
{
    let ghost before = entries@;
    let ghost p = (key@, value@);
    entries.push((key.to_owned(), value));
    proof {
        assert(pairs_view(entries@) =~= pairs_view(before).push(p));
        lemma_pairs_to_map_push(pairs_view(before), p);
    }
}

/// Closes an object under construction.
pub fn object(entries: Vec<(String, JsonValue)>) -> (r: JsonValue)
    ensures
        r@ == Json::Object(members(entries@)),
{
    proof {
        lemma_entries_view(&entries);
    }
    JsonValue::Object(entries)
}

/// The value stored under `key` in the object `j`.
pub fn get_member<'a>(j: &'a JsonValue, key: &str) -> (r: Option<&'a JsonValue>)
    ensures
        r is Some <==> member(j@, key@) is Some,
        r is Some ==> member(j@, key@) == Some(r->Some_0@),
{
    match j {
        JsonValue::Object(entries) => {
            let ghost pv = entries_view(entries);
            assert(pv.take(entries.len() as int) =~= pv);
            let mut i: usize = entries.len();
            while i > 0
                invariant
                    i <= entries.len(),
                    pv.len() == entries.len(),
                    j@ == Json::Object(pairs_to_map(pv)),
                    forall|t: int|
                        0 <= t < entries.len() ==> pv[t] == (entries[t].0@, entries[t].1@),
                    pairs_to_map(pv.take(i as int)).contains_key(key@)
                        == pairs_to_map(pv).contains_key(key@),
                    pairs_to_map(pv).contains_key(key@) ==> pairs_to_map(pv.take(i as int))[key@]
                        == pairs_to_map(pv)[key@],
                decreases i,
            {
                assert(pv.take(i as int).drop_last() =~= pv.take(i - 1));
                if text_is(&entries[i - 1].0, key) {
                    return Some(&entries[i - 1].1);
                }
                i = i - 1;
            }
            None
        },
        _ => None,
    }
}

impl JsonValue {
    /// A deep copy: the same members in the same order.
    pub fn duplicate(&self) -> (r: JsonValue)
        ensures
            r@ == self@,
            r.deep_view() == self.deep_view(),
        decreases self,
    {
        match self {
            JsonValue::Null => JsonValue::Null,
            JsonValue::Bool(b) => JsonValue::Bool(*b),
            JsonValue::Number(n) => JsonValue::Number(*n),
            JsonValue::Str(s) => JsonValue::Str(s.clone()),
            JsonValue::Array(items) => {
                let mut out: Vec<JsonValue> = Vec::new();
                let mut i: usize = 0;
                while i < items.len()
                    invariant
                        decreases_to!(*self => *items),
                        i <= items.len(),
                        out.len() == i,
                        forall|t: int|
                            0 <= t < i ==> out[t]@ == items[t]@ && out[t].deep_view()
                                == items[t].deep_view(),
                    decreases items.len() - i,
                {
                    proof {
                        assert(decreases_to!(*items => items[i as int]));
                    }
                    out.push(items[i].duplicate());
                    i = i + 1;
                }
                let r = JsonValue::Array(out);
                assert(items_view(&out) =~= items_view(items));
                assert(items_tree(&out) =~= items_tree(items));
                r
            },
            JsonValue::Object(entries) => {
                let mut out: Vec<(String, JsonValue)> = Vec::new();
                let mut i: usize = 0;
                while i < entries.len()
                    invariant
                        decreases_to!(*self => *entries),
                        i <= entries.len(),
                        out.len() == i,
                        forall|t: int|
                            0 <= t < i ==> out[t].0@ == entries[t].0@ && out[t].1@ == entries[t].1@
                                && out[t].1.deep_view() == entries[t].1.deep_view(),
                    decreases entries.len() - i,
                {
                    proof {
                        assert(decreases_to!(*entries => entries[i as int]));
                        assert(decreases_to!(entries[i as int] => entries[i as int].1));
                    }
                    out.push((entries[i].0.clone(), entries[i].1.duplicate()));
                    i = i + 1;
                }
                proof {
                    assert(entries_view(entries) =~= entries_view(&out));
                    assert(entries_tree(entries) =~= entries_tree(&out));
                }
                JsonValue::Object(out)
            },
        }
    }
}

impl Clone for JsonValue {
    fn clone(&self) -> Self {
        self.duplicate()
    }
}

} // verus!
