use vstd::prelude::*;
use crate::error::{JuizError, is_key_error};
use crate::pairs::{lemma_pairs_view_dom, lemma_pairs_view_last, pairs_find, pairs_view};
use crate::strings::string_of;

verus! {

/// A JSON value as the library reads and builds it: manifests, profiles and
/// arguments. Numbers keep their decimal text; an object keeps its members in
/// order, and a later member under a key hides an earlier one.
#[derive(Debug, PartialEq)]
pub enum Value {
    Null,
    Bool(bool),
    Number(String),
    String(String),
    Array(Vec<Value>),
    Object(Vec<(String, Value)>),
}

/// The mathematical form of a `Value`: an object is a map from keys to values.
pub enum JsonView {
    Null,
    Bool(bool),
    Number(Seq<char>),
    Str(Seq<char>),
    Array(Seq<JsonView>),
    Object(Map<Seq<char>, JsonView>),
}

pub open spec fn value_view(v: Value) -> JsonView
    decreases v, 0nat,
{
    match v {
        Value::Null => JsonView::Null,
        Value::Bool(b) => JsonView::Bool(b),
        Value::Number(n) => JsonView::Number(n@),
        Value::String(s) => JsonView::Str(s@),
        Value::Array(items) => {
            proof {
                assert(decreases_to!(items => items@));
            }
            JsonView::Array(items_view(items@))
        },
        Value::Object(entries) => JsonView::Object(entries_view(entries@)),
    }
}

pub open spec fn items_view(s: Seq<Value>) -> Seq<JsonView>
    decreases s, 1nat,
{
    if s.len() == 0 {
        Seq::empty()
    } else {
        items_view(s.drop_last()).push(value_view(s.last()))
    }
}

/// The members of an object, inserted in order: a later member replaces an
/// earlier one under the same key.
pub open spec fn entries_view(s: Seq<(String, Value)>) -> Map<Seq<char>, JsonView>
    decreases s, 1nat,
{
    if s.len() == 0 {
        Map::empty()
    } else {
        entries_view(s.drop_last()).insert(s.last().0@, value_view(s.last().1))
    }
}

impl View for Value {
    type V = JsonView;

    open spec fn view(&self) -> JsonView {
        value_view(*self)
    }
}

/// The member of `v` under `key`, where `v` is an object that has one.
pub open spec fn json_get(v: JsonView, key: Seq<char>) -> Option<JsonView> {
    match v {
        JsonView::Object(m) => if m.contains_key(key) {
            Some(m[key])
        } else {
            None
        },
        _ => None,
    }
}

/// The string member of `v` under `key`, where there is one.
pub open spec fn json_str(v: JsonView, key: Seq<char>) -> Option<Seq<char>> {
    match json_get(v, key) {
        Some(JsonView::Str(s)) => Some(s),
        _ => None,
    }
}

/// The object member of `v` under `key`, where there is one.
pub open spec fn json_obj(v: JsonView, key: Seq<char>) -> Option<Map<Seq<char>, JsonView>> {
    match json_get(v, key) {
        Some(JsonView::Object(m)) => Some(m),
        _ => None,
    }
}

/// The view of an object with the given members.
pub open spec fn object_view(s: Seq<(String, Value)>) -> JsonView {
    JsonView::Object(entries_view(s))
}

pub proof fn lemma_items_view_len(s: Seq<Value>)
    ensures
        items_view(s).len() == s.len(),
    decreases s.len(),
{
    if s.len() > 0 {
        lemma_items_view_len(s.drop_last());
    }
}

pub proof fn lemma_items_view_index(s: Seq<Value>, i: int)
    requires
        0 <= i < s.len(),
    ensures
        items_view(s).len() == s.len(),
        items_view(s)[i] == value_view(s[i]),
    decreases s.len(),
{
    lemma_items_view_len(s);
    if i < s.len() - 1 {
        lemma_items_view_index(s.drop_last(), i);
    }
}

pub proof fn lemma_items_view_push(s: Seq<Value>, v: Value)
    ensures
        items_view(s.push(v)) == items_view(s).push(value_view(v)),
{
    assert(s.push(v).drop_last() =~= s);
}

pub proof fn lemma_entries_view_push(s: Seq<(String, Value)>, e: (String, Value))
    ensures
        entries_view(s.push(e)) == entries_view(s).insert(e.0@, value_view(e.1)),
{
    assert(s.push(e).drop_last() =~= s);
}

/// The members of an object are the values that its entry list stands for
/// (`pairs_view`), each taken by its view.
pub proof fn lemma_entries_view_pairs(s: Seq<(String, Value)>)
    ensures
        entries_view(s) == pairs_view(s).map_values(|v: Value| value_view(v)),
    decreases s.len(),
{
    if s.len() > 0 {
        lemma_entries_view_pairs(s.drop_last());
        assert(entries_view(s) =~= pairs_view(s).map_values(|v: Value| value_view(v)));
    } else {
        assert(entries_view(s) =~= pairs_view(s).map_values(|v: Value| value_view(v)));
    }
}

/// A key is a member of the object exactly when some entry carries it.
pub proof fn lemma_entries_view_dom(s: Seq<(String, Value)>, key: Seq<char>)
    ensures
        entries_view(s).contains_key(key) <==> exists|j: int| 0 <= j < s.len() && #[trigger] s[j].0@ == key,
{
    lemma_entries_view_pairs(s);
    lemma_pairs_view_dom(s, key);
}

/// The member under a key is the value of the last entry that carries it.
pub proof fn lemma_entries_view_last(s: Seq<(String, Value)>, i: int, key: Seq<char>)
    requires
        0 <= i < s.len(),
        s[i].0@ == key,
        forall|j: int| i < j < s.len() ==> #[trigger] s[j].0@ != key,
    ensures
        entries_view(s).contains_key(key),
        entries_view(s)[key] == value_view(s[i].1),
{
    lemma_entries_view_pairs(s);
    lemma_pairs_view_last(s, i, key);
}

/// The member of `v` under `key`, taken as it stands in `v`'s entries: the
/// value of the last entry that carries the key.
pub open spec fn value_member(v: Value, key: Seq<char>) -> Option<Value> {
    match v {
        Value::Object(entries) => if pairs_view(entries@).contains_key(key) {
            Some(pairs_view(entries@)[key])
        } else {
            None
        },
        _ => None,
    }
}

/// Finds the index of the entry that gives the member under `key`: the last
/// entry that carries it.
pub fn entries_find(entries: &Vec<(String, Value)>, key: &str) -> (r: Option<usize>)
    ensures
        match r {
            Some(i) => {
                &&& i < entries@.len()
                &&& entries@[i as int].0@ == key@
                &&& entries_view(entries@).contains_key(key@)
                &&& entries_view(entries@)[key@] == value_view(entries@[i as int].1)
                &&& pairs_view(entries@).contains_key(key@)
                &&& pairs_view(entries@)[key@] == entries@[i as int].1
            },
            None => !entries_view(entries@).contains_key(key@) && !pairs_view(entries@).contains_key(key@),
        },
{
    let r = pairs_find(entries, key);
    proof {
        lemma_entries_view_pairs(entries@);
    }
    r
}

/// The member of `v` under `key`, where `v` is an object that has one.
pub fn obj_get<'a>(v: &'a Value, key: &str) -> (r: Option<&'a Value>)
    ensures
        r is Some <==> json_get(v@, key@) is Some,
        r matches Some(x) ==> Some(x@) == json_get(v@, key@),
        r matches Some(x) ==> value_member(*v, key@) == Some(*x),
        r is None ==> value_member(*v, key@) is None,
{
    match v {
        Value::Object(entries) => {
            match entries_find(entries, key) {
                Some(i) => Some(&entries[i].1),
                None => None,
            }
        },
        _ => None,
    }
}

/// The string member of `v` under `key`. Fails with `ValueWithKeyNotFoundError`
/// where there is no member under `key`, and with `ValueIsNotStringError` where
/// the member is not a string.
pub fn obj_get_str<'a>(v: &'a Value, key: &str) -> (r: Result<&'a str, JuizError>)
    ensures
        r is Ok <==> json_str(v@, key@) is Some,
        r matches Ok(s) ==> Some(s@) == json_str(v@, key@),
        r matches Err(e) ==> is_key_error(e, json_get(v@, key@) is None, key@),
{
    match obj_get(v, key) {
        Some(Value::String(s)) => Ok(s.as_str()),
        Some(_) => Err(JuizError::ValueIsNotStringError { key: string_of(key) }),
        None => Err(JuizError::ValueWithKeyNotFoundError { key: string_of(key) }),
    }
}

/// The members of the object member of `v` under `key`. Fails with
/// `ValueWithKeyNotFoundError` where there is no member under `key`, and with
/// `ValueIsNotObjectError` where the member is not an object.
pub fn obj_get_obj<'a>(v: &'a Value, key: &str) -> (r: Result<&'a Vec<(String, Value)>, JuizError>)
    ensures
        r is Ok <==> json_obj(v@, key@) is Some,
        r matches Ok(entries) ==> Some(entries_view(entries@)) == json_obj(v@, key@),
        r matches Ok(entries) ==> value_member(*v, key@) == Some(Value::Object(*entries)),
        r matches Err(e) ==> (if json_get(v@, key@) is None {
            e matches JuizError::ValueWithKeyNotFoundError { key: k } && k@ == key@
        } else {
            e matches JuizError::ValueIsNotObjectError { key: k } && k@ == key@
        }),
{
    match obj_get(v, key) {
        Some(Value::Object(entries)) => Ok(entries),
        Some(_) => Err(JuizError::ValueIsNotObjectError { key: string_of(key) }),
        None => Err(JuizError::ValueWithKeyNotFoundError { key: string_of(key) }),
    }
}

/// Appends a member to an object's entries; it hides any earlier member under
/// the same key.
pub fn entries_push(entries: &mut Vec<(String, Value)>, key: &str, value: Value)
    ensures
        entries_view(final(entries)@) == entries_view(old(entries)@).insert(key@, value@),
        final(entries)@.len() == old(entries)@.len() + 1,
{
    let ghost old_entries = entries@;
    let k = string_of(key);
    let ghost e = (k, value);
    entries.push((k, value));
    proof {
        assert(entries@ == old_entries.push(e));
        lemma_entries_view_push(old_entries, e);
    }
}

/// A string value.
pub fn string_value(s: &str) -> (r: Value)
    ensures
        r@ == JsonView::Str(s@),
{
    Value::String(string_of(s))
}

/// The members of two entry lists one after the other: those of the second
/// win.
pub proof fn lemma_entries_view_concat(a: Seq<(String, Value)>, b: Seq<(String, Value)>)
    ensures
        entries_view(a + b) == entries_view(a).union_prefer_right(entries_view(b)),
    decreases b.len(),
{
    if b.len() == 0 {
        assert(a + b =~= a);
        assert(entries_view(a).union_prefer_right(entries_view(b)) =~= entries_view(a));
    } else {
        let b0 = b.drop_last();
        lemma_entries_view_concat(a, b0);
        assert((a + b).drop_last() =~= a + b0);
        assert(entries_view(a + b) =~= entries_view(a).union_prefer_right(entries_view(b)));
    }
}

/// The members of `base` with those of `over` put over them.
pub fn entries_merged(base: &Vec<(String, Value)>, over: &Vec<(String, Value)>) -> (r: Vec<(String, Value)>)
    ensures
        entries_view(r@) == entries_view(base@).union_prefer_right(entries_view(over@)),
{
    let mut out: Vec<(String, Value)> = Vec::new();
    let mut i: usize = 0;
    while i < base.len()
        invariant
            i <= base@.len(),
            entries_view(out@) == entries_view(base@.take(i as int)),
        decreases base@.len() - i,
    {
        entries_push(&mut out, base[i].0.as_str(), base[i].1.duplicate());
        proof {
            lemma_entries_view_push(base@.take(i as int), base@[i as int]);
            assert(base@.take(i as int).push(base@[i as int]) =~= base@.take(i + 1));
        }
        i = i + 1;
    }
    proof {
        assert(base@.take(base@.len() as int) =~= base@);
    }
    let mut j: usize = 0;
    while j < over.len()
        invariant
            j <= over@.len(),
            entries_view(out@) == entries_view(base@).union_prefer_right(entries_view(over@.take(j as int))),
        decreases over@.len() - j,
    {
        entries_push(&mut out, over[j].0.as_str(), over[j].1.duplicate());
        proof {
            lemma_entries_view_push(over@.take(j as int), over@[j as int]);
            assert(over@.take(j as int).push(over@[j as int]) =~= over@.take(j + 1));
            assert(entries_view(out@) =~= entries_view(base@).union_prefer_right(entries_view(over@.take(j + 1))));
        }
        j = j + 1;
    }
    proof {
        assert(over@.take(over@.len() as int) =~= over@);
    }
    out
}

/// Reading the member that was put last under a key gives the value put there.
pub proof fn law_get_after_push(s: Seq<(String, Value)>, key: String, v: Value)
    ensures
        json_get(JsonView::Object(entries_view(s.push((key, v)))), key@) == Some(value_view(v)),
{
    lemma_entries_view_push(s, (key, v));
}

impl Value {
    /// A copy of the value, with the same view.
    #[verifier::loop_isolation(false)]
    pub fn duplicate(&self) -> (r: Value)
        ensures
            r@ == self@,
        decreases self,
    {
        match self {
            Value::Null => Value::Null,
            Value::Bool(b) => Value::Bool(*b),
            Value::Number(n) => Value::Number(n.clone()),
            Value::String(s) => Value::String(s.clone()),
            Value::Array(items) => {
                let mut out: Vec<Value> = Vec::new();
                let mut i: usize = 0;
                while i < items.len()
                    invariant
                        i <= items@.len(),
                        items_view(out@) == items_view(items@.take(i as int)),
                    decreases items@.len() - i,
                {
                    proof {
                        assert(decreases_to!(items => items@));
                        assert(decreases_to!(items@ => items@[i as int]));
                    }
                    let x = items[i].duplicate();
                    let ghost before = out@;
                    out.push(x);
                    proof {
                        lemma_items_view_push(before, x);
                        lemma_items_view_push(items@.take(i as int), items@[i as int]);
                        assert(items@.take(i as int).push(items@[i as int]) =~= items@.take(i + 1));
                    }
                    i = i + 1;
                }
                proof {
                    assert(items@.take(items@.len() as int) =~= items@);
                }
                Value::Array(out)
            },
            Value::Object(entries) => {
                let mut out: Vec<(String, Value)> = Vec::new();
                let mut i: usize = 0;
                while i < entries.len()
                    invariant
                        i <= entries@.len(),
                        entries_view(out@) == entries_view(entries@.take(i as int)),
                    decreases entries@.len() - i,
                {
                    proof {
                        assert(decreases_to!(entries => entries@));
                        assert(decreases_to!(entries@ => entries@[i as int]));
                        assert(decreases_to!(entries@[i as int] => entries@[i as int].1));
                    }
                    let x = entries[i].1.duplicate();
                    let k = entries[i].0.clone();
                    let ghost before = out@;
                    out.push((k, x));
                    proof {
                        lemma_entries_view_push(before, (k, x));
                        lemma_entries_view_push(entries@.take(i as int), entries@[i as int]);
                        assert(entries@.take(i as int).push(entries@[i as int]) =~= entries@.take(i + 1));
                    }
                    i = i + 1;
                }
                proof {
                    assert(entries@.take(entries@.len() as int) =~= entries@);
                }
                Value::Object(out)
            },
        }
    }
}

impl Clone for Value {
    fn clone(&self) -> (r: Self)
        ensures
            r@ == self@,
    {
        self.duplicate()
    }
}

} // verus!
