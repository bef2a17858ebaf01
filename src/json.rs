//! An in-memory JSON document: the input of every decoder and the output of
//! every encoder of this crate.
use vstd::prelude::*;
use crate::text::str_eq;

verus! {

broadcast use vstd::std_specs::vec::group_vec_axioms;

/// A JSON number: an integer that fits 64 bits, or the number's own text.
pub enum JsonNumber {
    Unsigned(u64),
    Negative(i64),
    Other(String),
}

/// A JSON value. An object keeps its entries in document order.
pub enum JsonValue {
    Null,
    Bool(bool),
    Number(JsonNumber),
    Str(String),
    Array(Vec<JsonValue>),
    Object(Vec<(String, JsonValue)>),
}

pub enum NumberView {
    Unsigned(u64),
    Negative(i64),
    Other(Seq<char>),
}

/// Mathematical model of a [`JsonValue`].
pub enum JsonView {
    Null,
    Bool(bool),
    Number(NumberView),
    Str(Seq<char>),
    Array(Seq<JsonView>),
    Object(Seq<(Seq<char>, JsonView)>),
}

pub open spec fn number_view(n: JsonNumber) -> NumberView {
    match n {
        JsonNumber::Unsigned(u) => NumberView::Unsigned(u),
        JsonNumber::Negative(i) => NumberView::Negative(i),
        JsonNumber::Other(s) => NumberView::Other(s@),
    }
}

pub open spec fn json_view(j: JsonValue) -> JsonView
    decreases j, 0int,
{
    match j {
        JsonValue::Null => JsonView::Null,
        JsonValue::Bool(b) => JsonView::Bool(b),
        JsonValue::Number(n) => JsonView::Number(number_view(n)),
        JsonValue::Str(s) => JsonView::Str(s@),
        JsonValue::Array(v) => JsonView::Array(json_seq_view(v@, v@.len() as int)),
        JsonValue::Object(e) => JsonView::Object(json_entries_view(e@, e@.len() as int)),
    }
}

/// Views of the first `n` items of `s`.
pub open spec fn json_seq_view(s: Seq<JsonValue>, n: int) -> Seq<JsonView>
    decreases s, n,
{
    if n <= 0 || n > s.len() {
        Seq::empty()
    } else {
        json_seq_view(s, n - 1).push(json_view(s[n - 1]))
    }
}

/// Views of the first `n` entries of `s`.
pub open spec fn json_entries_view(s: Seq<(String, JsonValue)>, n: int) -> Seq<(Seq<char>, JsonView)>
    decreases s, n,
{
    if n <= 0 || n > s.len() {
        Seq::empty()
    } else {
        json_entries_view(s, n - 1).push((s[n - 1].0@, json_view(s[n - 1].1)))
    }
}

impl View for JsonValue {
    type V = JsonView;

    open spec fn view(&self) -> JsonView {
        json_view(*self)
    }
}

pub proof fn lemma_seq_view(s: Seq<JsonValue>, n: int)
    requires
        0 <= n <= s.len(),
    ensures
        json_seq_view(s, n).len() == n,
        forall|i: int| 0 <= i < n ==> #[trigger] json_seq_view(s, n)[i] == json_view(s[i]),
    decreases n,
{
    if n > 0 {
        lemma_seq_view(s, n - 1);
    }
}

pub proof fn lemma_entries_view(s: Seq<(String, JsonValue)>, n: int)
    requires
        0 <= n <= s.len(),
    ensures
        json_entries_view(s, n).len() == n,
        forall|i: int|
            0 <= i < n ==> #[trigger] json_entries_view(s, n)[i] == (s[i].0@, json_view(s[i].1)),
    decreases n,
{
    if n > 0 {
        lemma_entries_view(s, n - 1);
    }
}

/// The value of the first entry named `key`.
pub open spec fn field_of(entries: Seq<(Seq<char>, JsonView)>, key: Seq<char>) -> Option<JsonView>
    decreases entries.len(),
{
    if entries.len() == 0 {
        None
    } else if entries[0].0 == key {
        Some(entries[0].1)
    } else {
        field_of(entries.drop_first(), key)
    }
}

impl JsonView {
    /// The value of property `key`, when this is an object that has it.
    pub open spec fn get(self, key: Seq<char>) -> Option<JsonView> {
        match self {
            JsonView::Object(entries) => field_of(entries, key),
            _ => None,
        }
    }

    /// The value of property `key`, when it is there and is not `null`.
    pub open spec fn get_present(self, key: Seq<char>) -> Option<JsonView> {
        match self.get(key) {
            Some(JsonView::Null) => None,
            other => other,
        }
    }
}

pub proof fn lemma_field_of_index(entries: Seq<(Seq<char>, JsonView)>, key: Seq<char>, i: int)
    requires
        0 <= i < entries.len(),
        entries[i].0 == key,
        forall|j: int| 0 <= j < i ==> entries[j].0 != key,
    ensures
        field_of(entries, key) == Some(entries[i].1),
    decreases i,
{
    if i > 0 {
        lemma_field_of_index(entries.drop_first(), key, i - 1);
    }
}

pub proof fn lemma_field_of_absent(entries: Seq<(Seq<char>, JsonView)>, key: Seq<char>)
    requires
        forall|j: int| 0 <= j < entries.len() ==> entries[j].0 != key,
    ensures
        field_of(entries, key) is None,
    decreases entries.len(),
{
    if entries.len() > 0 {
        lemma_field_of_absent(entries.drop_first(), key);
    }
}

impl JsonNumber {
    pub fn copy_number(&self) -> (r: JsonNumber)
        ensures
            number_view(r) == number_view(*self),
    {
        match self {
            JsonNumber::Unsigned(u) => JsonNumber::Unsigned(*u),
            JsonNumber::Negative(i) => JsonNumber::Negative(*i),
            JsonNumber::Other(s) => JsonNumber::Other(s.clone()),
        }
    }
}

impl JsonValue {
    /// A copy of this value and of everything it holds.
    pub fn deep_clone(&self) -> (r: JsonValue)
        ensures
            r@ == self@,
        decreases self,
    {
        match self {
            JsonValue::Null => JsonValue::Null,
            JsonValue::Bool(b) => JsonValue::Bool(*b),
            JsonValue::Number(n) => JsonValue::Number(n.copy_number()),
            JsonValue::Str(s) => JsonValue::Str(s.clone()),
            JsonValue::Array(v) => {
                let mut out: Vec<JsonValue> = Vec::new();
                let mut i: usize = 0;
                while i < v.len()
                    invariant
                        *self == JsonValue::Array(*v),
                        i <= v@.len(),
                        out@.len() == i,
                        forall|k: int| 0 <= k < i ==> #[trigger] json_view(out@[k]) == json_view(v@[k]),
                    decreases v@.len() - i,
                {
                    proof {
                        assert(decreases_to!(*self => (*self)->Array_0));
                        assert(decreases_to!((*self)->Array_0 => (*self)->Array_0@));
                        assert(decreases_to!((*self)->Array_0@ => (*self)->Array_0@[i as int]));
                    }
                    let c = v[i].deep_clone();
                    out.push(c);
                    i = i + 1;
                }
                proof {
                    lemma_seq_view(v@, v@.len() as int);
                    lemma_seq_view(out@, out@.len() as int);
                    assert(json_seq_view(out@, out@.len() as int) =~= json_seq_view(v@, v@.len() as int));
                }
                JsonValue::Array(out)
            },
            JsonValue::Object(e) => {
                let mut out: Vec<(String, JsonValue)> = Vec::new();
                let mut i: usize = 0;
                while i < e.len()
                    invariant
                        *self == JsonValue::Object(*e),
                        i <= e@.len(),
                        out@.len() == i,
                        forall|k: int|
                            0 <= k < i ==> #[trigger] out@[k].0@ == e@[k].0@ && json_view(out@[k].1)
                                == json_view(e@[k].1),
                    decreases e@.len() - i,
                {
                    proof {
                        assert(decreases_to!(*self => (*self)->Object_0));
                        assert(decreases_to!((*self)->Object_0 => (*self)->Object_0@));
                        assert(decreases_to!((*self)->Object_0@ => (*self)->Object_0@[i as int]));
                        assert(decreases_to!((*self)->Object_0@[i as int] => (*self)->Object_0@[i as int].1));
                    }
                    let c = e[i].1.deep_clone();
                    out.push((e[i].0.clone(), c));
                    i = i + 1;
                }
                proof {
                    lemma_entries_view(e@, e@.len() as int);
                    lemma_entries_view(out@, out@.len() as int);
                    assert(json_entries_view(out@, out@.len() as int) =~= json_entries_view(
                        e@,
                        e@.len() as int,
                    ));
                }
                JsonValue::Object(out)
            },
        }
    }

    /// The value of property `key`, when this is an object that has it.
    pub fn get(&self, key: &str) -> (r: Option<&JsonValue>)
        ensures
            match r {
                Some(v) => self@.get(key@) == Some(v@),
                None => self@.get(key@) is None,
            },
    {
        match self {
            JsonValue::Object(e) => {
                proof {
                    lemma_entries_view(e@, e@.len() as int);
                }
                let ghost ev = json_entries_view(e@, e@.len() as int);
                let mut i: usize = 0;
                assert(ev.subrange(0, ev.len() as int) =~= ev);
                while i < e.len()
                    invariant
                        *self == JsonValue::Object(*e),
                        self@ == JsonView::Object(ev),
                        i <= e@.len(),
                        ev.len() == e@.len(),
                        forall|k: int| 0 <= k < e@.len() ==> #[trigger] ev[k] == (e@[k].0@, json_view(e@[k].1)),
                        field_of(ev, key@) == field_of(ev.subrange(i as int, ev.len() as int), key@),
                    decreases e@.len() - i,
                {
                    let ghost rest = ev.subrange(i as int, ev.len() as int);
                    assert(rest.drop_first() =~= ev.subrange(i + 1, ev.len() as int));
                    assert(rest[0] == ev[i as int]);
                    if str_eq(e[i].0.as_str(), key) {
                        assert(ev[i as int].0 == key@);
                        assert(field_of(rest, key@) == Some(rest[0].1));
                        return Some(&e[i].1);
                    }
                    i = i + 1;
                }
                None
            },
            _ => None,
        }
    }

    /// The value of property `key`, when it is there and is not `null`.
    pub fn get_present(&self, key: &str) -> (r: Option<&JsonValue>)
        ensures
            match r {
                Some(v) => self@.get_present(key@) == Some(v@),
                None => self@.get_present(key@) is None,
            },
    {
        match self.get(key) {
            Some(JsonValue::Null) => None,
            other => other,
        }
    }
}

} // verus!

verus! {

/// Decodes every item with `f`; `None` as soon as one item does not decode.
pub open spec fn decode_each<T>(items: Seq<JsonView>, f: spec_fn(JsonView) -> Option<T>) -> Option<Seq<T>>
    decreases items.len(),
{
    if items.len() == 0 {
        Some(Seq::empty())
    } else {
        match (decode_each(items.drop_last(), f), f(items.last())) {
            (Some(a), Some(b)) => Some(a.push(b)),
            _ => None,
        }
    }
}

pub proof fn lemma_decode_each<T>(items: Seq<JsonView>, f: spec_fn(JsonView) -> Option<T>)
    ensures
        decode_each(items, f) is Some <==> forall|i: int| 0 <= i < items.len() ==> (#[trigger] f(items[i])) is Some,
        decode_each(items, f) matches Some(r) ==> r.len() == items.len() && forall|i: int|
            0 <= i < items.len() ==> f(items[i]) == Some(#[trigger] r[i]),
    decreases items.len(),
{
    if items.len() > 0 {
        let init = items.drop_last();
        lemma_decode_each(init, f);
        assert forall|i: int| 0 <= i < init.len() implies init[i] == items[i] by {}
        if decode_each(items, f) is Some {
            assert forall|i: int| 0 <= i < items.len() implies (#[trigger] f(items[i])) is Some by {
                if i < init.len() {
                    assert(f(init[i]) is Some);
                }
            }
        }
        if forall|i: int| 0 <= i < items.len() ==> (#[trigger] f(items[i])) is Some {
            assert forall|i: int| 0 <= i < init.len() implies (#[trigger] f(init[i])) is Some by {
                assert(f(items[i]) is Some);
            }
            assert(f(items[items.len() - 1]) is Some);
        }
    }
}

/// Decoding each item of `items` with `f` gives back `values`.
pub proof fn lemma_decode_each_values<T>(items: Seq<JsonView>, f: spec_fn(JsonView) -> Option<T>, values: Seq<T>)
    requires
        items.len() == values.len(),
        forall|i: int| 0 <= i < items.len() ==> f(#[trigger] items[i]) == Some(values[i]),
    ensures
        decode_each(items, f) == Some(values),
{
    lemma_decode_each(items, f);
    assert forall|i: int| 0 <= i < items.len() implies (#[trigger] f(items[i])) is Some by {
        assert(f(items[i]) == Some(values[i]));
    }
    let r = decode_each(items, f)->0;
    assert forall|i: int| 0 <= i < items.len() implies r[i] == values[i] by {
        assert(f(items[i]) == Some(values[i]));
        assert(f(items[i]) == Some(r[i]));
    }
    assert(r =~= values);
}

} // verus!

verus! {

/// Model of the entries of an object.
pub open spec fn entries_of(v: Vec<(String, JsonValue)>) -> Seq<(Seq<char>, JsonView)> {
    json_entries_view(v@, v@.len() as int)
}

/// Model of the items of an array.
pub open spec fn items_of(v: Vec<JsonValue>) -> Seq<JsonView> {
    json_seq_view(v@, v@.len() as int)
}

/// Appends the entry `key: v`.
pub fn push_entry(out: &mut Vec<(String, JsonValue)>, key: &str, v: JsonValue)
    ensures
        entries_of(*final(out)) == entries_of(*old(out)).push((key@, v@)),
{
    let ghost before = *out;
    proof {
        lemma_entries_view(before@, before@.len() as int);
    }
    out.push((key.to_owned(), v));
    proof {
        lemma_entries_view(out@, out@.len() as int);
        assert(entries_of(*out) =~= entries_of(before).push((key@, v@)));
    }
}

/// Appends the item `v`.
pub fn push_item(out: &mut Vec<JsonValue>, v: JsonValue)
    ensures
        items_of(*final(out)) == items_of(*old(out)).push(v@),
{
    let ghost before = *out;
    proof {
        lemma_seq_view(before@, before@.len() as int);
    }
    out.push(v);
    proof {
        lemma_seq_view(out@, out@.len() as int);
        assert(items_of(*out) =~= items_of(before).push(v@));
    }
}

/// Looking up a name that no entry has gives nothing.
pub proof fn lemma_absent_lookup(entries: Seq<(Seq<char>, JsonView)>, key: Seq<char>)
    requires
        forall|k: int| 0 <= k < entries.len() ==> #[trigger] entries[k].0 != key,
    ensures
        JsonView::Object(entries).get(key) is None,
{
    lemma_field_of_absent(entries, key);
}

} // verus!
