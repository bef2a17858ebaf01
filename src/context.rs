//! The `@context` property: linked schemas and term declarations.
use vstd::prelude::*;
use crate::json::{
    JsonValue, JsonView, decode_each, json_entries_view, json_seq_view, lemma_decode_each,
    lemma_decode_each_values, lemma_entries_view, lemma_seq_view,
};
use crate::text::{opt_view, str_eq, vec_view};
use crate::url::{Url, UrlView, parsed_url};

verus! {

/// One entry of `@context`.
pub enum ContextItem {
    /// A linked schema.
    Url(Url),
    /// Terms mapped to their definitions, in document order.
    Mapping(Vec<(String, JsonValue)>),
}

/// The `@context` property: one entry or a list of them.
pub enum Context {
    ContextItem(ContextItem),
    List(Vec<ContextItem>),
}

pub enum ContextItemView {
    Url(UrlView),
    Mapping(Seq<(Seq<char>, JsonView)>),
}

pub enum ContextView {
    ContextItem(ContextItemView),
    List(Seq<ContextItemView>),
}

impl View for ContextItem {
    type V = ContextItemView;

    open spec fn view(&self) -> ContextItemView {
        match self {
            ContextItem::Url(u) => ContextItemView::Url(u@),
            ContextItem::Mapping(m) => ContextItemView::Mapping(json_entries_view(m@, m@.len() as int)),
        }
    }
}

impl View for Context {
    type V = ContextView;

    open spec fn view(&self) -> ContextView {
        match self {
            Context::ContextItem(i) => ContextView::ContextItem(i@),
            Context::List(l) => ContextView::List(vec_view(*l)),
        }
    }
}

impl ContextItemView {
    pub open spec fn links(self, href: Seq<char>) -> bool {
        match self {
            ContextItemView::Url(u) => u.href == href,
            ContextItemView::Mapping(_) => false,
        }
    }

    pub open spec fn has_definition(self, key: Seq<char>) -> bool {
        match self {
            ContextItemView::Url(_) => false,
            ContextItemView::Mapping(m) => exists|i: int| #![trigger m[i]] 0 <= i < m.len() && m[i].0 == key,
        }
    }

    /// Every URL is in normalised form.
    pub open spec fn wf(self) -> bool {
        match self {
            ContextItemView::Url(u) => u.wf(),
            ContextItemView::Mapping(_) => true,
        }
    }
}

impl ContextView {
    /// Some entry links the schema whose normalised URL is `href`.
    pub open spec fn links(self, href: Seq<char>) -> bool {
        match self {
            ContextView::ContextItem(i) => i.links(href),
            ContextView::List(l) => exists|k: int| #![trigger l[k]] 0 <= k < l.len() && l[k].links(href),
        }
    }

    /// Some entry declares the term `key`.
    pub open spec fn has_definition(self, key: Seq<char>) -> bool {
        match self {
            ContextView::ContextItem(i) => i.has_definition(key),
            ContextView::List(l) => exists|k: int| #![trigger l[k]] 0 <= k < l.len() && l[k].has_definition(key),
        }
    }

    pub open spec fn wf(self) -> bool {
        match self {
            ContextView::ContextItem(i) => i.wf(),
            ContextView::List(l) => forall|k: int| 0 <= k < l.len() ==> (#[trigger] l[k]).wf(),
        }
    }
}

impl ContextItem {
    fn matches_url(&self, url: &Url) -> (r: bool)
        ensures
            r == self@.links(url@.href),
    {
        match self {
            ContextItem::Url(item_url) => item_url.same_as(url),
            ContextItem::Mapping(_) => false,
        }
    }

    fn matches_href(&self, href: &str) -> (r: bool)
        ensures
            r == self@.links(href@),
    {
        match self {
            ContextItem::Url(item_url) => str_eq(item_url.as_str(), href),
            ContextItem::Mapping(_) => false,
        }
    }

    fn has_definition(&self, key: &str) -> (r: bool)
        ensures
            r == self@.has_definition(key@),
    {
        match self {
            ContextItem::Url(_) => false,
            ContextItem::Mapping(m) => {
                proof {
                    lemma_entries_view(m@, m@.len() as int);
                }
                let mut i: usize = 0;
                while i < m.len()
                    invariant
                        i <= m@.len(),
                        self@ == ContextItemView::Mapping(json_entries_view(m@, m@.len() as int)),
                        json_entries_view(m@, m@.len() as int).len() == m@.len(),
                        forall|k: int|
                            0 <= k < m@.len() ==> #[trigger] json_entries_view(m@, m@.len() as int)[k].0
                                == m@[k].0@,
                        forall|k: int| 0 <= k < i ==> m@[k].0@ != key@,
                    decreases m@.len() - i,
                {
                    if str_eq(m[i].0.as_str(), key) {
                        let ghost mv = json_entries_view(m@, m@.len() as int);
                        assert(mv[i as int].0 == key@);
                        assert(self@ == ContextItemView::Mapping(mv));
                        assert(exists|k: int| #![trigger mv[k]] 0 <= k < mv.len() && mv[k].0 == key@);
                        let ghost c = self@;
                        assert(c->Mapping_0 == mv);
                        assert(c.has_definition(key@));
                        return true;
                    }
                    i = i + 1;
                }
                false
            },
        }
    }

    pub fn copy_item(&self) -> (r: ContextItem)
        ensures
            r@ == self@,
    {
        match self {
            ContextItem::Url(u) => ContextItem::Url(u.copy_url()),
            ContextItem::Mapping(m) => {
                proof {
                    lemma_entries_view(m@, m@.len() as int);
                }
                let mut out: Vec<(String, JsonValue)> = Vec::new();
                let mut i: usize = 0;
                while i < m.len()
                    invariant
                        i <= m@.len(),
                        out@.len() == i,
                        forall|k: int|
                            0 <= k < i ==> (#[trigger] out@[k]).0@ == m@[k].0@ && out@[k].1@ == m@[k].1@,
                    decreases m@.len() - i,
                {
                    out.push((m[i].0.clone(), m[i].1.deep_clone()));
                    i = i + 1;
                }
                proof {
                    lemma_entries_view(out@, out@.len() as int);
                    assert(json_entries_view(out@, out@.len() as int) =~= json_entries_view(m@, m@.len() as int));
                }
                ContextItem::Mapping(out)
            },
        }
    }
}

impl Context {
    /// Checks if some entry of the context links the schema at `url`.
    pub fn matches_url(&self, url: &Url) -> (r: bool)
        ensures
            r == self@.links(url@.href),
    {
        match self {
            Context::ContextItem(item) => item.matches_url(url),
            Context::List(list) => {
                let mut i: usize = 0;
                while i < list.len()
                    invariant
                        i <= list@.len(),
                        self@ == ContextView::List(vec_view(*list)),
                        forall|k: int| 0 <= k < i ==> !(#[trigger] vec_view(*list)[k]).links(url@.href),
                    decreases list@.len() - i,
                {
                    if list[i].matches_url(url) {
                        assert(vec_view(*list)[i as int].links(url@.href));
                        let ghost c = self@;
                        assert(c->List_0 == vec_view(*list));
                        assert(c.links(url@.href));
                        return true;
                    }
                    i = i + 1;
                }
                false
            },
        }
    }

    /// Checks if some entry of the context is a link to the schema whose
    /// normalised text is `href`.
    pub fn matches_href(&self, href: &str) -> (r: bool)
        ensures
            r == self@.links(href@),
    {
        match self {
            Context::ContextItem(item) => item.matches_href(href),
            Context::List(list) => {
                let mut i: usize = 0;
                while i < list.len()
                    invariant
                        i <= list@.len(),
                        self@ == ContextView::List(vec_view(*list)),
                        forall|k: int| 0 <= k < i ==> !(#[trigger] vec_view(*list)[k]).links(href@),
                    decreases list@.len() - i,
                {
                    if list[i].matches_href(href) {
                        assert(vec_view(*list)[i as int].links(href@));
                        let ghost c = self@;
                        assert(c->List_0 == vec_view(*list));
                        assert(c.links(href@));
                        return true;
                    }
                    i = i + 1;
                }
                false
            },
        }
    }

    /// Checks whether some entry of the context declares the term `name`.
    /// A term declared under another name is not found: this is a key lookup,
    /// not JSON-LD expansion.
    pub fn has_definition(&self, name: &str) -> (r: bool)
        ensures
            r == self@.has_definition(name@),
    {
        match self {
            Context::ContextItem(item) => item.has_definition(name),
            Context::List(list) => {
                let mut i: usize = 0;
                while i < list.len()
                    invariant
                        i <= list@.len(),
                        self@ == ContextView::List(vec_view(*list)),
                        forall|k: int| 0 <= k < i ==> !(#[trigger] vec_view(*list)[k]).has_definition(name@),
                    decreases list@.len() - i,
                {
                    if list[i].has_definition(name) {
                        assert(vec_view(*list)[i as int].has_definition(name@));
                        let ghost c = self@;
                        assert(c->List_0 == vec_view(*list));
                        assert(c.has_definition(name@));
                        return true;
                    }
                    i = i + 1;
                }
                false
            },
        }
    }
}

// Decoding and encoding.

/// An entry is a schema URL or, failing that, any JSON object.
pub open spec fn spec_decode_context_item(j: JsonView) -> Option<ContextItemView> {
    match j {
        JsonView::Str(s) => match parsed_url(s) {
            Some(u) => Some(ContextItemView::Url(u)),
            None => None,
        },
        JsonView::Object(m) => Some(ContextItemView::Mapping(m)),
        _ => None,
    }
}

pub open spec fn context_item_decoder() -> spec_fn(JsonView) -> Option<ContextItemView> {
    |j: JsonView| spec_decode_context_item(j)
}

/// `@context` is a single entry or, failing that, a list of entries.
pub open spec fn spec_decode_context(j: JsonView) -> Option<ContextView> {
    match spec_decode_context_item(j) {
        Some(i) => Some(ContextView::ContextItem(i)),
        None => match j {
            JsonView::Array(items) => match decode_each(items, context_item_decoder()) {
                Some(l) => Some(ContextView::List(l)),
                None => None,
            },
            _ => None,
        },
    }
}

pub open spec fn spec_encode_context_item(c: ContextItemView) -> JsonView {
    match c {
        ContextItemView::Url(u) => JsonView::Str(u.href),
        ContextItemView::Mapping(m) => JsonView::Object(m),
    }
}

pub open spec fn spec_encode_context(c: ContextView) -> JsonView {
    match c {
        ContextView::ContextItem(i) => spec_encode_context_item(i),
        ContextView::List(l) => JsonView::Array(l.map_values(|i: ContextItemView| spec_encode_context_item(i))),
    }
}

/// Decoding an encoded `@context` gives it back.
pub proof fn lemma_context_round_trip(c: ContextView)
    requires
        c.wf(),
    ensures
        spec_decode_context(spec_encode_context(c)) == Some(c),
{
    match c {
        ContextView::ContextItem(i) => {},
        ContextView::List(l) => {
            let items = l.map_values(|i: ContextItemView| spec_encode_context_item(i));
            assert forall|k: int| 0 <= k < items.len() implies context_item_decoder()(#[trigger] items[k]) == Some(l[k]) by {
                assert(l[k].wf());
            }
            lemma_decode_each_values(items, context_item_decoder(), l);
        },
    }
}

impl ContextItem {
    pub fn decode(j: &JsonValue) -> (r: Option<ContextItem>)
        ensures
            opt_view(r) == spec_decode_context_item(j@),
    {
        match j {
            JsonValue::Str(s) => match Url::parse(s.as_str()) {
                Some(u) => Some(ContextItem::Url(u)),
                None => None,
            },
            JsonValue::Object(_) => match j.deep_clone() {
                JsonValue::Object(m) => Some(ContextItem::Mapping(m)),
                _ => None,
            },
            _ => None,
        }
    }

    pub fn to_json(&self) -> (r: JsonValue)
        ensures
            r@ == spec_encode_context_item(self@),
    {
        match self.copy_item() {
            ContextItem::Url(u) => JsonValue::Str(u.as_str().to_owned()),
            ContextItem::Mapping(m) => JsonValue::Object(m),
        }
    }
}

impl Context {
    pub fn decode(j: &JsonValue) -> (r: Option<Context>)
        ensures
            opt_view(r) == spec_decode_context(j@),
    {
        match ContextItem::decode(j) {
            Some(i) => { return Some(Context::ContextItem(i)); },
            None => {},
        }
        match j {
            JsonValue::Array(items) => {
                let ghost views = json_seq_view(items@, items@.len() as int);
                proof {
                    lemma_seq_view(items@, items@.len() as int);
                }
                let mut out: Vec<ContextItem> = Vec::new();
                let mut i: usize = 0;
                while i < items.len()
                    invariant
                        j@ == JsonView::Array(views),
                        spec_decode_context_item(j@) is None,
                        i <= items@.len(),
                        out@.len() == i,
                        views.len() == items@.len(),
                        forall|k: int| 0 <= k < items@.len() ==> #[trigger] views[k] == items@[k]@,
                        forall|k: int| 0 <= k < i ==> context_item_decoder()(#[trigger] views[k]) == Some(out@[k]@),
                    decreases items@.len() - i,
                {
                    match ContextItem::decode(&items[i]) {
                        Some(x) => out.push(x),
                        None => {
                            proof {
                                lemma_decode_each(views, context_item_decoder());
                                assert(context_item_decoder()(views[i as int]) is None);
                            }
                            return None;
                        },
                    }
                    i = i + 1;
                }
                proof {
                    lemma_decode_each_values(views, context_item_decoder(), vec_view(out));
                }
                Some(Context::List(out))
            },
            _ => None,
        }
    }

    pub fn to_json(&self) -> (r: JsonValue)
        ensures
            r@ == spec_encode_context(self@),
    {
        match self {
            Context::ContextItem(i) => i.to_json(),
            Context::List(l) => {
                let ghost target = vec_view(*l).map_values(|i: ContextItemView| spec_encode_context_item(i));
                let mut out: Vec<JsonValue> = Vec::new();
                let mut i: usize = 0;
                while i < l.len()
                    invariant
                        i <= l@.len(),
                        out@.len() == i,
                        target.len() == l@.len(),
                        forall|k: int| 0 <= k < l@.len() ==> #[trigger] target[k] == spec_encode_context_item(l@[k]@),
                        forall|k: int| 0 <= k < i ==> #[trigger] out@[k]@ == target[k],
                    decreases l@.len() - i,
                {
                    out.push(l[i].to_json());
                    i = i + 1;
                }
                proof {
                    lemma_seq_view(out@, out@.len() as int);
                    assert forall|k: int| 0 <= k < out@.len() implies json_seq_view(out@, out@.len() as int)[k] == target[k] by {
                        assert(out@[k]@ == target[k]);
                    }
                    assert(json_seq_view(out@, out@.len() as int) =~= target);
                }
                JsonValue::Array(out)
            },
        }
    }
}

} // verus!
