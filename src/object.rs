//! Links, URL references and the Object base type.
use vstd::prelude::*;
use crate::codec::{
    DecodeError, DecodeErrorView, field_string, field_url, invalid_field, read_string, read_url, result_view,
    string_json, string_or_null,
};
use crate::context::{Context, ContextView};
use crate::entity::{Entity, EntityType, EntityView, entity_entries, spec_decode_entity};
use crate::json::{
    JsonValue, JsonView, decode_each, entries_of, items_of, json_seq_view, lemma_decode_each, lemma_seq_view,
    push_entry, push_item,
};
use crate::text::{opt_view, vec_view};
use crate::url::{Url, UrlView, parsed_url};

verus! {

/// A link: an entity header and the URL it points to.
pub struct Link {
    pub entity: Entity,
    pub href: Url,
}

pub struct LinkView {
    pub entity: EntityView,
    pub href: UrlView,
}

impl View for Link {
    type V = LinkView;

    open spec fn view(&self) -> LinkView {
        LinkView { entity: self.entity@, href: self.href@ }
    }
}

/// The shapes a URL-valued property takes.
pub enum UrlReference {
    /// A bare URL.
    Url(Url),
    /// One link object.
    Link(Link),
    /// A list of link objects.
    LinkList(Vec<Link>),
    /// A list of bare URLs.
    UrlList(Vec<Url>),
}

pub enum UrlReferenceView {
    Url(UrlView),
    Link(LinkView),
    LinkList(Seq<LinkView>),
    UrlList(Seq<UrlView>),
}

impl View for UrlReference {
    type V = UrlReferenceView;

    open spec fn view(&self) -> UrlReferenceView {
        match self {
            UrlReference::Url(u) => UrlReferenceView::Url(u@),
            UrlReference::Link(l) => UrlReferenceView::Link(l@),
            UrlReference::LinkList(l) => UrlReferenceView::LinkList(vec_view(*l)),
            UrlReference::UrlList(l) => UrlReferenceView::UrlList(vec_view(*l)),
        }
    }
}

impl UrlReferenceView {
    /// The URLs referenced, in document order.
    pub open spec fn urls(self) -> Seq<UrlView> {
        match self {
            UrlReferenceView::Url(u) => seq![u],
            UrlReferenceView::Link(l) => seq![l.href],
            UrlReferenceView::LinkList(l) => l.map_values(|x: LinkView| x.href),
            UrlReferenceView::UrlList(l) => l,
        }
    }

    /// The first URL referenced, if any.
    pub open spec fn any_url(self) -> Option<UrlView> {
        if self.urls().len() > 0 {
            Some(self.urls()[0])
        } else {
            None
        }
    }
}

/// The base of most ActivityPub data: a header, an identifier, a name and a
/// URL.
pub struct Object {
    pub entity: Entity,
    /// Unique identifier of the object.
    pub id: Url,
    pub name: Option<String>,
    pub url: Option<UrlReference>,
}

pub struct ObjectView {
    pub entity: EntityView,
    pub id: UrlView,
    pub name: Option<Seq<char>>,
    pub url: Option<UrlReferenceView>,
}

impl View for Object {
    type V = ObjectView;

    open spec fn view(&self) -> ObjectView {
        ObjectView { entity: self.entity@, id: self.id@, name: opt_view(self.name), url: opt_view(self.url) }
    }
}

/// An object given inline or by its URL.
pub enum ObjectReference {
    Object(Box<Object>),
    Url(Url),
}

pub enum ObjectReferenceView {
    Object(ObjectView),
    Url(UrlView),
}

impl View for ObjectReference {
    type V = ObjectReferenceView;

    open spec fn view(&self) -> ObjectReferenceView {
        match self {
            ObjectReference::Object(o) => ObjectReferenceView::Object(o@),
            ObjectReference::Url(u) => ObjectReferenceView::Url(u@),
        }
    }
}

// Decoding.

pub open spec fn spec_decode_link(j: JsonView) -> Option<LinkView> {
    match spec_decode_entity(j) {
        Ok(entity) => match read_url(j.get_present("href"@)) {
            Some(href) => Some(LinkView { entity, href }),
            None => None,
        },
        Err(_) => None,
    }
}

pub open spec fn link_decoder() -> spec_fn(JsonView) -> Option<LinkView> {
    |j: JsonView| spec_decode_link(j)
}

pub open spec fn url_decoder() -> spec_fn(JsonView) -> Option<UrlView> {
    |j: JsonView| read_url(Some(j))
}

/// A URL reference is, in this order of preference: a URL, a link, a list of
/// links, a list of URLs.
pub open spec fn spec_decode_url_reference(j: JsonView) -> Option<UrlReferenceView> {
    if let JsonView::Str(s) = j {
        match parsed_url(s) {
            Some(u) => Some(UrlReferenceView::Url(u)),
            None => None,
        }
    } else if let Some(l) = spec_decode_link(j) {
        Some(UrlReferenceView::Link(l))
    } else if let JsonView::Array(items) = j {
        if let Some(l) = decode_each(items, link_decoder()) {
            Some(UrlReferenceView::LinkList(l))
        } else if let Some(l) = decode_each(items, url_decoder()) {
            Some(UrlReferenceView::UrlList(l))
        } else {
            None
        }
    } else {
        None
    }
}

pub open spec fn read_url_reference(j: Option<JsonView>) -> Option<UrlReferenceView> {
    match j {
        Some(v) => spec_decode_url_reference(v),
        None => None,
    }
}

pub open spec fn spec_decode_object(j: JsonView) -> Result<ObjectView, DecodeErrorView> {
    match spec_decode_entity(j) {
        Err(e) => Err(e),
        Ok(entity) => match read_url(j.get_present("id"@)) {
            None => Err(DecodeErrorView::InvalidField("id"@)),
            Some(id) => Ok(
                ObjectView {
                    entity,
                    id,
                    name: read_string(j.get_present("name"@)),
                    url: read_url_reference(j.get_present("url"@)),
                },
            ),
        },
    }
}

/// An object reference is an inline object or, failing that, a URL.
pub open spec fn spec_decode_object_reference(j: JsonView) -> Option<ObjectReferenceView> {
    match spec_decode_object(j) {
        Ok(o) => Some(ObjectReferenceView::Object(o)),
        Err(_) => match read_url(Some(j)) {
            Some(u) => Some(ObjectReferenceView::Url(u)),
            None => None,
        },
    }
}

// Encoding.

pub open spec fn link_entries(l: LinkView) -> Seq<(Seq<char>, JsonView)> {
    entity_entries(l.entity).push(("href"@, JsonView::Str(l.href.href)))
}

pub open spec fn spec_encode_link(l: LinkView) -> JsonView {
    JsonView::Object(link_entries(l))
}

pub open spec fn spec_encode_url_reference(r: UrlReferenceView) -> JsonView {
    match r {
        UrlReferenceView::Url(u) => JsonView::Str(u.href),
        UrlReferenceView::Link(l) => spec_encode_link(l),
        UrlReferenceView::LinkList(l) => JsonView::Array(l.map_values(|x: LinkView| spec_encode_link(x))),
        UrlReferenceView::UrlList(l) => JsonView::Array(l.map_values(|x: UrlView| JsonView::Str(x.href))),
    }
}

pub open spec fn url_reference_or_null(r: Option<UrlReferenceView>) -> JsonView {
    match r {
        Some(v) => spec_encode_url_reference(v),
        None => JsonView::Null,
    }
}

pub open spec fn object_entries(o: ObjectView) -> Seq<(Seq<char>, JsonView)> {
    entity_entries(o.entity) + seq![
        ("id"@, JsonView::Str(o.id.href)),
        ("name"@, string_or_null(o.name)),
        ("url"@, url_reference_or_null(o.url)),
    ]
}

pub open spec fn spec_encode_object(o: ObjectView) -> JsonView {
    JsonView::Object(object_entries(o))
}

pub open spec fn spec_encode_object_reference(r: ObjectReferenceView) -> JsonView {
    match r {
        ObjectReferenceView::Object(o) => spec_encode_object(o),
        ObjectReferenceView::Url(u) => JsonView::Str(u.href),
    }
}

impl Link {
    pub fn decode(j: &JsonValue) -> (r: Option<Link>)
        ensures
            opt_view(r) == spec_decode_link(j@),
    {
        let entity = match Entity::decode(j) {
            Ok(e) => e,
            Err(_) => { return None; },
        };
        match field_url(j, "href") {
            Some(href) => Some(Link { entity, href }),
            None => None,
        }
    }

    pub fn to_json(&self) -> (r: JsonValue)
        ensures
            r@ == spec_encode_link(self@),
    {
        let mut out: Vec<(String, JsonValue)> = Vec::new();
        proof {
            assert(entries_of(out) =~= Seq::empty());
        }
        self.entity.push_entries(&mut out);
        push_entry(&mut out, "href", JsonValue::Str(self.href.as_str().to_owned()));
        proof {
            assert(entries_of(out) =~= link_entries(self@));
        }
        JsonValue::Object(out)
    }
}

fn decode_links(items: &Vec<JsonValue>) -> (r: Option<Vec<Link>>)
    ensures
        match r {
            Some(v) => decode_each(items_of(*items), link_decoder()) == Some(vec_view(v)),
            None => decode_each(items_of(*items), link_decoder()) is None,
        },
{
    let ghost views = items_of(*items);
    proof {
        lemma_seq_view(items@, items@.len() as int);
    }
    let mut out: Vec<Link> = Vec::new();
    let mut i: usize = 0;
    while i < items.len()
        invariant
            i <= items@.len(),
            out@.len() == i,
            views == items_of(*items),
            views.len() == items@.len(),
            forall|k: int| 0 <= k < items@.len() ==> #[trigger] views[k] == items@[k]@,
            forall|k: int| 0 <= k < i ==> link_decoder()(#[trigger] views[k]) == Some(out@[k]@),
        decreases items@.len() - i,
    {
        match Link::decode(&items[i]) {
            Some(x) => out.push(x),
            None => {
                proof {
                    lemma_decode_each(views, link_decoder());
                    assert(link_decoder()(views[i as int]) is None);
                }
                return None;
            },
        }
        i = i + 1;
    }
    proof {
        crate::json::lemma_decode_each_values(views, link_decoder(), vec_view(out));
    }
    Some(out)
}

fn decode_urls(items: &Vec<JsonValue>) -> (r: Option<Vec<Url>>)
    ensures
        match r {
            Some(v) => decode_each(items_of(*items), url_decoder()) == Some(vec_view(v)),
            None => decode_each(items_of(*items), url_decoder()) is None,
        },
{
    let ghost views = items_of(*items);
    proof {
        lemma_seq_view(items@, items@.len() as int);
    }
    let mut out: Vec<Url> = Vec::new();
    let mut i: usize = 0;
    while i < items.len()
        invariant
            i <= items@.len(),
            out@.len() == i,
            views == items_of(*items),
            views.len() == items@.len(),
            forall|k: int| 0 <= k < items@.len() ==> #[trigger] views[k] == items@[k]@,
            forall|k: int| 0 <= k < i ==> url_decoder()(#[trigger] views[k]) == Some(out@[k]@),
        decreases items@.len() - i,
    {
        let u = match &items[i] {
            JsonValue::Str(s) => Url::parse(s.as_str()),
            _ => None,
        };
        match u {
            Some(x) => out.push(x),
            None => {
                proof {
                    lemma_decode_each(views, url_decoder());
                    assert(url_decoder()(views[i as int]) is None);
                }
                return None;
            },
        }
        i = i + 1;
    }
    proof {
        crate::json::lemma_decode_each_values(views, url_decoder(), vec_view(out));
    }
    Some(out)
}

/// Decodes a list of URLs.
pub fn decode_url_list(j: &JsonValue) -> (r: Option<Vec<Url>>)
    ensures
        match r {
            Some(v) => j@ matches JsonView::Array(items) && decode_each(items, url_decoder()) == Some(vec_view(v)),
            None => !(j@ matches JsonView::Array(items) && decode_each(items, url_decoder()) is Some),
        },
{
    match j {
        JsonValue::Array(items) => decode_urls(items),
        _ => None,
    }
}

/// Encodes a list of URLs.
pub fn url_list_json(l: &Vec<Url>) -> (r: JsonValue)
    ensures
        r@ == JsonView::Array(vec_view(*l).map_values(|x: UrlView| JsonView::Str(x.href))),
{
    let ghost target = vec_view(*l).map_values(|x: UrlView| JsonView::Str(x.href));
    let mut out: Vec<JsonValue> = Vec::new();
    let mut i: usize = 0;
    proof {
        assert(items_of(out) =~= target.take(0));
    }
    while i < l.len()
        invariant
            i <= l@.len(),
            target == vec_view(*l).map_values(|x: UrlView| JsonView::Str(x.href)),
            items_of(out) == target.take(i as int),
        decreases l@.len() - i,
    {
        push_item(&mut out, JsonValue::Str(l[i].as_str().to_owned()));
        proof {
            assert(target.take(i + 1) =~= target.take(i as int).push(target[i as int]));
        }
        i = i + 1;
    }
    proof {
        assert(target.take(l@.len() as int) =~= target);
    }
    JsonValue::Array(out)
}

impl UrlReference {
    pub fn decode(j: &JsonValue) -> (r: Option<UrlReference>)
        ensures
            opt_view(r) == spec_decode_url_reference(j@),
    {
        if let JsonValue::Str(s) = j {
            return match Url::parse(s.as_str()) {
                Some(u) => Some(UrlReference::Url(u)),
                None => None,
            };
        }
        if let Some(l) = Link::decode(j) {
            return Some(UrlReference::Link(l));
        }
        if let JsonValue::Array(items) = j {
            if let Some(l) = decode_links(items) {
                return Some(UrlReference::LinkList(l));
            }
            if let Some(l) = decode_urls(items) {
                return Some(UrlReference::UrlList(l));
            }
        }
        None
    }

    pub fn to_json(&self) -> (r: JsonValue)
        ensures
            r@ == spec_encode_url_reference(self@),
    {
        match self {
            UrlReference::Url(u) => JsonValue::Str(u.as_str().to_owned()),
            UrlReference::Link(l) => l.to_json(),
            UrlReference::LinkList(l) => {
                let ghost target = vec_view(*l).map_values(|x: LinkView| spec_encode_link(x));
                let mut out: Vec<JsonValue> = Vec::new();
                let mut i: usize = 0;
                proof {
                    assert(items_of(out) =~= target.take(0));
                }
                while i < l.len()
                    invariant
                        i <= l@.len(),
                        target == vec_view(*l).map_values(|x: LinkView| spec_encode_link(x)),
                        items_of(out) == target.take(i as int),
                    decreases l@.len() - i,
                {
                    push_item(&mut out, l[i].to_json());
                    proof {
                        assert(target.take(i + 1) =~= target.take(i as int).push(target[i as int]));
                    }
                    i = i + 1;
                }
                proof {
                    assert(target.take(l@.len() as int) =~= target);
                }
                JsonValue::Array(out)
            },
            UrlReference::UrlList(l) => url_list_json(l),
        }
    }

    /// The URLs referenced, in document order.
    pub fn as_vec(&self) -> (r: Vec<Url>)
        ensures
            vec_view(r) == self@.urls(),
    {
        let mut out: Vec<Url> = Vec::new();
        match self {
            UrlReference::Url(u) => {
                out.push(u.copy_url());
                assert(vec_view(out) =~= self@.urls());
            },
            UrlReference::Link(l) => {
                out.push(l.href.copy_url());
                assert(vec_view(out) =~= self@.urls());
            },
            UrlReference::LinkList(links) => {
                let mut i: usize = 0;
                while i < links.len()
                    invariant
                        i <= links@.len(),
                        self@.urls() == vec_view(*links).map_values(|x: LinkView| x.href),
                        vec_view(out) == self@.urls().take(i as int),
                        out@.len() == i,
                    decreases links@.len() - i,
                {
                    let ghost prev = out@;
                    out.push(links[i].href.copy_url());
                    assert forall|k: int| 0 <= k < i implies vec_view(out)[k] == self@.urls().take(i + 1)[k] by {
                        assert(out@[k] == prev[k]);
                    }
                    assert(vec_view(out) =~= self@.urls().take(i + 1));
                    i = i + 1;
                }
                assert(self@.urls().take(links@.len() as int) =~= self@.urls());
            },
            UrlReference::UrlList(urls) => {
                let mut i: usize = 0;
                while i < urls.len()
                    invariant
                        i <= urls@.len(),
                        self@.urls() == vec_view(*urls),
                        vec_view(out) == self@.urls().take(i as int),
                        out@.len() == i,
                    decreases urls@.len() - i,
                {
                    let ghost prev = out@;
                    out.push(urls[i].copy_url());
                    assert forall|k: int| 0 <= k < i implies vec_view(out)[k] == self@.urls().take(i + 1)[k] by {
                        assert(out@[k] == prev[k]);
                    }
                    assert(vec_view(out) =~= self@.urls().take(i + 1));
                    i = i + 1;
                }
                assert(self@.urls().take(urls@.len() as int) =~= self@.urls());
            },
        }
        out
    }

    /// The first URL referenced, if any. No order is promised beyond the
    /// order of the document.
    pub fn any_url(&self) -> (r: Option<Url>)
        ensures
            opt_view(r) == self@.any_url(),
    {
        let v = self.as_vec();
        if v.len() > 0 {
            Some(v[0].copy_url())
        } else {
            None
        }
    }
}

impl Object {
    /// An object of kind `entity_type` identified by `id`, with no name and no
    /// URL; `None` if its context could not be built.
    pub fn new_with_entity_type(entity_type: EntityType, id: Url) -> (r: Option<Object>)
        ensures
            r is Some <==> (parsed_url("https://w3id.org/security/v1"@) is Some && parsed_url(
                "https://www.w3.org/ns/activitystreams"@,
            ) is Some),
            r matches Some(o) ==> o.entity.object_type == entity_type && o@.id == id@ && o@.name is None
                && o@.url is None,
    {
        match Entity::new(entity_type) {
            Some(entity) => Some(Object { entity, id, name: None, url: None }),
            None => None,
        }
    }

    pub fn decode(j: &JsonValue) -> (r: Result<Object, DecodeError>)
        ensures
            result_view(r) == spec_decode_object(j@),
    {
        let entity = match Entity::decode(j) {
            Ok(e) => e,
            Err(e) => { return Err(e); },
        };
        let id = match field_url(j, "id") {
            Some(u) => u,
            None => { return Err(invalid_field("id")); },
        };
        let name = field_string(j, "name");
        let url = match j.get_present("url") {
            Some(v) => UrlReference::decode(v),
            None => None,
        };
        Ok(Object { entity, id, name, url })
    }

    /// Appends the properties of this object to `out`.
    pub fn push_entries(&self, out: &mut Vec<(String, JsonValue)>)
        ensures
            entries_of(*final(out)) == entries_of(*old(out)) + object_entries(self@),
    {
        let ghost before = entries_of(*out);
        self.entity.push_entries(out);
        push_entry(out, "id", JsonValue::Str(self.id.as_str().to_owned()));
        push_entry(out, "name", string_json(&self.name));
        let u = match &self.url {
            Some(u) => u.to_json(),
            None => JsonValue::Null,
        };
        push_entry(out, "url", u);
        proof {
            assert(entries_of(*out) =~= before + object_entries(self@));
        }
    }

    pub fn to_json(&self) -> (r: JsonValue)
        ensures
            r@ == spec_encode_object(self@),
    {
        let mut out: Vec<(String, JsonValue)> = Vec::new();
        proof {
            assert(entries_of(out) =~= Seq::empty());
        }
        self.push_entries(&mut out);
        proof {
            assert(entries_of(out) =~= object_entries(self@));
        }
        JsonValue::Object(out)
    }

    /// Any URL given by the `url` property.
    pub fn object_url(&self) -> (r: Option<Url>)
        ensures
            opt_view(r) == match self@.url {
                Some(u) => u.any_url(),
                None => None,
            },
    {
        match &self.url {
            Some(u) => u.any_url(),
            None => None,
        }
    }
}

impl ObjectReference {
    pub fn decode(j: &JsonValue) -> (r: Option<ObjectReference>)
        ensures
            opt_view(r) == spec_decode_object_reference(j@),
    {
        match Object::decode(j) {
            Ok(o) => Some(ObjectReference::Object(Box::new(o))),
            Err(_) => match j {
                JsonValue::Str(s) => match Url::parse(s.as_str()) {
                    Some(u) => Some(ObjectReference::Url(u)),
                    None => None,
                },
                _ => None,
            },
        }
    }

    pub fn to_json(&self) -> (r: JsonValue)
        ensures
            r@ == spec_encode_object_reference(self@),
    {
        match self {
            ObjectReference::Object(o) => o.to_json(),
            ObjectReference::Url(u) => JsonValue::Str(u.as_str().to_owned()),
        }
    }

    /// The identifier of the referenced object, whichever way it is given.
    pub fn object_id(&self) -> (r: Url)
        ensures
            r@ == match self@ {
                ObjectReferenceView::Object(o) => o.id,
                ObjectReferenceView::Url(u) => u,
            },
    {
        match self {
            ObjectReference::Object(o) => o.id.copy_url(),
            ObjectReference::Url(u) => u.copy_url(),
        }
    }
}

} // verus!
verus! {

/// Looking up each property of an encoded object finds its entry.
pub proof fn lemma_object_lookups(entries: Seq<(Seq<char>, JsonView)>)
    requires
        entries.len() == 5,
        entries[0].0 == "@context"@,
        entries[1].0 == "type"@,
        entries[2].0 == "id"@,
        entries[3].0 == "name"@,
        entries[4].0 == "url"@,
    ensures
        JsonView::Object(entries).get("@context"@) == Some(entries[0].1),
        JsonView::Object(entries).get("type"@) == Some(entries[1].1),
        JsonView::Object(entries).get("id"@) == Some(entries[2].1),
        JsonView::Object(entries).get("name"@) == Some(entries[3].1),
        JsonView::Object(entries).get("url"@) == Some(entries[4].1),
{
    reveal_strlit("@context");
    reveal_strlit("id");
    reveal_strlit("name");
    reveal_strlit("type");
    reveal_strlit("url");
    crate::json::lemma_field_of_index(entries, "@context"@, 0);
    assert forall|j: int| 0 <= j < 1 implies entries[j].0 != "type"@ by {
        if j == 0 {
            assert("type"@.len() != "@context"@.len());
        }
    }
    crate::json::lemma_field_of_index(entries, "type"@, 1);
    assert forall|j: int| 0 <= j < 2 implies entries[j].0 != "id"@ by {
        if j == 0 {
            assert("id"@.len() != "@context"@.len());
        } else if j == 1 {
            assert("id"@.len() != "type"@.len());
        }
    }
    crate::json::lemma_field_of_index(entries, "id"@, 2);
    assert forall|j: int| 0 <= j < 3 implies entries[j].0 != "name"@ by {
        if j == 0 {
            assert("name"@.len() != "@context"@.len());
        } else if j == 1 {
            assert("name"@[0] != "type"@[0]);
        } else if j == 2 {
            assert("name"@.len() != "id"@.len());
        }
    }
    crate::json::lemma_field_of_index(entries, "name"@, 3);
    assert forall|j: int| 0 <= j < 4 implies entries[j].0 != "url"@ by {
        if j == 0 {
            assert("url"@.len() != "@context"@.len());
        } else if j == 1 {
            assert("url"@.len() != "type"@.len());
        } else if j == 2 {
            assert("url"@.len() != "id"@.len());
        } else if j == 3 {
            assert("url"@.len() != "name"@.len());
        }
    }
    crate::json::lemma_field_of_index(entries, "url"@, 4);
}
/// Looking up each property of an encoded link finds its entry.
pub proof fn lemma_link_lookups(entries: Seq<(Seq<char>, JsonView)>)
    requires
        entries.len() == 3,
        entries[0].0 == "@context"@,
        entries[1].0 == "type"@,
        entries[2].0 == "href"@,
    ensures
        JsonView::Object(entries).get("@context"@) == Some(entries[0].1),
        JsonView::Object(entries).get("type"@) == Some(entries[1].1),
        JsonView::Object(entries).get("href"@) == Some(entries[2].1),
{
    reveal_strlit("@context");
    reveal_strlit("href");
    reveal_strlit("type");
    crate::json::lemma_field_of_index(entries, "@context"@, 0);
    assert forall|j: int| 0 <= j < 1 implies entries[j].0 != "type"@ by {
        if j == 0 {
            assert("type"@.len() != "@context"@.len());
        }
    }
    crate::json::lemma_field_of_index(entries, "type"@, 1);
    assert forall|j: int| 0 <= j < 2 implies entries[j].0 != "href"@ by {
        if j == 0 {
            assert("href"@.len() != "@context"@.len());
        } else if j == 1 {
            assert("href"@[0] != "type"@[0]);
        }
    }
    crate::json::lemma_field_of_index(entries, "href"@, 2);
}

impl LinkView {
    /// Every URL and context is in normalised form.
    pub open spec fn canonical(self) -> bool {
        self.entity.wf() && self.href.wf()
    }
}

impl UrlReferenceView {
    /// Every URL and context is in normalised form, and the reference is not
    /// an empty list of bare URLs: that one reads back as an empty list of
    /// links, since links are tried first.
    pub open spec fn canonical(self) -> bool {
        match self {
            UrlReferenceView::Url(u) => u.wf(),
            UrlReferenceView::Link(l) => l.canonical(),
            UrlReferenceView::LinkList(l) => forall|i: int| 0 <= i < l.len() ==> (#[trigger] l[i]).canonical(),
            UrlReferenceView::UrlList(l) => l.len() > 0 && forall|i: int| 0 <= i < l.len() ==> (#[trigger] l[i]).wf(),
        }
    }
}

impl ObjectView {
    pub open spec fn canonical(self) -> bool {
        &&& self.entity.wf()
        &&& self.id.wf()
        &&& self.url matches Some(u) ==> u.canonical()
    }
}

impl ObjectReferenceView {
    pub open spec fn canonical(self) -> bool {
        match self {
            ObjectReferenceView::Object(o) => o.canonical(),
            ObjectReferenceView::Url(u) => u.wf(),
        }
    }
}

/// Decoding an encoded link gives it back.
pub proof fn lemma_link_round_trip(l: LinkView)
    requires
        l.canonical(),
    ensures
        spec_decode_link(spec_encode_link(l)) == Some(l),
{
    lemma_link_lookups(link_entries(l));
    crate::entity::lemma_read_context_round_trip(l.entity.context);
    crate::entity::lemma_type_name_round_trip(l.entity.object_type);
}

/// Decoding an encoded URL reference gives it back, whichever its shape.
pub proof fn lemma_url_reference_round_trip(r: UrlReferenceView)
    requires
        r.canonical(),
    ensures
        spec_decode_url_reference(spec_encode_url_reference(r)) == Some(r),
{
    match r {
        UrlReferenceView::Url(u) => {},
        UrlReferenceView::Link(l) => {
            lemma_link_round_trip(l);
        },
        UrlReferenceView::LinkList(l) => {
            let items = l.map_values(|x: LinkView| spec_encode_link(x));
            assert forall|i: int| 0 <= i < items.len() implies link_decoder()(#[trigger] items[i]) == Some(l[i]) by {
                lemma_link_round_trip(l[i]);
            }
            crate::json::lemma_decode_each_values(items, link_decoder(), l);
        },
        UrlReferenceView::UrlList(l) => {
            let items = l.map_values(|x: UrlView| JsonView::Str(x.href));
            lemma_decode_each(items, link_decoder());
            assert(link_decoder()(items[0]) is None);
            assert forall|i: int| 0 <= i < items.len() implies url_decoder()(#[trigger] items[i]) == Some(l[i]) by {
                assert(l[i].wf());
            }
            crate::json::lemma_decode_each_values(items, url_decoder(), l);
        },
    }
}

/// Reading back an encoded optional URL reference gives it back.
pub proof fn lemma_read_url_reference_round_trip(r: Option<UrlReferenceView>)
    requires
        r matches Some(v) ==> v.canonical(),
    ensures
        read_url_reference(
            if url_reference_or_null(r) is Null {
                None
            } else {
                Some(url_reference_or_null(r))
            },
        ) == r,
{
    if let Some(v) = r {
        lemma_url_reference_round_trip(v);
        match v {
            UrlReferenceView::Url(_) => {},
            UrlReferenceView::Link(_) => {},
            UrlReferenceView::LinkList(_) => {},
            UrlReferenceView::UrlList(_) => {},
        }
    }
}

/// Decoding an encoded object gives it back.
pub proof fn lemma_object_round_trip(o: ObjectView)
    requires
        o.canonical(),
    ensures
        spec_decode_object(spec_encode_object(o)) == Ok::<ObjectView, DecodeErrorView>(o),
{
    lemma_object_lookups(object_entries(o));
    crate::entity::lemma_read_context_round_trip(o.entity.context);
    crate::entity::lemma_type_name_round_trip(o.entity.object_type);
    lemma_read_url_reference_round_trip(o.url);
}

/// Decoding an encoded object reference gives it back, inline or by URL.
pub proof fn lemma_object_reference_round_trip(r: ObjectReferenceView)
    requires
        r.canonical(),
    ensures
        spec_decode_object_reference(spec_encode_object_reference(r)) == Some(r),
{
    match r {
        ObjectReferenceView::Object(o) => {
            lemma_object_round_trip(o);
        },
        ObjectReferenceView::Url(u) => {},
    }
}


/// The properties that every object exposes.
pub trait ObjectTrait {
    /// The object part of the value.
    spec fn object_view(&self) -> ObjectView;

    /// The `@context` property, if any.
    fn context(&self) -> (r: Option<&Context>)
        ensures
            opt_view(r) == self.object_view().entity.context;

    /// The unique identifier.
    fn object_id(&self) -> (r: &Url)
        ensures
            r@ == self.object_view().id;

    /// The unique identifier, as text.
    fn object_id_str(&self) -> (r: &str)
        ensures
            r@ == self.object_view().id.href;

    /// The kind of the object.
    fn entity_type(&self) -> (r: EntityType)
        ensures
            r == self.object_view().entity.object_type;
}

impl ObjectTrait for Object {
    open spec fn object_view(&self) -> ObjectView {
        self@
    }

    fn context(&self) -> (r: Option<&Context>) {
        self.entity.context.as_ref()
    }

    fn object_id(&self) -> (r: &Url) {
        &self.id
    }

    fn object_id_str(&self) -> (r: &str) {
        self.id.as_str()
    }

    fn entity_type(&self) -> (r: EntityType) {
        self.entity.object_type
    }
}

} // verus!
