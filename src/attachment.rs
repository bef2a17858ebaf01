//! Attachments: files, links and property-value pairs.
use vstd::prelude::*;
use crate::codec::{field_string, field_url, read_string, read_url, string_json, string_or_null, url_json, url_or_null};
use crate::entity::{EntityType, entity_type_named, kind_name};
use crate::json::{JsonValue, JsonView, decode_each, entries_of, items_of, lemma_decode_each, lemma_seq_view, push_entry, push_item};
use crate::tag::or_alias;
use crate::text::{opt_view, vec_view};
use crate::url::{Url, UrlView};

verus! {

/// An attachment. It takes many forms; a `PropertyValue` carries a named
/// value in `name` and `content`.
pub struct Attachment {
    pub object_type: EntityType,
    pub content: Option<String>,
    pub name: Option<String>,
    pub url: Option<Url>,
    pub media_type: Option<String>,
}

pub struct AttachmentView {
    pub object_type: EntityType,
    pub content: Option<Seq<char>>,
    pub name: Option<Seq<char>>,
    pub url: Option<UrlView>,
    pub media_type: Option<Seq<char>>,
}

impl View for Attachment {
    type V = AttachmentView;

    open spec fn view(&self) -> AttachmentView {
        AttachmentView {
            object_type: self.object_type,
            content: opt_view(self.content),
            name: opt_view(self.name),
            url: opt_view(self.url),
            media_type: opt_view(self.media_type),
        }
    }
}

/// One attachment or a list of them.
pub enum AttachmentReference {
    Single(Attachment),
    List(Vec<Attachment>),
}

pub enum AttachmentReferenceView {
    Single(AttachmentView),
    List(Seq<AttachmentView>),
}

impl View for AttachmentReference {
    type V = AttachmentReferenceView;

    open spec fn view(&self) -> AttachmentReferenceView {
        match self {
            AttachmentReference::Single(a) => AttachmentReferenceView::Single(a@),
            AttachmentReference::List(l) => AttachmentReferenceView::List(vec_view(*l)),
        }
    }
}

impl AttachmentReferenceView {
    pub open spec fn attachments(self) -> Seq<AttachmentView> {
        match self {
            AttachmentReferenceView::Single(a) => seq![a],
            AttachmentReferenceView::List(l) => l,
        }
    }
}

pub open spec fn spec_decode_attachment(j: JsonView) -> Option<AttachmentView> {
    match j.get_present("type"@) {
        Some(JsonView::Str(t)) => Some(
            AttachmentView {
                object_type: entity_type_named(t),
                content: or_alias(read_string(j.get_present("content"@)), read_string(j.get_present("value"@))),
                name: read_string(j.get_present("name"@)),
                url: or_alias(read_url(j.get_present("url"@)), read_url(j.get_present("href"@))),
                media_type: or_alias(
                    read_string(j.get_present("media_type"@)),
                    read_string(j.get_present("mediaType"@)),
                ),
            },
        ),
        _ => None,
    }
}

pub open spec fn attachment_decoder() -> spec_fn(JsonView) -> Option<AttachmentView> {
    |j: JsonView| spec_decode_attachment(j)
}

/// An attachment reference is one attachment or, failing that, a list.
pub open spec fn spec_decode_attachment_reference(j: JsonView) -> Option<AttachmentReferenceView> {
    match spec_decode_attachment(j) {
        Some(a) => Some(AttachmentReferenceView::Single(a)),
        None => match j {
            JsonView::Array(items) => match decode_each(items, attachment_decoder()) {
                Some(l) => Some(AttachmentReferenceView::List(l)),
                None => None,
            },
            _ => None,
        },
    }
}

pub open spec fn read_attachment_reference(j: Option<JsonView>) -> Option<AttachmentReferenceView> {
    match j {
        Some(v) => spec_decode_attachment_reference(v),
        None => None,
    }
}

pub open spec fn attachment_entries(a: AttachmentView) -> Seq<(Seq<char>, JsonView)> {
    seq![
        ("type"@, JsonView::Str(kind_name(a.object_type))),
        ("content"@, string_or_null(a.content)),
        ("name"@, string_or_null(a.name)),
        ("url"@, url_or_null(a.url)),
        ("media_type"@, string_or_null(a.media_type)),
    ]
}

pub open spec fn spec_encode_attachment(a: AttachmentView) -> JsonView {
    JsonView::Object(attachment_entries(a))
}

pub open spec fn spec_encode_attachment_reference(r: AttachmentReferenceView) -> JsonView {
    match r {
        AttachmentReferenceView::Single(a) => spec_encode_attachment(a),
        AttachmentReferenceView::List(l) => JsonView::Array(l.map_values(|a: AttachmentView| spec_encode_attachment(a))),
    }
}

pub open spec fn attachment_reference_or_null(r: Option<AttachmentReferenceView>) -> JsonView {
    match r {
        Some(v) => spec_encode_attachment_reference(v),
        None => JsonView::Null,
    }
}

impl Attachment {
    pub fn decode(j: &JsonValue) -> (r: Option<Attachment>)
        ensures
            opt_view(r) == spec_decode_attachment(j@),
    {
        let object_type = match j.get_present("type") {
            Some(JsonValue::Str(t)) => EntityType::from_name(t.as_str()),
            _ => { return None; },
        };
        let content = match field_string(j, "content") {
            Some(v) => Some(v),
            None => field_string(j, "value"),
        };
        let url = match field_url(j, "url") {
            Some(v) => Some(v),
            None => field_url(j, "href"),
        };
        let media_type = match field_string(j, "media_type") {
            Some(v) => Some(v),
            None => field_string(j, "mediaType"),
        };
        Some(Attachment { object_type, content, name: field_string(j, "name"), url, media_type })
    }

    pub fn to_json(&self) -> (r: JsonValue)
        ensures
            r@ == spec_encode_attachment(self@),
    {
        let mut out: Vec<(String, JsonValue)> = Vec::new();
        proof {
            assert(entries_of(out) =~= Seq::empty());
        }
        push_entry(&mut out, "type", JsonValue::Str(self.object_type.as_str().to_owned()));
        push_entry(&mut out, "content", string_json(&self.content));
        push_entry(&mut out, "name", string_json(&self.name));
        push_entry(&mut out, "url", url_json(&self.url));
        push_entry(&mut out, "media_type", string_json(&self.media_type));
        proof {
            assert(entries_of(out) =~= attachment_entries(self@));
        }
        JsonValue::Object(out)
    }
}

impl AttachmentReference {
    /// The attachments, in document order.
    pub fn as_vec(&self) -> (r: Vec<&Attachment>)
        ensures
            r@.len() == self@.attachments().len(),
            forall|i: int| 0 <= i < r@.len() ==> (#[trigger] r@[i])@ == self@.attachments()[i],
    {
        match self {
            AttachmentReference::Single(a) => vec![a],
            AttachmentReference::List(l) => {
                let mut out: Vec<&Attachment> = Vec::new();
                let mut i: usize = 0;
                while i < l.len()
                    invariant
                        i <= l@.len(),
                        out@.len() == i,
                        self@.attachments() == vec_view(*l),
                        forall|k: int| 0 <= k < i ==> (#[trigger] out@[k])@ == l@[k]@,
                    decreases l@.len() - i,
                {
                    out.push(&l[i]);
                    i = i + 1;
                }
                out
            },
        }
    }

    /// Consumes the reference and returns its attachments in document order.
    pub fn into_vec(self) -> (r: Vec<Attachment>)
        ensures
            vec_view(r) == self@.attachments(),
    {
        match self {
            AttachmentReference::Single(a) => {
                let r = vec![a];
                assert(vec_view(r) =~= self@.attachments());
                r
            },
            AttachmentReference::List(l) => l,
        }
    }

    pub fn decode(j: &JsonValue) -> (r: Option<AttachmentReference>)
        ensures
            opt_view(r) == spec_decode_attachment_reference(j@),
    {
        match Attachment::decode(j) {
            Some(a) => { return Some(AttachmentReference::Single(a)); },
            None => {},
        }
        match j {
            JsonValue::Array(items) => {
                let ghost views = items_of(*items);
                proof {
                    lemma_seq_view(items@, items@.len() as int);
                }
                let mut out: Vec<Attachment> = Vec::new();
                let mut i: usize = 0;
                while i < items.len()
                    invariant
                        j@ == JsonView::Array(views),
                        spec_decode_attachment(j@) is None,
                        i <= items@.len(),
                        out@.len() == i,
                        views.len() == items@.len(),
                        forall|k: int| 0 <= k < items@.len() ==> #[trigger] views[k] == items@[k]@,
                        forall|k: int| 0 <= k < i ==> attachment_decoder()(#[trigger] views[k]) == Some(out@[k]@),
                    decreases items@.len() - i,
                {
                    match Attachment::decode(&items[i]) {
                        Some(x) => out.push(x),
                        None => {
                            proof {
                                lemma_decode_each(views, attachment_decoder());
                                assert(attachment_decoder()(views[i as int]) is None);
                            }
                            return None;
                        },
                    }
                    i = i + 1;
                }
                proof {
                    crate::json::lemma_decode_each_values(views, attachment_decoder(), vec_view(out));
                }
                Some(AttachmentReference::List(out))
            },
            _ => None,
        }
    }

    pub fn to_json(&self) -> (r: JsonValue)
        ensures
            r@ == spec_encode_attachment_reference(self@),
    {
        match self {
            AttachmentReference::Single(a) => a.to_json(),
            AttachmentReference::List(l) => {
                let ghost target = vec_view(*l).map_values(|x: AttachmentView| spec_encode_attachment(x));
                let mut out: Vec<JsonValue> = Vec::new();
                let mut i: usize = 0;
                proof {
                    assert(items_of(out) =~= target.take(0));
                }
                while i < l.len()
                    invariant
                        i <= l@.len(),
                        target == vec_view(*l).map_values(|x: AttachmentView| spec_encode_attachment(x)),
                        items_of(out) == target.take(i as int),
                    decreases l@.len() - i,
                {
                    push_item(&mut out, l[i].to_json());
                    proof {
                        assert(target.take(i + 1) =~= target.take(i as int).push(target[i as int]));
                    }
                    i = i + 1;
                }
                proof {
                    assert(target.take(l@.len() as int) =~= target);
                }
                JsonValue::Array(out)
            },
        }
    }
}

/// Looking up each property of an encoded attachment finds its entry.
pub proof fn lemma_attachment_lookups(entries: Seq<(Seq<char>, JsonView)>)
    requires
        entries.len() == 5,
        entries[0].0 == "type"@,
        entries[1].0 == "content"@,
        entries[2].0 == "name"@,
        entries[3].0 == "url"@,
        entries[4].0 == "media_type"@,
    ensures
        JsonView::Object(entries).get("type"@) == Some(entries[0].1),
        JsonView::Object(entries).get("content"@) == Some(entries[1].1),
        JsonView::Object(entries).get("name"@) == Some(entries[2].1),
        JsonView::Object(entries).get("url"@) == Some(entries[3].1),
        JsonView::Object(entries).get("media_type"@) == Some(entries[4].1),
        JsonView::Object(entries).get("value"@) is None,
        JsonView::Object(entries).get("href"@) is None,
        JsonView::Object(entries).get("mediaType"@) is None,
{
    reveal_strlit("content");
    reveal_strlit("href");
    reveal_strlit("mediaType");
    reveal_strlit("media_type");
    reveal_strlit("name");
    reveal_strlit("type");
    reveal_strlit("url");
    reveal_strlit("value");
    crate::json::lemma_field_of_index(entries, "type"@, 0);
    assert forall|j: int| 0 <= j < 1 implies entries[j].0 != "content"@ by {
        if j == 0 {
            assert("content"@.len() != "type"@.len());
        }
    }
    crate::json::lemma_field_of_index(entries, "content"@, 1);
    assert forall|j: int| 0 <= j < 2 implies entries[j].0 != "name"@ by {
        if j == 0 {
            assert("name"@[0] != "type"@[0]);
        } else if j == 1 {
            assert("name"@.len() != "content"@.len());
        }
    }
    crate::json::lemma_field_of_index(entries, "name"@, 2);
    assert forall|j: int| 0 <= j < 3 implies entries[j].0 != "url"@ by {
        if j == 0 {
            assert("url"@.len() != "type"@.len());
        } else if j == 1 {
            assert("url"@.len() != "content"@.len());
        } else if j == 2 {
            assert("url"@.len() != "name"@.len());
        }
    }
    crate::json::lemma_field_of_index(entries, "url"@, 3);
    assert forall|j: int| 0 <= j < 4 implies entries[j].0 != "media_type"@ by {
        if j == 0 {
            assert("media_type"@.len() != "type"@.len());
        } else if j == 1 {
            assert("media_type"@.len() != "content"@.len());
        } else if j == 2 {
            assert("media_type"@.len() != "name"@.len());
        } else if j == 3 {
            assert("media_type"@.len() != "url"@.len());
        }
    }
    crate::json::lemma_field_of_index(entries, "media_type"@, 4);
    assert forall|j: int| 0 <= j < 5 implies #[trigger] entries[j].0 != "value"@ by {
        if j == 0 {
            assert("value"@.len() != "type"@.len());
        } else if j == 1 {
            assert("value"@.len() != "content"@.len());
        } else if j == 2 {
            assert("value"@.len() != "name"@.len());
        } else if j == 3 {
            assert("value"@.len() != "url"@.len());
        } else if j == 4 {
            assert("value"@.len() != "media_type"@.len());
        }
    }
    crate::json::lemma_absent_lookup(entries, "value"@);
    assert forall|j: int| 0 <= j < 5 implies #[trigger] entries[j].0 != "href"@ by {
        if j == 0 {
            assert("href"@[0] != "type"@[0]);
        } else if j == 1 {
            assert("href"@.len() != "content"@.len());
        } else if j == 2 {
            assert("href"@[0] != "name"@[0]);
        } else if j == 3 {
            assert("href"@.len() != "url"@.len());
        } else if j == 4 {
            assert("href"@.len() != "media_type"@.len());
        }
    }
    crate::json::lemma_absent_lookup(entries, "href"@);
    assert forall|j: int| 0 <= j < 5 implies #[trigger] entries[j].0 != "mediaType"@ by {
        if j == 0 {
            assert("mediaType"@.len() != "type"@.len());
        } else if j == 1 {
            assert("mediaType"@.len() != "content"@.len());
        } else if j == 2 {
            assert("mediaType"@.len() != "name"@.len());
        } else if j == 3 {
            assert("mediaType"@.len() != "url"@.len());
        } else if j == 4 {
            assert("mediaType"@.len() != "media_type"@.len());
        }
    }
    crate::json::lemma_absent_lookup(entries, "mediaType"@);
}

impl AttachmentView {
    pub open spec fn canonical(self) -> bool {
        self.url matches Some(u) ==> u.wf()
    }
}

impl AttachmentReferenceView {
    pub open spec fn canonical(self) -> bool {
        match self {
            AttachmentReferenceView::Single(a) => a.canonical(),
            AttachmentReferenceView::List(l) => forall|i: int| 0 <= i < l.len() ==> (#[trigger] l[i]).canonical(),
        }
    }
}

/// Decoding an encoded attachment gives it back.
pub proof fn lemma_attachment_round_trip(a: AttachmentView)
    requires
        a.canonical(),
    ensures
        spec_decode_attachment(spec_encode_attachment(a)) == Some(a),
{
    lemma_attachment_lookups(attachment_entries(a));
    crate::entity::lemma_type_name_round_trip(a.object_type);
}

/// Decoding an encoded attachment reference gives it back, single or list.
pub proof fn lemma_attachment_reference_round_trip(r: AttachmentReferenceView)
    requires
        r.canonical(),
    ensures
        spec_decode_attachment_reference(spec_encode_attachment_reference(r)) == Some(r),
{
    match r {
        AttachmentReferenceView::Single(a) => {
            lemma_attachment_round_trip(a);
        },
        AttachmentReferenceView::List(l) => {
            let items = l.map_values(|x: AttachmentView| spec_encode_attachment(x));
            assert forall|k: int| 0 <= k < items.len() implies attachment_decoder()(#[trigger] items[k]) == Some(l[k]) by {
                lemma_attachment_round_trip(l[k]);
            }
            crate::json::lemma_decode_each_values(items, attachment_decoder(), l);
        },
    }
}

/// Reading back an encoded optional attachment reference gives it back.
pub proof fn lemma_read_attachment_reference_round_trip(r: Option<AttachmentReferenceView>)
    requires
        r matches Some(v) ==> v.canonical(),
    ensures
        read_attachment_reference(
            if attachment_reference_or_null(r) is Null {
                None
            } else {
                Some(attachment_reference_or_null(r))
            },
        ) == r,
{
    if let Some(v) = r {
        lemma_attachment_reference_round_trip(v);
        match v {
            AttachmentReferenceView::Single(_) => {},
            AttachmentReferenceView::List(_) => {},
        }
    }
}

} // verus!
