//! Tags: hashtags, mentions, emojis and the like.
use vstd::prelude::*;
use crate::codec::{field_string, read_string, string_json, string_or_null};
use crate::entity::{Entity, EntityType, EntityView, entity_entries, spec_decode_entity};
use crate::image::{
    ImageReference, ImageReferenceView, image_reference_or_null, read_image_reference,
};
use crate::json::{JsonValue, JsonView, decode_each, entries_of, items_of, lemma_decode_each, lemma_seq_view, push_entry, push_item};
use crate::object::{UrlReference, UrlReferenceView, read_url_reference, url_reference_or_null};
use crate::text::{opt_view, vec_view};
use crate::url::Url;

verus! {

/// A tag. Despite the name it holds mentions, hashtags, emojis and others.
pub struct Tag {
    pub entity: Entity,
    /// What the tag refers to, e.g. the list of posts with a hashtag.
    pub id: Option<UrlReference>,
    /// Name of the tag, e.g. `#tag`.
    pub name: Option<String>,
    /// For an emoji, the image to show.
    pub icon: Option<ImageReference>,
}

pub struct TagView {
    pub entity: EntityView,
    pub id: Option<UrlReferenceView>,
    pub name: Option<Seq<char>>,
    pub icon: Option<ImageReferenceView>,
}

impl View for Tag {
    type V = TagView;

    open spec fn view(&self) -> TagView {
        TagView { entity: self.entity@, id: opt_view(self.id), name: opt_view(self.name), icon: opt_view(self.icon) }
    }
}

/// One tag or a list of them.
pub enum TagReference {
    Single(Box<Tag>),
    List(Vec<Tag>),
}

pub enum TagReferenceView {
    Single(TagView),
    List(Seq<TagView>),
}

impl View for TagReference {
    type V = TagReferenceView;

    open spec fn view(&self) -> TagReferenceView {
        match self {
            TagReference::Single(t) => TagReferenceView::Single(t@),
            TagReference::List(l) => TagReferenceView::List(vec_view(*l)),
        }
    }
}

impl TagReferenceView {
    pub open spec fn tags(self) -> Seq<TagView> {
        match self {
            TagReferenceView::Single(t) => seq![t],
            TagReferenceView::List(l) => l,
        }
    }
}

/// A property read under its name or, when that gives nothing, its alias.
pub open spec fn or_alias<T>(first: Option<T>, second: Option<T>) -> Option<T> {
    match first {
        Some(v) => Some(v),
        None => second,
    }
}

pub open spec fn spec_decode_tag(j: JsonView) -> Option<TagView> {
    match spec_decode_entity(j) {
        Ok(entity) => Some(
            TagView {
                entity,
                id: or_alias(read_url_reference(j.get_present("id"@)), read_url_reference(j.get_present("href"@))),
                name: or_alias(read_string(j.get_present("name"@)), read_string(j.get_present("tag"@))),
                icon: or_alias(
                    read_image_reference(j.get_present("icon"@)),
                    read_image_reference(j.get_present("image"@)),
                ),
            },
        ),
        Err(_) => None,
    }
}

pub open spec fn tag_decoder() -> spec_fn(JsonView) -> Option<TagView> {
    |j: JsonView| spec_decode_tag(j)
}

/// A tag reference is one tag or, failing that, a list of tags.
pub open spec fn spec_decode_tag_reference(j: JsonView) -> Option<TagReferenceView> {
    match spec_decode_tag(j) {
        Some(t) => Some(TagReferenceView::Single(t)),
        None => match j {
            JsonView::Array(items) => match decode_each(items, tag_decoder()) {
                Some(l) => Some(TagReferenceView::List(l)),
                None => None,
            },
            _ => None,
        },
    }
}

pub open spec fn read_tag_reference(j: Option<JsonView>) -> Option<TagReferenceView> {
    match j {
        Some(v) => spec_decode_tag_reference(v),
        None => None,
    }
}

pub open spec fn tag_entries(t: TagView) -> Seq<(Seq<char>, JsonView)> {
    entity_entries(t.entity) + seq![
        ("id"@, url_reference_or_null(t.id)),
        ("name"@, string_or_null(t.name)),
        ("icon"@, image_reference_or_null(t.icon)),
    ]
}

pub open spec fn spec_encode_tag(t: TagView) -> JsonView {
    JsonView::Object(tag_entries(t))
}

pub open spec fn spec_encode_tag_reference(r: TagReferenceView) -> JsonView {
    match r {
        TagReferenceView::Single(t) => spec_encode_tag(t),
        TagReferenceView::List(l) => JsonView::Array(l.map_values(|t: TagView| spec_encode_tag(t))),
    }
}

pub open spec fn tag_reference_or_null(r: Option<TagReferenceView>) -> JsonView {
    match r {
        Some(v) => spec_encode_tag_reference(v),
        None => JsonView::Null,
    }
}

impl Tag {
    /// Any URL that the tag refers to.
    pub fn object_id(&self) -> (r: Option<Url>)
        ensures
            opt_view(r) == match self@.id {
                Some(u) => u.any_url(),
                None => None,
            },
    {
        match &self.id {
            Some(reference) => reference.any_url(),
            None => None,
        }
    }

    pub fn entity_type(&self) -> (r: EntityType)
        ensures
            r == self.entity.object_type,
    {
        self.entity.object_type
    }

    pub fn decode(j: &JsonValue) -> (r: Option<Tag>)
        ensures
            opt_view(r) == spec_decode_tag(j@),
    {
        let entity = match Entity::decode(j) {
            Ok(e) => e,
            Err(_) => { return None; },
        };
        let id = match j.get_present("id") {
            Some(v) => UrlReference::decode(v),
            None => None,
        };
        let id = match id {
            Some(v) => Some(v),
            None => match j.get_present("href") {
                Some(v) => UrlReference::decode(v),
                None => None,
            },
        };
        let name = match field_string(j, "name") {
            Some(v) => Some(v),
            None => field_string(j, "tag"),
        };
        let icon = match j.get_present("icon") {
            Some(v) => ImageReference::decode(v),
            None => None,
        };
        let icon = match icon {
            Some(v) => Some(v),
            None => match j.get_present("image") {
                Some(v) => ImageReference::decode(v),
                None => None,
            },
        };
        Some(Tag { entity, id, name, icon })
    }

    pub fn to_json(&self) -> (r: JsonValue)
        ensures
            r@ == spec_encode_tag(self@),
    {
        let mut out: Vec<(String, JsonValue)> = Vec::new();
        proof {
            assert(entries_of(out) =~= Seq::empty());
        }
        self.entity.push_entries(&mut out);
        let id = match &self.id {
            Some(v) => v.to_json(),
            None => JsonValue::Null,
        };
        push_entry(&mut out, "id", id);
        push_entry(&mut out, "name", string_json(&self.name));
        let icon = match &self.icon {
            Some(v) => v.to_json(),
            None => JsonValue::Null,
        };
        push_entry(&mut out, "icon", icon);
        proof {
            assert(entries_of(out) =~= tag_entries(self@));
        }
        JsonValue::Object(out)
    }
}

impl TagReference {
    /// The tags, in document order.
    pub fn as_vec(&self) -> (r: Vec<&Tag>)
        ensures
            r@.len() == self@.tags().len(),
            forall|i: int| 0 <= i < r@.len() ==> (#[trigger] r@[i])@ == self@.tags()[i],
    {
        match self {
            TagReference::Single(tag) => {
                let t: &Tag = tag;
                vec![t]
            },
            TagReference::List(tags) => {
                let mut out: Vec<&Tag> = Vec::new();
                let mut i: usize = 0;
                while i < tags.len()
                    invariant
                        i <= tags@.len(),
                        out@.len() == i,
                        self@.tags() == vec_view(*tags),
                        forall|k: int| 0 <= k < i ==> (#[trigger] out@[k])@ == tags@[k]@,
                    decreases tags@.len() - i,
                {
                    out.push(&tags[i]);
                    i = i + 1;
                }
                out
            },
        }
    }

    pub fn decode(j: &JsonValue) -> (r: Option<TagReference>)
        ensures
            opt_view(r) == spec_decode_tag_reference(j@),
    {
        match Tag::decode(j) {
            Some(t) => { return Some(TagReference::Single(Box::new(t))); },
            None => {},
        }
        match j {
            JsonValue::Array(items) => {
                let ghost views = items_of(*items);
                proof {
                    lemma_seq_view(items@, items@.len() as int);
                }
                let mut out: Vec<Tag> = Vec::new();
                let mut i: usize = 0;
                while i < items.len()
                    invariant
                        j@ == JsonView::Array(views),
                        spec_decode_tag(j@) is None,
                        i <= items@.len(),
                        out@.len() == i,
                        views.len() == items@.len(),
                        forall|k: int| 0 <= k < items@.len() ==> #[trigger] views[k] == items@[k]@,
                        forall|k: int| 0 <= k < i ==> tag_decoder()(#[trigger] views[k]) == Some(out@[k]@),
                    decreases items@.len() - i,
                {
                    match Tag::decode(&items[i]) {
                        Some(x) => out.push(x),
                        None => {
                            proof {
                                lemma_decode_each(views, tag_decoder());
                                assert(tag_decoder()(views[i as int]) is None);
                            }
                            return None;
                        },
                    }
                    i = i + 1;
                }
                proof {
                    crate::json::lemma_decode_each_values(views, tag_decoder(), vec_view(out));
                }
                Some(TagReference::List(out))
            },
            _ => None,
        }
    }

    pub fn to_json(&self) -> (r: JsonValue)
        ensures
            r@ == spec_encode_tag_reference(self@),
    {
        match self {
            TagReference::Single(t) => t.to_json(),
            TagReference::List(l) => {
                let ghost target = vec_view(*l).map_values(|x: TagView| spec_encode_tag(x));
                let mut out: Vec<JsonValue> = Vec::new();
                let mut i: usize = 0;
                proof {
                    assert(items_of(out) =~= target.take(0));
                }
                while i < l.len()
                    invariant
                        i <= l@.len(),
                        target == vec_view(*l).map_values(|x: TagView| spec_encode_tag(x)),
                        items_of(out) == target.take(i as int),
                    decreases l@.len() - i,
                {
                    push_item(&mut out, l[i].to_json());
                    proof {
                        assert(target.take(i + 1) =~= target.take(i as int).push(target[i as int]));
                    }
                    i = i + 1;
                }
                proof {
                    assert(target.take(l@.len() as int) =~= target);
                }
                JsonValue::Array(out)
            },
        }
    }
}

/// Looking up each property of an encoded tag finds its entry.
pub proof fn lemma_tag_lookups(entries: Seq<(Seq<char>, JsonView)>)
    requires
        entries.len() == 5,
        entries[0].0 == "@context"@,
        entries[1].0 == "type"@,
        entries[2].0 == "id"@,
        entries[3].0 == "name"@,
        entries[4].0 == "icon"@,
    ensures
        JsonView::Object(entries).get("@context"@) == Some(entries[0].1),
        JsonView::Object(entries).get("type"@) == Some(entries[1].1),
        JsonView::Object(entries).get("id"@) == Some(entries[2].1),
        JsonView::Object(entries).get("name"@) == Some(entries[3].1),
        JsonView::Object(entries).get("icon"@) == Some(entries[4].1),
        JsonView::Object(entries).get("href"@) is None,
        JsonView::Object(entries).get("tag"@) is None,
        JsonView::Object(entries).get("image"@) is None,
{
    reveal_strlit("@context");
    reveal_strlit("href");
    reveal_strlit("icon");
    reveal_strlit("id");
    reveal_strlit("image");
    reveal_strlit("name");
    reveal_strlit("tag");
    reveal_strlit("type");
    crate::json::lemma_field_of_index(entries, "@context"@, 0);
    assert forall|j: int| 0 <= j < 1 implies entries[j].0 != "type"@ by {
        if j == 0 {
            assert("type"@.len() != "@context"@.len());
        }
    }
    crate::json::lemma_field_of_index(entries, "type"@, 1);
    assert forall|j: int| 0 <= j < 2 implies entries[j].0 != "id"@ by {
        if j == 0 {
            assert("id"@.len() != "@context"@.len());
        } else if j == 1 {
            assert("id"@.len() != "type"@.len());
        }
    }
    crate::json::lemma_field_of_index(entries, "id"@, 2);
    assert forall|j: int| 0 <= j < 3 implies entries[j].0 != "name"@ by {
        if j == 0 {
            assert("name"@.len() != "@context"@.len());
        } else if j == 1 {
            assert("name"@[0] != "type"@[0]);
        } else if j == 2 {
            assert("name"@.len() != "id"@.len());
        }
    }
    crate::json::lemma_field_of_index(entries, "name"@, 3);
    assert forall|j: int| 0 <= j < 4 implies entries[j].0 != "icon"@ by {
        if j == 0 {
            assert("icon"@.len() != "@context"@.len());
        } else if j == 1 {
            assert("icon"@[0] != "type"@[0]);
        } else if j == 2 {
            assert("icon"@.len() != "id"@.len());
        } else if j == 3 {
            assert("icon"@[0] != "name"@[0]);
        }
    }
    crate::json::lemma_field_of_index(entries, "icon"@, 4);
    assert forall|j: int| 0 <= j < 5 implies #[trigger] entries[j].0 != "href"@ by {
        if j == 0 {
            assert("href"@.len() != "@context"@.len());
        } else if j == 1 {
            assert("href"@[0] != "type"@[0]);
        } else if j == 2 {
            assert("href"@.len() != "id"@.len());
        } else if j == 3 {
            assert("href"@[0] != "name"@[0]);
        } else if j == 4 {
            assert("href"@[0] != "icon"@[0]);
        }
    }
    crate::json::lemma_absent_lookup(entries, "href"@);
    assert forall|j: int| 0 <= j < 5 implies #[trigger] entries[j].0 != "tag"@ by {
        if j == 0 {
            assert("tag"@.len() != "@context"@.len());
        } else if j == 1 {
            assert("tag"@.len() != "type"@.len());
        } else if j == 2 {
            assert("tag"@.len() != "id"@.len());
        } else if j == 3 {
            assert("tag"@.len() != "name"@.len());
        } else if j == 4 {
            assert("tag"@.len() != "icon"@.len());
        }
    }
    crate::json::lemma_absent_lookup(entries, "tag"@);
    assert forall|j: int| 0 <= j < 5 implies #[trigger] entries[j].0 != "image"@ by {
        if j == 0 {
            assert("image"@.len() != "@context"@.len());
        } else if j == 1 {
            assert("image"@.len() != "type"@.len());
        } else if j == 2 {
            assert("image"@.len() != "id"@.len());
        } else if j == 3 {
            assert("image"@.len() != "name"@.len());
        } else if j == 4 {
            assert("image"@.len() != "icon"@.len());
        }
    }
    crate::json::lemma_absent_lookup(entries, "image"@);
}

impl TagView {
    pub open spec fn canonical(self) -> bool {
        &&& self.entity.wf()
        &&& self.id matches Some(u) ==> u.canonical()
        &&& self.icon matches Some(i) ==> i.canonical()
    }
}

impl TagReferenceView {
    pub open spec fn canonical(self) -> bool {
        match self {
            TagReferenceView::Single(t) => t.canonical(),
            TagReferenceView::List(l) => forall|i: int| 0 <= i < l.len() ==> (#[trigger] l[i]).canonical(),
        }
    }
}

/// Decoding an encoded tag gives it back.
pub proof fn lemma_tag_round_trip(t: TagView)
    requires
        t.canonical(),
    ensures
        spec_decode_tag(spec_encode_tag(t)) == Some(t),
{
    lemma_tag_lookups(tag_entries(t));
    crate::entity::lemma_read_context_round_trip(t.entity.context);
    crate::entity::lemma_type_name_round_trip(t.entity.object_type);
    crate::object::lemma_read_url_reference_round_trip(t.id);
    crate::image::lemma_read_image_reference_round_trip(t.icon);
}

/// Decoding an encoded tag reference gives it back, single or list.
pub proof fn lemma_tag_reference_round_trip(r: TagReferenceView)
    requires
        r.canonical(),
    ensures
        spec_decode_tag_reference(spec_encode_tag_reference(r)) == Some(r),
{
    match r {
        TagReferenceView::Single(t) => {
            lemma_tag_round_trip(t);
        },
        TagReferenceView::List(l) => {
            let items = l.map_values(|x: TagView| spec_encode_tag(x));
            assert forall|k: int| 0 <= k < items.len() implies tag_decoder()(#[trigger] items[k]) == Some(l[k]) by {
                lemma_tag_round_trip(l[k]);
            }
            crate::json::lemma_decode_each_values(items, tag_decoder(), l);
        },
    }
}

/// Reading back an encoded optional tag reference gives it back.
pub proof fn lemma_read_tag_reference_round_trip(r: Option<TagReferenceView>)
    requires
        r matches Some(v) ==> v.canonical(),
    ensures
        read_tag_reference(
            if tag_reference_or_null(r) is Null {
                None
            } else {
                Some(tag_reference_or_null(r))
            },
        ) == r,
{
    if let Some(v) = r {
        lemma_tag_reference_round_trip(v);
        match v {
            TagReferenceView::Single(_) => {},
            TagReferenceView::List(_) => {},
        }
    }
}

} // verus!
