//! Activities: an actor doing something to a payload object.
use vstd::prelude::*;
use vstd::string::StringExecFns;
use crate::actor::{
    ActorReference, CompoundActorReference, CompoundActorReferenceView, spec_decode_compound_actor_reference,
    spec_encode_compound_actor_reference,
};
use crate::codec::{DecodeError, DecodeErrorView, invalid_field, read_url, result_view};
use crate::entity::{EntityType, entity_type_from, spec_entity_type_from};
use crate::json::{JsonValue, JsonView, entries_of, items_of, lemma_seq_view, push_entry};
use crate::context::Context;
use crate::object::{ObjectTrait, 
    Object, ObjectReference, ObjectView, object_entries, spec_decode_object, spec_encode_object_reference,
};
use crate::text::{contains_text, has_substring, opt_view};
use crate::url::{Url, UrlError, UrlView, parsed_url, url_join};

verus! {

/// An activity, e.g. a `Create` or a `Delete`. The payload is kept as JSON
/// because its shape depends on the kind of activity.
pub struct Activity {
    pub object_entity: Object,
    /// The `to` property of the activity itself.
    pub to: Option<JsonValue>,
    /// The payload: an object, a URL, or anything else.
    pub object: JsonValue,
    /// Who performs the activity.
    pub actor: CompoundActorReference,
}

pub struct ActivityView {
    pub object_entity: ObjectView,
    pub to: Option<JsonView>,
    pub object: JsonView,
    pub actor: CompoundActorReferenceView,
}

impl View for Activity {
    type V = ActivityView;

    open spec fn view(&self) -> ActivityView {
        ActivityView {
            object_entity: self.object_entity@,
            to: opt_view(self.to),
            object: self.object@,
            actor: self.actor@,
        }
    }
}

/// A text value that contains `pattern`.
pub open spec fn text_contains(v: JsonView, pattern: Seq<char>) -> bool {
    v matches JsonView::Str(s) && has_substring(s, pattern)
}

/// An object whose `id` is a text that contains `pattern`.
pub open spec fn id_contains(v: JsonView, pattern: Seq<char>) -> bool {
    v is Object && match v.get("id"@) {
        Some(id) => text_contains(id, pattern),
        None => false,
    }
}

/// An addressee list entry matches when it is a text, or an object with an
/// `id` text, that contains `pattern`.
pub open spec fn entry_matches(v: JsonView, pattern: Seq<char>) -> bool {
    text_contains(v, pattern) || id_contains(v, pattern)
}

/// A `to` value matches when it is a text that contains `pattern`, a list
/// with an entry that matches, or an object whose `id` contains `pattern`.
/// This is deliberately loose: containment, not equality.
pub open spec fn addressee_matches(v: JsonView, pattern: Seq<char>) -> bool {
    match v {
        JsonView::Array(items) => exists|i: int| 0 <= i < items.len() && #[trigger] entry_matches(items[i], pattern),
        _ => entry_matches(v, pattern),
    }
}

impl ActivityView {
    /// The kind named by the payload's `type`, as [`spec_entity_type_from`]
    /// reads it; `Unknown` when the payload is not an object with a text `type`.
    pub open spec fn inner_object_type(self) -> EntityType {
        match self.object {
            JsonView::Object(_) => match self.object.get("type"@) {
                Some(JsonView::Str(t)) => spec_entity_type_from(t),
                _ => EntityType::Unknown,
            },
            _ => EntityType::Unknown,
        }
    }

    /// The payload's `id` URL, or the payload itself when it is a URL.
    pub open spec fn inner_object_id(self) -> Option<UrlView> {
        match self.object {
            JsonView::Object(_) => read_url(self.object.get("id"@)),
            JsonView::Str(s) => parsed_url(s),
            _ => None,
        }
    }

    /// The activity's own `to` matches; or the payload is a text that
    /// contains `pattern`; or the payload's `to` matches.
    pub open spec fn to_field_matches(self, pattern: Seq<char>) -> bool {
        (self.to matches Some(t) && addressee_matches(t, pattern)) || match self.object {
            JsonView::Str(s) => has_substring(s, pattern),
            JsonView::Object(_) => match self.object.get("to"@) {
                Some(t) => addressee_matches(t, pattern),
                None => false,
            },
            _ => false,
        }
    }
}

pub open spec fn spec_decode_activity(j: JsonView) -> Result<ActivityView, DecodeErrorView> {
    match spec_decode_object(j) {
        Err(e) => Err(e),
        Ok(object_entity) => match j.get_present("actor"@) {
            None => Err(DecodeErrorView::InvalidField("actor"@)),
            Some(a) => match spec_decode_compound_actor_reference(a) {
                None => Err(DecodeErrorView::InvalidField("actor"@)),
                Some(actor) => Ok(
                    ActivityView {
                        object_entity,
                        to: j.get_present("to"@),
                        object: match j.get("object"@) {
                            Some(o) => o,
                            None => JsonView::Null,
                        },
                        actor,
                    },
                ),
            },
        },
    }
}

pub open spec fn activity_entries(a: ActivityView) -> Seq<(Seq<char>, JsonView)> {
    object_entries(a.object_entity) + seq![
        ("to"@, match a.to { Some(t) => t, None => JsonView::Null }),
        ("object"@, a.object),
        ("actor"@, spec_encode_compound_actor_reference(a.actor)),
    ]
}

fn value_text_contains(v: &JsonValue, pattern: &str) -> (r: bool)
    ensures
        r == text_contains(v@, pattern@),
{
    match v {
        JsonValue::Str(s) => contains_text(s.as_str(), pattern),
        _ => false,
    }
}

fn value_entry_matches(v: &JsonValue, pattern: &str) -> (r: bool)
    ensures
        r == entry_matches(v@, pattern@),
{
    if value_text_contains(v, pattern) {
        return true;
    }
    match v {
        JsonValue::Object(_) => match v.get("id") {
            Some(id) => value_text_contains(id, pattern),
            None => false,
        },
        _ => false,
    }
}

fn value_addressee_matches(v: &JsonValue, pattern: &str) -> (r: bool)
    ensures
        r == addressee_matches(v@, pattern@),
{
    match v {
        JsonValue::Array(items) => {
            let ghost views = items_of(*items);
            proof {
                lemma_seq_view(items@, items@.len() as int);
            }
            let mut i: usize = 0;
            while i < items.len()
                invariant
                    v@ == JsonView::Array(views),
                    views == items_of(*items),
                    views.len() == items@.len(),
                    forall|k: int| 0 <= k < items@.len() ==> #[trigger] views[k] == items@[k]@,
                    i <= items@.len(),
                    forall|k: int| 0 <= k < i ==> !(#[trigger] entry_matches(views[k], pattern@)),
                decreases items@.len() - i,
            {
                if value_entry_matches(&items[i], pattern) {
                    assert(entry_matches(views[i as int], pattern@));
                    let ghost c = v@;
                    assert(c->Array_0 == views);
                    return true;
                }
                i = i + 1;
            }
            false
        },
        _ => value_entry_matches(v, pattern),
    }
}

impl Activity {
    /// A new activity of kind `activity_type`, identified by `id`, performed
    /// by the actor at `actor` on the encoded `object_reference`; `None` when
    /// its context could not be built.
    pub fn new(activity_type: EntityType, actor: Url, id: Url, object_reference: ObjectReference) -> (r: Option<
        Self,
    >)
        ensures
            r is Some <==> (parsed_url("https://w3id.org/security/v1"@) is Some && parsed_url(
                "https://www.w3.org/ns/activitystreams"@,
            ) is Some),
            r matches Some(a) ==> a@.object_entity.entity.object_type == activity_type && a@.object_entity.id
                == id@ && a@.object == spec_encode_object_reference(object_reference@) && a@.actor
                == CompoundActorReferenceView::Reference(crate::actor::ActorReferenceView::Url(actor@))
                && a@.to is None,
    {
        let object = object_reference.to_json();
        match Object::new_with_entity_type(activity_type, id) {
            Some(object_entity) => Some(
                Self { object_entity, to: None, object, actor: CompoundActorReference::Reference(ActorReference::Url(actor)) },
            ),
            None => None,
        }
    }

    /// A new activity whose identifier and kind are those of `object_entity`.
    pub fn new_with_object_entity(object_entity: Object, actor: Url, object_reference: ObjectReference) -> (r: Self)
        ensures
            r@.object_entity == object_entity@,
            r@.object == spec_encode_object_reference(object_reference@),
            r@.actor == CompoundActorReferenceView::Reference(crate::actor::ActorReferenceView::Url(actor@)),
            r@.to is None,
    {
        let object = object_reference.to_json();
        Self { object_entity, to: None, object, actor: CompoundActorReference::Reference(ActorReference::Url(actor)) }
    }

    /// The identifier of this activity.
    pub fn activity_id(&self) -> (r: &Url)
        ensures
            r@ == self@.object_entity.id,
    {
        &self.object_entity.id
    }

    /// The kind of the payload (see [`ActivityView::inner_object_type`]).
    pub fn inner_object_type(&self) -> (r: EntityType)
        ensures
            r == self@.inner_object_type(),
    {
        match &self.object {
            JsonValue::Object(_) => match self.object.get("type") {
                Some(JsonValue::Str(t)) => entity_type_from(t.as_str()),
                _ => EntityType::Unknown,
            },
            _ => EntityType::Unknown,
        }
    }

    /// The identifier of the payload (see [`ActivityView::inner_object_id`]).
    pub fn inner_object_id(&self) -> (r: Option<Url>)
        ensures
            opt_view(r) == self@.inner_object_id(),
    {
        match &self.object {
            JsonValue::Object(_) => match self.object.get("id") {
                Some(JsonValue::Str(s)) => Url::parse(s.as_str()),
                _ => None,
            },
            JsonValue::Str(s) => Url::parse(s.as_str()),
            _ => None,
        }
    }

    /// Checks whether the addressees of the activity or of its payload
    /// contain `pattern` (see [`ActivityView::to_field_matches`]).
    pub fn to_field_matches(&self, pattern: &str) -> (r: bool)
        ensures
            r == self@.to_field_matches(pattern@),
    {
        if let Some(to) = &self.to {
            if value_addressee_matches(to, pattern) {
                return true;
            }
        }
        match &self.object {
            JsonValue::Str(s) => contains_text(s.as_str(), pattern),
            JsonValue::Object(_) => match self.object.get("to") {
                Some(to) => value_addressee_matches(to, pattern),
                None => false,
            },
            _ => false,
        }
    }

    /// The payload, when it is a text.
    pub fn inner_object_as_string(&self) -> (r: Option<String>)
        ensures
            match self@.object {
                JsonView::Str(s) => r matches Some(t) && t@ == s,
                _ => r is None,
            },
    {
        match &self.object {
            JsonValue::Str(s) => Some(s.clone()),
            _ => None,
        }
    }

    pub fn decode(j: &JsonValue) -> (r: Result<Activity, DecodeError>)
        ensures
            result_view(r) == spec_decode_activity(j@),
    {
        let object_entity = match Object::decode(j) {
            Ok(o) => o,
            Err(e) => { return Err(e); },
        };
        let actor = match j.get_present("actor") {
            Some(a) => match CompoundActorReference::decode(a) {
                Some(r) => r,
                None => { return Err(invalid_field("actor")); },
            },
            None => { return Err(invalid_field("actor")); },
        };
        let to = match j.get_present("to") {
            Some(t) => Some(t.deep_clone()),
            None => None,
        };
        let object = match j.get("object") {
            Some(o) => o.deep_clone(),
            None => JsonValue::Null,
        };
        Ok(Activity { object_entity, to, object, actor })
    }

    pub fn to_json(&self) -> (r: JsonValue)
        ensures
            r@ == JsonView::Object(activity_entries(self@)),
    {
        let mut out: Vec<(String, JsonValue)> = Vec::new();
        proof {
            assert(entries_of(out) =~= Seq::empty());
        }
        self.object_entity.push_entries(&mut out);
        let to = match &self.to {
            Some(t) => t.deep_clone(),
            None => JsonValue::Null,
        };
        push_entry(&mut out, "to", to);
        push_entry(&mut out, "object", self.object.deep_clone());
        push_entry(&mut out, "actor", self.actor.to_json());
        proof {
            assert(entries_of(out) =~= activity_entries(self@));
        }
        JsonValue::Object(out)
    }
}

/// A plain `Follow` activity.
pub struct FollowActivity {
    /// What to follow.
    pub follow: Url,
    /// Identifier of the activity.
    pub id: Url,
    /// Who follows.
    pub by: Url,
}

/// The path of a follow activity's identifier, below the follower's path.
pub open spec fn follow_path(by_path: Seq<char>, host: Seq<char>) -> Seq<char> {
    by_path + "/follow/"@ + host + "/public"@
}

impl FollowActivity {
    /// A follow of `follow` by `by`, identified by a URL under `by` that
    /// names `host`, the server the request goes to.
    pub fn new(follow: Url, host: &str, by: Url) -> (r: Result<Self, UrlError>)
        ensures
            match url_join(by@.href, follow_path(by@.path, host@)) {
                Some(t) => match parsed_url(t) {
                    Some(u) => r matches Ok(f) && f.id@ == u && f.follow@ == follow@ && f.by@ == by@,
                    None => r is Err,
                },
                None => r is Err,
            },
    {
        let mut path = by.path().to_owned();
        path.append("/follow/");
        path.append(host);
        path.append("/public");
        let id = match by.join(path.as_str()) {
            Ok(u) => u,
            Err(e) => { return Err(e); },
        };
        Ok(Self { follow, id, by })
    }

    /// The `Follow` activity to send; `None` when its context could not be
    /// built.
    pub fn into_activity(self) -> (r: Option<Activity>)
        ensures
            r is Some <==> (parsed_url("https://w3id.org/security/v1"@) is Some && parsed_url(
                "https://www.w3.org/ns/activitystreams"@,
            ) is Some),
            r matches Some(a) ==> a@.object_entity.entity.object_type == EntityType::Follow
                && a@.object_entity.id == self.id@ && a@.object == JsonView::Str(self.follow@.href),
    {
        Activity::new(EntityType::Follow, self.by, self.id, ObjectReference::Url(self.follow))
    }
}


impl ObjectTrait for Activity {
    open spec fn object_view(&self) -> ObjectView {
        self.object_entity@
    }

    fn context(&self) -> (r: Option<&Context>) {
        self.object_entity.context()
    }

    fn object_id(&self) -> (r: &Url) {
        self.object_entity.object_id()
    }

    fn object_id_str(&self) -> (r: &str) {
        self.object_entity.object_id_str()
    }

    fn entity_type(&self) -> (r: EntityType) {
        self.object_entity.entity_type()
    }
}

} // verus!
