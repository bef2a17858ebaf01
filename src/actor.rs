//! Actors, references to actors, and the actor-level discoverability rules.
use vstd::prelude::*;
use crate::attachment::{
    AttachmentReference, AttachmentReferenceView, AttachmentView, attachment_reference_or_null,
    read_attachment_reference,
};
use crate::codec::{
    DecodeError, DecodeErrorView, bool_json, bool_or_null, field_bool, field_string, field_url, invalid_field,
    read_bool, read_string, read_url, result_view, string_json, string_or_null, url_json, url_or_null,
};
use crate::context::ContextView;
use crate::discoverable::{AllowReason, AllowReasonView, DenyReason, Discoverable, DiscoverableView};
use crate::entity::EntityType;
use crate::image::{ImageReference, ImageReferenceView, image_reference_or_null, read_image_reference};
use crate::json::{
    JsonValue, JsonView, decode_each, entries_of, items_of, lemma_decode_each, lemma_entries_view, lemma_seq_view,
    push_entry, push_item,
};
use crate::context::Context;
use crate::object::{ObjectTrait, 
    Object, ObjectView, decode_url_list, object_entries, spec_decode_object, url_decoder, url_list_json,
};
use crate::tag::{TagReference, TagReferenceView, read_tag_reference, tag_reference_or_null};
use crate::text::{opt_view, str_eq, vec_view};
use crate::url::{Url, UrlView};

verus! {

/// The address that makes an item public.
pub const PUBLIC_ADDRESSEE: &'static str = "https://www.w3.org/ns/activitystreams#Public";

/// The indexer's own public address.
pub const FEDINEKO_PUBLIC_ADDRESSEE: &'static str = "https://fedineko.org/indexing#Public";

/// Extra endpoints an actor may share.
pub struct Endpoints {
    /// Where publicly addressed activities are delivered.
    pub shared_inbox: Option<Url>,
}

pub struct EndpointsView {
    pub shared_inbox: Option<UrlView>,
}

impl View for Endpoints {
    type V = EndpointsView;

    open spec fn view(&self) -> EndpointsView {
        EndpointsView { shared_inbox: opt_view(self.shared_inbox) }
    }
}

/// A public key of an actor.
pub struct PublicKey {
    pub id: Url,
    /// Who owns the key; usually the actor itself.
    pub owner: Url,
    /// The key in PEM form.
    pub public_key_pem: String,
}

pub struct PublicKeyView {
    pub id: UrlView,
    pub owner: UrlView,
    pub public_key_pem: Seq<char>,
}

impl View for PublicKey {
    type V = PublicKeyView;

    open spec fn view(&self) -> PublicKeyView {
        PublicKeyView { id: self.id@, owner: self.owner@, public_key_pem: self.public_key_pem@ }
    }
}

/// One public key or a list of them.
pub enum PublicKeyReference {
    Single(PublicKey),
    List(Vec<PublicKey>),
}

pub enum PublicKeyReferenceView {
    Single(PublicKeyView),
    List(Seq<PublicKeyView>),
}

impl View for PublicKeyReference {
    type V = PublicKeyReferenceView;

    open spec fn view(&self) -> PublicKeyReferenceView {
        match self {
            PublicKeyReference::Single(k) => PublicKeyReferenceView::Single(k@),
            PublicKeyReference::List(l) => PublicKeyReferenceView::List(vec_view(*l)),
        }
    }
}

impl PublicKeyReferenceView {
    pub open spec fn keys(self) -> Seq<PublicKeyView> {
        match self {
            PublicKeyReferenceView::Single(k) => seq![k],
            PublicKeyReferenceView::List(l) => l,
        }
    }
}

/// An account or service.
pub struct Actor {
    pub object_entity: Object,
    /// Where activities for this actor are delivered.
    pub inbox: Url,
    pub followers: Option<Url>,
    pub following: Option<Url>,
    /// Short user name, usually the account name.
    pub preferred_username: Option<String>,
    pub endpoints: Option<Endpoints>,
    /// The name in several languages, as language and text, in document order.
    pub name_map: Option<Vec<(String, String)>>,
    pub summary: Option<String>,
    pub icon: Option<ImageReference>,
    pub public_key: Option<PublicKeyReference>,
    /// Consent to search indexing.
    pub indexable: Option<bool>,
    /// The older discoverability flag.
    pub discoverable: Option<bool>,
    /// Scopes the actor's content may be searched by.
    pub searchable_by: Option<Vec<Url>>,
    pub tag: Option<TagReference>,
    /// Attachments, among them property values.
    pub attachment: Option<AttachmentReference>,
}

pub struct ActorView {
    pub object_entity: ObjectView,
    pub inbox: UrlView,
    pub followers: Option<UrlView>,
    pub following: Option<UrlView>,
    pub preferred_username: Option<Seq<char>>,
    pub endpoints: Option<EndpointsView>,
    pub name_map: Option<Seq<(Seq<char>, Seq<char>)>>,
    pub summary: Option<Seq<char>>,
    pub icon: Option<ImageReferenceView>,
    pub public_key: Option<PublicKeyReferenceView>,
    pub indexable: Option<bool>,
    pub discoverable: Option<bool>,
    pub searchable_by: Option<Seq<UrlView>>,
    pub tag: Option<TagReferenceView>,
    pub attachment: Option<AttachmentReferenceView>,
}

pub open spec fn pairs_view(v: Vec<(String, String)>) -> Seq<(Seq<char>, Seq<char>)> {
    v@.map_values(|p: (String, String)| (p.0@, p.1@))
}

impl View for Actor {
    type V = ActorView;

    open spec fn view(&self) -> ActorView {
        ActorView {
            object_entity: self.object_entity@,
            inbox: self.inbox@,
            followers: opt_view(self.followers),
            following: opt_view(self.following),
            preferred_username: opt_view(self.preferred_username),
            endpoints: opt_view(self.endpoints),
            name_map: match self.name_map {
                Some(m) => Some(pairs_view(m)),
                None => None,
            },
            summary: opt_view(self.summary),
            icon: opt_view(self.icon),
            public_key: opt_view(self.public_key),
            indexable: self.indexable,
            discoverable: self.discoverable,
            searchable_by: match self.searchable_by {
                Some(l) => Some(vec_view(l)),
                None => None,
            },
            tag: opt_view(self.tag),
            attachment: opt_view(self.attachment),
        }
    }
}

/// An actor given in full, as a bare object, or by its URL.
pub enum ActorReference {
    Actor(Box<Actor>),
    BasicData(Box<Object>),
    Url(Url),
}

pub enum ActorReferenceView {
    Actor(ActorView),
    BasicData(ObjectView),
    Url(UrlView),
}

impl View for ActorReference {
    type V = ActorReferenceView;

    open spec fn view(&self) -> ActorReferenceView {
        match self {
            ActorReference::Actor(a) => ActorReferenceView::Actor(a@),
            ActorReference::BasicData(o) => ActorReferenceView::BasicData(o@),
            ActorReference::Url(u) => ActorReferenceView::Url(u@),
        }
    }
}

/// One actor reference or a list of them.
pub enum CompoundActorReference {
    Reference(ActorReference),
    List(Vec<ActorReference>),
}

pub enum CompoundActorReferenceView {
    Reference(ActorReferenceView),
    List(Seq<ActorReferenceView>),
}

impl View for CompoundActorReference {
    type V = CompoundActorReferenceView;

    open spec fn view(&self) -> CompoundActorReferenceView {
        match self {
            CompoundActorReference::Reference(r) => CompoundActorReferenceView::Reference(r@),
            CompoundActorReference::List(l) => CompoundActorReferenceView::List(vec_view(*l)),
        }
    }
}

/// A username and the server it belongs to.
pub struct ActorReadableId {
    pub server: String,
    pub username: String,
}

// The rules.

impl ActorReferenceView {
    pub open spec fn id(self) -> UrlView {
        match self {
            ActorReferenceView::Actor(a) => a.object_entity.id,
            ActorReferenceView::BasicData(o) => o.id,
            ActorReferenceView::Url(u) => u,
        }
    }

    pub open spec fn entity_type(self) -> Option<EntityType> {
        match self {
            ActorReferenceView::Actor(a) => Some(a.object_entity.entity.object_type),
            ActorReferenceView::BasicData(o) => Some(o.entity.object_type),
            ActorReferenceView::Url(_) => None,
        }
    }

    /// The reference is known to be a person or a service.
    pub open spec fn is_person_like(self) -> bool {
        self.entity_type() == Some(EntityType::Person) || self.entity_type() == Some(EntityType::Service)
    }
}

/// Identifier of the first person-like reference of `l`.
pub open spec fn first_person_like(l: Seq<ActorReferenceView>) -> Option<UrlView>
    decreases l.len(),
{
    if l.len() == 0 {
        None
    } else if l[0].is_person_like() {
        Some(l[0].id())
    } else {
        first_person_like(l.drop_first())
    }
}

impl CompoundActorReferenceView {
    /// The identifier to attribute to: the single reference's; in a list, the
    /// first person-like one's, else the first one's; none for an empty list.
    pub open spec fn id(self) -> Option<UrlView> {
        match self {
            CompoundActorReferenceView::Reference(r) => Some(r.id()),
            CompoundActorReferenceView::List(l) => match first_person_like(l) {
                Some(u) => Some(u),
                None => if l.len() > 0 {
                    Some(l[0].id())
                } else {
                    None
                },
            },
        }
    }

    pub open spec fn ids(self) -> Seq<UrlView> {
        match self {
            CompoundActorReferenceView::Reference(r) => seq![r.id()],
            CompoundActorReferenceView::List(l) => l.map_values(|r: ActorReferenceView| r.id()),
        }
    }
}

/// An attachment that carries the `fedineko:index` property.
pub open spec fn is_index_property(a: AttachmentView) -> bool {
    a.object_type == EntityType::PropertyValue && a.name == Some("fedineko:index"@) && a.content is Some
}

/// The verdict of the first `fedineko:index` property of `l`, if any.
pub open spec fn index_property_verdict(l: Seq<AttachmentView>) -> Option<DiscoverableView>
    decreases l.len(),
{
    if l.len() == 0 {
        None
    } else if is_index_property(l[0]) {
        if l[0].content == Some("allow"@) {
            Some(DiscoverableView::Allowed(AllowReasonView::FedinekoProperty))
        } else {
            Some(DiscoverableView::Denied(DenyReason::FedinekoProperty))
        }
    } else {
        index_property_verdict(l.drop_first())
    }
}

/// A public address: the well-known one or the indexer's own.
pub open spec fn is_public_address(href: Seq<char>) -> bool {
    href == PUBLIC_ADDRESSEE@ || href == FEDINEKO_PUBLIC_ADDRESSEE@
}

/// The first public address in `l`, if any.
pub open spec fn first_public(l: Seq<UrlView>) -> Option<Seq<char>>
    decreases l.len(),
{
    if l.len() == 0 {
        None
    } else if is_public_address(l[0].href) {
        Some(l[0].href)
    } else {
        first_public(l.drop_first())
    }
}

/// The verdict that `searchableBy` gives on its own, if any.
pub open spec fn searchable_by_verdict(s: Option<Seq<UrlView>>) -> Option<DiscoverableView> {
    match s {
        Some(l) => match first_public(l) {
            Some(h) => Some(DiscoverableView::Allowed(AllowReasonView::SearchableBy(h))),
            None => None,
        },
        None => None,
    }
}

impl ActorView {
    pub open spec fn attachments(self) -> Seq<AttachmentView> {
        match self.attachment {
            Some(r) => r.attachments(),
            None => Seq::empty(),
        }
    }

    pub open spec fn context(self) -> Option<ContextView> {
        self.object_entity.entity.context
    }

    /// The actor-level verdict, first rule that applies: the `fedineko:index`
    /// property; a public address in `searchableBy`; no context denies; a
    /// declared `indexable` decides, and denies when unset; a declared
    /// `discoverable` likewise; otherwise indexing is assumed allowed.
    pub open spec fn discoverable_state(self) -> DiscoverableView {
        match index_property_verdict(self.attachments()) {
            Some(v) => v,
            None => match searchable_by_verdict(self.searchable_by) {
                Some(v) => v,
                None => match self.context() {
                    None => DiscoverableView::Denied(DenyReason::Default),
                    Some(c) => if c.has_definition("indexable"@) {
                        if self.indexable == Some(true) {
                            DiscoverableView::Allowed(AllowReasonView::Indexable)
                        } else {
                            DiscoverableView::Denied(DenyReason::Indexable)
                        }
                    } else if c.has_definition("discoverable"@) {
                        if self.discoverable == Some(true) {
                            DiscoverableView::Allowed(AllowReasonView::Discoverable)
                        } else {
                            DiscoverableView::Denied(DenyReason::Discoverable)
                        }
                    } else {
                        DiscoverableView::Allowed(AllowReasonView::Assumed)
                    },
                },
            },
        }
    }
}

} // verus!

verus! {

/// Model of a list of URLs.
pub open spec fn urls_view(s: Seq<Url>) -> Seq<UrlView> {
    s.map_values(|u: Url| u@)
}

/// The verdict that `searchable_by` gives: allowed, keeping the address,
/// when it holds the well-known public address or the indexer's own public
/// address; `None` otherwise.
pub fn is_public_searchable_by(searchable_by: &[Url]) -> (r: Option<Discoverable>)
    ensures
        opt_view(r) == searchable_by_verdict(Some(urls_view(searchable_by@))),
{
    let ghost all = urls_view(searchable_by@);
    let mut i: usize = 0;
    assert(all.subrange(0, all.len() as int) =~= all);
    while i < searchable_by.len()
        invariant
            all == urls_view(searchable_by@),
            i <= searchable_by@.len(),
            first_public(all) == first_public(all.subrange(i as int, all.len() as int)),
        decreases searchable_by@.len() - i,
    {
        let ghost rest = all.subrange(i as int, all.len() as int);
        assert(rest.drop_first() =~= all.subrange(i + 1, all.len() as int));
        assert(rest[0] == searchable_by@[i as int]@);
        let href = searchable_by[i].as_str();
        if str_eq(href, PUBLIC_ADDRESSEE) || str_eq(href, FEDINEKO_PUBLIC_ADDRESSEE) {
            return Some(Discoverable::Allowed(AllowReason::SearchableBy(href.to_owned())));
        }
        i = i + 1;
    }
    None
}

/// The verdict of the first `fedineko:index` property among `attachments`.
fn index_property_state(attachments: &Vec<&crate::attachment::Attachment>) -> (r: Option<Discoverable>)
    ensures
        opt_view(r) == index_property_verdict(attachments@.map_values(|a: &crate::attachment::Attachment| a@)),
{
    let ghost all = attachments@.map_values(|a: &crate::attachment::Attachment| a@);
    let mut i: usize = 0;
    assert(all.subrange(0, all.len() as int) =~= all);
    while i < attachments.len()
        invariant
            all == attachments@.map_values(|a: &crate::attachment::Attachment| a@),
            i <= attachments@.len(),
            index_property_verdict(all) == index_property_verdict(all.subrange(i as int, all.len() as int)),
        decreases attachments@.len() - i,
    {
        let ghost rest = all.subrange(i as int, all.len() as int);
        assert(rest.drop_first() =~= all.subrange(i + 1, all.len() as int));
        assert(rest[0] == attachments@[i as int]@);
        let attachment = attachments[i];
        if attachment.object_type == EntityType::PropertyValue {
            match (&attachment.name, &attachment.content) {
                (Some(name), Some(content)) => {
                    if str_eq(name.as_str(), "fedineko:index") {
                        if str_eq(content.as_str(), "allow") {
                            return Some(Discoverable::Allowed(AllowReason::FedinekoProperty));
                        }
                        return Some(Discoverable::Denied(DenyReason::FedinekoProperty));
                    }
                },
                _ => {},
            }
        }
        i = i + 1;
    }
    None
}

impl Actor {
    /// The `name` property of the actor.
    pub fn name(&self) -> (r: &Option<String>)
        ensures
            opt_view(*r) == self@.object_entity.name,
    {
        &self.object_entity.name
    }

    /// An actor whose context links the security schema must carry a public
    /// key: `None` when it does not, the actor itself otherwise.
    pub fn validate_security_context(&self) -> (r: Option<&Self>)
        ensures
            r is None <==> (self@.context() matches Some(c) && c.links("https://w3id.org/security/v1"@)
                && self@.public_key is None),
            r matches Some(a) ==> a == self,
    {
        let context = match &self.object_entity.entity.context {
            None => { return Some(self); },
            Some(c) => c,
        };
        if !context.matches_href("https://w3id.org/security/v1") {
            return Some(self);
        }
        if self.public_key.is_none() {
            return None;
        }
        Some(self)
    }

    /// Checks whether the actor says it is a person.
    pub fn is_person(&self) -> (r: bool)
        ensures
            r == (self@.object_entity.entity.object_type == EntityType::Person),
    {
        self.object_entity.entity.object_type == EntityType::Person
    }

    /// Whether the actor's content may be indexed, by the first rule that
    /// applies (see [`ActorView::discoverable_state`]).
    pub fn get_discoverable_state(&self) -> (r: Discoverable)
        ensures
            r@ == self@.discoverable_state(),
    {
        let attachments: Vec<&crate::attachment::Attachment> = match &self.attachment {
            Some(a) => a.as_vec(),
            None => Vec::new(),
        };
        proof {
            assert(attachments@.map_values(|a: &crate::attachment::Attachment| a@) =~= self@.attachments());
        }
        match index_property_state(&attachments) {
            Some(v) => { return v; },
            None => {},
        }
        match &self.searchable_by {
            Some(searchable_by) => {
                match is_public_searchable_by(searchable_by.as_slice()) {
                    Some(v) => {
                        assert(urls_view(searchable_by@) == vec_view(*searchable_by));
                        return v;
                    },
                    None => {
                        assert(urls_view(searchable_by@) == vec_view(*searchable_by));
                    },
                }
            },
            None => {},
        }
        let context = match &self.object_entity.entity.context {
            None => { return Discoverable::Denied(DenyReason::Default); },
            Some(c) => c,
        };
        if context.has_definition("indexable") {
            return match self.indexable {
                Some(true) => Discoverable::Allowed(AllowReason::Indexable),
                _ => Discoverable::Denied(DenyReason::Indexable),
            };
        }
        if context.has_definition("discoverable") {
            return match self.discoverable {
                Some(true) => Discoverable::Allowed(AllowReason::Discoverable),
                _ => Discoverable::Denied(DenyReason::Discoverable),
            };
        }
        Discoverable::Allowed(AllowReason::Assumed)
    }
}

impl ActorReference {
    /// The actor's identifier, whichever way the actor is given.
    pub fn id(&self) -> (r: &Url)
        ensures
            r@ == self@.id(),
    {
        match self {
            Self::Actor(actor) => &actor.object_entity.id,
            Self::Url(url) => url,
            Self::BasicData(object) => &object.id,
        }
    }

    /// The actor's kind, when the reference gives it.
    pub fn entity_type(&self) -> (r: Option<EntityType>)
        ensures
            r == self@.entity_type(),
    {
        match self {
            Self::Actor(actor) => Some(actor.object_entity.entity.object_type),
            Self::Url(_) => None,
            Self::BasicData(object) => Some(object.entity.object_type),
        }
    }
}

impl CompoundActorReference {
    /// The identifier to attribute content to: in a list, the first person or
    /// service is preferred, then the first entry of any kind.
    pub fn id(&self) -> (r: Option<&Url>)
        ensures
            match r {
                Some(u) => self@.id() == Some(u@),
                None => self@.id() is None,
            },
    {
        match self {
            Self::Reference(actor_ref) => Some(actor_ref.id()),
            Self::List(actor_refs) => {
                let ghost all = vec_view(*actor_refs);
                let mut i: usize = 0;
                assert(all.subrange(0, all.len() as int) =~= all);
                while i < actor_refs.len()
                    invariant
                        all == vec_view(*actor_refs),
                        self@ == CompoundActorReferenceView::List(all),
                        i <= actor_refs@.len(),
                        first_person_like(all) == first_person_like(all.subrange(i as int, all.len() as int)),
                    decreases actor_refs@.len() - i,
                {
                    let ghost rest = all.subrange(i as int, all.len() as int);
                    assert(rest.drop_first() =~= all.subrange(i + 1, all.len() as int));
                    assert(rest[0] == actor_refs@[i as int]@);
                    let person_like = match actor_refs[i].entity_type() {
                        Some(EntityType::Person) => true,
                        Some(EntityType::Service) => true,
                        _ => false,
                    };
                    if person_like {
                        return Some(actor_refs[i].id());
                    }
                    i = i + 1;
                }
                if actor_refs.len() > 0 {
                    Some(actor_refs[0].id())
                } else {
                    None
                }
            },
        }
    }

    /// Every identifier, in document order.
    pub fn as_id_vec(&self) -> (r: Vec<&Url>)
        ensures
            r@.len() == self@.ids().len(),
            forall|i: int| 0 <= i < r@.len() ==> (#[trigger] r@[i])@ == self@.ids()[i],
    {
        match self {
            CompoundActorReference::Reference(reference) => vec![reference.id()],
            CompoundActorReference::List(list) => {
                let mut out: Vec<&Url> = Vec::new();
                let mut i: usize = 0;
                while i < list.len()
                    invariant
                        i <= list@.len(),
                        out@.len() == i,
                        self@.ids() == vec_view(*list).map_values(|r: ActorReferenceView| r.id()),
                        forall|k: int| 0 <= k < i ==> (#[trigger] out@[k])@ == list@[k]@.id(),
                    decreases list@.len() - i,
                {
                    out.push(list[i].id());
                    i = i + 1;
                }
                out
            },
        }
    }
}

impl PublicKeyReference {
    /// The keys, in document order.
    pub fn as_vec(&self) -> (r: Vec<&PublicKey>)
        ensures
            r@.len() == self@.keys().len(),
            forall|i: int| 0 <= i < r@.len() ==> (#[trigger] r@[i])@ == self@.keys()[i],
    {
        match self {
            PublicKeyReference::Single(public_key) => vec![public_key],
            PublicKeyReference::List(public_keys) => {
                let mut out: Vec<&PublicKey> = Vec::new();
                let mut i: usize = 0;
                while i < public_keys.len()
                    invariant
                        i <= public_keys@.len(),
                        out@.len() == i,
                        self@.keys() == vec_view(*public_keys),
                        forall|k: int| 0 <= k < i ==> (#[trigger] out@[k])@ == public_keys@[k]@,
                    decreases public_keys@.len() - i,
                {
                    out.push(&public_keys[i]);
                    i = i + 1;
                }
                out
            },
        }
    }
}

} // verus!

verus! {

// Decoding and encoding.

pub open spec fn spec_decode_endpoints(j: JsonView) -> Option<EndpointsView> {
    if j is Object {
        Some(EndpointsView { shared_inbox: read_url(j.get_present("sharedInbox"@)) })
    } else {
        None
    }
}

pub open spec fn spec_decode_public_key(j: JsonView) -> Option<PublicKeyView> {
    match (read_url(j.get_present("id"@)), read_url(j.get_present("owner"@)), read_string(j.get_present("publicKeyPem"@))) {
        (Some(id), Some(owner), Some(public_key_pem)) => Some(PublicKeyView { id, owner, public_key_pem }),
        _ => None,
    }
}

pub open spec fn public_key_decoder() -> spec_fn(JsonView) -> Option<PublicKeyView> {
    |j: JsonView| spec_decode_public_key(j)
}

pub open spec fn spec_decode_public_key_reference(j: JsonView) -> Option<PublicKeyReferenceView> {
    match spec_decode_public_key(j) {
        Some(k) => Some(PublicKeyReferenceView::Single(k)),
        None => match j {
            JsonView::Array(items) => match decode_each(items, public_key_decoder()) {
                Some(l) => Some(PublicKeyReferenceView::List(l)),
                None => None,
            },
            _ => None,
        },
    }
}

/// A map of texts: an object whose values are all strings.
pub open spec fn spec_decode_text_map(j: JsonView) -> Option<Seq<(Seq<char>, Seq<char>)>> {
    match j {
        JsonView::Object(entries) => if forall|i: int| 0 <= i < entries.len() ==> (#[trigger] entries[i]).1 is Str {
            Some(entries.map_values(|e: (Seq<char>, JsonView)| (e.0, e.1->Str_0)))
        } else {
            None
        },
        _ => None,
    }
}

pub open spec fn read_url_list(j: Option<JsonView>) -> Option<Seq<UrlView>> {
    match j {
        Some(JsonView::Array(items)) => decode_each(items, url_decoder()),
        _ => None,
    }
}

pub open spec fn spec_decode_actor(j: JsonView) -> Result<ActorView, DecodeErrorView> {
    match spec_decode_object(j) {
        Err(e) => Err(e),
        Ok(object_entity) => match read_url(j.get_present("inbox"@)) {
            None => Err(DecodeErrorView::InvalidField("inbox"@)),
            Some(inbox) => Ok(
                ActorView {
                    object_entity,
                    inbox,
                    followers: read_url(j.get_present("followers"@)),
                    following: read_url(j.get_present("following"@)),
                    preferred_username: read_string(j.get_present("preferredUsername"@)),
                    endpoints: match j.get_present("endpoints"@) {
                        Some(v) => spec_decode_endpoints(v),
                        None => None,
                    },
                    name_map: match j.get_present("nameMap"@) {
                        Some(v) => spec_decode_text_map(v),
                        None => None,
                    },
                    summary: read_string(j.get_present("summary"@)),
                    icon: read_image_reference(j.get_present("icon"@)),
                    public_key: match j.get_present("publicKey"@) {
                        Some(v) => spec_decode_public_key_reference(v),
                        None => None,
                    },
                    indexable: read_bool(j.get_present("indexable"@)),
                    discoverable: read_bool(j.get_present("discoverable"@)),
                    searchable_by: read_url_list(j.get_present("searchableBy"@)),
                    tag: read_tag_reference(j.get_present("tag"@)),
                    attachment: read_attachment_reference(j.get_present("attachment"@)),
                },
            ),
        },
    }
}

/// An actor reference is a full actor, else a bare object, else a URL.
pub open spec fn spec_decode_actor_reference(j: JsonView) -> Option<ActorReferenceView> {
    match spec_decode_actor(j) {
        Ok(a) => Some(ActorReferenceView::Actor(a)),
        Err(_) => match spec_decode_object(j) {
            Ok(o) => Some(ActorReferenceView::BasicData(o)),
            Err(_) => match read_url(Some(j)) {
                Some(u) => Some(ActorReferenceView::Url(u)),
                None => None,
            },
        },
    }
}

pub open spec fn actor_reference_decoder() -> spec_fn(JsonView) -> Option<ActorReferenceView> {
    |j: JsonView| spec_decode_actor_reference(j)
}

/// A compound reference is one actor reference, else a list of them.
pub open spec fn spec_decode_compound_actor_reference(j: JsonView) -> Option<CompoundActorReferenceView> {
    match spec_decode_actor_reference(j) {
        Some(r) => Some(CompoundActorReferenceView::Reference(r)),
        None => match j {
            JsonView::Array(items) => match decode_each(items, actor_reference_decoder()) {
                Some(l) => Some(CompoundActorReferenceView::List(l)),
                None => None,
            },
            _ => None,
        },
    }
}

pub open spec fn spec_encode_endpoints(e: EndpointsView) -> JsonView {
    JsonView::Object(seq![("sharedInbox"@, url_or_null(e.shared_inbox))])
}

pub open spec fn spec_encode_public_key(k: PublicKeyView) -> JsonView {
    JsonView::Object(
        seq![
            ("id"@, JsonView::Str(k.id.href)),
            ("owner"@, JsonView::Str(k.owner.href)),
            ("publicKeyPem"@, JsonView::Str(k.public_key_pem)),
        ],
    )
}

pub open spec fn spec_encode_public_key_reference(r: PublicKeyReferenceView) -> JsonView {
    match r {
        PublicKeyReferenceView::Single(k) => spec_encode_public_key(k),
        PublicKeyReferenceView::List(l) => JsonView::Array(l.map_values(|k: PublicKeyView| spec_encode_public_key(k))),
    }
}

pub open spec fn spec_encode_text_map(m: Seq<(Seq<char>, Seq<char>)>) -> JsonView {
    JsonView::Object(m.map_values(|p: (Seq<char>, Seq<char>)| (p.0, JsonView::Str(p.1))))
}

pub open spec fn url_list_or_null(l: Option<Seq<UrlView>>) -> JsonView {
    match l {
        Some(v) => JsonView::Array(v.map_values(|x: UrlView| JsonView::Str(x.href))),
        None => JsonView::Null,
    }
}

pub open spec fn actor_entries(a: ActorView) -> Seq<(Seq<char>, JsonView)> {
    object_entries(a.object_entity) + actor_head_entries(a) + actor_tail_entries(a)
}

pub open spec fn actor_head_entries(a: ActorView) -> Seq<(Seq<char>, JsonView)> {
    seq![
        ("inbox"@, JsonView::Str(a.inbox.href)),
        ("followers"@, url_or_null(a.followers)),
        ("following"@, url_or_null(a.following)),
        ("preferredUsername"@, string_or_null(a.preferred_username)),
        ("endpoints"@, match a.endpoints { Some(e) => spec_encode_endpoints(e), None => JsonView::Null }),
        ("nameMap"@, match a.name_map { Some(m) => spec_encode_text_map(m), None => JsonView::Null }),
    ]
}

pub open spec fn actor_tail_entries(a: ActorView) -> Seq<(Seq<char>, JsonView)> {
    seq![
        ("summary"@, string_or_null(a.summary)),
        ("icon"@, image_reference_or_null(a.icon)),
        ("publicKey"@, match a.public_key { Some(k) => spec_encode_public_key_reference(k), None => JsonView::Null }),
        ("indexable"@, bool_or_null(a.indexable)),
        ("discoverable"@, bool_or_null(a.discoverable)),
        ("searchableBy"@, url_list_or_null(a.searchable_by)),
        ("tag"@, tag_reference_or_null(a.tag)),
        ("attachment"@, attachment_reference_or_null(a.attachment)),
    ]
}

pub open spec fn spec_encode_actor(a: ActorView) -> JsonView {
    JsonView::Object(actor_entries(a))
}

pub open spec fn spec_encode_actor_reference(r: ActorReferenceView) -> JsonView {
    match r {
        ActorReferenceView::Actor(a) => spec_encode_actor(a),
        ActorReferenceView::BasicData(o) => crate::object::spec_encode_object(o),
        ActorReferenceView::Url(u) => JsonView::Str(u.href),
    }
}

pub open spec fn spec_encode_compound_actor_reference(r: CompoundActorReferenceView) -> JsonView {
    match r {
        CompoundActorReferenceView::Reference(a) => spec_encode_actor_reference(a),
        CompoundActorReferenceView::List(l) => JsonView::Array(
            l.map_values(|a: ActorReferenceView| spec_encode_actor_reference(a)),
        ),
    }
}

impl Endpoints {
    pub fn decode(j: &JsonValue) -> (r: Option<Endpoints>)
        ensures
            opt_view(r) == spec_decode_endpoints(j@),
    {
        match j {
            JsonValue::Object(_) => Some(Endpoints { shared_inbox: field_url(j, "sharedInbox") }),
            _ => None,
        }
    }

    pub fn to_json(&self) -> (r: JsonValue)
        ensures
            r@ == spec_encode_endpoints(self@),
    {
        let mut out: Vec<(String, JsonValue)> = Vec::new();
        proof {
            assert(entries_of(out) =~= Seq::empty());
        }
        push_entry(&mut out, "sharedInbox", url_json(&self.shared_inbox));
        proof {
            assert(entries_of(out) =~= seq![("sharedInbox"@, url_or_null(self@.shared_inbox))]);
        }
        JsonValue::Object(out)
    }
}

impl PublicKey {
    pub fn decode(j: &JsonValue) -> (r: Option<PublicKey>)
        ensures
            opt_view(r) == spec_decode_public_key(j@),
    {
        match (field_url(j, "id"), field_url(j, "owner"), field_string(j, "publicKeyPem")) {
            (Some(id), Some(owner), Some(public_key_pem)) => Some(PublicKey { id, owner, public_key_pem }),
            _ => None,
        }
    }

    pub fn to_json(&self) -> (r: JsonValue)
        ensures
            r@ == spec_encode_public_key(self@),
    {
        let mut out: Vec<(String, JsonValue)> = Vec::new();
        proof {
            assert(entries_of(out) =~= Seq::empty());
        }
        push_entry(&mut out, "id", JsonValue::Str(self.id.as_str().to_owned()));
        push_entry(&mut out, "owner", JsonValue::Str(self.owner.as_str().to_owned()));
        push_entry(&mut out, "publicKeyPem", JsonValue::Str(self.public_key_pem.clone()));
        proof {
            assert(entries_of(out) =~= seq![
                ("id"@, JsonView::Str(self@.id.href)),
                ("owner"@, JsonView::Str(self@.owner.href)),
                ("publicKeyPem"@, JsonView::Str(self@.public_key_pem)),
            ]);
        }
        JsonValue::Object(out)
    }
}

fn decode_public_keys(items: &Vec<JsonValue>) -> (r: Option<Vec<PublicKey>>)
    ensures
        match r {
            Some(v) => decode_each(items_of(*items), public_key_decoder()) == Some(vec_view(v)),
            None => decode_each(items_of(*items), public_key_decoder()) is None,
        },
{
    let ghost views = items_of(*items);
    proof {
        lemma_seq_view(items@, items@.len() as int);
    }
    let mut out: Vec<PublicKey> = Vec::new();
    let mut i: usize = 0;
    while i < items.len()
        invariant
            i <= items@.len(),
            out@.len() == i,
            views == items_of(*items),
            views.len() == items@.len(),
            forall|k: int| 0 <= k < items@.len() ==> #[trigger] views[k] == items@[k]@,
            forall|k: int| 0 <= k < i ==> public_key_decoder()(#[trigger] views[k]) == Some(out@[k]@),
        decreases items@.len() - i,
    {
        match PublicKey::decode(&items[i]) {
            Some(x) => out.push(x),
            None => {
                proof {
                    lemma_decode_each(views, public_key_decoder());
                    assert(public_key_decoder()(views[i as int]) is None);
                }
                return None;
            },
        }
        i = i + 1;
    }
    proof {
        crate::json::lemma_decode_each_values(views, public_key_decoder(), vec_view(out));
    }
    Some(out)
}
fn public_keys_json(l: &Vec<PublicKey>) -> (r: JsonValue)
    ensures
        r@ == JsonView::Array(vec_view(*l).map_values(|x: PublicKeyView| spec_encode_public_key(x))),
{
    let ghost target = vec_view(*l).map_values(|x: PublicKeyView| spec_encode_public_key(x));
    let mut out: Vec<JsonValue> = Vec::new();
    let mut i: usize = 0;
    proof {
        assert(items_of(out) =~= target.take(0));
    }
    while i < l.len()
        invariant
            i <= l@.len(),
            target == vec_view(*l).map_values(|x: PublicKeyView| spec_encode_public_key(x)),
            items_of(out) == target.take(i as int),
        decreases l@.len() - i,
    {
        push_item(&mut out, l[i].to_json());
        proof {
            assert(target.take(i + 1) =~= target.take(i as int).push(target[i as int]));
        }
        i = i + 1;
    }
    proof {
        assert(target.take(l@.len() as int) =~= target);
    }
    JsonValue::Array(out)
}
fn decode_actor_references(items: &Vec<JsonValue>) -> (r: Option<Vec<ActorReference>>)
    ensures
        match r {
            Some(v) => decode_each(items_of(*items), actor_reference_decoder()) == Some(vec_view(v)),
            None => decode_each(items_of(*items), actor_reference_decoder()) is None,
        },
{
    let ghost views = items_of(*items);
    proof {
        lemma_seq_view(items@, items@.len() as int);
    }
    let mut out: Vec<ActorReference> = Vec::new();
    let mut i: usize = 0;
    while i < items.len()
        invariant
            i <= items@.len(),
            out@.len() == i,
            views == items_of(*items),
            views.len() == items@.len(),
            forall|k: int| 0 <= k < items@.len() ==> #[trigger] views[k] == items@[k]@,
            forall|k: int| 0 <= k < i ==> actor_reference_decoder()(#[trigger] views[k]) == Some(out@[k]@),
        decreases items@.len() - i,
    {
        match ActorReference::decode(&items[i]) {
            Some(x) => out.push(x),
            None => {
                proof {
                    lemma_decode_each(views, actor_reference_decoder());
                    assert(actor_reference_decoder()(views[i as int]) is None);
                }
                return None;
            },
        }
        i = i + 1;
    }
    proof {
        crate::json::lemma_decode_each_values(views, actor_reference_decoder(), vec_view(out));
    }
    Some(out)
}
fn actor_references_json(l: &Vec<ActorReference>) -> (r: JsonValue)
    ensures
        r@ == JsonView::Array(vec_view(*l).map_values(|x: ActorReferenceView| spec_encode_actor_reference(x))),
{
    let ghost target = vec_view(*l).map_values(|x: ActorReferenceView| spec_encode_actor_reference(x));
    let mut out: Vec<JsonValue> = Vec::new();
    let mut i: usize = 0;
    proof {
        assert(items_of(out) =~= target.take(0));
    }
    while i < l.len()
        invariant
            i <= l@.len(),
            target == vec_view(*l).map_values(|x: ActorReferenceView| spec_encode_actor_reference(x)),
            items_of(out) == target.take(i as int),
        decreases l@.len() - i,
    {
        push_item(&mut out, l[i].to_json());
        proof {
            assert(target.take(i + 1) =~= target.take(i as int).push(target[i as int]));
        }
        i = i + 1;
    }
    proof {
        assert(target.take(l@.len() as int) =~= target);
    }
    JsonValue::Array(out)
}

impl PublicKeyReference {
    pub fn decode(j: &JsonValue) -> (r: Option<PublicKeyReference>)
        ensures
            opt_view(r) == spec_decode_public_key_reference(j@),
    {
        match PublicKey::decode(j) {
            Some(k) => { return Some(PublicKeyReference::Single(k)); },
            None => {},
        }
        match j {
            JsonValue::Array(items) => match decode_public_keys(items) {
                Some(l) => Some(PublicKeyReference::List(l)),
                None => None,
            },
            _ => None,
        }
    }

    pub fn to_json(&self) -> (r: JsonValue)
        ensures
            r@ == spec_encode_public_key_reference(self@),
    {
        match self {
            PublicKeyReference::Single(k) => k.to_json(),
            PublicKeyReference::List(l) => public_keys_json(l),
        }
    }
}

pub(crate) fn decode_text_map(j: &JsonValue) -> (r: Option<Vec<(String, String)>>)
    ensures
        match r {
            Some(m) => spec_decode_text_map(j@) == Some(pairs_view(m)),
            None => spec_decode_text_map(j@) is None,
        },
{
    match j {
        JsonValue::Object(entries) => {
            let ghost ev = entries_of(*entries);
            proof {
                lemma_entries_view(entries@, entries@.len() as int);
            }
            let mut out: Vec<(String, String)> = Vec::new();
            let mut i: usize = 0;
            while i < entries.len()
                invariant
                    j@ == JsonView::Object(ev),
                    ev == entries_of(*entries),
                    i <= entries@.len(),
                    out@.len() == i,
                    ev.len() == entries@.len(),
                    forall|k: int| 0 <= k < entries@.len() ==> #[trigger] ev[k] == (entries@[k].0@, entries@[k].1@),
                    forall|k: int| 0 <= k < i ==> (#[trigger] ev[k]).1 is Str && out@[k].0@ == ev[k].0
                        && out@[k].1@ == ev[k].1->Str_0,
                decreases entries@.len() - i,
            {
                match &entries[i].1 {
                    JsonValue::Str(s) => {
                        out.push((entries[i].0.clone(), s.clone()));
                    },
                    _ => {
                        assert(!(ev[i as int].1 is Str));
                        return None;
                    },
                }
                i = i + 1;
            }
            proof {
                assert(pairs_view(out) =~= ev.map_values(|e: (Seq<char>, JsonView)| (e.0, e.1->Str_0)));
            }
            Some(out)
        },
        _ => None,
    }
}

fn text_map_json(m: &Vec<(String, String)>) -> (r: JsonValue)
    ensures
        r@ == spec_encode_text_map(pairs_view(*m)),
{
    let ghost target = pairs_view(*m).map_values(|p: (Seq<char>, Seq<char>)| (p.0, JsonView::Str(p.1)));
    let mut out: Vec<(String, JsonValue)> = Vec::new();
    let mut i: usize = 0;
    proof {
        assert(entries_of(out) =~= target.take(0));
    }
    while i < m.len()
        invariant
            i <= m@.len(),
            target == pairs_view(*m).map_values(|p: (Seq<char>, Seq<char>)| (p.0, JsonView::Str(p.1))),
            entries_of(out) == target.take(i as int),
        decreases m@.len() - i,
    {
        push_entry(&mut out, m[i].0.as_str(), JsonValue::Str(m[i].1.clone()));
        proof {
            assert(target.take(i + 1) =~= target.take(i as int).push(target[i as int]));
        }
        i = i + 1;
    }
    proof {
        assert(target.take(m@.len() as int) =~= target);
    }
    JsonValue::Object(out)
}

impl Actor {
    pub fn decode(j: &JsonValue) -> (r: Result<Actor, DecodeError>)
        ensures
            result_view(r) == spec_decode_actor(j@),
    {
        let object_entity = match Object::decode(j) {
            Ok(o) => o,
            Err(e) => { return Err(e); },
        };
        let inbox = match field_url(j, "inbox") {
            Some(u) => u,
            None => { return Err(invalid_field("inbox")); },
        };
        let endpoints = match j.get_present("endpoints") {
            Some(v) => Endpoints::decode(v),
            None => None,
        };
        let name_map = match j.get_present("nameMap") {
            Some(v) => decode_text_map(v),
            None => None,
        };
        let icon = match j.get_present("icon") {
            Some(v) => ImageReference::decode(v),
            None => None,
        };
        let public_key = match j.get_present("publicKey") {
            Some(v) => PublicKeyReference::decode(v),
            None => None,
        };
        let searchable_by = match j.get_present("searchableBy") {
            Some(v) => decode_url_list(v),
            None => None,
        };
        let tag = match j.get_present("tag") {
            Some(v) => TagReference::decode(v),
            None => None,
        };
        let attachment = match j.get_present("attachment") {
            Some(v) => AttachmentReference::decode(v),
            None => None,
        };
        Ok(
            Actor {
                object_entity,
                inbox,
                followers: field_url(j, "followers"),
                following: field_url(j, "following"),
                preferred_username: field_string(j, "preferredUsername"),
                endpoints,
                name_map,
                summary: field_string(j, "summary"),
                icon,
                public_key,
                indexable: field_bool(j, "indexable"),
                discoverable: field_bool(j, "discoverable"),
                searchable_by,
                tag,
                attachment,
            },
        )
    }

    fn push_head_entries(&self, out: &mut Vec<(String, JsonValue)>)
        ensures
            entries_of(*final(out)) == entries_of(*old(out)) + actor_head_entries(self@),
    {
        let ghost before = entries_of(*out);
        push_entry(out, "inbox", JsonValue::Str(self.inbox.as_str().to_owned()));
        push_entry(out, "followers", url_json(&self.followers));
        push_entry(out, "following", url_json(&self.following));
        push_entry(out, "preferredUsername", string_json(&self.preferred_username));
        let endpoints = match &self.endpoints {
            Some(e) => e.to_json(),
            None => JsonValue::Null,
        };
        push_entry(out, "endpoints", endpoints);
        let name_map = match &self.name_map {
            Some(m) => text_map_json(m),
            None => JsonValue::Null,
        };
        push_entry(out, "nameMap", name_map);
        proof {
            assert(entries_of(*out) =~= before + actor_head_entries(self@));
        }
    }

    fn push_tail_entries(&self, out: &mut Vec<(String, JsonValue)>)
        ensures
            entries_of(*final(out)) == entries_of(*old(out)) + actor_tail_entries(self@),
    {
        let ghost before = entries_of(*out);
        push_entry(out, "summary", string_json(&self.summary));
        let icon = match &self.icon {
            Some(v) => v.to_json(),
            None => JsonValue::Null,
        };
        push_entry(out, "icon", icon);
        let public_key = match &self.public_key {
            Some(v) => v.to_json(),
            None => JsonValue::Null,
        };
        push_entry(out, "publicKey", public_key);
        push_entry(out, "indexable", bool_json(self.indexable));
        push_entry(out, "discoverable", bool_json(self.discoverable));
        let searchable_by = match &self.searchable_by {
            Some(l) => url_list_json(l),
            None => JsonValue::Null,
        };
        push_entry(out, "searchableBy", searchable_by);
        let tag = match &self.tag {
            Some(v) => v.to_json(),
            None => JsonValue::Null,
        };
        push_entry(out, "tag", tag);
        let attachment = match &self.attachment {
            Some(v) => v.to_json(),
            None => JsonValue::Null,
        };
        push_entry(out, "attachment", attachment);
        proof {
            assert(entries_of(*out) =~= before + actor_tail_entries(self@));
        }
    }

    pub fn to_json(&self) -> (r: JsonValue)
        ensures
            r@ == spec_encode_actor(self@),
    {
        let mut out: Vec<(String, JsonValue)> = Vec::new();
        proof {
            assert(entries_of(out) =~= Seq::empty());
        }
        self.object_entity.push_entries(&mut out);
        self.push_head_entries(&mut out);
        self.push_tail_entries(&mut out);
        proof {
            assert(entries_of(out) =~= actor_entries(self@));
        }
        JsonValue::Object(out)
    }
}

impl ActorReference {
    pub fn decode(j: &JsonValue) -> (r: Option<ActorReference>)
        ensures
            opt_view(r) == spec_decode_actor_reference(j@),
    {
        match Actor::decode(j) {
            Ok(a) => { return Some(ActorReference::Actor(Box::new(a))); },
            Err(_) => {},
        }
        match Object::decode(j) {
            Ok(o) => { return Some(ActorReference::BasicData(Box::new(o))); },
            Err(_) => {},
        }
        match j {
            JsonValue::Str(s) => match Url::parse(s.as_str()) {
                Some(u) => Some(ActorReference::Url(u)),
                None => None,
            },
            _ => None,
        }
    }

    pub fn to_json(&self) -> (r: JsonValue)
        ensures
            r@ == spec_encode_actor_reference(self@),
    {
        match self {
            ActorReference::Actor(a) => a.to_json(),
            ActorReference::BasicData(o) => o.to_json(),
            ActorReference::Url(u) => JsonValue::Str(u.as_str().to_owned()),
        }
    }
}

impl CompoundActorReference {
    pub fn decode(j: &JsonValue) -> (r: Option<CompoundActorReference>)
        ensures
            opt_view(r) == spec_decode_compound_actor_reference(j@),
    {
        match ActorReference::decode(j) {
            Some(r) => { return Some(CompoundActorReference::Reference(r)); },
            None => {},
        }
        match j {
            JsonValue::Array(items) => match decode_actor_references(items) {
                Some(l) => Some(CompoundActorReference::List(l)),
                None => None,
            },
            _ => None,
        }
    }

    pub fn to_json(&self) -> (r: JsonValue)
        ensures
            r@ == spec_encode_compound_actor_reference(self@),
    {
        match self {
            CompoundActorReference::Reference(r) => r.to_json(),
            CompoundActorReference::List(l) => actor_references_json(l),
        }
    }
}

/// Looking up each property of an encoded actor finds its entry.
pub proof fn lemma_actor_lookups(entries: Seq<(Seq<char>, JsonView)>)
    requires
        entries.len() == 19,
        entries[0].0 == "@context"@,
        entries[1].0 == "type"@,
        entries[2].0 == "id"@,
        entries[3].0 == "name"@,
        entries[4].0 == "url"@,
        entries[5].0 == "inbox"@,
        entries[6].0 == "followers"@,
        entries[7].0 == "following"@,
        entries[8].0 == "preferredUsername"@,
        entries[9].0 == "endpoints"@,
        entries[10].0 == "nameMap"@,
        entries[11].0 == "summary"@,
        entries[12].0 == "icon"@,
        entries[13].0 == "publicKey"@,
        entries[14].0 == "indexable"@,
        entries[15].0 == "discoverable"@,
        entries[16].0 == "searchableBy"@,
        entries[17].0 == "tag"@,
        entries[18].0 == "attachment"@,
    ensures
        JsonView::Object(entries).get("@context"@) == Some(entries[0].1),
        JsonView::Object(entries).get("type"@) == Some(entries[1].1),
        JsonView::Object(entries).get("id"@) == Some(entries[2].1),
        JsonView::Object(entries).get("name"@) == Some(entries[3].1),
        JsonView::Object(entries).get("url"@) == Some(entries[4].1),
        JsonView::Object(entries).get("inbox"@) == Some(entries[5].1),
        JsonView::Object(entries).get("followers"@) == Some(entries[6].1),
        JsonView::Object(entries).get("following"@) == Some(entries[7].1),
        JsonView::Object(entries).get("preferredUsername"@) == Some(entries[8].1),
        JsonView::Object(entries).get("endpoints"@) == Some(entries[9].1),
        JsonView::Object(entries).get("nameMap"@) == Some(entries[10].1),
        JsonView::Object(entries).get("summary"@) == Some(entries[11].1),
        JsonView::Object(entries).get("icon"@) == Some(entries[12].1),
        JsonView::Object(entries).get("publicKey"@) == Some(entries[13].1),
        JsonView::Object(entries).get("indexable"@) == Some(entries[14].1),
        JsonView::Object(entries).get("discoverable"@) == Some(entries[15].1),
        JsonView::Object(entries).get("searchableBy"@) == Some(entries[16].1),
        JsonView::Object(entries).get("tag"@) == Some(entries[17].1),
        JsonView::Object(entries).get("attachment"@) == Some(entries[18].1),
{
    reveal_strlit("@context");
    reveal_strlit("attachment");
    reveal_strlit("discoverable");
    reveal_strlit("endpoints");
    reveal_strlit("followers");
    reveal_strlit("following");
    reveal_strlit("icon");
    reveal_strlit("id");
    reveal_strlit("inbox");
    reveal_strlit("indexable");
    reveal_strlit("name");
    reveal_strlit("nameMap");
    reveal_strlit("preferredUsername");
    reveal_strlit("publicKey");
    reveal_strlit("searchableBy");
    reveal_strlit("summary");
    reveal_strlit("tag");
    reveal_strlit("type");
    reveal_strlit("url");
    crate::json::lemma_field_of_index(entries, "@context"@, 0);
    assert forall|j: int| 0 <= j < 1 implies entries[j].0 != "type"@ by {
        if j == 0 {
            assert("type"@.len() != "@context"@.len());
        }
    }
    crate::json::lemma_field_of_index(entries, "type"@, 1);
    assert forall|j: int| 0 <= j < 2 implies entries[j].0 != "id"@ by {
        if j == 0 {
            assert("id"@.len() != "@context"@.len());
        } else if j == 1 {
            assert("id"@.len() != "type"@.len());
        }
    }
    crate::json::lemma_field_of_index(entries, "id"@, 2);
    assert forall|j: int| 0 <= j < 3 implies entries[j].0 != "name"@ by {
        if j == 0 {
            assert("name"@.len() != "@context"@.len());
        } else if j == 1 {
            assert("name"@[0] != "type"@[0]);
        } else if j == 2 {
            assert("name"@.len() != "id"@.len());
        }
    }
    crate::json::lemma_field_of_index(entries, "name"@, 3);
    assert forall|j: int| 0 <= j < 4 implies entries[j].0 != "url"@ by {
        if j == 0 {
            assert("url"@.len() != "@context"@.len());
        } else if j == 1 {
            assert("url"@.len() != "type"@.len());
        } else if j == 2 {
            assert("url"@.len() != "id"@.len());
        } else if j == 3 {
            assert("url"@.len() != "name"@.len());
        }
    }
    crate::json::lemma_field_of_index(entries, "url"@, 4);
    assert forall|j: int| 0 <= j < 5 implies entries[j].0 != "inbox"@ by {
        if j == 0 {
            assert("inbox"@.len() != "@context"@.len());
        } else if j == 1 {
            assert("inbox"@.len() != "type"@.len());
        } else if j == 2 {
            assert("inbox"@.len() != "id"@.len());
        } else if j == 3 {
            assert("inbox"@.len() != "name"@.len());
        } else if j == 4 {
            assert("inbox"@.len() != "url"@.len());
        }
    }
    crate::json::lemma_field_of_index(entries, "inbox"@, 5);
    assert forall|j: int| 0 <= j < 6 implies entries[j].0 != "followers"@ by {
        if j == 0 {
            assert("followers"@.len() != "@context"@.len());
        } else if j == 1 {
            assert("followers"@.len() != "type"@.len());
        } else if j == 2 {
            assert("followers"@.len() != "id"@.len());
        } else if j == 3 {
            assert("followers"@.len() != "name"@.len());
        } else if j == 4 {
            assert("followers"@.len() != "url"@.len());
        } else if j == 5 {
            assert("followers"@.len() != "inbox"@.len());
        }
    }
    crate::json::lemma_field_of_index(entries, "followers"@, 6);
    assert forall|j: int| 0 <= j < 7 implies entries[j].0 != "following"@ by {
        if j == 0 {
            assert("following"@.len() != "@context"@.len());
        } else if j == 1 {
            assert("following"@.len() != "type"@.len());
        } else if j == 2 {
            assert("following"@.len() != "id"@.len());
        } else if j == 3 {
            assert("following"@.len() != "name"@.len());
        } else if j == 4 {
            assert("following"@.len() != "url"@.len());
        } else if j == 5 {
            assert("following"@.len() != "inbox"@.len());
        } else if j == 6 {
            assert("following"@[6] != "followers"@[6]);
        }
    }
    crate::json::lemma_field_of_index(entries, "following"@, 7);
    assert forall|j: int| 0 <= j < 8 implies entries[j].0 != "preferredUsername"@ by {
        if j == 0 {
            assert("preferredUsername"@.len() != "@context"@.len());
        } else if j == 1 {
            assert("preferredUsername"@.len() != "type"@.len());
        } else if j == 2 {
            assert("preferredUsername"@.len() != "id"@.len());
        } else if j == 3 {
            assert("preferredUsername"@.len() != "name"@.len());
        } else if j == 4 {
            assert("preferredUsername"@.len() != "url"@.len());
        } else if j == 5 {
            assert("preferredUsername"@.len() != "inbox"@.len());
        } else if j == 6 {
            assert("preferredUsername"@.len() != "followers"@.len());
        } else if j == 7 {
            assert("preferredUsername"@.len() != "following"@.len());
        }
    }
    crate::json::lemma_field_of_index(entries, "preferredUsername"@, 8);
    assert forall|j: int| 0 <= j < 9 implies entries[j].0 != "endpoints"@ by {
        if j == 0 {
            assert("endpoints"@.len() != "@context"@.len());
        } else if j == 1 {
            assert("endpoints"@.len() != "type"@.len());
        } else if j == 2 {
            assert("endpoints"@.len() != "id"@.len());
        } else if j == 3 {
            assert("endpoints"@.len() != "name"@.len());
        } else if j == 4 {
            assert("endpoints"@.len() != "url"@.len());
        } else if j == 5 {
            assert("endpoints"@.len() != "inbox"@.len());
        } else if j == 6 {
            assert("endpoints"@[0] != "followers"@[0]);
        } else if j == 7 {
            assert("endpoints"@[0] != "following"@[0]);
        } else if j == 8 {
            assert("endpoints"@.len() != "preferredUsername"@.len());
        }
    }
    crate::json::lemma_field_of_index(entries, "endpoints"@, 9);
    assert forall|j: int| 0 <= j < 10 implies entries[j].0 != "nameMap"@ by {
        if j == 0 {
            assert("nameMap"@.len() != "@context"@.len());
        } else if j == 1 {
            assert("nameMap"@.len() != "type"@.len());
        } else if j == 2 {
            assert("nameMap"@.len() != "id"@.len());
        } else if j == 3 {
            assert("nameMap"@.len() != "name"@.len());
        } else if j == 4 {
            assert("nameMap"@.len() != "url"@.len());
        } else if j == 5 {
            assert("nameMap"@.len() != "inbox"@.len());
        } else if j == 6 {
            assert("nameMap"@.len() != "followers"@.len());
        } else if j == 7 {
            assert("nameMap"@.len() != "following"@.len());
        } else if j == 8 {
            assert("nameMap"@.len() != "preferredUsername"@.len());
        } else if j == 9 {
            assert("nameMap"@.len() != "endpoints"@.len());
        }
    }
    crate::json::lemma_field_of_index(entries, "nameMap"@, 10);
    assert forall|j: int| 0 <= j < 11 implies entries[j].0 != "summary"@ by {
        if j == 0 {
            assert("summary"@.len() != "@context"@.len());
        } else if j == 1 {
            assert("summary"@.len() != "type"@.len());
        } else if j == 2 {
            assert("summary"@.len() != "id"@.len());
        } else if j == 3 {
            assert("summary"@.len() != "name"@.len());
        } else if j == 4 {
            assert("summary"@.len() != "url"@.len());
        } else if j == 5 {
            assert("summary"@.len() != "inbox"@.len());
        } else if j == 6 {
            assert("summary"@.len() != "followers"@.len());
        } else if j == 7 {
            assert("summary"@.len() != "following"@.len());
        } else if j == 8 {
            assert("summary"@.len() != "preferredUsername"@.len());
        } else if j == 9 {
            assert("summary"@.len() != "endpoints"@.len());
        } else if j == 10 {
            assert("summary"@[0] != "nameMap"@[0]);
        }
    }
    crate::json::lemma_field_of_index(entries, "summary"@, 11);
    assert forall|j: int| 0 <= j < 12 implies entries[j].0 != "icon"@ by {
        if j == 0 {
            assert("icon"@.len() != "@context"@.len());
        } else if j == 1 {
            assert("icon"@[0] != "type"@[0]);
        } else if j == 2 {
            assert("icon"@.len() != "id"@.len());
        } else if j == 3 {
            assert("icon"@[0] != "name"@[0]);
        } else if j == 4 {
            assert("icon"@.len() != "url"@.len());
        } else if j == 5 {
            assert("icon"@.len() != "inbox"@.len());
        } else if j == 6 {
            assert("icon"@.len() != "followers"@.len());
        } else if j == 7 {
            assert("icon"@.len() != "following"@.len());
        } else if j == 8 {
            assert("icon"@.len() != "preferredUsername"@.len());
        } else if j == 9 {
            assert("icon"@.len() != "endpoints"@.len());
        } else if j == 10 {
            assert("icon"@.len() != "nameMap"@.len());
        } else if j == 11 {
            assert("icon"@.len() != "summary"@.len());
        }
    }
    crate::json::lemma_field_of_index(entries, "icon"@, 12);
    assert forall|j: int| 0 <= j < 13 implies entries[j].0 != "publicKey"@ by {
        if j == 0 {
            assert("publicKey"@.len() != "@context"@.len());
        } else if j == 1 {
            assert("publicKey"@.len() != "type"@.len());
        } else if j == 2 {
            assert("publicKey"@.len() != "id"@.len());
        } else if j == 3 {
            assert("publicKey"@.len() != "name"@.len());
        } else if j == 4 {
            assert("publicKey"@.len() != "url"@.len());
        } else if j == 5 {
            assert("publicKey"@.len() != "inbox"@.len());
        } else if j == 6 {
            assert("publicKey"@[0] != "followers"@[0]);
        } else if j == 7 {
            assert("publicKey"@[0] != "following"@[0]);
        } else if j == 8 {
            assert("publicKey"@.len() != "preferredUsername"@.len());
        } else if j == 9 {
            assert("publicKey"@[0] != "endpoints"@[0]);
        } else if j == 10 {
            assert("publicKey"@.len() != "nameMap"@.len());
        } else if j == 11 {
            assert("publicKey"@.len() != "summary"@.len());
        } else if j == 12 {
            assert("publicKey"@.len() != "icon"@.len());
        }
    }
    crate::json::lemma_field_of_index(entries, "publicKey"@, 13);
    assert forall|j: int| 0 <= j < 14 implies entries[j].0 != "indexable"@ by {
        if j == 0 {
            assert("indexable"@.len() != "@context"@.len());
        } else if j == 1 {
            assert("indexable"@.len() != "type"@.len());
        } else if j == 2 {
            assert("indexable"@.len() != "id"@.len());
        } else if j == 3 {
            assert("indexable"@.len() != "name"@.len());
        } else if j == 4 {
            assert("indexable"@.len() != "url"@.len());
        } else if j == 5 {
            assert("indexable"@.len() != "inbox"@.len());
        } else if j == 6 {
            assert("indexable"@[0] != "followers"@[0]);
        } else if j == 7 {
            assert("indexable"@[0] != "following"@[0]);
        } else if j == 8 {
            assert("indexable"@.len() != "preferredUsername"@.len());
        } else if j == 9 {
            assert("indexable"@[0] != "endpoints"@[0]);
        } else if j == 10 {
            assert("indexable"@.len() != "nameMap"@.len());
        } else if j == 11 {
            assert("indexable"@.len() != "summary"@.len());
        } else if j == 12 {
            assert("indexable"@.len() != "icon"@.len());
        } else if j == 13 {
            assert("indexable"@[0] != "publicKey"@[0]);
        }
    }
    crate::json::lemma_field_of_index(entries, "indexable"@, 14);
    assert forall|j: int| 0 <= j < 15 implies entries[j].0 != "discoverable"@ by {
        if j == 0 {
            assert("discoverable"@.len() != "@context"@.len());
        } else if j == 1 {
            assert("discoverable"@.len() != "type"@.len());
        } else if j == 2 {
            assert("discoverable"@.len() != "id"@.len());
        } else if j == 3 {
            assert("discoverable"@.len() != "name"@.len());
        } else if j == 4 {
            assert("discoverable"@.len() != "url"@.len());
        } else if j == 5 {
            assert("discoverable"@.len() != "inbox"@.len());
        } else if j == 6 {
            assert("discoverable"@.len() != "followers"@.len());
        } else if j == 7 {
            assert("discoverable"@.len() != "following"@.len());
        } else if j == 8 {
            assert("discoverable"@.len() != "preferredUsername"@.len());
        } else if j == 9 {
            assert("discoverable"@.len() != "endpoints"@.len());
        } else if j == 10 {
            assert("discoverable"@.len() != "nameMap"@.len());
        } else if j == 11 {
            assert("discoverable"@.len() != "summary"@.len());
        } else if j == 12 {
            assert("discoverable"@.len() != "icon"@.len());
        } else if j == 13 {
            assert("discoverable"@.len() != "publicKey"@.len());
        } else if j == 14 {
            assert("discoverable"@.len() != "indexable"@.len());
        }
    }
    crate::json::lemma_field_of_index(entries, "discoverable"@, 15);
    assert forall|j: int| 0 <= j < 16 implies entries[j].0 != "searchableBy"@ by {
        if j == 0 {
            assert("searchableBy"@.len() != "@context"@.len());
        } else if j == 1 {
            assert("searchableBy"@.len() != "type"@.len());
        } else if j == 2 {
            assert("searchableBy"@.len() != "id"@.len());
        } else if j == 3 {
            assert("searchableBy"@.len() != "name"@.len());
        } else if j == 4 {
            assert("searchableBy"@.len() != "url"@.len());
        } else if j == 5 {
            assert("searchableBy"@.len() != "inbox"@.len());
        } else if j == 6 {
            assert("searchableBy"@.len() != "followers"@.len());
        } else if j == 7 {
            assert("searchableBy"@.len() != "following"@.len());
        } else if j == 8 {
            assert("searchableBy"@.len() != "preferredUsername"@.len());
        } else if j == 9 {
            assert("searchableBy"@.len() != "endpoints"@.len());
        } else if j == 10 {
            assert("searchableBy"@.len() != "nameMap"@.len());
        } else if j == 11 {
            assert("searchableBy"@.len() != "summary"@.len());
        } else if j == 12 {
            assert("searchableBy"@.len() != "icon"@.len());
        } else if j == 13 {
            assert("searchableBy"@.len() != "publicKey"@.len());
        } else if j == 14 {
            assert("searchableBy"@.len() != "indexable"@.len());
        } else if j == 15 {
            assert("searchableBy"@[0] != "discoverable"@[0]);
        }
    }
    crate::json::lemma_field_of_index(entries, "searchableBy"@, 16);
    assert forall|j: int| 0 <= j < 17 implies entries[j].0 != "tag"@ by {
        if j == 0 {
            assert("tag"@.len() != "@context"@.len());
        } else if j == 1 {
            assert("tag"@.len() != "type"@.len());
        } else if j == 2 {
            assert("tag"@.len() != "id"@.len());
        } else if j == 3 {
            assert("tag"@.len() != "name"@.len());
        } else if j == 4 {
            assert("tag"@[0] != "url"@[0]);
        } else if j == 5 {
            assert("tag"@.len() != "inbox"@.len());
        } else if j == 6 {
            assert("tag"@.len() != "followers"@.len());
        } else if j == 7 {
            assert("tag"@.len() != "following"@.len());
        } else if j == 8 {
            assert("tag"@.len() != "preferredUsername"@.len());
        } else if j == 9 {
            assert("tag"@.len() != "endpoints"@.len());
        } else if j == 10 {
            assert("tag"@.len() != "nameMap"@.len());
        } else if j == 11 {
            assert("tag"@.len() != "summary"@.len());
        } else if j == 12 {
            assert("tag"@.len() != "icon"@.len());
        } else if j == 13 {
            assert("tag"@.len() != "publicKey"@.len());
        } else if j == 14 {
            assert("tag"@.len() != "indexable"@.len());
        } else if j == 15 {
            assert("tag"@.len() != "discoverable"@.len());
        } else if j == 16 {
            assert("tag"@.len() != "searchableBy"@.len());
        }
    }
    crate::json::lemma_field_of_index(entries, "tag"@, 17);
    assert forall|j: int| 0 <= j < 18 implies entries[j].0 != "attachment"@ by {
        if j == 0 {
            assert("attachment"@.len() != "@context"@.len());
        } else if j == 1 {
            assert("attachment"@.len() != "type"@.len());
        } else if j == 2 {
            assert("attachment"@.len() != "id"@.len());
        } else if j == 3 {
            assert("attachment"@.len() != "name"@.len());
        } else if j == 4 {
            assert("attachment"@.len() != "url"@.len());
        } else if j == 5 {
            assert("attachment"@.len() != "inbox"@.len());
        } else if j == 6 {
            assert("attachment"@.len() != "followers"@.len());
        } else if j == 7 {
            assert("attachment"@.len() != "following"@.len());
        } else if j == 8 {
            assert("attachment"@.len() != "preferredUsername"@.len());
        } else if j == 9 {
            assert("attachment"@.len() != "endpoints"@.len());
        } else if j == 10 {
            assert("attachment"@.len() != "nameMap"@.len());
        } else if j == 11 {
            assert("attachment"@.len() != "summary"@.len());
        } else if j == 12 {
            assert("attachment"@.len() != "icon"@.len());
        } else if j == 13 {
            assert("attachment"@.len() != "publicKey"@.len());
        } else if j == 14 {
            assert("attachment"@.len() != "indexable"@.len());
        } else if j == 15 {
            assert("attachment"@.len() != "discoverable"@.len());
        } else if j == 16 {
            assert("attachment"@.len() != "searchableBy"@.len());
        } else if j == 17 {
            assert("attachment"@.len() != "tag"@.len());
        }
    }
    crate::json::lemma_field_of_index(entries, "attachment"@, 18);
}
/// Looking up each property of an encoded bare object finds its entry.
pub proof fn lemma_bare_object_lookups(entries: Seq<(Seq<char>, JsonView)>)
    requires
        entries.len() == 5,
        entries[0].0 == "@context"@,
        entries[1].0 == "type"@,
        entries[2].0 == "id"@,
        entries[3].0 == "name"@,
        entries[4].0 == "url"@,
    ensures
        JsonView::Object(entries).get("@context"@) == Some(entries[0].1),
        JsonView::Object(entries).get("type"@) == Some(entries[1].1),
        JsonView::Object(entries).get("id"@) == Some(entries[2].1),
        JsonView::Object(entries).get("name"@) == Some(entries[3].1),
        JsonView::Object(entries).get("url"@) == Some(entries[4].1),
        JsonView::Object(entries).get("inbox"@) is None,
{
    reveal_strlit("@context");
    reveal_strlit("id");
    reveal_strlit("inbox");
    reveal_strlit("name");
    reveal_strlit("type");
    reveal_strlit("url");
    crate::json::lemma_field_of_index(entries, "@context"@, 0);
    assert forall|j: int| 0 <= j < 1 implies entries[j].0 != "type"@ by {
        if j == 0 {
            assert("type"@.len() != "@context"@.len());
        }
    }
    crate::json::lemma_field_of_index(entries, "type"@, 1);
    assert forall|j: int| 0 <= j < 2 implies entries[j].0 != "id"@ by {
        if j == 0 {
            assert("id"@.len() != "@context"@.len());
        } else if j == 1 {
            assert("id"@.len() != "type"@.len());
        }
    }
    crate::json::lemma_field_of_index(entries, "id"@, 2);
    assert forall|j: int| 0 <= j < 3 implies entries[j].0 != "name"@ by {
        if j == 0 {
            assert("name"@.len() != "@context"@.len());
        } else if j == 1 {
            assert("name"@[0] != "type"@[0]);
        } else if j == 2 {
            assert("name"@.len() != "id"@.len());
        }
    }
    crate::json::lemma_field_of_index(entries, "name"@, 3);
    assert forall|j: int| 0 <= j < 4 implies entries[j].0 != "url"@ by {
        if j == 0 {
            assert("url"@.len() != "@context"@.len());
        } else if j == 1 {
            assert("url"@.len() != "type"@.len());
        } else if j == 2 {
            assert("url"@.len() != "id"@.len());
        } else if j == 3 {
            assert("url"@.len() != "name"@.len());
        }
    }
    crate::json::lemma_field_of_index(entries, "url"@, 4);
    assert forall|j: int| 0 <= j < 5 implies #[trigger] entries[j].0 != "inbox"@ by {
        if j == 0 {
            assert("inbox"@.len() != "@context"@.len());
        } else if j == 1 {
            assert("inbox"@.len() != "type"@.len());
        } else if j == 2 {
            assert("inbox"@.len() != "id"@.len());
        } else if j == 3 {
            assert("inbox"@.len() != "name"@.len());
        } else if j == 4 {
            assert("inbox"@.len() != "url"@.len());
        }
    }
    crate::json::lemma_absent_lookup(entries, "inbox"@);
}
/// Looking up each property of an encoded public key finds its entry.
pub proof fn lemma_public_key_lookups(entries: Seq<(Seq<char>, JsonView)>)
    requires
        entries.len() == 3,
        entries[0].0 == "id"@,
        entries[1].0 == "owner"@,
        entries[2].0 == "publicKeyPem"@,
    ensures
        JsonView::Object(entries).get("id"@) == Some(entries[0].1),
        JsonView::Object(entries).get("owner"@) == Some(entries[1].1),
        JsonView::Object(entries).get("publicKeyPem"@) == Some(entries[2].1),
{
    reveal_strlit("id");
    reveal_strlit("owner");
    reveal_strlit("publicKeyPem");
    crate::json::lemma_field_of_index(entries, "id"@, 0);
    assert forall|j: int| 0 <= j < 1 implies entries[j].0 != "owner"@ by {
        if j == 0 {
            assert("owner"@.len() != "id"@.len());
        }
    }
    crate::json::lemma_field_of_index(entries, "owner"@, 1);
    assert forall|j: int| 0 <= j < 2 implies entries[j].0 != "publicKeyPem"@ by {
        if j == 0 {
            assert("publicKeyPem"@.len() != "id"@.len());
        } else if j == 1 {
            assert("publicKeyPem"@.len() != "owner"@.len());
        }
    }
    crate::json::lemma_field_of_index(entries, "publicKeyPem"@, 2);
}

impl EndpointsView {
    pub open spec fn canonical(self) -> bool {
        self.shared_inbox matches Some(u) ==> u.wf()
    }
}

impl PublicKeyView {
    pub open spec fn canonical(self) -> bool {
        self.id.wf() && self.owner.wf()
    }
}

impl PublicKeyReferenceView {
    pub open spec fn canonical(self) -> bool {
        match self {
            PublicKeyReferenceView::Single(k) => k.canonical(),
            PublicKeyReferenceView::List(l) => forall|i: int| 0 <= i < l.len() ==> (#[trigger] l[i]).canonical(),
        }
    }
}

impl ActorView {
    /// Every URL and context is in normalised form, and no URL reference is
    /// an empty list of bare URLs.
    pub open spec fn canonical(self) -> bool {
        &&& self.object_entity.canonical()
        &&& self.inbox.wf()
        &&& self.followers matches Some(u) ==> u.wf()
        &&& self.following matches Some(u) ==> u.wf()
        &&& self.endpoints matches Some(e) ==> e.canonical()
        &&& self.icon matches Some(i) ==> i.canonical()
        &&& self.public_key matches Some(k) ==> k.canonical()
        &&& self.searchable_by matches Some(l) ==> forall|i: int| 0 <= i < l.len() ==> (#[trigger] l[i]).wf()
        &&& self.tag matches Some(t) ==> t.canonical()
        &&& self.attachment matches Some(a) ==> a.canonical()
    }
}

impl ActorReferenceView {
    pub open spec fn canonical(self) -> bool {
        match self {
            ActorReferenceView::Actor(a) => a.canonical(),
            ActorReferenceView::BasicData(o) => o.canonical(),
            ActorReferenceView::Url(u) => u.wf(),
        }
    }
}

impl CompoundActorReferenceView {
    pub open spec fn canonical(self) -> bool {
        match self {
            CompoundActorReferenceView::Reference(r) => r.canonical(),
            CompoundActorReferenceView::List(l) => forall|i: int| 0 <= i < l.len() ==> (#[trigger] l[i]).canonical(),
        }
    }
}

/// Decoding an encoded public key gives it back.
pub proof fn lemma_public_key_round_trip(k: PublicKeyView)
    requires
        k.canonical(),
    ensures
        spec_decode_public_key(spec_encode_public_key(k)) == Some(k),
{
    lemma_public_key_lookups(seq![
        ("id"@, JsonView::Str(k.id.href)),
        ("owner"@, JsonView::Str(k.owner.href)),
        ("publicKeyPem"@, JsonView::Str(k.public_key_pem)),
    ]);
}

/// Decoding an encoded public key reference gives it back, single or list.
pub proof fn lemma_public_key_reference_round_trip(r: PublicKeyReferenceView)
    requires
        r.canonical(),
    ensures
        spec_decode_public_key_reference(spec_encode_public_key_reference(r)) == Some(r),
{
    match r {
        PublicKeyReferenceView::Single(k) => {
            lemma_public_key_round_trip(k);
        },
        PublicKeyReferenceView::List(l) => {
            let items = l.map_values(|x: PublicKeyView| spec_encode_public_key(x));
            assert forall|k: int| 0 <= k < items.len() implies public_key_decoder()(#[trigger] items[k]) == Some(l[k]) by {
                lemma_public_key_round_trip(l[k]);
            }
            crate::json::lemma_decode_each_values(items, public_key_decoder(), l);
        },
    }
}

/// Decoding an encoded map of texts gives it back.
pub proof fn lemma_text_map_round_trip(m: Seq<(Seq<char>, Seq<char>)>)
    ensures
        spec_decode_text_map(spec_encode_text_map(m)) == Some(m),
{
    let entries = m.map_values(|p: (Seq<char>, Seq<char>)| (p.0, JsonView::Str(p.1)));
    assert(entries.map_values(|e: (Seq<char>, JsonView)| (e.0, e.1->Str_0)) =~= m);
}

/// Decoding an encoded list of URLs gives it back.
pub proof fn lemma_url_list_round_trip(l: Seq<UrlView>)
    requires
        forall|i: int| 0 <= i < l.len() ==> (#[trigger] l[i]).wf(),
    ensures
        read_url_list(Some(url_list_or_null(Some(l)))) == Some(l),
{
    let items = l.map_values(|x: UrlView| JsonView::Str(x.href));
    assert forall|i: int| 0 <= i < items.len() implies url_decoder()(#[trigger] items[i]) == Some(l[i]) by {
        assert(l[i].wf());
    }
    crate::json::lemma_decode_each_values(items, url_decoder(), l);
}

proof fn lemma_actor_object_part(a: ActorView)
    requires
        a.canonical(),
    ensures
        spec_decode_object(spec_encode_actor(a)) == Ok::<ObjectView, DecodeErrorView>(a.object_entity),
        read_url(spec_encode_actor(a).get_present("inbox"@)) == Some(a.inbox),
{
    lemma_actor_lookups(actor_entries(a));
    crate::entity::lemma_read_context_round_trip(a.object_entity.entity.context);
    crate::entity::lemma_type_name_round_trip(a.object_entity.entity.object_type);
    crate::object::lemma_read_url_reference_round_trip(a.object_entity.url);
}

proof fn lemma_actor_head_part(a: ActorView)
    requires
        a.canonical(),
    ensures
        read_url(spec_encode_actor(a).get_present("followers"@)) == a.followers,
        read_url(spec_encode_actor(a).get_present("following"@)) == a.following,
        read_string(spec_encode_actor(a).get_present("preferredUsername"@)) == a.preferred_username,
        match spec_encode_actor(a).get_present("endpoints"@) {
            Some(v) => spec_decode_endpoints(v),
            None => None,
        } == a.endpoints,
        match spec_encode_actor(a).get_present("nameMap"@) {
            Some(v) => spec_decode_text_map(v),
            None => None,
        } == a.name_map,
{
    lemma_actor_lookups(actor_entries(a));
    if let Some(m) = a.name_map {
        lemma_text_map_round_trip(m);
    }
    if let Some(e) = a.endpoints {
        lemma_endpoints_lookups(seq![("sharedInbox"@, url_or_null(e.shared_inbox))]);
    }
}

proof fn lemma_actor_tail_part(a: ActorView)
    requires
        a.canonical(),
    ensures
        read_string(spec_encode_actor(a).get_present("summary"@)) == a.summary,
        read_image_reference(spec_encode_actor(a).get_present("icon"@)) == a.icon,
        match spec_encode_actor(a).get_present("publicKey"@) {
            Some(v) => spec_decode_public_key_reference(v),
            None => None,
        } == a.public_key,
        read_bool(spec_encode_actor(a).get_present("indexable"@)) == a.indexable,
        read_bool(spec_encode_actor(a).get_present("discoverable"@)) == a.discoverable,
        read_url_list(spec_encode_actor(a).get_present("searchableBy"@)) == a.searchable_by,
        read_tag_reference(spec_encode_actor(a).get_present("tag"@)) == a.tag,
        read_attachment_reference(spec_encode_actor(a).get_present("attachment"@)) == a.attachment,
{
    lemma_actor_lookups(actor_entries(a));
    crate::image::lemma_read_image_reference_round_trip(a.icon);
    crate::tag::lemma_read_tag_reference_round_trip(a.tag);
    crate::attachment::lemma_read_attachment_reference_round_trip(a.attachment);
    if let Some(k) = a.public_key {
        lemma_public_key_reference_round_trip(k);
        match k {
            PublicKeyReferenceView::Single(_) => {},
            PublicKeyReferenceView::List(_) => {},
        }
    }
    if let Some(l) = a.searchable_by {
        lemma_url_list_round_trip(l);
    }
}

/// Decoding an encoded actor gives it back.
pub proof fn lemma_actor_round_trip(a: ActorView)
    requires
        a.canonical(),
    ensures
        spec_decode_actor(spec_encode_actor(a)) == Ok::<ActorView, DecodeErrorView>(a),
{
    lemma_actor_object_part(a);
    lemma_actor_head_part(a);
    lemma_actor_tail_part(a);
}

/// Decoding an encoded actor reference gives it back, whichever its shape.
pub proof fn lemma_actor_reference_round_trip(r: ActorReferenceView)
    requires
        r.canonical(),
    ensures
        spec_decode_actor_reference(spec_encode_actor_reference(r)) == Some(r),
{
    match r {
        ActorReferenceView::Actor(a) => {
            lemma_actor_round_trip(a);
        },
        ActorReferenceView::BasicData(o) => {
            crate::object::lemma_object_round_trip(o);
            lemma_bare_object_lookups(object_entries(o));
        },
        ActorReferenceView::Url(u) => {},
    }
}

/// Decoding an encoded compound actor reference gives it back, single or
/// list.
pub proof fn lemma_compound_actor_reference_round_trip(r: CompoundActorReferenceView)
    requires
        r.canonical(),
    ensures
        spec_decode_compound_actor_reference(spec_encode_compound_actor_reference(r)) == Some(r),
{
    match r {
        CompoundActorReferenceView::Reference(a) => {
            lemma_actor_reference_round_trip(a);
        },
        CompoundActorReferenceView::List(l) => {
            let items = l.map_values(|x: ActorReferenceView| spec_encode_actor_reference(x));
            assert forall|k: int| 0 <= k < items.len() implies actor_reference_decoder()(#[trigger] items[k]) == Some(l[k]) by {
                lemma_actor_reference_round_trip(l[k]);
            }
            crate::json::lemma_decode_each_values(items, actor_reference_decoder(), l);
        },
    }
}


/// The actor-level verdict depends on the signal fields alone: two actors
/// with the same attachments, `searchableBy`, context, `indexable` and
/// `discoverable` get the same verdict, however often it is asked for.
pub proof fn lemma_actor_verdict_from_signals(a: ActorView, b: ActorView)
    requires
        a.attachments() == b.attachments(),
        a.searchable_by == b.searchable_by,
        a.context() == b.context(),
        a.indexable == b.indexable,
        a.discoverable == b.discoverable,
    ensures
        a.discoverable_state() == b.discoverable_state(),
{
}

proof fn lemma_index_property_at(l: Seq<AttachmentView>, k: int)
    requires
        0 <= k < l.len(),
        is_index_property(l[k]),
        forall|j: int| 0 <= j < k ==> !is_index_property(#[trigger] l[j]),
    ensures
        index_property_verdict(l) == if l[k].content == Some("allow"@) {
            Some(DiscoverableView::Allowed(AllowReasonView::FedinekoProperty))
        } else {
            Some(DiscoverableView::Denied(DenyReason::FedinekoProperty))
        },
    decreases k,
{
    if k > 0 {
        assert(!is_index_property(l[0]));
        let rest = l.drop_first();
        assert forall|j: int| 0 <= j < k - 1 implies !is_index_property(#[trigger] rest[j]) by {
            assert(rest[j] == l[j + 1]);
        }
        lemma_index_property_at(rest, k - 1);
    }
}

/// A `fedineko:index` property valued `allow`, with no such property before
/// it, allows indexing whatever `indexable`, `discoverable`, `searchableBy`
/// and the context say.
pub proof fn lemma_index_property_allow_wins(a: ActorView, k: int)
    requires
        0 <= k < a.attachments().len(),
        a.attachments()[k].object_type == EntityType::PropertyValue,
        a.attachments()[k].name == Some("fedineko:index"@),
        a.attachments()[k].content == Some("allow"@),
        forall|j: int| 0 <= j < k ==> !is_index_property(#[trigger] a.attachments()[j]),
    ensures
        a.discoverable_state() == DiscoverableView::Allowed(AllowReasonView::FedinekoProperty),
{
    lemma_index_property_at(a.attachments(), k);
}

/// A list that holds a public address has a first one.
pub proof fn lemma_first_public(l: Seq<UrlView>, k: int)
    requires
        0 <= k < l.len(),
        is_public_address(l[k].href),
    ensures
        first_public(l) is Some,
        is_public_address(first_public(l)->0),
    decreases k,
{
    if k > 0 && !is_public_address(l[0].href) {
        assert(l.drop_first()[k - 1] == l[k]);
        lemma_first_public(l.drop_first(), k - 1);
    }
}

/// When the context declares `indexable` but the actor leaves it unset, and
/// neither a `fedineko:index` property nor `searchableBy` decides, indexing
/// is denied for `indexable`: `discoverable` is never consulted.
pub proof fn lemma_declared_unset_indexable_denies(a: ActorView)
    requires
        index_property_verdict(a.attachments()) is None,
        searchable_by_verdict(a.searchable_by) is None,
        a.context() matches Some(c) && c.has_definition("indexable"@),
        a.indexable is None,
    ensures
        a.discoverable_state() == DiscoverableView::Denied(DenyReason::Indexable),
{
}

proof fn lemma_first_person_like_at(l: Seq<ActorReferenceView>, k: int)
    requires
        0 <= k < l.len(),
        l[k].is_person_like(),
        forall|j: int| 0 <= j < k ==> !(#[trigger] l[j]).is_person_like(),
    ensures
        first_person_like(l) == Some(l[k].id()),
    decreases k,
{
    if k > 0 {
        let rest = l.drop_first();
        assert(!l[0].is_person_like());
        assert forall|j: int| 0 <= j < k - 1 implies !(#[trigger] rest[j]).is_person_like() by {
            assert(rest[j] == l[j + 1]);
        }
        lemma_first_person_like_at(rest, k - 1);
    }
}

proof fn lemma_no_person_like(l: Seq<ActorReferenceView>)
    requires
        forall|j: int| 0 <= j < l.len() ==> !(#[trigger] l[j]).is_person_like(),
    ensures
        first_person_like(l) is None,
    decreases l.len(),
{
    if l.len() > 0 {
        let rest = l.drop_first();
        assert forall|j: int| 0 <= j < rest.len() implies !(#[trigger] rest[j]).is_person_like() by {
            assert(rest[j] == l[j + 1]);
        }
        lemma_no_person_like(rest);
    }
}

/// In a list of actors the first person or service is attributed, wherever
/// it stands; with none, the first entry is. So `[Group, Person]` gives the
/// person and `[Group, Group]` the first group.
pub proof fn lemma_person_like_precedence(l: Seq<ActorReferenceView>)
    requires
        l.len() > 0,
    ensures
        (exists|k: int| 0 <= k < l.len() && (#[trigger] l[k]).is_person_like()) ==> {
            let k = choose|k: int| 0 <= k < l.len() && (#[trigger] l[k]).is_person_like() && forall|j: int|
                0 <= j < k ==> !(#[trigger] l[j]).is_person_like();
            CompoundActorReferenceView::List(l).id() == Some(l[k].id())
        },
        (forall|k: int| 0 <= k < l.len() ==> !(#[trigger] l[k]).is_person_like()) ==> CompoundActorReferenceView::List(
            l,
        ).id() == Some(l[0].id()),
{
    if exists|k: int| 0 <= k < l.len() && (#[trigger] l[k]).is_person_like() {
        let k0 = choose|k: int| 0 <= k < l.len() && (#[trigger] l[k]).is_person_like();
        lemma_least_person_like(l, k0);
        let k = choose|k: int| 0 <= k < l.len() && (#[trigger] l[k]).is_person_like() && forall|j: int|
            0 <= j < k ==> !(#[trigger] l[j]).is_person_like();
        lemma_first_person_like_at(l, k);
    }
    if forall|k: int| 0 <= k < l.len() ==> !(#[trigger] l[k]).is_person_like() {
        lemma_no_person_like(l);
    }
}

/// Attribution of a group listed with a person goes to the person; of two
/// groups, to the first.
pub proof fn lemma_group_and_person(g: ActorReferenceView, p: ActorReferenceView, h: ActorReferenceView)
    requires
        g.entity_type() == Some(EntityType::Group),
        p.entity_type() == Some(EntityType::Person),
        h.entity_type() == Some(EntityType::Group),
    ensures
        CompoundActorReferenceView::List(seq![g, p]).id() == Some(p.id()),
        CompoundActorReferenceView::List(seq![g, h]).id() == Some(g.id()),
{
    lemma_first_person_like_at(seq![g, p], 1);
    lemma_no_person_like(seq![g, h]);
}

proof fn lemma_least_person_like(l: Seq<ActorReferenceView>, k0: int)
    requires
        0 <= k0 < l.len(),
        l[k0].is_person_like(),
    ensures
        exists|k: int| 0 <= k < l.len() && (#[trigger] l[k]).is_person_like() && forall|j: int|
            0 <= j < k ==> !(#[trigger] l[j]).is_person_like(),
    decreases k0,
{
    if exists|j: int| 0 <= j < k0 && (#[trigger] l[j]).is_person_like() {
        let j = choose|j: int| 0 <= j < k0 && (#[trigger] l[j]).is_person_like();
        lemma_least_person_like(l, j);
    } else {
        assert(forall|j: int| 0 <= j < k0 ==> !(#[trigger] l[j]).is_person_like());
    }
}


impl ObjectTrait for Actor {
    open spec fn object_view(&self) -> ObjectView {
        self.object_entity@
    }

    fn context(&self) -> (r: Option<&Context>) {
        self.object_entity.context()
    }

    fn object_id(&self) -> (r: &Url) {
        self.object_entity.object_id()
    }

    fn object_id_str(&self) -> (r: &str) {
        self.object_entity.object_id_str()
    }

    fn entity_type(&self) -> (r: EntityType) {
        self.object_entity.entity_type()
    }
}

/// Looking up each property of an encoded endpoints finds its entry.
pub proof fn lemma_endpoints_lookups(entries: Seq<(Seq<char>, JsonView)>)
    requires
        entries.len() == 1,
        entries[0].0 == "sharedInbox"@,
    ensures
        JsonView::Object(entries).get("sharedInbox"@) == Some(entries[0].1),
{
    reveal_strlit("sharedInbox");
    crate::json::lemma_field_of_index(entries, "sharedInbox"@, 0);
}
} // verus!
