//! The closed taxonomy of ActivityPub entity kinds.
use vstd::prelude::*;
use crate::codec::{DecodeError, DecodeErrorView, invalid_field, result_view};
use crate::context::{Context, ContextItem, ContextItemView, ContextView, spec_decode_context, spec_encode_context, lemma_context_round_trip};
use crate::json::{JsonValue, JsonView, entries_of, push_entry};
use crate::text::{opt_view, str_eq};
use crate::url::{Url, parsed_url};

verus! {

/// Kind of an ActivityPub entity: activities, actors, collections, content,
/// tags and attachments, with `Unknown` for any name not listed here.
#[derive(Debug, PartialEq, Eq, Structural, Clone, Copy)]
pub enum EntityType {
    Accept,
    Actor,
    Announce,
    Application,
    Article,
    Collection,
    CollectionPage,
    Create,
    Delete,
    Document,
    Emoji,
    Follow,
    Group,
    Hashtag,
    Image,
    Link,
    Mention,
    Movie,
    Note,
    OrderedCollection,
    OrderedCollectionPage,
    Organization,
    Page,
    Person,
    Poll,
    PropertyValue,
    Question,
    Reject,
    Service,
    Tag,
    Tombstone,
    Undo,
    Update,
    Video,
    /// Any kind not listed above.
    Unknown,
}

/// The name under which a kind appears in a document.
pub open spec fn kind_name(t: EntityType) -> Seq<char> {
    match t {
        EntityType::Accept => "Accept"@,
        EntityType::Announce => "Announce"@,
        EntityType::Create => "Create"@,
        EntityType::Delete => "Delete"@,
        EntityType::Follow => "Follow"@,
        EntityType::Reject => "Reject"@,
        EntityType::Undo => "Undo"@,
        EntityType::Update => "Update"@,
        EntityType::Actor => "Actor"@,
        EntityType::Application => "Application"@,
        EntityType::Organization => "Organization"@,
        EntityType::Group => "Group"@,
        EntityType::Person => "Person"@,
        EntityType::Service => "Service"@,
        EntityType::Collection => "Collection"@,
        EntityType::CollectionPage => "CollectionPage"@,
        EntityType::OrderedCollection => "OrderedCollection"@,
        EntityType::OrderedCollectionPage => "OrderedCollectionPage"@,
        EntityType::Article => "Article"@,
        EntityType::Image => "Image"@,
        EntityType::Link => "Link"@,
        EntityType::Movie => "Movie"@,
        EntityType::Note => "Note"@,
        EntityType::Page => "Page"@,
        EntityType::Poll => "Poll"@,
        EntityType::Question => "Question"@,
        EntityType::Tombstone => "Tombstone"@,
        EntityType::Video => "Video"@,
        EntityType::Emoji => "Emoji"@,
        EntityType::Hashtag => "Hashtag"@,
        EntityType::Tag => "Tag"@,
        EntityType::Mention => "Mention"@,
        EntityType::PropertyValue => "PropertyValue"@,
        EntityType::Document => "Document"@,
        EntityType::Unknown => "Unknown"@,
    }
}

/// The kind a document names: the kind of that name, else `Unknown`.
pub open spec fn entity_type_named(s: Seq<char>) -> EntityType {
    if s == "Accept"@ {
        EntityType::Accept
    } else if s == "Announce"@ {
        EntityType::Announce
    } else if s == "Create"@ {
        EntityType::Create
    } else if s == "Delete"@ {
        EntityType::Delete
    } else if s == "Follow"@ {
        EntityType::Follow
    } else if s == "Reject"@ {
        EntityType::Reject
    } else if s == "Undo"@ {
        EntityType::Undo
    } else if s == "Update"@ {
        EntityType::Update
    } else if s == "Actor"@ {
        EntityType::Actor
    } else if s == "Application"@ {
        EntityType::Application
    } else if s == "Organization"@ {
        EntityType::Organization
    } else if s == "Group"@ {
        EntityType::Group
    } else if s == "Person"@ {
        EntityType::Person
    } else if s == "Service"@ {
        EntityType::Service
    } else if s == "Collection"@ {
        EntityType::Collection
    } else if s == "CollectionPage"@ {
        EntityType::CollectionPage
    } else if s == "OrderedCollection"@ {
        EntityType::OrderedCollection
    } else if s == "OrderedCollectionPage"@ {
        EntityType::OrderedCollectionPage
    } else if s == "Article"@ {
        EntityType::Article
    } else if s == "Image"@ {
        EntityType::Image
    } else if s == "Link"@ {
        EntityType::Link
    } else if s == "Movie"@ {
        EntityType::Movie
    } else if s == "Note"@ {
        EntityType::Note
    } else if s == "Page"@ {
        EntityType::Page
    } else if s == "Poll"@ {
        EntityType::Poll
    } else if s == "Question"@ {
        EntityType::Question
    } else if s == "Tombstone"@ {
        EntityType::Tombstone
    } else if s == "Video"@ {
        EntityType::Video
    } else if s == "Emoji"@ {
        EntityType::Emoji
    } else if s == "Hashtag"@ {
        EntityType::Hashtag
    } else if s == "Tag"@ {
        EntityType::Tag
    } else if s == "Mention"@ {
        EntityType::Mention
    } else if s == "PropertyValue"@ {
        EntityType::PropertyValue
    } else if s == "Document"@ {
        EntityType::Document
    } else {
        EntityType::Unknown
    }
}

/// The kind that the type name of an embedded payload stands for. Only actor
/// and content kinds are recognised; the name `Movie` stands for `Page`.
pub open spec fn spec_entity_type_from(s: Seq<char>) -> EntityType {
    if s == "Actor"@ {
        EntityType::Actor
    } else if s == "Application"@ {
        EntityType::Application
    } else if s == "Group"@ {
        EntityType::Group
    } else if s == "Organization"@ {
        EntityType::Organization
    } else if s == "Person"@ {
        EntityType::Person
    } else if s == "Service"@ {
        EntityType::Service
    } else if s == "Article"@ {
        EntityType::Article
    } else if s == "Image"@ {
        EntityType::Image
    } else if s == "Movie"@ {
        EntityType::Page
    } else if s == "Note"@ {
        EntityType::Note
    } else if s == "Poll"@ {
        EntityType::Poll
    } else if s == "Question"@ {
        EntityType::Question
    } else if s == "Tombstone"@ {
        EntityType::Tombstone
    } else if s == "Video"@ {
        EntityType::Video
    } else {
        EntityType::Unknown
    }
}

/// Converts the type name of an embedded payload to an [`EntityType`] when it
/// is one of the supported content or actor kinds.
pub fn entity_type_from(value: &str) -> (r: EntityType)
    ensures
        r == spec_entity_type_from(value@),
{
    if str_eq(value, "Actor") {
        EntityType::Actor
    } else if str_eq(value, "Application") {
        EntityType::Application
    } else if str_eq(value, "Group") {
        EntityType::Group
    } else if str_eq(value, "Organization") {
        EntityType::Organization
    } else if str_eq(value, "Person") {
        EntityType::Person
    } else if str_eq(value, "Service") {
        EntityType::Service
    } else if str_eq(value, "Article") {
        EntityType::Article
    } else if str_eq(value, "Image") {
        EntityType::Image
    } else if str_eq(value, "Movie") {
        EntityType::Page
    } else if str_eq(value, "Note") {
        EntityType::Note
    } else if str_eq(value, "Poll") {
        EntityType::Poll
    } else if str_eq(value, "Question") {
        EntityType::Question
    } else if str_eq(value, "Tombstone") {
        EntityType::Tombstone
    } else if str_eq(value, "Video") {
        EntityType::Video
    } else {
        EntityType::Unknown
    }
}

impl EntityType {
    /// Reads a kind from its name; a name not listed gives `Unknown`.
    pub fn from_name(s: &str) -> (r: EntityType)
        ensures
            r == entity_type_named(s@),
    {
        if str_eq(s, "Accept") {
            EntityType::Accept
        } else if str_eq(s, "Announce") {
            EntityType::Announce
        } else if str_eq(s, "Create") {
            EntityType::Create
        } else if str_eq(s, "Delete") {
            EntityType::Delete
        } else if str_eq(s, "Follow") {
            EntityType::Follow
        } else if str_eq(s, "Reject") {
            EntityType::Reject
        } else if str_eq(s, "Undo") {
            EntityType::Undo
        } else if str_eq(s, "Update") {
            EntityType::Update
        } else if str_eq(s, "Actor") {
            EntityType::Actor
        } else if str_eq(s, "Application") {
            EntityType::Application
        } else if str_eq(s, "Organization") {
            EntityType::Organization
        } else if str_eq(s, "Group") {
            EntityType::Group
        } else if str_eq(s, "Person") {
            EntityType::Person
        } else if str_eq(s, "Service") {
            EntityType::Service
        } else if str_eq(s, "Collection") {
            EntityType::Collection
        } else if str_eq(s, "CollectionPage") {
            EntityType::CollectionPage
        } else if str_eq(s, "OrderedCollection") {
            EntityType::OrderedCollection
        } else if str_eq(s, "OrderedCollectionPage") {
            EntityType::OrderedCollectionPage
        } else if str_eq(s, "Article") {
            EntityType::Article
        } else if str_eq(s, "Image") {
            EntityType::Image
        } else if str_eq(s, "Link") {
            EntityType::Link
        } else if str_eq(s, "Movie") {
            EntityType::Movie
        } else if str_eq(s, "Note") {
            EntityType::Note
        } else if str_eq(s, "Page") {
            EntityType::Page
        } else if str_eq(s, "Poll") {
            EntityType::Poll
        } else if str_eq(s, "Question") {
            EntityType::Question
        } else if str_eq(s, "Tombstone") {
            EntityType::Tombstone
        } else if str_eq(s, "Video") {
            EntityType::Video
        } else if str_eq(s, "Emoji") {
            EntityType::Emoji
        } else if str_eq(s, "Hashtag") {
            EntityType::Hashtag
        } else if str_eq(s, "Tag") {
            EntityType::Tag
        } else if str_eq(s, "Mention") {
            EntityType::Mention
        } else if str_eq(s, "PropertyValue") {
            EntityType::PropertyValue
        } else if str_eq(s, "Document") {
            EntityType::Document
        } else {
            EntityType::Unknown
        }
    }

    /// The name of this kind.
    pub fn as_str(&self) -> (r: &'static str)
        ensures
            r@ == kind_name(*self),
    {
        match self {
            EntityType::Accept => "Accept",
            EntityType::Announce => "Announce",
            EntityType::Create => "Create",
            EntityType::Delete => "Delete",
            EntityType::Follow => "Follow",
            EntityType::Reject => "Reject",
            EntityType::Undo => "Undo",
            EntityType::Update => "Update",
            EntityType::Actor => "Actor",
            EntityType::Application => "Application",
            EntityType::Organization => "Organization",
            EntityType::Group => "Group",
            EntityType::Person => "Person",
            EntityType::Service => "Service",
            EntityType::Collection => "Collection",
            EntityType::CollectionPage => "CollectionPage",
            EntityType::OrderedCollection => "OrderedCollection",
            EntityType::OrderedCollectionPage => "OrderedCollectionPage",
            EntityType::Article => "Article",
            EntityType::Image => "Image",
            EntityType::Link => "Link",
            EntityType::Movie => "Movie",
            EntityType::Note => "Note",
            EntityType::Page => "Page",
            EntityType::Poll => "Poll",
            EntityType::Question => "Question",
            EntityType::Tombstone => "Tombstone",
            EntityType::Video => "Video",
            EntityType::Emoji => "Emoji",
            EntityType::Hashtag => "Hashtag",
            EntityType::Tag => "Tag",
            EntityType::Mention => "Mention",
            EntityType::PropertyValue => "PropertyValue",
            EntityType::Document => "Document",
            EntityType::Unknown => "Unknown",
        }
    }
}

/// Reading back the name of a kind gives that kind.
pub proof fn lemma_type_name_round_trip(t: EntityType)
    ensures
        entity_type_named(kind_name(t)) == t,
{
    match t {
        EntityType::Accept => {
            reveal_strlit("Accept");
        },
        EntityType::Announce => {
            reveal_strlit("Announce");
            reveal_strlit("Accept");
            assert(kind_name(EntityType::Announce).len() != kind_name(EntityType::Accept).len());
        },
        EntityType::Create => {
            reveal_strlit("Create");
            reveal_strlit("Accept");
            assert(kind_name(EntityType::Create)[0] != kind_name(EntityType::Accept)[0]);
            reveal_strlit("Announce");
            assert(kind_name(EntityType::Create).len() != kind_name(EntityType::Announce).len());
        },
        EntityType::Delete => {
            reveal_strlit("Delete");
            reveal_strlit("Accept");
            assert(kind_name(EntityType::Delete)[0] != kind_name(EntityType::Accept)[0]);
            reveal_strlit("Announce");
            assert(kind_name(EntityType::Delete).len() != kind_name(EntityType::Announce).len());
            reveal_strlit("Create");
            assert(kind_name(EntityType::Delete)[0] != kind_name(EntityType::Create)[0]);
        },
        EntityType::Follow => {
            reveal_strlit("Follow");
            reveal_strlit("Accept");
            assert(kind_name(EntityType::Follow)[0] != kind_name(EntityType::Accept)[0]);
            reveal_strlit("Announce");
            assert(kind_name(EntityType::Follow).len() != kind_name(EntityType::Announce).len());
            reveal_strlit("Create");
            assert(kind_name(EntityType::Follow)[0] != kind_name(EntityType::Create)[0]);
            reveal_strlit("Delete");
            assert(kind_name(EntityType::Follow)[0] != kind_name(EntityType::Delete)[0]);
        },
        EntityType::Reject => {
            reveal_strlit("Reject");
            reveal_strlit("Accept");
            assert(kind_name(EntityType::Reject)[0] != kind_name(EntityType::Accept)[0]);
            reveal_strlit("Announce");
            assert(kind_name(EntityType::Reject).len() != kind_name(EntityType::Announce).len());
            reveal_strlit("Create");
            assert(kind_name(EntityType::Reject)[0] != kind_name(EntityType::Create)[0]);
            reveal_strlit("Delete");
            assert(kind_name(EntityType::Reject)[0] != kind_name(EntityType::Delete)[0]);
            reveal_strlit("Follow");
            assert(kind_name(EntityType::Reject)[0] != kind_name(EntityType::Follow)[0]);
        },
        EntityType::Undo => {
            reveal_strlit("Undo");
            reveal_strlit("Accept");
            assert(kind_name(EntityType::Undo).len() != kind_name(EntityType::Accept).len());
            reveal_strlit("Announce");
            assert(kind_name(EntityType::Undo).len() != kind_name(EntityType::Announce).len());
            reveal_strlit("Create");
            assert(kind_name(EntityType::Undo).len() != kind_name(EntityType::Create).len());
            reveal_strlit("Delete");
            assert(kind_name(EntityType::Undo).len() != kind_name(EntityType::Delete).len());
            reveal_strlit("Follow");
            assert(kind_name(EntityType::Undo).len() != kind_name(EntityType::Follow).len());
            reveal_strlit("Reject");
            assert(kind_name(EntityType::Undo).len() != kind_name(EntityType::Reject).len());
        },
        EntityType::Update => {
            reveal_strlit("Update");
            reveal_strlit("Accept");
            assert(kind_name(EntityType::Update)[0] != kind_name(EntityType::Accept)[0]);
            reveal_strlit("Announce");
            assert(kind_name(EntityType::Update).len() != kind_name(EntityType::Announce).len());
            reveal_strlit("Create");
            assert(kind_name(EntityType::Update)[0] != kind_name(EntityType::Create)[0]);
            reveal_strlit("Delete");
            assert(kind_name(EntityType::Update)[0] != kind_name(EntityType::Delete)[0]);
            reveal_strlit("Follow");
            assert(kind_name(EntityType::Update)[0] != kind_name(EntityType::Follow)[0]);
            reveal_strlit("Reject");
            assert(kind_name(EntityType::Update)[0] != kind_name(EntityType::Reject)[0]);
            reveal_strlit("Undo");
            assert(kind_name(EntityType::Update).len() != kind_name(EntityType::Undo).len());
        },
        EntityType::Actor => {
            reveal_strlit("Actor");
            reveal_strlit("Accept");
            assert(kind_name(EntityType::Actor).len() != kind_name(EntityType::Accept).len());
            reveal_strlit("Announce");
            assert(kind_name(EntityType::Actor).len() != kind_name(EntityType::Announce).len());
            reveal_strlit("Create");
            assert(kind_name(EntityType::Actor).len() != kind_name(EntityType::Create).len());
            reveal_strlit("Delete");
            assert(kind_name(EntityType::Actor).len() != kind_name(EntityType::Delete).len());
            reveal_strlit("Follow");
            assert(kind_name(EntityType::Actor).len() != kind_name(EntityType::Follow).len());
            reveal_strlit("Reject");
            assert(kind_name(EntityType::Actor).len() != kind_name(EntityType::Reject).len());
            reveal_strlit("Undo");
            assert(kind_name(EntityType::Actor).len() != kind_name(EntityType::Undo).len());
            reveal_strlit("Update");
            assert(kind_name(EntityType::Actor).len() != kind_name(EntityType::Update).len());
        },
        EntityType::Application => {
            reveal_strlit("Application");
            reveal_strlit("Accept");
            assert(kind_name(EntityType::Application).len() != kind_name(EntityType::Accept).len());
            reveal_strlit("Announce");
            assert(kind_name(EntityType::Application).len() != kind_name(EntityType::Announce).len());
            reveal_strlit("Create");
            assert(kind_name(EntityType::Application).len() != kind_name(EntityType::Create).len());
            reveal_strlit("Delete");
            assert(kind_name(EntityType::Application).len() != kind_name(EntityType::Delete).len());
            reveal_strlit("Follow");
            assert(kind_name(EntityType::Application).len() != kind_name(EntityType::Follow).len());
            reveal_strlit("Reject");
            assert(kind_name(EntityType::Application).len() != kind_name(EntityType::Reject).len());
            reveal_strlit("Undo");
            assert(kind_name(EntityType::Application).len() != kind_name(EntityType::Undo).len());
            reveal_strlit("Update");
            assert(kind_name(EntityType::Application).len() != kind_name(EntityType::Update).len());
            reveal_strlit("Actor");
            assert(kind_name(EntityType::Application).len() != kind_name(EntityType::Actor).len());
        },
        EntityType::Organization => {
            reveal_strlit("Organization");
            reveal_strlit("Accept");
            assert(kind_name(EntityType::Organization).len() != kind_name(EntityType::Accept).len());
            reveal_strlit("Announce");
            assert(kind_name(EntityType::Organization).len() != kind_name(EntityType::Announce).len());
            reveal_strlit("Create");
            assert(kind_name(EntityType::Organization).len() != kind_name(EntityType::Create).len());
            reveal_strlit("Delete");
            assert(kind_name(EntityType::Organization).len() != kind_name(EntityType::Delete).len());
            reveal_strlit("Follow");
            assert(kind_name(EntityType::Organization).len() != kind_name(EntityType::Follow).len());
            reveal_strlit("Reject");
            assert(kind_name(EntityType::Organization).len() != kind_name(EntityType::Reject).len());
            reveal_strlit("Undo");
            assert(kind_name(EntityType::Organization).len() != kind_name(EntityType::Undo).len());
            reveal_strlit("Update");
            assert(kind_name(EntityType::Organization).len() != kind_name(EntityType::Update).len());
            reveal_strlit("Actor");
            assert(kind_name(EntityType::Organization).len() != kind_name(EntityType::Actor).len());
            reveal_strlit("Application");
            assert(kind_name(EntityType::Organization).len() != kind_name(EntityType::Application).len());
        },
        EntityType::Group => {
            reveal_strlit("Group");
            reveal_strlit("Accept");
            assert(kind_name(EntityType::Group).len() != kind_name(EntityType::Accept).len());
            reveal_strlit("Announce");
            assert(kind_name(EntityType::Group).len() != kind_name(EntityType::Announce).len());
            reveal_strlit("Create");
            assert(kind_name(EntityType::Group).len() != kind_name(EntityType::Create).len());
            reveal_strlit("Delete");
            assert(kind_name(EntityType::Group).len() != kind_name(EntityType::Delete).len());
            reveal_strlit("Follow");
            assert(kind_name(EntityType::Group).len() != kind_name(EntityType::Follow).len());
            reveal_strlit("Reject");
            assert(kind_name(EntityType::Group).len() != kind_name(EntityType::Reject).len());
            reveal_strlit("Undo");
            assert(kind_name(EntityType::Group).len() != kind_name(EntityType::Undo).len());
            reveal_strlit("Update");
            assert(kind_name(EntityType::Group).len() != kind_name(EntityType::Update).len());
            reveal_strlit("Actor");
            assert(kind_name(EntityType::Group)[0] != kind_name(EntityType::Actor)[0]);
            reveal_strlit("Application");
            assert(kind_name(EntityType::Group).len() != kind_name(EntityType::Application).len());
            reveal_strlit("Organization");
            assert(kind_name(EntityType::Group).len() != kind_name(EntityType::Organization).len());
        },
        EntityType::Person => {
            reveal_strlit("Person");
            reveal_strlit("Accept");
            assert(kind_name(EntityType::Person)[0] != kind_name(EntityType::Accept)[0]);
            reveal_strlit("Announce");
            assert(kind_name(EntityType::Person).len() != kind_name(EntityType::Announce).len());
            reveal_strlit("Create");
            assert(kind_name(EntityType::Person)[0] != kind_name(EntityType::Create)[0]);
            reveal_strlit("Delete");
            assert(kind_name(EntityType::Person)[0] != kind_name(EntityType::Delete)[0]);
            reveal_strlit("Follow");
            assert(kind_name(EntityType::Person)[0] != kind_name(EntityType::Follow)[0]);
            reveal_strlit("Reject");
            assert(kind_name(EntityType::Person)[0] != kind_name(EntityType::Reject)[0]);
            reveal_strlit("Undo");
            assert(kind_name(EntityType::Person).len() != kind_name(EntityType::Undo).len());
            reveal_strlit("Update");
            assert(kind_name(EntityType::Person)[0] != kind_name(EntityType::Update)[0]);
            reveal_strlit("Actor");
            assert(kind_name(EntityType::Person).len() != kind_name(EntityType::Actor).len());
            reveal_strlit("Application");
            assert(kind_name(EntityType::Person).len() != kind_name(EntityType::Application).len());
            reveal_strlit("Organization");
            assert(kind_name(EntityType::Person).len() != kind_name(EntityType::Organization).len());
            reveal_strlit("Group");
            assert(kind_name(EntityType::Person).len() != kind_name(EntityType::Group).len());
        },
        EntityType::Service => {
            reveal_strlit("Service");
            reveal_strlit("Accept");
            assert(kind_name(EntityType::Service).len() != kind_name(EntityType::Accept).len());
            reveal_strlit("Announce");
            assert(kind_name(EntityType::Service).len() != kind_name(EntityType::Announce).len());
            reveal_strlit("Create");
            assert(kind_name(EntityType::Service).len() != kind_name(EntityType::Create).len());
            reveal_strlit("Delete");
            assert(kind_name(EntityType::Service).len() != kind_name(EntityType::Delete).len());
            reveal_strlit("Follow");
            assert(kind_name(EntityType::Service).len() != kind_name(EntityType::Follow).len());
            reveal_strlit("Reject");
            assert(kind_name(EntityType::Service).len() != kind_name(EntityType::Reject).len());
            reveal_strlit("Undo");
            assert(kind_name(EntityType::Service).len() != kind_name(EntityType::Undo).len());
            reveal_strlit("Update");
            assert(kind_name(EntityType::Service).len() != kind_name(EntityType::Update).len());
            reveal_strlit("Actor");
            assert(kind_name(EntityType::Service).len() != kind_name(EntityType::Actor).len());
            reveal_strlit("Application");
            assert(kind_name(EntityType::Service).len() != kind_name(EntityType::Application).len());
            reveal_strlit("Organization");
            assert(kind_name(EntityType::Service).len() != kind_name(EntityType::Organization).len());
            reveal_strlit("Group");
            assert(kind_name(EntityType::Service).len() != kind_name(EntityType::Group).len());
            reveal_strlit("Person");
            assert(kind_name(EntityType::Service).len() != kind_name(EntityType::Person).len());
        },
        EntityType::Collection => {
            reveal_strlit("Collection");
            reveal_strlit("Accept");
            assert(kind_name(EntityType::Collection).len() != kind_name(EntityType::Accept).len());
            reveal_strlit("Announce");
            assert(kind_name(EntityType::Collection).len() != kind_name(EntityType::Announce).len());
            reveal_strlit("Create");
            assert(kind_name(EntityType::Collection).len() != kind_name(EntityType::Create).len());
            reveal_strlit("Delete");
            assert(kind_name(EntityType::Collection).len() != kind_name(EntityType::Delete).len());
            reveal_strlit("Follow");
            assert(kind_name(EntityType::Collection).len() != kind_name(EntityType::Follow).len());
            reveal_strlit("Reject");
            assert(kind_name(EntityType::Collection).len() != kind_name(EntityType::Reject).len());
            reveal_strlit("Undo");
            assert(kind_name(EntityType::Collection).len() != kind_name(EntityType::Undo).len());
            reveal_strlit("Update");
            assert(kind_name(EntityType::Collection).len() != kind_name(EntityType::Update).len());
            reveal_strlit("Actor");
            assert(kind_name(EntityType::Collection).len() != kind_name(EntityType::Actor).len());
            reveal_strlit("Application");
            assert(kind_name(EntityType::Collection).len() != kind_name(EntityType::Application).len());
            reveal_strlit("Organization");
            assert(kind_name(EntityType::Collection).len() != kind_name(EntityType::Organization).len());
            reveal_strlit("Group");
            assert(kind_name(EntityType::Collection).len() != kind_name(EntityType::Group).len());
            reveal_strlit("Person");
            assert(kind_name(EntityType::Collection).len() != kind_name(EntityType::Person).len());
            reveal_strlit("Service");
            assert(kind_name(EntityType::Collection).len() != kind_name(EntityType::Service).len());
        },
        EntityType::CollectionPage => {
            reveal_strlit("CollectionPage");
            reveal_strlit("Accept");
            assert(kind_name(EntityType::CollectionPage).len() != kind_name(EntityType::Accept).len());
            reveal_strlit("Announce");
            assert(kind_name(EntityType::CollectionPage).len() != kind_name(EntityType::Announce).len());
            reveal_strlit("Create");
            assert(kind_name(EntityType::CollectionPage).len() != kind_name(EntityType::Create).len());
            reveal_strlit("Delete");
            assert(kind_name(EntityType::CollectionPage).len() != kind_name(EntityType::Delete).len());
            reveal_strlit("Follow");
            assert(kind_name(EntityType::CollectionPage).len() != kind_name(EntityType::Follow).len());
            reveal_strlit("Reject");
            assert(kind_name(EntityType::CollectionPage).len() != kind_name(EntityType::Reject).len());
            reveal_strlit("Undo");
            assert(kind_name(EntityType::CollectionPage).len() != kind_name(EntityType::Undo).len());
            reveal_strlit("Update");
            assert(kind_name(EntityType::CollectionPage).len() != kind_name(EntityType::Update).len());
            reveal_strlit("Actor");
            assert(kind_name(EntityType::CollectionPage).len() != kind_name(EntityType::Actor).len());
            reveal_strlit("Application");
            assert(kind_name(EntityType::CollectionPage).len() != kind_name(EntityType::Application).len());
            reveal_strlit("Organization");
            assert(kind_name(EntityType::CollectionPage).len() != kind_name(EntityType::Organization).len());
            reveal_strlit("Group");
            assert(kind_name(EntityType::CollectionPage).len() != kind_name(EntityType::Group).len());
            reveal_strlit("Person");
            assert(kind_name(EntityType::CollectionPage).len() != kind_name(EntityType::Person).len());
            reveal_strlit("Service");
            assert(kind_name(EntityType::CollectionPage).len() != kind_name(EntityType::Service).len());
            reveal_strlit("Collection");
            assert(kind_name(EntityType::CollectionPage).len() != kind_name(EntityType::Collection).len());
        },
        EntityType::OrderedCollection => {
            reveal_strlit("OrderedCollection");
            reveal_strlit("Accept");
            assert(kind_name(EntityType::OrderedCollection).len() != kind_name(EntityType::Accept).len());
            reveal_strlit("Announce");
            assert(kind_name(EntityType::OrderedCollection).len() != kind_name(EntityType::Announce).len());
            reveal_strlit("Create");
            assert(kind_name(EntityType::OrderedCollection).len() != kind_name(EntityType::Create).len());
            reveal_strlit("Delete");
            assert(kind_name(EntityType::OrderedCollection).len() != kind_name(EntityType::Delete).len());
            reveal_strlit("Follow");
            assert(kind_name(EntityType::OrderedCollection).len() != kind_name(EntityType::Follow).len());
            reveal_strlit("Reject");
            assert(kind_name(EntityType::OrderedCollection).len() != kind_name(EntityType::Reject).len());
            reveal_strlit("Undo");
            assert(kind_name(EntityType::OrderedCollection).len() != kind_name(EntityType::Undo).len());
            reveal_strlit("Update");
            assert(kind_name(EntityType::OrderedCollection).len() != kind_name(EntityType::Update).len());
            reveal_strlit("Actor");
            assert(kind_name(EntityType::OrderedCollection).len() != kind_name(EntityType::Actor).len());
            reveal_strlit("Application");
            assert(kind_name(EntityType::OrderedCollection).len() != kind_name(EntityType::Application).len());
            reveal_strlit("Organization");
            assert(kind_name(EntityType::OrderedCollection).len() != kind_name(EntityType::Organization).len());
            reveal_strlit("Group");
            assert(kind_name(EntityType::OrderedCollection).len() != kind_name(EntityType::Group).len());
            reveal_strlit("Person");
            assert(kind_name(EntityType::OrderedCollection).len() != kind_name(EntityType::Person).len());
            reveal_strlit("Service");
            assert(kind_name(EntityType::OrderedCollection).len() != kind_name(EntityType::Service).len());
            reveal_strlit("Collection");
            assert(kind_name(EntityType::OrderedCollection).len() != kind_name(EntityType::Collection).len());
            reveal_strlit("CollectionPage");
            assert(kind_name(EntityType::OrderedCollection).len() != kind_name(EntityType::CollectionPage).len());
        },
        EntityType::OrderedCollectionPage => {
            reveal_strlit("OrderedCollectionPage");
            reveal_strlit("Accept");
            assert(kind_name(EntityType::OrderedCollectionPage).len() != kind_name(EntityType::Accept).len());
            reveal_strlit("Announce");
            assert(kind_name(EntityType::OrderedCollectionPage).len() != kind_name(EntityType::Announce).len());
            reveal_strlit("Create");
            assert(kind_name(EntityType::OrderedCollectionPage).len() != kind_name(EntityType::Create).len());
            reveal_strlit("Delete");
            assert(kind_name(EntityType::OrderedCollectionPage).len() != kind_name(EntityType::Delete).len());
            reveal_strlit("Follow");
            assert(kind_name(EntityType::OrderedCollectionPage).len() != kind_name(EntityType::Follow).len());
            reveal_strlit("Reject");
            assert(kind_name(EntityType::OrderedCollectionPage).len() != kind_name(EntityType::Reject).len());
            reveal_strlit("Undo");
            assert(kind_name(EntityType::OrderedCollectionPage).len() != kind_name(EntityType::Undo).len());
            reveal_strlit("Update");
            assert(kind_name(EntityType::OrderedCollectionPage).len() != kind_name(EntityType::Update).len());
            reveal_strlit("Actor");
            assert(kind_name(EntityType::OrderedCollectionPage).len() != kind_name(EntityType::Actor).len());
            reveal_strlit("Application");
            assert(kind_name(EntityType::OrderedCollectionPage).len() != kind_name(EntityType::Application).len());
            reveal_strlit("Organization");
            assert(kind_name(EntityType::OrderedCollectionPage).len() != kind_name(EntityType::Organization).len());
            reveal_strlit("Group");
            assert(kind_name(EntityType::OrderedCollectionPage).len() != kind_name(EntityType::Group).len());
            reveal_strlit("Person");
            assert(kind_name(EntityType::OrderedCollectionPage).len() != kind_name(EntityType::Person).len());
            reveal_strlit("Service");
            assert(kind_name(EntityType::OrderedCollectionPage).len() != kind_name(EntityType::Service).len());
            reveal_strlit("Collection");
            assert(kind_name(EntityType::OrderedCollectionPage).len() != kind_name(EntityType::Collection).len());
            reveal_strlit("CollectionPage");
            assert(kind_name(EntityType::OrderedCollectionPage).len() != kind_name(EntityType::CollectionPage).len());
            reveal_strlit("OrderedCollection");
            assert(kind_name(EntityType::OrderedCollectionPage).len() != kind_name(EntityType::OrderedCollection).len());
        },
        EntityType::Article => {
            reveal_strlit("Article");
            reveal_strlit("Accept");
            assert(kind_name(EntityType::Article).len() != kind_name(EntityType::Accept).len());
            reveal_strlit("Announce");
            assert(kind_name(EntityType::Article).len() != kind_name(EntityType::Announce).len());
            reveal_strlit("Create");
            assert(kind_name(EntityType::Article).len() != kind_name(EntityType::Create).len());
            reveal_strlit("Delete");
            assert(kind_name(EntityType::Article).len() != kind_name(EntityType::Delete).len());
            reveal_strlit("Follow");
            assert(kind_name(EntityType::Article).len() != kind_name(EntityType::Follow).len());
            reveal_strlit("Reject");
            assert(kind_name(EntityType::Article).len() != kind_name(EntityType::Reject).len());
            reveal_strlit("Undo");
            assert(kind_name(EntityType::Article).len() != kind_name(EntityType::Undo).len());
            reveal_strlit("Update");
            assert(kind_name(EntityType::Article).len() != kind_name(EntityType::Update).len());
            reveal_strlit("Actor");
            assert(kind_name(EntityType::Article).len() != kind_name(EntityType::Actor).len());
            reveal_strlit("Application");
            assert(kind_name(EntityType::Article).len() != kind_name(EntityType::Application).len());
            reveal_strlit("Organization");
            assert(kind_name(EntityType::Article).len() != kind_name(EntityType::Organization).len());
            reveal_strlit("Group");
            assert(kind_name(EntityType::Article).len() != kind_name(EntityType::Group).len());
            reveal_strlit("Person");
            assert(kind_name(EntityType::Article).len() != kind_name(EntityType::Person).len());
            reveal_strlit("Service");
            assert(kind_name(EntityType::Article)[0] != kind_name(EntityType::Service)[0]);
            reveal_strlit("Collection");
            assert(kind_name(EntityType::Article).len() != kind_name(EntityType::Collection).len());
            reveal_strlit("CollectionPage");
            assert(kind_name(EntityType::Article).len() != kind_name(EntityType::CollectionPage).len());
            reveal_strlit("OrderedCollection");
            assert(kind_name(EntityType::Article).len() != kind_name(EntityType::OrderedCollection).len());
            reveal_strlit("OrderedCollectionPage");
            assert(kind_name(EntityType::Article).len() != kind_name(EntityType::OrderedCollectionPage).len());
        },
        EntityType::Image => {
            reveal_strlit("Image");
            reveal_strlit("Accept");
            assert(kind_name(EntityType::Image).len() != kind_name(EntityType::Accept).len());
            reveal_strlit("Announce");
            assert(kind_name(EntityType::Image).len() != kind_name(EntityType::Announce).len());
            reveal_strlit("Create");
            assert(kind_name(EntityType::Image).len() != kind_name(EntityType::Create).len());
            reveal_strlit("Delete");
            assert(kind_name(EntityType::Image).len() != kind_name(EntityType::Delete).len());
            reveal_strlit("Follow");
            assert(kind_name(EntityType::Image).len() != kind_name(EntityType::Follow).len());
            reveal_strlit("Reject");
            assert(kind_name(EntityType::Image).len() != kind_name(EntityType::Reject).len());
            reveal_strlit("Undo");
            assert(kind_name(EntityType::Image).len() != kind_name(EntityType::Undo).len());
            reveal_strlit("Update");
            assert(kind_name(EntityType::Image).len() != kind_name(EntityType::Update).len());
            reveal_strlit("Actor");
            assert(kind_name(EntityType::Image)[0] != kind_name(EntityType::Actor)[0]);
            reveal_strlit("Application");
            assert(kind_name(EntityType::Image).len() != kind_name(EntityType::Application).len());
            reveal_strlit("Organization");
            assert(kind_name(EntityType::Image).len() != kind_name(EntityType::Organization).len());
            reveal_strlit("Group");
            assert(kind_name(EntityType::Image)[0] != kind_name(EntityType::Group)[0]);
            reveal_strlit("Person");
            assert(kind_name(EntityType::Image).len() != kind_name(EntityType::Person).len());
            reveal_strlit("Service");
            assert(kind_name(EntityType::Image).len() != kind_name(EntityType::Service).len());
            reveal_strlit("Collection");
            assert(kind_name(EntityType::Image).len() != kind_name(EntityType::Collection).len());
            reveal_strlit("CollectionPage");
            assert(kind_name(EntityType::Image).len() != kind_name(EntityType::CollectionPage).len());
            reveal_strlit("OrderedCollection");
            assert(kind_name(EntityType::Image).len() != kind_name(EntityType::OrderedCollection).len());
            reveal_strlit("OrderedCollectionPage");
            assert(kind_name(EntityType::Image).len() != kind_name(EntityType::OrderedCollectionPage).len());
            reveal_strlit("Article");
            assert(kind_name(EntityType::Image).len() != kind_name(EntityType::Article).len());
        },
        EntityType::Link => {
            reveal_strlit("Link");
            reveal_strlit("Accept");
            assert(kind_name(EntityType::Link).len() != kind_name(EntityType::Accept).len());
            reveal_strlit("Announce");
            assert(kind_name(EntityType::Link).len() != kind_name(EntityType::Announce).len());
            reveal_strlit("Create");
            assert(kind_name(EntityType::Link).len() != kind_name(EntityType::Create).len());
            reveal_strlit("Delete");
            assert(kind_name(EntityType::Link).len() != kind_name(EntityType::Delete).len());
            reveal_strlit("Follow");
            assert(kind_name(EntityType::Link).len() != kind_name(EntityType::Follow).len());
            reveal_strlit("Reject");
            assert(kind_name(EntityType::Link).len() != kind_name(EntityType::Reject).len());
            reveal_strlit("Undo");
            assert(kind_name(EntityType::Link)[0] != kind_name(EntityType::Undo)[0]);
            reveal_strlit("Update");
            assert(kind_name(EntityType::Link).len() != kind_name(EntityType::Update).len());
            reveal_strlit("Actor");
            assert(kind_name(EntityType::Link).len() != kind_name(EntityType::Actor).len());
            reveal_strlit("Application");
            assert(kind_name(EntityType::Link).len() != kind_name(EntityType::Application).len());
            reveal_strlit("Organization");
            assert(kind_name(EntityType::Link).len() != kind_name(EntityType::Organization).len());
            reveal_strlit("Group");
            assert(kind_name(EntityType::Link).len() != kind_name(EntityType::Group).len());
            reveal_strlit("Person");
            assert(kind_name(EntityType::Link).len() != kind_name(EntityType::Person).len());
            reveal_strlit("Service");
            assert(kind_name(EntityType::Link).len() != kind_name(EntityType::Service).len());
            reveal_strlit("Collection");
            assert(kind_name(EntityType::Link).len() != kind_name(EntityType::Collection).len());
            reveal_strlit("CollectionPage");
            assert(kind_name(EntityType::Link).len() != kind_name(EntityType::CollectionPage).len());
            reveal_strlit("OrderedCollection");
            assert(kind_name(EntityType::Link).len() != kind_name(EntityType::OrderedCollection).len());
            reveal_strlit("OrderedCollectionPage");
            assert(kind_name(EntityType::Link).len() != kind_name(EntityType::OrderedCollectionPage).len());
            reveal_strlit("Article");
            assert(kind_name(EntityType::Link).len() != kind_name(EntityType::Article).len());
            reveal_strlit("Image");
            assert(kind_name(EntityType::Link).len() != kind_name(EntityType::Image).len());
        },
        EntityType::Movie => {
            reveal_strlit("Movie");
            reveal_strlit("Accept");
            assert(kind_name(EntityType::Movie).len() != kind_name(EntityType::Accept).len());
            reveal_strlit("Announce");
            assert(kind_name(EntityType::Movie).len() != kind_name(EntityType::Announce).len());
            reveal_strlit("Create");
            assert(kind_name(EntityType::Movie).len() != kind_name(EntityType::Create).len());
            reveal_strlit("Delete");
            assert(kind_name(EntityType::Movie).len() != kind_name(EntityType::Delete).len());
            reveal_strlit("Follow");
            assert(kind_name(EntityType::Movie).len() != kind_name(EntityType::Follow).len());
            reveal_strlit("Reject");
            assert(kind_name(EntityType::Movie).len() != kind_name(EntityType::Reject).len());
            reveal_strlit("Undo");
            assert(kind_name(EntityType::Movie).len() != kind_name(EntityType::Undo).len());
            reveal_strlit("Update");
            assert(kind_name(EntityType::Movie).len() != kind_name(EntityType::Update).len());
            reveal_strlit("Actor");
            assert(kind_name(EntityType::Movie)[0] != kind_name(EntityType::Actor)[0]);
            reveal_strlit("Application");
            assert(kind_name(EntityType::Movie).len() != kind_name(EntityType::Application).len());
            reveal_strlit("Organization");
            assert(kind_name(EntityType::Movie).len() != kind_name(EntityType::Organization).len());
            reveal_strlit("Group");
            assert(kind_name(EntityType::Movie)[0] != kind_name(EntityType::Group)[0]);
            reveal_strlit("Person");
            assert(kind_name(EntityType::Movie).len() != kind_name(EntityType::Person).len());
            reveal_strlit("Service");
            assert(kind_name(EntityType::Movie).len() != kind_name(EntityType::Service).len());
            reveal_strlit("Collection");
            assert(kind_name(EntityType::Movie).len() != kind_name(EntityType::Collection).len());
            reveal_strlit("CollectionPage");
            assert(kind_name(EntityType::Movie).len() != kind_name(EntityType::CollectionPage).len());
            reveal_strlit("OrderedCollection");
            assert(kind_name(EntityType::Movie).len() != kind_name(EntityType::OrderedCollection).len());
            reveal_strlit("OrderedCollectionPage");
            assert(kind_name(EntityType::Movie).len() != kind_name(EntityType::OrderedCollectionPage).len());
            reveal_strlit("Article");
            assert(kind_name(EntityType::Movie).len() != kind_name(EntityType::Article).len());
            reveal_strlit("Image");
            assert(kind_name(EntityType::Movie)[0] != kind_name(EntityType::Image)[0]);
            reveal_strlit("Link");
            assert(kind_name(EntityType::Movie).len() != kind_name(EntityType::Link).len());
        },
        EntityType::Note => {
            reveal_strlit("Note");
            reveal_strlit("Accept");
            assert(kind_name(EntityType::Note).len() != kind_name(EntityType::Accept).len());
            reveal_strlit("Announce");
            assert(kind_name(EntityType::Note).len() != kind_name(EntityType::Announce).len());
            reveal_strlit("Create");
            assert(kind_name(EntityType::Note).len() != kind_name(EntityType::Create).len());
            reveal_strlit("Delete");
            assert(kind_name(EntityType::Note).len() != kind_name(EntityType::Delete).len());
            reveal_strlit("Follow");
            assert(kind_name(EntityType::Note).len() != kind_name(EntityType::Follow).len());
            reveal_strlit("Reject");
            assert(kind_name(EntityType::Note).len() != kind_name(EntityType::Reject).len());
            reveal_strlit("Undo");
            assert(kind_name(EntityType::Note)[0] != kind_name(EntityType::Undo)[0]);
            reveal_strlit("Update");
            assert(kind_name(EntityType::Note).len() != kind_name(EntityType::Update).len());
            reveal_strlit("Actor");
            assert(kind_name(EntityType::Note).len() != kind_name(EntityType::Actor).len());
            reveal_strlit("Application");
            assert(kind_name(EntityType::Note).len() != kind_name(EntityType::Application).len());
            reveal_strlit("Organization");
            assert(kind_name(EntityType::Note).len() != kind_name(EntityType::Organization).len());
            reveal_strlit("Group");
            assert(kind_name(EntityType::Note).len() != kind_name(EntityType::Group).len());
            reveal_strlit("Person");
            assert(kind_name(EntityType::Note).len() != kind_name(EntityType::Person).len());
            reveal_strlit("Service");
            assert(kind_name(EntityType::Note).len() != kind_name(EntityType::Service).len());
            reveal_strlit("Collection");
            assert(kind_name(EntityType::Note).len() != kind_name(EntityType::Collection).len());
            reveal_strlit("CollectionPage");
            assert(kind_name(EntityType::Note).len() != kind_name(EntityType::CollectionPage).len());
            reveal_strlit("OrderedCollection");
            assert(kind_name(EntityType::Note).len() != kind_name(EntityType::OrderedCollection).len());
            reveal_strlit("OrderedCollectionPage");
            assert(kind_name(EntityType::Note).len() != kind_name(EntityType::OrderedCollectionPage).len());
            reveal_strlit("Article");
            assert(kind_name(EntityType::Note).len() != kind_name(EntityType::Article).len());
            reveal_strlit("Image");
            assert(kind_name(EntityType::Note).len() != kind_name(EntityType::Image).len());
            reveal_strlit("Link");
            assert(kind_name(EntityType::Note)[0] != kind_name(EntityType::Link)[0]);
            reveal_strlit("Movie");
            assert(kind_name(EntityType::Note).len() != kind_name(EntityType::Movie).len());
        },
        EntityType::Page => {
            reveal_strlit("Page");
            reveal_strlit("Accept");
            assert(kind_name(EntityType::Page).len() != kind_name(EntityType::Accept).len());
            reveal_strlit("Announce");
            assert(kind_name(EntityType::Page).len() != kind_name(EntityType::Announce).len());
            reveal_strlit("Create");
            assert(kind_name(EntityType::Page).len() != kind_name(EntityType::Create).len());
            reveal_strlit("Delete");
            assert(kind_name(EntityType::Page).len() != kind_name(EntityType::Delete).len());
            reveal_strlit("Follow");
            assert(kind_name(EntityType::Page).len() != kind_name(EntityType::Follow).len());
            reveal_strlit("Reject");
            assert(kind_name(EntityType::Page).len() != kind_name(EntityType::Reject).len());
            reveal_strlit("Undo");
            assert(kind_name(EntityType::Page)[0] != kind_name(EntityType::Undo)[0]);
            reveal_strlit("Update");
            assert(kind_name(EntityType::Page).len() != kind_name(EntityType::Update).len());
            reveal_strlit("Actor");
            assert(kind_name(EntityType::Page).len() != kind_name(EntityType::Actor).len());
            reveal_strlit("Application");
            assert(kind_name(EntityType::Page).len() != kind_name(EntityType::Application).len());
            reveal_strlit("Organization");
            assert(kind_name(EntityType::Page).len() != kind_name(EntityType::Organization).len());
            reveal_strlit("Group");
            assert(kind_name(EntityType::Page).len() != kind_name(EntityType::Group).len());
            reveal_strlit("Person");
            assert(kind_name(EntityType::Page).len() != kind_name(EntityType::Person).len());
            reveal_strlit("Service");
            assert(kind_name(EntityType::Page).len() != kind_name(EntityType::Service).len());
            reveal_strlit("Collection");
            assert(kind_name(EntityType::Page).len() != kind_name(EntityType::Collection).len());
            reveal_strlit("CollectionPage");
            assert(kind_name(EntityType::Page).len() != kind_name(EntityType::CollectionPage).len());
            reveal_strlit("OrderedCollection");
            assert(kind_name(EntityType::Page).len() != kind_name(EntityType::OrderedCollection).len());
            reveal_strlit("OrderedCollectionPage");
            assert(kind_name(EntityType::Page).len() != kind_name(EntityType::OrderedCollectionPage).len());
            reveal_strlit("Article");
            assert(kind_name(EntityType::Page).len() != kind_name(EntityType::Article).len());
            reveal_strlit("Image");
            assert(kind_name(EntityType::Page).len() != kind_name(EntityType::Image).len());
            reveal_strlit("Link");
            assert(kind_name(EntityType::Page)[0] != kind_name(EntityType::Link)[0]);
            reveal_strlit("Movie");
            assert(kind_name(EntityType::Page).len() != kind_name(EntityType::Movie).len());
            reveal_strlit("Note");
            assert(kind_name(EntityType::Page)[0] != kind_name(EntityType::Note)[0]);
        },
        EntityType::Poll => {
            reveal_strlit("Poll");
            reveal_strlit("Accept");
            assert(kind_name(EntityType::Poll).len() != kind_name(EntityType::Accept).len());
            reveal_strlit("Announce");
            assert(kind_name(EntityType::Poll).len() != kind_name(EntityType::Announce).len());
            reveal_strlit("Create");
            assert(kind_name(EntityType::Poll).len() != kind_name(EntityType::Create).len());
            reveal_strlit("Delete");
            assert(kind_name(EntityType::Poll).len() != kind_name(EntityType::Delete).len());
            reveal_strlit("Follow");
            assert(kind_name(EntityType::Poll).len() != kind_name(EntityType::Follow).len());
            reveal_strlit("Reject");
            assert(kind_name(EntityType::Poll).len() != kind_name(EntityType::Reject).len());
            reveal_strlit("Undo");
            assert(kind_name(EntityType::Poll)[0] != kind_name(EntityType::Undo)[0]);
            reveal_strlit("Update");
            assert(kind_name(EntityType::Poll).len() != kind_name(EntityType::Update).len());
            reveal_strlit("Actor");
            assert(kind_name(EntityType::Poll).len() != kind_name(EntityType::Actor).len());
            reveal_strlit("Application");
            assert(kind_name(EntityType::Poll).len() != kind_name(EntityType::Application).len());
            reveal_strlit("Organization");
            assert(kind_name(EntityType::Poll).len() != kind_name(EntityType::Organization).len());
            reveal_strlit("Group");
            assert(kind_name(EntityType::Poll).len() != kind_name(EntityType::Group).len());
            reveal_strlit("Person");
            assert(kind_name(EntityType::Poll).len() != kind_name(EntityType::Person).len());
            reveal_strlit("Service");
            assert(kind_name(EntityType::Poll).len() != kind_name(EntityType::Service).len());
            reveal_strlit("Collection");
            assert(kind_name(EntityType::Poll).len() != kind_name(EntityType::Collection).len());
            reveal_strlit("CollectionPage");
            assert(kind_name(EntityType::Poll).len() != kind_name(EntityType::CollectionPage).len());
            reveal_strlit("OrderedCollection");
            assert(kind_name(EntityType::Poll).len() != kind_name(EntityType::OrderedCollection).len());
            reveal_strlit("OrderedCollectionPage");
            assert(kind_name(EntityType::Poll).len() != kind_name(EntityType::OrderedCollectionPage).len());
            reveal_strlit("Article");
            assert(kind_name(EntityType::Poll).len() != kind_name(EntityType::Article).len());
            reveal_strlit("Image");
            assert(kind_name(EntityType::Poll).len() != kind_name(EntityType::Image).len());
            reveal_strlit("Link");
            assert(kind_name(EntityType::Poll)[0] != kind_name(EntityType::Link)[0]);
            reveal_strlit("Movie");
            assert(kind_name(EntityType::Poll).len() != kind_name(EntityType::Movie).len());
            reveal_strlit("Note");
            assert(kind_name(EntityType::Poll)[0] != kind_name(EntityType::Note)[0]);
            reveal_strlit("Page");
            assert(kind_name(EntityType::Poll)[1] != kind_name(EntityType::Page)[1]);
        },
        EntityType::Question => {
            reveal_strlit("Question");
            reveal_strlit("Accept");
            assert(kind_name(EntityType::Question).len() != kind_name(EntityType::Accept).len());
            reveal_strlit("Announce");
            assert(kind_name(EntityType::Question)[0] != kind_name(EntityType::Announce)[0]);
            reveal_strlit("Create");
            assert(kind_name(EntityType::Question).len() != kind_name(EntityType::Create).len());
            reveal_strlit("Delete");
            assert(kind_name(EntityType::Question).len() != kind_name(EntityType::Delete).len());
            reveal_strlit("Follow");
            assert(kind_name(EntityType::Question).len() != kind_name(EntityType::Follow).len());
            reveal_strlit("Reject");
            assert(kind_name(EntityType::Question).len() != kind_name(EntityType::Reject).len());
            reveal_strlit("Undo");
            assert(kind_name(EntityType::Question).len() != kind_name(EntityType::Undo).len());
            reveal_strlit("Update");
            assert(kind_name(EntityType::Question).len() != kind_name(EntityType::Update).len());
            reveal_strlit("Actor");
            assert(kind_name(EntityType::Question).len() != kind_name(EntityType::Actor).len());
            reveal_strlit("Application");
            assert(kind_name(EntityType::Question).len() != kind_name(EntityType::Application).len());
            reveal_strlit("Organization");
            assert(kind_name(EntityType::Question).len() != kind_name(EntityType::Organization).len());
            reveal_strlit("Group");
            assert(kind_name(EntityType::Question).len() != kind_name(EntityType::Group).len());
            reveal_strlit("Person");
            assert(kind_name(EntityType::Question).len() != kind_name(EntityType::Person).len());
            reveal_strlit("Service");
            assert(kind_name(EntityType::Question).len() != kind_name(EntityType::Service).len());
            reveal_strlit("Collection");
            assert(kind_name(EntityType::Question).len() != kind_name(EntityType::Collection).len());
            reveal_strlit("CollectionPage");
            assert(kind_name(EntityType::Question).len() != kind_name(EntityType::CollectionPage).len());
            reveal_strlit("OrderedCollection");
            assert(kind_name(EntityType::Question).len() != kind_name(EntityType::OrderedCollection).len());
            reveal_strlit("OrderedCollectionPage");
            assert(kind_name(EntityType::Question).len() != kind_name(EntityType::OrderedCollectionPage).len());
            reveal_strlit("Article");
            assert(kind_name(EntityType::Question).len() != kind_name(EntityType::Article).len());
            reveal_strlit("Image");
            assert(kind_name(EntityType::Question).len() != kind_name(EntityType::Image).len());
            reveal_strlit("Link");
            assert(kind_name(EntityType::Question).len() != kind_name(EntityType::Link).len());
            reveal_strlit("Movie");
            assert(kind_name(EntityType::Question).len() != kind_name(EntityType::Movie).len());
            reveal_strlit("Note");
            assert(kind_name(EntityType::Question).len() != kind_name(EntityType::Note).len());
            reveal_strlit("Page");
            assert(kind_name(EntityType::Question).len() != kind_name(EntityType::Page).len());
            reveal_strlit("Poll");
            assert(kind_name(EntityType::Question).len() != kind_name(EntityType::Poll).len());
        },
        EntityType::Tombstone => {
            reveal_strlit("Tombstone");
            reveal_strlit("Accept");
            assert(kind_name(EntityType::Tombstone).len() != kind_name(EntityType::Accept).len());
            reveal_strlit("Announce");
            assert(kind_name(EntityType::Tombstone).len() != kind_name(EntityType::Announce).len());
            reveal_strlit("Create");
            assert(kind_name(EntityType::Tombstone).len() != kind_name(EntityType::Create).len());
            reveal_strlit("Delete");
            assert(kind_name(EntityType::Tombstone).len() != kind_name(EntityType::Delete).len());
            reveal_strlit("Follow");
            assert(kind_name(EntityType::Tombstone).len() != kind_name(EntityType::Follow).len());
            reveal_strlit("Reject");
            assert(kind_name(EntityType::Tombstone).len() != kind_name(EntityType::Reject).len());
            reveal_strlit("Undo");
            assert(kind_name(EntityType::Tombstone).len() != kind_name(EntityType::Undo).len());
            reveal_strlit("Update");
            assert(kind_name(EntityType::Tombstone).len() != kind_name(EntityType::Update).len());
            reveal_strlit("Actor");
            assert(kind_name(EntityType::Tombstone).len() != kind_name(EntityType::Actor).len());
            reveal_strlit("Application");
            assert(kind_name(EntityType::Tombstone).len() != kind_name(EntityType::Application).len());
            reveal_strlit("Organization");
            assert(kind_name(EntityType::Tombstone).len() != kind_name(EntityType::Organization).len());
            reveal_strlit("Group");
            assert(kind_name(EntityType::Tombstone).len() != kind_name(EntityType::Group).len());
            reveal_strlit("Person");
            assert(kind_name(EntityType::Tombstone).len() != kind_name(EntityType::Person).len());
            reveal_strlit("Service");
            assert(kind_name(EntityType::Tombstone).len() != kind_name(EntityType::Service).len());
            reveal_strlit("Collection");
            assert(kind_name(EntityType::Tombstone).len() != kind_name(EntityType::Collection).len());
            reveal_strlit("CollectionPage");
            assert(kind_name(EntityType::Tombstone).len() != kind_name(EntityType::CollectionPage).len());
            reveal_strlit("OrderedCollection");
            assert(kind_name(EntityType::Tombstone).len() != kind_name(EntityType::OrderedCollection).len());
            reveal_strlit("OrderedCollectionPage");
            assert(kind_name(EntityType::Tombstone).len() != kind_name(EntityType::OrderedCollectionPage).len());
            reveal_strlit("Article");
            assert(kind_name(EntityType::Tombstone).len() != kind_name(EntityType::Article).len());
            reveal_strlit("Image");
            assert(kind_name(EntityType::Tombstone).len() != kind_name(EntityType::Image).len());
            reveal_strlit("Link");
            assert(kind_name(EntityType::Tombstone).len() != kind_name(EntityType::Link).len());
            reveal_strlit("Movie");
            assert(kind_name(EntityType::Tombstone).len() != kind_name(EntityType::Movie).len());
            reveal_strlit("Note");
            assert(kind_name(EntityType::Tombstone).len() != kind_name(EntityType::Note).len());
            reveal_strlit("Page");
            assert(kind_name(EntityType::Tombstone).len() != kind_name(EntityType::Page).len());
            reveal_strlit("Poll");
            assert(kind_name(EntityType::Tombstone).len() != kind_name(EntityType::Poll).len());
            reveal_strlit("Question");
            assert(kind_name(EntityType::Tombstone).len() != kind_name(EntityType::Question).len());
        },
        EntityType::Video => {
            reveal_strlit("Video");
            reveal_strlit("Accept");
            assert(kind_name(EntityType::Video).len() != kind_name(EntityType::Accept).len());
            reveal_strlit("Announce");
            assert(kind_name(EntityType::Video).len() != kind_name(EntityType::Announce).len());
            reveal_strlit("Create");
            assert(kind_name(EntityType::Video).len() != kind_name(EntityType::Create).len());
            reveal_strlit("Delete");
            assert(kind_name(EntityType::Video).len() != kind_name(EntityType::Delete).len());
            reveal_strlit("Follow");
            assert(kind_name(EntityType::Video).len() != kind_name(EntityType::Follow).len());
            reveal_strlit("Reject");
            assert(kind_name(EntityType::Video).len() != kind_name(EntityType::Reject).len());
            reveal_strlit("Undo");
            assert(kind_name(EntityType::Video).len() != kind_name(EntityType::Undo).len());
            reveal_strlit("Update");
            assert(kind_name(EntityType::Video).len() != kind_name(EntityType::Update).len());
            reveal_strlit("Actor");
            assert(kind_name(EntityType::Video)[0] != kind_name(EntityType::Actor)[0]);
            reveal_strlit("Application");
            assert(kind_name(EntityType::Video).len() != kind_name(EntityType::Application).len());
            reveal_strlit("Organization");
            assert(kind_name(EntityType::Video).len() != kind_name(EntityType::Organization).len());
            reveal_strlit("Group");
            assert(kind_name(EntityType::Video)[0] != kind_name(EntityType::Group)[0]);
            reveal_strlit("Person");
            assert(kind_name(EntityType::Video).len() != kind_name(EntityType::Person).len());
            reveal_strlit("Service");
            assert(kind_name(EntityType::Video).len() != kind_name(EntityType::Service).len());
            reveal_strlit("Collection");
            assert(kind_name(EntityType::Video).len() != kind_name(EntityType::Collection).len());
            reveal_strlit("CollectionPage");
            assert(kind_name(EntityType::Video).len() != kind_name(EntityType::CollectionPage).len());
            reveal_strlit("OrderedCollection");
            assert(kind_name(EntityType::Video).len() != kind_name(EntityType::OrderedCollection).len());
            reveal_strlit("OrderedCollectionPage");
            assert(kind_name(EntityType::Video).len() != kind_name(EntityType::OrderedCollectionPage).len());
            reveal_strlit("Article");
            assert(kind_name(EntityType::Video).len() != kind_name(EntityType::Article).len());
            reveal_strlit("Image");
            assert(kind_name(EntityType::Video)[0] != kind_name(EntityType::Image)[0]);
            reveal_strlit("Link");
            assert(kind_name(EntityType::Video).len() != kind_name(EntityType::Link).len());
            reveal_strlit("Movie");
            assert(kind_name(EntityType::Video)[0] != kind_name(EntityType::Movie)[0]);
            reveal_strlit("Note");
            assert(kind_name(EntityType::Video).len() != kind_name(EntityType::Note).len());
            reveal_strlit("Page");
            assert(kind_name(EntityType::Video).len() != kind_name(EntityType::Page).len());
            reveal_strlit("Poll");
            assert(kind_name(EntityType::Video).len() != kind_name(EntityType::Poll).len());
            reveal_strlit("Question");
            assert(kind_name(EntityType::Video).len() != kind_name(EntityType::Question).len());
            reveal_strlit("Tombstone");
            assert(kind_name(EntityType::Video).len() != kind_name(EntityType::Tombstone).len());
        },
        EntityType::Emoji => {
            reveal_strlit("Emoji");
            reveal_strlit("Accept");
            assert(kind_name(EntityType::Emoji).len() != kind_name(EntityType::Accept).len());
            reveal_strlit("Announce");
            assert(kind_name(EntityType::Emoji).len() != kind_name(EntityType::Announce).len());
            reveal_strlit("Create");
            assert(kind_name(EntityType::Emoji).len() != kind_name(EntityType::Create).len());
            reveal_strlit("Delete");
            assert(kind_name(EntityType::Emoji).len() != kind_name(EntityType::Delete).len());
            reveal_strlit("Follow");
            assert(kind_name(EntityType::Emoji).len() != kind_name(EntityType::Follow).len());
            reveal_strlit("Reject");
            assert(kind_name(EntityType::Emoji).len() != kind_name(EntityType::Reject).len());
            reveal_strlit("Undo");
            assert(kind_name(EntityType::Emoji).len() != kind_name(EntityType::Undo).len());
            reveal_strlit("Update");
            assert(kind_name(EntityType::Emoji).len() != kind_name(EntityType::Update).len());
            reveal_strlit("Actor");
            assert(kind_name(EntityType::Emoji)[0] != kind_name(EntityType::Actor)[0]);
            reveal_strlit("Application");
            assert(kind_name(EntityType::Emoji).len() != kind_name(EntityType::Application).len());
            reveal_strlit("Organization");
            assert(kind_name(EntityType::Emoji).len() != kind_name(EntityType::Organization).len());
            reveal_strlit("Group");
            assert(kind_name(EntityType::Emoji)[0] != kind_name(EntityType::Group)[0]);
            reveal_strlit("Person");
            assert(kind_name(EntityType::Emoji).len() != kind_name(EntityType::Person).len());
            reveal_strlit("Service");
            assert(kind_name(EntityType::Emoji).len() != kind_name(EntityType::Service).len());
            reveal_strlit("Collection");
            assert(kind_name(EntityType::Emoji).len() != kind_name(EntityType::Collection).len());
            reveal_strlit("CollectionPage");
            assert(kind_name(EntityType::Emoji).len() != kind_name(EntityType::CollectionPage).len());
            reveal_strlit("OrderedCollection");
            assert(kind_name(EntityType::Emoji).len() != kind_name(EntityType::OrderedCollection).len());
            reveal_strlit("OrderedCollectionPage");
            assert(kind_name(EntityType::Emoji).len() != kind_name(EntityType::OrderedCollectionPage).len());
            reveal_strlit("Article");
            assert(kind_name(EntityType::Emoji).len() != kind_name(EntityType::Article).len());
            reveal_strlit("Image");
            assert(kind_name(EntityType::Emoji)[0] != kind_name(EntityType::Image)[0]);
            reveal_strlit("Link");
            assert(kind_name(EntityType::Emoji).len() != kind_name(EntityType::Link).len());
            reveal_strlit("Movie");
            assert(kind_name(EntityType::Emoji)[0] != kind_name(EntityType::Movie)[0]);
            reveal_strlit("Note");
            assert(kind_name(EntityType::Emoji).len() != kind_name(EntityType::Note).len());
            reveal_strlit("Page");
            assert(kind_name(EntityType::Emoji).len() != kind_name(EntityType::Page).len());
            reveal_strlit("Poll");
            assert(kind_name(EntityType::Emoji).len() != kind_name(EntityType::Poll).len());
            reveal_strlit("Question");
            assert(kind_name(EntityType::Emoji).len() != kind_name(EntityType::Question).len());
            reveal_strlit("Tombstone");
            assert(kind_name(EntityType::Emoji).len() != kind_name(EntityType::Tombstone).len());
            reveal_strlit("Video");
            assert(kind_name(EntityType::Emoji)[0] != kind_name(EntityType::Video)[0]);
        },
        EntityType::Hashtag => {
            reveal_strlit("Hashtag");
            reveal_strlit("Accept");
            assert(kind_name(EntityType::Hashtag).len() != kind_name(EntityType::Accept).len());
            reveal_strlit("Announce");
            assert(kind_name(EntityType::Hashtag).len() != kind_name(EntityType::Announce).len());
            reveal_strlit("Create");
            assert(kind_name(EntityType::Hashtag).len() != kind_name(EntityType::Create).len());
            reveal_strlit("Delete");
            assert(kind_name(EntityType::Hashtag).len() != kind_name(EntityType::Delete).len());
            reveal_strlit("Follow");
            assert(kind_name(EntityType::Hashtag).len() != kind_name(EntityType::Follow).len());
            reveal_strlit("Reject");
            assert(kind_name(EntityType::Hashtag).len() != kind_name(EntityType::Reject).len());
            reveal_strlit("Undo");
            assert(kind_name(EntityType::Hashtag).len() != kind_name(EntityType::Undo).len());
            reveal_strlit("Update");
            assert(kind_name(EntityType::Hashtag).len() != kind_name(EntityType::Update).len());
            reveal_strlit("Actor");
            assert(kind_name(EntityType::Hashtag).len() != kind_name(EntityType::Actor).len());
            reveal_strlit("Application");
            assert(kind_name(EntityType::Hashtag).len() != kind_name(EntityType::Application).len());
            reveal_strlit("Organization");
            assert(kind_name(EntityType::Hashtag).len() != kind_name(EntityType::Organization).len());
            reveal_strlit("Group");
            assert(kind_name(EntityType::Hashtag).len() != kind_name(EntityType::Group).len());
            reveal_strlit("Person");
            assert(kind_name(EntityType::Hashtag).len() != kind_name(EntityType::Person).len());
            reveal_strlit("Service");
            assert(kind_name(EntityType::Hashtag)[0] != kind_name(EntityType::Service)[0]);
            reveal_strlit("Collection");
            assert(kind_name(EntityType::Hashtag).len() != kind_name(EntityType::Collection).len());
            reveal_strlit("CollectionPage");
            assert(kind_name(EntityType::Hashtag).len() != kind_name(EntityType::CollectionPage).len());
            reveal_strlit("OrderedCollection");
            assert(kind_name(EntityType::Hashtag).len() != kind_name(EntityType::OrderedCollection).len());
            reveal_strlit("OrderedCollectionPage");
            assert(kind_name(EntityType::Hashtag).len() != kind_name(EntityType::OrderedCollectionPage).len());
            reveal_strlit("Article");
            assert(kind_name(EntityType::Hashtag)[0] != kind_name(EntityType::Article)[0]);
            reveal_strlit("Image");
            assert(kind_name(EntityType::Hashtag).len() != kind_name(EntityType::Image).len());
            reveal_strlit("Link");
            assert(kind_name(EntityType::Hashtag).len() != kind_name(EntityType::Link).len());
            reveal_strlit("Movie");
            assert(kind_name(EntityType::Hashtag).len() != kind_name(EntityType::Movie).len());
            reveal_strlit("Note");
            assert(kind_name(EntityType::Hashtag).len() != kind_name(EntityType::Note).len());
            reveal_strlit("Page");
            assert(kind_name(EntityType::Hashtag).len() != kind_name(EntityType::Page).len());
            reveal_strlit("Poll");
            assert(kind_name(EntityType::Hashtag).len() != kind_name(EntityType::Poll).len());
            reveal_strlit("Question");
            assert(kind_name(EntityType::Hashtag).len() != kind_name(EntityType::Question).len());
            reveal_strlit("Tombstone");
            assert(kind_name(EntityType::Hashtag).len() != kind_name(EntityType::Tombstone).len());
            reveal_strlit("Video");
            assert(kind_name(EntityType::Hashtag).len() != kind_name(EntityType::Video).len());
            reveal_strlit("Emoji");
            assert(kind_name(EntityType::Hashtag).len() != kind_name(EntityType::Emoji).len());
        },
        EntityType::Tag => {
            reveal_strlit("Tag");
            reveal_strlit("Accept");
            assert(kind_name(EntityType::Tag).len() != kind_name(EntityType::Accept).len());
            reveal_strlit("Announce");
            assert(kind_name(EntityType::Tag).len() != kind_name(EntityType::Announce).len());
            reveal_strlit("Create");
            assert(kind_name(EntityType::Tag).len() != kind_name(EntityType::Create).len());
            reveal_strlit("Delete");
            assert(kind_name(EntityType::Tag).len() != kind_name(EntityType::Delete).len());
            reveal_strlit("Follow");
            assert(kind_name(EntityType::Tag).len() != kind_name(EntityType::Follow).len());
            reveal_strlit("Reject");
            assert(kind_name(EntityType::Tag).len() != kind_name(EntityType::Reject).len());
            reveal_strlit("Undo");
            assert(kind_name(EntityType::Tag).len() != kind_name(EntityType::Undo).len());
            reveal_strlit("Update");
            assert(kind_name(EntityType::Tag).len() != kind_name(EntityType::Update).len());
            reveal_strlit("Actor");
            assert(kind_name(EntityType::Tag).len() != kind_name(EntityType::Actor).len());
            reveal_strlit("Application");
            assert(kind_name(EntityType::Tag).len() != kind_name(EntityType::Application).len());
            reveal_strlit("Organization");
            assert(kind_name(EntityType::Tag).len() != kind_name(EntityType::Organization).len());
            reveal_strlit("Group");
            assert(kind_name(EntityType::Tag).len() != kind_name(EntityType::Group).len());
            reveal_strlit("Person");
            assert(kind_name(EntityType::Tag).len() != kind_name(EntityType::Person).len());
            reveal_strlit("Service");
            assert(kind_name(EntityType::Tag).len() != kind_name(EntityType::Service).len());
            reveal_strlit("Collection");
            assert(kind_name(EntityType::Tag).len() != kind_name(EntityType::Collection).len());
            reveal_strlit("CollectionPage");
            assert(kind_name(EntityType::Tag).len() != kind_name(EntityType::CollectionPage).len());
            reveal_strlit("OrderedCollection");
            assert(kind_name(EntityType::Tag).len() != kind_name(EntityType::OrderedCollection).len());
            reveal_strlit("OrderedCollectionPage");
            assert(kind_name(EntityType::Tag).len() != kind_name(EntityType::OrderedCollectionPage).len());
            reveal_strlit("Article");
            assert(kind_name(EntityType::Tag).len() != kind_name(EntityType::Article).len());
            reveal_strlit("Image");
            assert(kind_name(EntityType::Tag).len() != kind_name(EntityType::Image).len());
            reveal_strlit("Link");
            assert(kind_name(EntityType::Tag).len() != kind_name(EntityType::Link).len());
            reveal_strlit("Movie");
            assert(kind_name(EntityType::Tag).len() != kind_name(EntityType::Movie).len());
            reveal_strlit("Note");
            assert(kind_name(EntityType::Tag).len() != kind_name(EntityType::Note).len());
            reveal_strlit("Page");
            assert(kind_name(EntityType::Tag).len() != kind_name(EntityType::Page).len());
            reveal_strlit("Poll");
            assert(kind_name(EntityType::Tag).len() != kind_name(EntityType::Poll).len());
            reveal_strlit("Question");
            assert(kind_name(EntityType::Tag).len() != kind_name(EntityType::Question).len());
            reveal_strlit("Tombstone");
            assert(kind_name(EntityType::Tag).len() != kind_name(EntityType::Tombstone).len());
            reveal_strlit("Video");
            assert(kind_name(EntityType::Tag).len() != kind_name(EntityType::Video).len());
            reveal_strlit("Emoji");
            assert(kind_name(EntityType::Tag).len() != kind_name(EntityType::Emoji).len());
            reveal_strlit("Hashtag");
            assert(kind_name(EntityType::Tag).len() != kind_name(EntityType::Hashtag).len());
        },
        EntityType::Mention => {
            reveal_strlit("Mention");
            reveal_strlit("Accept");
            assert(kind_name(EntityType::Mention).len() != kind_name(EntityType::Accept).len());
            reveal_strlit("Announce");
            assert(kind_name(EntityType::Mention).len() != kind_name(EntityType::Announce).len());
            reveal_strlit("Create");
            assert(kind_name(EntityType::Mention).len() != kind_name(EntityType::Create).len());
            reveal_strlit("Delete");
            assert(kind_name(EntityType::Mention).len() != kind_name(EntityType::Delete).len());
            reveal_strlit("Follow");
            assert(kind_name(EntityType::Mention).len() != kind_name(EntityType::Follow).len());
            reveal_strlit("Reject");
            assert(kind_name(EntityType::Mention).len() != kind_name(EntityType::Reject).len());
            reveal_strlit("Undo");
            assert(kind_name(EntityType::Mention).len() != kind_name(EntityType::Undo).len());
            reveal_strlit("Update");
            assert(kind_name(EntityType::Mention).len() != kind_name(EntityType::Update).len());
            reveal_strlit("Actor");
            assert(kind_name(EntityType::Mention).len() != kind_name(EntityType::Actor).len());
            reveal_strlit("Application");
            assert(kind_name(EntityType::Mention).len() != kind_name(EntityType::Application).len());
            reveal_strlit("Organization");
            assert(kind_name(EntityType::Mention).len() != kind_name(EntityType::Organization).len());
            reveal_strlit("Group");
            assert(kind_name(EntityType::Mention).len() != kind_name(EntityType::Group).len());
            reveal_strlit("Person");
            assert(kind_name(EntityType::Mention).len() != kind_name(EntityType::Person).len());
            reveal_strlit("Service");
            assert(kind_name(EntityType::Mention)[0] != kind_name(EntityType::Service)[0]);
            reveal_strlit("Collection");
            assert(kind_name(EntityType::Mention).len() != kind_name(EntityType::Collection).len());
            reveal_strlit("CollectionPage");
            assert(kind_name(EntityType::Mention).len() != kind_name(EntityType::CollectionPage).len());
            reveal_strlit("OrderedCollection");
            assert(kind_name(EntityType::Mention).len() != kind_name(EntityType::OrderedCollection).len());
            reveal_strlit("OrderedCollectionPage");
            assert(kind_name(EntityType::Mention).len() != kind_name(EntityType::OrderedCollectionPage).len());
            reveal_strlit("Article");
            assert(kind_name(EntityType::Mention)[0] != kind_name(EntityType::Article)[0]);
            reveal_strlit("Image");
            assert(kind_name(EntityType::Mention).len() != kind_name(EntityType::Image).len());
            reveal_strlit("Link");
            assert(kind_name(EntityType::Mention).len() != kind_name(EntityType::Link).len());
            reveal_strlit("Movie");
            assert(kind_name(EntityType::Mention).len() != kind_name(EntityType::Movie).len());
            reveal_strlit("Note");
            assert(kind_name(EntityType::Mention).len() != kind_name(EntityType::Note).len());
            reveal_strlit("Page");
            assert(kind_name(EntityType::Mention).len() != kind_name(EntityType::Page).len());
            reveal_strlit("Poll");
            assert(kind_name(EntityType::Mention).len() != kind_name(EntityType::Poll).len());
            reveal_strlit("Question");
            assert(kind_name(EntityType::Mention).len() != kind_name(EntityType::Question).len());
            reveal_strlit("Tombstone");
            assert(kind_name(EntityType::Mention).len() != kind_name(EntityType::Tombstone).len());
            reveal_strlit("Video");
            assert(kind_name(EntityType::Mention).len() != kind_name(EntityType::Video).len());
            reveal_strlit("Emoji");
            assert(kind_name(EntityType::Mention).len() != kind_name(EntityType::Emoji).len());
            reveal_strlit("Hashtag");
            assert(kind_name(EntityType::Mention)[0] != kind_name(EntityType::Hashtag)[0]);
            reveal_strlit("Tag");
            assert(kind_name(EntityType::Mention).len() != kind_name(EntityType::Tag).len());
        },
        EntityType::PropertyValue => {
            reveal_strlit("PropertyValue");
            reveal_strlit("Accept");
            assert(kind_name(EntityType::PropertyValue).len() != kind_name(EntityType::Accept).len());
            reveal_strlit("Announce");
            assert(kind_name(EntityType::PropertyValue).len() != kind_name(EntityType::Announce).len());
            reveal_strlit("Create");
            assert(kind_name(EntityType::PropertyValue).len() != kind_name(EntityType::Create).len());
            reveal_strlit("Delete");
            assert(kind_name(EntityType::PropertyValue).len() != kind_name(EntityType::Delete).len());
            reveal_strlit("Follow");
            assert(kind_name(EntityType::PropertyValue).len() != kind_name(EntityType::Follow).len());
            reveal_strlit("Reject");
            assert(kind_name(EntityType::PropertyValue).len() != kind_name(EntityType::Reject).len());
            reveal_strlit("Undo");
            assert(kind_name(EntityType::PropertyValue).len() != kind_name(EntityType::Undo).len());
            reveal_strlit("Update");
            assert(kind_name(EntityType::PropertyValue).len() != kind_name(EntityType::Update).len());
            reveal_strlit("Actor");
            assert(kind_name(EntityType::PropertyValue).len() != kind_name(EntityType::Actor).len());
            reveal_strlit("Application");
            assert(kind_name(EntityType::PropertyValue).len() != kind_name(EntityType::Application).len());
            reveal_strlit("Organization");
            assert(kind_name(EntityType::PropertyValue).len() != kind_name(EntityType::Organization).len());
            reveal_strlit("Group");
            assert(kind_name(EntityType::PropertyValue).len() != kind_name(EntityType::Group).len());
            reveal_strlit("Person");
            assert(kind_name(EntityType::PropertyValue).len() != kind_name(EntityType::Person).len());
            reveal_strlit("Service");
            assert(kind_name(EntityType::PropertyValue).len() != kind_name(EntityType::Service).len());
            reveal_strlit("Collection");
            assert(kind_name(EntityType::PropertyValue).len() != kind_name(EntityType::Collection).len());
            reveal_strlit("CollectionPage");
            assert(kind_name(EntityType::PropertyValue).len() != kind_name(EntityType::CollectionPage).len());
            reveal_strlit("OrderedCollection");
            assert(kind_name(EntityType::PropertyValue).len() != kind_name(EntityType::OrderedCollection).len());
            reveal_strlit("OrderedCollectionPage");
            assert(kind_name(EntityType::PropertyValue).len() != kind_name(EntityType::OrderedCollectionPage).len());
            reveal_strlit("Article");
            assert(kind_name(EntityType::PropertyValue).len() != kind_name(EntityType::Article).len());
            reveal_strlit("Image");
            assert(kind_name(EntityType::PropertyValue).len() != kind_name(EntityType::Image).len());
            reveal_strlit("Link");
            assert(kind_name(EntityType::PropertyValue).len() != kind_name(EntityType::Link).len());
            reveal_strlit("Movie");
            assert(kind_name(EntityType::PropertyValue).len() != kind_name(EntityType::Movie).len());
            reveal_strlit("Note");
            assert(kind_name(EntityType::PropertyValue).len() != kind_name(EntityType::Note).len());
            reveal_strlit("Page");
            assert(kind_name(EntityType::PropertyValue).len() != kind_name(EntityType::Page).len());
            reveal_strlit("Poll");
            assert(kind_name(EntityType::PropertyValue).len() != kind_name(EntityType::Poll).len());
            reveal_strlit("Question");
            assert(kind_name(EntityType::PropertyValue).len() != kind_name(EntityType::Question).len());
            reveal_strlit("Tombstone");
            assert(kind_name(EntityType::PropertyValue).len() != kind_name(EntityType::Tombstone).len());
            reveal_strlit("Video");
            assert(kind_name(EntityType::PropertyValue).len() != kind_name(EntityType::Video).len());
            reveal_strlit("Emoji");
            assert(kind_name(EntityType::PropertyValue).len() != kind_name(EntityType::Emoji).len());
            reveal_strlit("Hashtag");
            assert(kind_name(EntityType::PropertyValue).len() != kind_name(EntityType::Hashtag).len());
            reveal_strlit("Tag");
            assert(kind_name(EntityType::PropertyValue).len() != kind_name(EntityType::Tag).len());
            reveal_strlit("Mention");
            assert(kind_name(EntityType::PropertyValue).len() != kind_name(EntityType::Mention).len());
        },
        EntityType::Document => {
            reveal_strlit("Document");
            reveal_strlit("Accept");
            assert(kind_name(EntityType::Document).len() != kind_name(EntityType::Accept).len());
            reveal_strlit("Announce");
            assert(kind_name(EntityType::Document)[0] != kind_name(EntityType::Announce)[0]);
            reveal_strlit("Create");
            assert(kind_name(EntityType::Document).len() != kind_name(EntityType::Create).len());
            reveal_strlit("Delete");
            assert(kind_name(EntityType::Document).len() != kind_name(EntityType::Delete).len());
            reveal_strlit("Follow");
            assert(kind_name(EntityType::Document).len() != kind_name(EntityType::Follow).len());
            reveal_strlit("Reject");
            assert(kind_name(EntityType::Document).len() != kind_name(EntityType::Reject).len());
            reveal_strlit("Undo");
            assert(kind_name(EntityType::Document).len() != kind_name(EntityType::Undo).len());
            reveal_strlit("Update");
            assert(kind_name(EntityType::Document).len() != kind_name(EntityType::Update).len());
            reveal_strlit("Actor");
            assert(kind_name(EntityType::Document).len() != kind_name(EntityType::Actor).len());
            reveal_strlit("Application");
            assert(kind_name(EntityType::Document).len() != kind_name(EntityType::Application).len());
            reveal_strlit("Organization");
            assert(kind_name(EntityType::Document).len() != kind_name(EntityType::Organization).len());
            reveal_strlit("Group");
            assert(kind_name(EntityType::Document).len() != kind_name(EntityType::Group).len());
            reveal_strlit("Person");
            assert(kind_name(EntityType::Document).len() != kind_name(EntityType::Person).len());
            reveal_strlit("Service");
            assert(kind_name(EntityType::Document).len() != kind_name(EntityType::Service).len());
            reveal_strlit("Collection");
            assert(kind_name(EntityType::Document).len() != kind_name(EntityType::Collection).len());
            reveal_strlit("CollectionPage");
            assert(kind_name(EntityType::Document).len() != kind_name(EntityType::CollectionPage).len());
            reveal_strlit("OrderedCollection");
            assert(kind_name(EntityType::Document).len() != kind_name(EntityType::OrderedCollection).len());
            reveal_strlit("OrderedCollectionPage");
            assert(kind_name(EntityType::Document).len() != kind_name(EntityType::OrderedCollectionPage).len());
            reveal_strlit("Article");
            assert(kind_name(EntityType::Document).len() != kind_name(EntityType::Article).len());
            reveal_strlit("Image");
            assert(kind_name(EntityType::Document).len() != kind_name(EntityType::Image).len());
            reveal_strlit("Link");
            assert(kind_name(EntityType::Document).len() != kind_name(EntityType::Link).len());
            reveal_strlit("Movie");
            assert(kind_name(EntityType::Document).len() != kind_name(EntityType::Movie).len());
            reveal_strlit("Note");
            assert(kind_name(EntityType::Document).len() != kind_name(EntityType::Note).len());
            reveal_strlit("Page");
            assert(kind_name(EntityType::Document).len() != kind_name(EntityType::Page).len());
            reveal_strlit("Poll");
            assert(kind_name(EntityType::Document).len() != kind_name(EntityType::Poll).len());
            reveal_strlit("Question");
            assert(kind_name(EntityType::Document)[0] != kind_name(EntityType::Question)[0]);
            reveal_strlit("Tombstone");
            assert(kind_name(EntityType::Document).len() != kind_name(EntityType::Tombstone).len());
            reveal_strlit("Video");
            assert(kind_name(EntityType::Document).len() != kind_name(EntityType::Video).len());
            reveal_strlit("Emoji");
            assert(kind_name(EntityType::Document).len() != kind_name(EntityType::Emoji).len());
            reveal_strlit("Hashtag");
            assert(kind_name(EntityType::Document).len() != kind_name(EntityType::Hashtag).len());
            reveal_strlit("Tag");
            assert(kind_name(EntityType::Document).len() != kind_name(EntityType::Tag).len());
            reveal_strlit("Mention");
            assert(kind_name(EntityType::Document).len() != kind_name(EntityType::Mention).len());
            reveal_strlit("PropertyValue");
            assert(kind_name(EntityType::Document).len() != kind_name(EntityType::PropertyValue).len());
        },
        EntityType::Unknown => {
            reveal_strlit("Unknown");
            reveal_strlit("Accept");
            assert(kind_name(EntityType::Unknown).len() != kind_name(EntityType::Accept).len());
            reveal_strlit("Announce");
            assert(kind_name(EntityType::Unknown).len() != kind_name(EntityType::Announce).len());
            reveal_strlit("Create");
            assert(kind_name(EntityType::Unknown).len() != kind_name(EntityType::Create).len());
            reveal_strlit("Delete");
            assert(kind_name(EntityType::Unknown).len() != kind_name(EntityType::Delete).len());
            reveal_strlit("Follow");
            assert(kind_name(EntityType::Unknown).len() != kind_name(EntityType::Follow).len());
            reveal_strlit("Reject");
            assert(kind_name(EntityType::Unknown).len() != kind_name(EntityType::Reject).len());
            reveal_strlit("Undo");
            assert(kind_name(EntityType::Unknown).len() != kind_name(EntityType::Undo).len());
            reveal_strlit("Update");
            assert(kind_name(EntityType::Unknown).len() != kind_name(EntityType::Update).len());
            reveal_strlit("Actor");
            assert(kind_name(EntityType::Unknown).len() != kind_name(EntityType::Actor).len());
            reveal_strlit("Application");
            assert(kind_name(EntityType::Unknown).len() != kind_name(EntityType::Application).len());
            reveal_strlit("Organization");
            assert(kind_name(EntityType::Unknown).len() != kind_name(EntityType::Organization).len());
            reveal_strlit("Group");
            assert(kind_name(EntityType::Unknown).len() != kind_name(EntityType::Group).len());
            reveal_strlit("Person");
            assert(kind_name(EntityType::Unknown).len() != kind_name(EntityType::Person).len());
            reveal_strlit("Service");
            assert(kind_name(EntityType::Unknown)[0] != kind_name(EntityType::Service)[0]);
            reveal_strlit("Collection");
            assert(kind_name(EntityType::Unknown).len() != kind_name(EntityType::Collection).len());
            reveal_strlit("CollectionPage");
            assert(kind_name(EntityType::Unknown).len() != kind_name(EntityType::CollectionPage).len());
            reveal_strlit("OrderedCollection");
            assert(kind_name(EntityType::Unknown).len() != kind_name(EntityType::OrderedCollection).len());
            reveal_strlit("OrderedCollectionPage");
            assert(kind_name(EntityType::Unknown).len() != kind_name(EntityType::OrderedCollectionPage).len());
            reveal_strlit("Article");
            assert(kind_name(EntityType::Unknown)[0] != kind_name(EntityType::Article)[0]);
            reveal_strlit("Image");
            assert(kind_name(EntityType::Unknown).len() != kind_name(EntityType::Image).len());
            reveal_strlit("Link");
            assert(kind_name(EntityType::Unknown).len() != kind_name(EntityType::Link).len());
            reveal_strlit("Movie");
            assert(kind_name(EntityType::Unknown).len() != kind_name(EntityType::Movie).len());
            reveal_strlit("Note");
            assert(kind_name(EntityType::Unknown).len() != kind_name(EntityType::Note).len());
            reveal_strlit("Page");
            assert(kind_name(EntityType::Unknown).len() != kind_name(EntityType::Page).len());
            reveal_strlit("Poll");
            assert(kind_name(EntityType::Unknown).len() != kind_name(EntityType::Poll).len());
            reveal_strlit("Question");
            assert(kind_name(EntityType::Unknown).len() != kind_name(EntityType::Question).len());
            reveal_strlit("Tombstone");
            assert(kind_name(EntityType::Unknown).len() != kind_name(EntityType::Tombstone).len());
            reveal_strlit("Video");
            assert(kind_name(EntityType::Unknown).len() != kind_name(EntityType::Video).len());
            reveal_strlit("Emoji");
            assert(kind_name(EntityType::Unknown).len() != kind_name(EntityType::Emoji).len());
            reveal_strlit("Hashtag");
            assert(kind_name(EntityType::Unknown)[0] != kind_name(EntityType::Hashtag)[0]);
            reveal_strlit("Tag");
            assert(kind_name(EntityType::Unknown).len() != kind_name(EntityType::Tag).len());
            reveal_strlit("Mention");
            assert(kind_name(EntityType::Unknown)[0] != kind_name(EntityType::Mention)[0]);
            reveal_strlit("PropertyValue");
            assert(kind_name(EntityType::Unknown).len() != kind_name(EntityType::PropertyValue).len());
            reveal_strlit("Document");
            assert(kind_name(EntityType::Unknown).len() != kind_name(EntityType::Document).len());
        },
    }
}

/// Content kinds that are indexed.
pub open spec fn spec_is_supported_content_type(t: EntityType) -> bool {
    t == EntityType::Note || t == EntityType::Video || t == EntityType::Movie || t == EntityType::Article
}

/// Returns `true` if `entity_type` is one of the supported content kinds.
pub fn is_supported_content_type(entity_type: EntityType) -> (r: bool)
    ensures
        r == spec_is_supported_content_type(entity_type),
{
    match entity_type {
        EntityType::Article | EntityType::Movie | EntityType::Note | EntityType::Video => true,
        _ => false,
    }
}

/// Actor kinds. A `Group` is not one of them.
pub open spec fn spec_is_actor_type(t: EntityType) -> bool {
    t == EntityType::Actor || t == EntityType::Application || t == EntityType::Person
        || t == EntityType::Organization || t == EntityType::Service
}

/// Returns `true` if `entity_type` is one of the supported actor kinds.
pub fn is_actor_type(entity_type: EntityType) -> (r: bool)
    ensures
        r == spec_is_actor_type(entity_type),
{
    match entity_type {
        EntityType::Service | EntityType::Person | EntityType::Organization | EntityType::Application
            | EntityType::Actor => true,
        _ => false,
    }
}

/// The header that every entity carries: its schema context and its kind.
pub struct Entity {
    /// The `@context` property.
    pub context: Option<Context>,
    /// The `type` property.
    pub object_type: EntityType,
}

pub struct EntityView {
    pub context: Option<ContextView>,
    pub object_type: EntityType,
}

impl View for Entity {
    type V = EntityView;

    open spec fn view(&self) -> EntityView {
        EntityView { context: opt_view(self.context), object_type: self.object_type }
    }
}

impl EntityView {
    pub open spec fn wf(self) -> bool {
        self.context matches Some(c) ==> c.wf()
    }
}

/// Decoding of `@context`; it reads as absent when it has no readable form.
pub open spec fn read_context(j: Option<JsonView>) -> Option<ContextView> {
    match j {
        Some(c) => spec_decode_context(c),
        None => None,
    }
}

pub open spec fn spec_decode_entity(j: JsonView) -> Result<EntityView, DecodeErrorView> {
    if !(j is Object) {
        Err(DecodeErrorView::NotAnObject)
    } else {
        match j.get_present("type"@) {
            Some(JsonView::Str(t)) => Ok(
                EntityView { context: read_context(j.get_present("@context"@)), object_type: entity_type_named(t) },
            ),
            _ => Err(DecodeErrorView::InvalidField("type"@)),
        }
    }
}

pub open spec fn context_or_null(c: Option<ContextView>) -> JsonView {
    match c {
        Some(v) => spec_encode_context(v),
        None => JsonView::Null,
    }
}

pub open spec fn entity_entries(e: EntityView) -> Seq<(Seq<char>, JsonView)> {
    seq![("@context"@, context_or_null(e.context)), ("type"@, JsonView::Str(kind_name(e.object_type)))]
}

/// Reading back an encoded `@context` gives it back.
pub proof fn lemma_read_context_round_trip(c: Option<ContextView>)
    requires
        c matches Some(v) ==> v.wf(),
    ensures
        read_context(if context_or_null(c) is Null { None } else { Some(context_or_null(c)) }) == c,
{
    if let Some(v) = c {
        lemma_context_round_trip(v);
        match v {
            ContextView::ContextItem(i) => {},
            ContextView::List(_) => {},
        }
    }
}

impl Entity {
    /// A new entity of kind `entity_type` whose context links the security
    /// and ActivityStreams schemas; `None` if those URLs do not parse.
    pub fn new(entity_type: EntityType) -> (r: Option<Self>)
        ensures
            r is Some <==> (parsed_url("https://w3id.org/security/v1"@) is Some && parsed_url(
                "https://www.w3.org/ns/activitystreams"@,
            ) is Some),
            r matches Some(e) ==> e@ == (EntityView {
                context: Some(
                    ContextView::List(
                        seq![
                            ContextItemView::Url(parsed_url("https://w3id.org/security/v1"@)->0),
                            ContextItemView::Url(parsed_url("https://www.w3.org/ns/activitystreams"@)->0),
                        ],
                    ),
                ),
                object_type: entity_type,
            }),
    {
        let security = match Url::parse("https://w3id.org/security/v1") {
            Some(u) => u,
            None => { return None; },
        };
        let streams = match Url::parse("https://www.w3.org/ns/activitystreams") {
            Some(u) => u,
            None => { return None; },
        };
        let mut items: Vec<ContextItem> = Vec::new();
        items.push(ContextItem::Url(security));
        items.push(ContextItem::Url(streams));
        let r = Entity { context: Some(Context::List(items)), object_type: entity_type };
        proof {
            assert(crate::text::vec_view(items) =~= seq![
                ContextItemView::Url(parsed_url("https://w3id.org/security/v1"@)->0),
                ContextItemView::Url(parsed_url("https://www.w3.org/ns/activitystreams"@)->0),
            ]);
        }
        Some(r)
    }

    pub fn decode(j: &JsonValue) -> (r: Result<Entity, DecodeError>)
        ensures
            result_view(r) == spec_decode_entity(j@),
    {
        match j {
            JsonValue::Object(_) => {},
            _ => { return Err(DecodeError::NotAnObject); },
        }
        let object_type = match j.get_present("type") {
            Some(JsonValue::Str(t)) => EntityType::from_name(t.as_str()),
            _ => { return Err(invalid_field("type")); },
        };
        let context = match j.get_present("@context") {
            Some(c) => Context::decode(c),
            None => None,
        };
        Ok(Entity { context, object_type })
    }

    /// Appends the properties of this header to `out`.
    pub fn push_entries(&self, out: &mut Vec<(String, JsonValue)>)
        ensures
            entries_of(*final(out)) == entries_of(*old(out)) + entity_entries(self@),
    {
        let ghost before = entries_of(*out);
        let c = match &self.context {
            Some(c) => c.to_json(),
            None => JsonValue::Null,
        };
        push_entry(out, "@context", c);
        push_entry(out, "type", JsonValue::Str(self.object_type.as_str().to_owned()));
        proof {
            assert(entries_of(*out) =~= before + entity_entries(self@));
        }
    }
}

} // verus!
