use activitypub_model::activity::{Activity, FollowActivity};
use activitypub_model::actor::{
    is_public_searchable_by, Actor, ActorReference, CompoundActorReference, FEDINEKO_PUBLIC_ADDRESSEE,
};
use activitypub_model::codec::DecodeError;
use activitypub_model::content::{Content, ContentMap};
use activitypub_model::discoverable::{AllowReason, DenyReason, Discoverable};
use activitypub_model::entity::{entity_type_from, is_actor_type, is_supported_content_type, Entity, EntityType};
use activitypub_model::image::ImageReference;
use activitypub_model::json::{JsonNumber, JsonValue};
use activitypub_model::object::{ObjectReference, ObjectTrait, UrlReference};
use activitypub_model::object_guesser::{
    extract_actor_readable_id_from_url, extract_username_from_url, guess_object_type_from_url, GuessedType,
    UrlClassifier,
};
use activitypub_model::text::contains_text;
use activitypub_model::time::Timestamp;
use activitypub_model::url::Url;

fn from_serde(v: &serde_json::Value) -> JsonValue {
    match v {
        serde_json::Value::Null => JsonValue::Null,
        serde_json::Value::Bool(b) => JsonValue::Bool(*b),
        serde_json::Value::Number(n) => JsonValue::Number(match (n.as_u64(), n.as_i64()) {
            (Some(u), _) => JsonNumber::Unsigned(u),
            (None, Some(i)) => JsonNumber::Negative(i),
            _ => JsonNumber::Other(n.to_string()),
        }),
        serde_json::Value::String(s) => JsonValue::Str(s.clone()),
        serde_json::Value::Array(a) => JsonValue::Array(a.iter().map(from_serde).collect()),
        serde_json::Value::Object(m) => {
            JsonValue::Object(m.iter().map(|(k, v)| (k.clone(), from_serde(v))).collect())
        }
    }
}

fn parse(text: &str) -> JsonValue {
    from_serde(&serde_json::from_str::<serde_json::Value>(text).unwrap())
}

fn to_serde(v: &JsonValue) -> serde_json::Value {
    match v {
        JsonValue::Null => serde_json::Value::Null,
        JsonValue::Bool(b) => serde_json::Value::Bool(*b),
        JsonValue::Number(JsonNumber::Unsigned(u)) => serde_json::Value::from(*u),
        JsonValue::Number(JsonNumber::Negative(i)) => serde_json::Value::from(*i),
        JsonValue::Number(JsonNumber::Other(s)) => serde_json::from_str(s).unwrap(),
        JsonValue::Str(s) => serde_json::Value::String(s.clone()),
        JsonValue::Array(a) => serde_json::Value::Array(a.iter().map(to_serde).collect()),
        JsonValue::Object(m) => {
            serde_json::Value::Object(m.iter().map(|(k, v)| (k.clone(), to_serde(v))).collect())
        }
    }
}

fn url(s: &str) -> Url {
    Url::parse(s).unwrap()
}

const ACTOR: &str = r#"{
    "@context": [
        "https://www.w3.org/ns/activitystreams",
        "https://w3id.org/security/v1",
        {"indexable": "toot:indexable", "discoverable": "toot:discoverable"}
    ],
    "id": "https://example.social/users/alice",
    "type": "Person",
    "name": "Alice",
    "url": [
        {"type": "Link", "href": "https://example.social/@alice"},
        {"type": "Link", "href": "https://example.social/users/alice"}
    ],
    "inbox": "https://example.social/users/alice/inbox",
    "followers": "https://example.social/users/alice/followers",
    "preferredUsername": "alice",
    "endpoints": {"sharedInbox": "https://example.social/inbox"},
    "nameMap": {"en": "Alice", "fr": "Alice"},
    "summary": "<p>hello</p>",
    "icon": [{"url": "https://example.social/a.png", "width": 64}],
    "publicKey": {
        "id": "https://example.social/users/alice#main-key",
        "owner": "https://example.social/users/alice",
        "publicKeyPem": "-----BEGIN PUBLIC KEY-----"
    },
    "indexable": false,
    "discoverable": false,
    "searchableBy": ["https://example.social/users/alice/followers"],
    "tag": {"type": "Hashtag", "href": "https://example.social/tags/rust", "name": "rust"},
    "attachment": [
        {"type": "PropertyValue", "name": "Website", "value": "https://alice.example"}
    ]
}"#;

fn actor_with(extra: &[(&str, serde_json::Value)], remove: &[&str]) -> Actor {
    let mut v: serde_json::Value = serde_json::from_str(ACTOR).unwrap();
    let m = v.as_object_mut().unwrap();
    for k in remove {
        m.remove(*k);
    }
    for (k, x) in extra {
        m.insert(k.to_string(), x.clone());
    }
    Actor::decode(&from_serde(&v)).unwrap()
}

#[test]
fn actor_round_trip_keeps_every_shape() {
    let actor = Actor::decode(&parse(ACTOR)).unwrap();
    let encoded = actor.to_json();
    let again = Actor::decode(&encoded).unwrap();
    assert_eq!(to_serde(&again.to_json()), to_serde(&encoded));
    assert_eq!(again.object_id().as_str(), "https://example.social/users/alice");
    assert_eq!(again.inbox.as_str(), "https://example.social/users/alice/inbox");
    assert!(matches!(again.object_entity.url, Some(UrlReference::LinkList(ref l)) if l.len() == 2));
    assert!(matches!(again.icon, Some(ImageReference::List(ref l)) if l[0].width == Some(64)));
    assert_eq!(again.name_map.as_ref().unwrap().len(), 2);
    assert_eq!(again.public_key.as_ref().unwrap().as_vec()[0].public_key_pem, "-----BEGIN PUBLIC KEY-----");
    assert_eq!(again.attachment.as_ref().unwrap().as_vec()[0].content.as_deref(), Some("https://alice.example"));
}

#[test]
fn url_reference_shapes_round_trip() {
    let shapes = [
        r#""https://a.example/x""#,
        r#"{"type": "Link", "href": "https://a.example/x"}"#,
        r#"[{"type": "Link", "href": "https://a.example/x"}, {"type": "Link", "href": "https://a.example/y"}]"#,
        r#"["https://a.example/x", "https://a.example/y"]"#,
    ];
    for (i, text) in shapes.iter().enumerate() {
        let r = UrlReference::decode(&parse(text)).unwrap();
        match (i, &r) {
            (0, UrlReference::Url(_)) | (1, UrlReference::Link(_)) => {}
            (2, UrlReference::LinkList(_)) | (3, UrlReference::UrlList(_)) => {}
            _ => panic!("shape {i} decoded as another variant"),
        }
        let again = UrlReference::decode(&r.to_json()).unwrap();
        assert_eq!(to_serde(&again.to_json()), to_serde(&r.to_json()));
        assert_eq!(again.any_url().unwrap().as_str(), "https://a.example/x");
    }
}

#[test]
fn empty_url_list_reads_back_as_link_list() {
    let r = UrlReference::UrlList(vec![]);
    assert!(matches!(UrlReference::decode(&r.to_json()), Some(UrlReference::LinkList(ref l)) if l.is_empty()));
}

#[test]
fn actor_reference_shapes_round_trip() {
    let by_url = CompoundActorReference::decode(&parse(r#""https://a.example/u""#)).unwrap();
    assert!(matches!(by_url, CompoundActorReference::Reference(ActorReference::Url(_))));
    let bare = CompoundActorReference::decode(&parse(r#"{"id": "https://a.example/g", "type": "Group"}"#)).unwrap();
    assert!(matches!(bare, CompoundActorReference::Reference(ActorReference::BasicData(_))));
    let full = CompoundActorReference::decode(&parse(ACTOR)).unwrap();
    assert!(matches!(full, CompoundActorReference::Reference(ActorReference::Actor(_))));
    for r in [&by_url, &bare, &full] {
        let again = CompoundActorReference::decode(&r.to_json()).unwrap();
        assert_eq!(to_serde(&again.to_json()), to_serde(&r.to_json()));
    }
}

#[test]
fn object_reference_round_trip() {
    let r = ObjectReference::decode(&parse(r#"{"id": "https://a.example/n/1", "type": "Note"}"#)).unwrap();
    assert_eq!(r.object_id().as_str(), "https://a.example/n/1");
    let again = ObjectReference::decode(&r.to_json()).unwrap();
    assert!(matches!(again, ObjectReference::Object(_)));
    let by_url = ObjectReference::decode(&parse(r#""https://a.example/n/2""#)).unwrap();
    assert!(matches!(by_url, ObjectReference::Url(_)));
}

#[test]
fn image_reference_shapes_round_trip() {
    for text in [
        r#""https://a.example/i.png""#,
        r#"{"url": "https://a.example/i.png", "name": "pic", "width": 10}"#,
        r#"[{"url": "https://a.example/i.png"}, {"url": "https://a.example/j.png"}]"#,
    ] {
        let r = ImageReference::decode(&parse(text)).unwrap();
        let again = ImageReference::decode(&r.to_json()).unwrap();
        assert_eq!(to_serde(&again.to_json()), to_serde(&r.to_json()));
    }
}

#[test]
fn verdict_is_repeatable() {
    let a = Actor::decode(&parse(ACTOR)).unwrap();
    let b = Actor::decode(&parse(ACTOR)).unwrap();
    let first = a.get_discoverable_state();
    let second = a.get_discoverable_state();
    let other = b.get_discoverable_state();
    for v in [&first, &second, &other] {
        assert!(matches!(v, Discoverable::Denied(DenyReason::Indexable)));
    }
}

fn value(text: &str) -> serde_json::Value {
    serde_json::from_str(text).unwrap()
}

#[test]
fn fedineko_allow_wins_over_flags() {
    let a = actor_with(
        &[
            (
                "attachment",
                value(r#"[{"type": "PropertyValue", "name": "fedineko:index", "value": "allow"}]"#),
            ),
            ("indexable", value("false")),
            ("discoverable", value("false")),
        ],
        &[],
    );
    assert!(matches!(a.get_discoverable_state(), Discoverable::Allowed(AllowReason::FedinekoProperty)));
}

#[test]
fn fedineko_other_value_denies() {
    let a = actor_with(
        &[
            (
                "attachment",
                value(r#"[{"type": "PropertyValue", "name": "fedineko:index", "value": "deny"},
                          {"type": "PropertyValue", "name": "fedineko:index", "value": "allow"}]"#),
            ),
            ("indexable", value("true")),
        ],
        &[],
    );
    assert!(matches!(a.get_discoverable_state(), Discoverable::Denied(DenyReason::FedinekoProperty)));
}

#[test]
fn actor_public_searchable_by_allows() {
    let a = actor_with(&[("searchableBy", value(r#"["https://www.w3.org/ns/activitystreams#Public"]"#))], &[]);
    match a.get_discoverable_state() {
        Discoverable::Allowed(AllowReason::SearchableBy(s)) => {
            assert_eq!(s, "https://www.w3.org/ns/activitystreams#Public")
        }
        _ => panic!("expected searchableBy"),
    }
}

#[test]
fn actor_without_context_is_denied_by_default() {
    let a = actor_with(&[], &["@context"]);
    assert!(matches!(a.get_discoverable_state(), Discoverable::Denied(DenyReason::Default)));
}

#[test]
fn declared_but_unset_indexable_denies() {
    let a = actor_with(&[("discoverable", value("true"))], &["indexable"]);
    assert!(matches!(a.get_discoverable_state(), Discoverable::Denied(DenyReason::Indexable)));
}

#[test]
fn indexable_true_allows() {
    let a = actor_with(&[("indexable", value("true"))], &[]);
    assert!(matches!(a.get_discoverable_state(), Discoverable::Allowed(AllowReason::Indexable)));
    assert!(a.get_discoverable_state().is_allowed_indexing());
}

#[test]
fn discoverable_decides_when_only_it_is_declared() {
    let ctx = value(r#"["https://www.w3.org/ns/activitystreams", {"discoverable": "toot:discoverable"}]"#);
    let a = actor_with(&[("@context", ctx.clone()), ("discoverable", value("true"))], &[]);
    assert!(matches!(a.get_discoverable_state(), Discoverable::Allowed(AllowReason::Discoverable)));
    let b = actor_with(&[("@context", ctx)], &["discoverable"]);
    assert!(matches!(b.get_discoverable_state(), Discoverable::Denied(DenyReason::Discoverable)));
}

#[test]
fn nothing_declared_is_assumed_allowed() {
    let a = actor_with(&[("@context", value(r#""https://www.w3.org/ns/activitystreams""#))], &[]);
    assert!(matches!(a.get_discoverable_state(), Discoverable::Allowed(AllowReason::Assumed)));
    assert!(!Discoverable::Denied(DenyReason::Ban).is_allowed_indexing());
}

#[test]
fn security_context_needs_a_key() {
    let a = actor_with(&[], &[]);
    assert!(a.validate_security_context().is_some());
    let b = actor_with(&[], &["publicKey"]);
    assert!(b.validate_security_context().is_none());
    let c = actor_with(&[("@context", value(r#""https://www.w3.org/ns/activitystreams""#))], &["publicKey"]);
    assert!(c.validate_security_context().is_some());
    assert!(a.is_person());
    assert_eq!(a.name().as_deref(), Some("Alice"));
}

const NOTE: &str = r#"{
    "id": "https://a.example/notes/1",
    "type": "Note",
    "attributedTo": "https://a.example/users/bob",
    "published": "2024-01-01T01:01:01Z",
    "content": "Body",
    "indexable": false,
    "discoverable": true,
    "searchableBy": ["https://a.example/users/bob", "https://www.w3.org/ns/activitystreams#Public"]
}"#;

fn note_with(extra: &[(&str, serde_json::Value)], remove: &[&str]) -> Result<Content, DecodeError> {
    let mut v: serde_json::Value = serde_json::from_str(NOTE).unwrap();
    let m = v.as_object_mut().unwrap();
    for k in remove {
        m.remove(*k);
    }
    for (k, x) in extra {
        m.insert(k.to_string(), x.clone());
    }
    Content::decode(&from_serde(&v))
}

#[test]
fn content_public_searchable_by_wins() {
    let c = note_with(&[], &[]).unwrap();
    assert!(matches!(c.get_optin_discoverable_state(), Discoverable::Allowed(AllowReason::SearchableBy(_))));
    assert!(matches!(c.get_optout_discoverable_state(), Discoverable::Allowed(AllowReason::SearchableBy(_))));
}

#[test]
fn content_flags_then_default() {
    let c = note_with(&[], &["searchableBy"]).unwrap();
    assert!(matches!(c.get_optout_discoverable_state(), Discoverable::Denied(DenyReason::Indexable)));
    let d = note_with(&[], &["searchableBy", "indexable"]).unwrap();
    assert!(matches!(d.get_optin_discoverable_state(), Discoverable::Allowed(AllowReason::Discoverable)));
    let e = note_with(&[], &["searchableBy", "indexable", "discoverable"]).unwrap();
    assert!(matches!(e.get_optin_discoverable_state(), Discoverable::Denied(DenyReason::Default)));
    assert!(matches!(e.get_optout_discoverable_state(), Discoverable::Allowed(AllowReason::Assumed)));
    assert_eq!(e.published, Timestamp { seconds: 1704070861, nanos: 0 });
}

#[test]
fn fedineko_address_is_public_too() {
    let urls = vec![url("https://a.example/x"), url(FEDINEKO_PUBLIC_ADDRESSEE)];
    match is_public_searchable_by(&urls) {
        Some(Discoverable::Allowed(AllowReason::SearchableBy(s))) => assert_eq!(s, FEDINEKO_PUBLIC_ADDRESSEE),
        _ => panic!("expected an address"),
    }
    assert!(is_public_searchable_by(&urls[..1]).is_none());
}

#[test]
fn content_decode_errors_name_the_field() {
    match note_with(&[], &["id"]) {
        Err(DecodeError::InvalidField(f)) => assert_eq!(f, "id"),
        _ => panic!("expected an error on id"),
    }
    match note_with(&[], &["attributedTo"]) {
        Err(DecodeError::InvalidField(f)) => assert_eq!(f, "attributedTo"),
        _ => panic!("expected an error on attributedTo"),
    }
    match note_with(&[("published", value(r#""yesterday""#))], &[]) {
        Err(DecodeError::InvalidField(f)) => assert_eq!(f, "published"),
        _ => panic!("expected an error on published"),
    }
    match note_with(&[], &["type"]) {
        Err(DecodeError::InvalidField(f)) => assert_eq!(f, "type"),
        _ => panic!("expected an error on type"),
    }
    assert!(matches!(Content::decode(&parse("[]")), Err(DecodeError::NotAnObject)));
    match Actor::decode(&parse(NOTE)) {
        Err(DecodeError::InvalidField(f)) => assert_eq!(f, "inbox"),
        _ => panic!("expected an error on inbox"),
    }
}

#[test]
fn unknown_type_degrades() {
    let c = note_with(&[("type", value(r#""Flower""#))], &[]).unwrap();
    assert_eq!(c.entity_type(), EntityType::Unknown);
    assert_eq!(EntityType::from_name("Mention"), EntityType::Mention);
    assert_eq!(EntityType::Mention.as_str(), "Mention");
}

#[test]
fn list_attribution_prefers_a_person() {
    let both = CompoundActorReference::decode(&parse(
        r#"[{"id": "https://a.example/g", "type": "Group"}, {"id": "https://a.example/p", "type": "Person"}]"#,
    ))
    .unwrap();
    assert_eq!(both.id().unwrap().as_str(), "https://a.example/p");
    let groups = CompoundActorReference::decode(&parse(
        r#"[{"id": "https://a.example/g1", "type": "Group"}, {"id": "https://a.example/g2", "type": "Group"}]"#,
    ))
    .unwrap();
    assert_eq!(groups.id().unwrap().as_str(), "https://a.example/g1");
    assert_eq!(groups.as_id_vec().len(), 2);
    let empty = CompoundActorReference::decode(&parse("[]")).unwrap();
    assert!(empty.id().is_none());
}

#[test]
fn largest_image_edge_cases() {
    let none = ImageReference::decode(&parse("[]")).unwrap();
    assert!(none.get_largest_image().is_none());
    let heights = ImageReference::decode(&parse(
        r#"[{"url": "https://a.example/1", "height": 10}, {"url": "https://a.example/2", "height": 30}]"#,
    ))
    .unwrap();
    assert_eq!(heights.get_largest_image().unwrap().height, Some(30));
    let bare = ImageReference::decode(&parse(
        r#"[{"url": "https://a.example/1"}, {"url": "https://a.example/2", "width": 99}]"#,
    ))
    .unwrap();
    assert_eq!(bare.get_largest_image().unwrap().url.unwrap().as_str(), "https://a.example/1");
    let single = ImageReference::decode(&parse(r#""https://a.example/only.png""#)).unwrap();
    assert_eq!(single.get_largest_image().unwrap().url.unwrap().as_str(), "https://a.example/only.png");
}

fn upper(s: &str) -> String {
    s.to_uppercase()
}

#[test]
fn content_map_joins_summary() {
    let c = note_with(
        &[("summary", value(r#""Title""#)), ("contentMap", value(r#"{"de": "Text"}"#))],
        &[],
    )
    .unwrap();
    let m = c.get_content_map(&upper).unwrap();
    assert_eq!(m, vec![("de".to_string(), "<P>TITLE</P>\nTEXT".to_string())]);
}

#[test]
fn content_map_falls_back_to_default() {
    let c = note_with(&[("summary", value(r#""Title""#))], &[]).unwrap();
    assert_eq!(c.get_content_map(&upper).unwrap(), vec![("default".to_string(), "<P>TITLE</P>\nBODY".to_string())]);
    let s = note_with(&[("summary", value(r#""Title""#))], &["content"]).unwrap();
    assert_eq!(s.get_content_map(&upper).unwrap(), vec![("default".to_string(), "TITLE".to_string())]);
    let b = note_with(&[], &[]).unwrap();
    assert_eq!(b.get_content_map(&upper).unwrap(), vec![("default".to_string(), "BODY".to_string())]);
    let n = note_with(&[], &["content"]).unwrap();
    assert!(n.get_content_map(&upper).is_none());
    let l = note_with(&[("contentMap", value(r#"["Eins"]"#))], &[]).unwrap();
    assert_eq!(l.get_content_map(&upper).unwrap(), vec![("default".to_string(), "EINS".to_string())]);
    let list = ContentMap::List(vec![]);
    assert!(list.as_map().is_empty());
}

#[test]
fn payload_by_url() {
    let a = Activity::decode(&parse(
        r#"{"id": "https://a.example/f/1", "type": "Follow", "actor": "https://a.example/u",
            "object": "https://b.example/users/c"}"#,
    ))
    .unwrap();
    assert_eq!(a.inner_object_type(), EntityType::Unknown);
    assert_eq!(a.inner_object_id().unwrap().as_str(), "https://b.example/users/c");
    assert!(a.to_field_matches("b.example"));
    assert_eq!(a.inner_object_as_string().as_deref(), Some("https://b.example/users/c"));
    assert_eq!(a.activity_id().as_str(), "https://a.example/f/1");
    assert!(matches!(
        Activity::decode(&parse(r#"{"id": "https://a.example/f/1", "type": "Follow"}"#)),
        Err(DecodeError::InvalidField(_))
    ));
}

#[test]
fn payload_addressed_by_object_list() {
    let a = Activity::decode(&parse(
        r#"{"id": "https://a.example/c/1", "type": "Create", "actor": "https://a.example/u",
            "object": {"id": "https://a.example/n/1", "type": "Movie", "to": [{"id": "https://x.example/z"}]}}"#,
    ))
    .unwrap();
    assert!(a.to_field_matches("x.example/z"));
    assert!(!a.to_field_matches("y.example"));
    assert_eq!(a.inner_object_type(), EntityType::Page);
}

#[test]
fn type_names_of_payloads() {
    assert_eq!(entity_type_from("Movie"), EntityType::Page);
    assert_eq!(entity_type_from("Person"), EntityType::Person);
    assert_eq!(entity_type_from("Create"), EntityType::Unknown);
    assert!(is_supported_content_type(EntityType::Movie));
    assert!(!is_supported_content_type(EntityType::Page));
    assert!(is_actor_type(EntityType::Service));
    assert!(!is_actor_type(EntityType::Group));
}

#[test]
fn follow_activity_has_an_id_under_the_follower() {
    let f = FollowActivity::new(
        url("https://relay.example/actor"),
        "mastodon.example",
        url("https://index.example/users/indexer"),
    )
    .unwrap();
    assert_eq!(f.id.as_str(), "https://index.example/users/indexer/follow/mastodon.example/public");
    let a = f.into_activity().unwrap();
    assert_eq!(a.entity_type(), EntityType::Follow);
    assert_eq!(a.inner_object_id().unwrap().as_str(), "https://relay.example/actor");
    let again = Activity::decode(&a.to_json()).unwrap();
    assert_eq!(again.activity_id().as_str(), a.activity_id().as_str());
}

#[test]
fn entity_new_links_two_schemas() {
    let e = Entity::new(EntityType::Note).unwrap();
    let ctx = e.context.unwrap();
    assert!(ctx.matches_url(&url("https://w3id.org/security/v1")));
    assert!(ctx.matches_url(&url("https://www.w3.org/ns/activitystreams")));
    assert!(!ctx.matches_url(&url("https://example.org/")));
}

#[test]
fn urls_are_normalised() {
    assert!(Url::parse("").is_none());
    assert!(Url::parse("not a url").is_none());
    let u = url("HTTPS://Example.ORG/a/b?q=1");
    assert_eq!(u.as_str(), "https://example.org/a/b?q=1");
    assert_eq!(u.path(), "/a/b");
    assert_eq!(u.host().map(|h| h.as_str()), Some("example.org"));
    assert!(contains_text("abcdef", "cde"));
    assert!(!contains_text("abc", "abcd"));
}

#[test]
fn guesses_from_url_paths() {
    let c = UrlClassifier::new().unwrap();
    assert_eq!(guess_object_type_from_url(&c, &url("https://m.example/users/bob")), GuessedType::ACTOR);
    assert_eq!(guess_object_type_from_url(&c, &url("https://m.example/@bob")), GuessedType::UNKNOWN);
    assert_eq!(guess_object_type_from_url(&c, &url("https://m.example/users/bob/statuses/1")), GuessedType::CONTENT);
    assert_eq!(guess_object_type_from_url(&c, &url("https://m.example/NOTES/abc")), GuessedType::CONTENT);
    assert_eq!(extract_username_from_url(&c, &url("https://m.example/u/Bob")).as_deref(), Some("Bob"));
    let id = extract_actor_readable_id_from_url(&c, &url("https://m.example/profile/carol")).unwrap();
    assert_eq!((id.server.as_str(), id.username.as_str()), ("m.example", "carol"));
    assert!(extract_actor_readable_id_from_url(&c, &url("https://m.example/notes/1")).is_none());
}
