use activitypub_model::activity::Activity;
use activitypub_model::actor::PUBLIC_ADDRESSEE;
use activitypub_model::content::Content;
use activitypub_model::context::Context;
use activitypub_model::entity::EntityType;
use activitypub_model::image::ImageReference;
use activitypub_model::json::{JsonNumber, JsonValue};
use activitypub_model::object::ObjectTrait;
use activitypub_model::tag::TagReference;

fn from_serde(v: &serde_json::Value) -> JsonValue {
    match v {
        serde_json::Value::Null => JsonValue::Null,
        serde_json::Value::Bool(b) => JsonValue::Bool(*b),
        serde_json::Value::Number(n) => JsonValue::Number(match (n.as_u64(), n.as_i64()) {
            (Some(u), _) => JsonNumber::Unsigned(u),
            (None, Some(i)) => JsonNumber::Negative(i),
            _ => JsonNumber::Other(n.to_string()),
        }),
        serde_json::Value::String(s) => JsonValue::Str(s.clone()),
        serde_json::Value::Array(a) => JsonValue::Array(a.iter().map(from_serde).collect()),
        serde_json::Value::Object(m) => {
            JsonValue::Object(m.iter().map(|(k, v)| (k.clone(), from_serde(v))).collect())
        }
    }
}

fn parse(text: &str) -> JsonValue {
    from_serde(&serde_json::from_str::<serde_json::Value>(text).unwrap())
}

const SERIALIZED_DATA: &str = r#" {
        "@context": [
            "https://www.w3.org/ns/activitystreams",
             {
                "atomUri": "ostatus:atomUri",
                 "ostatus": "http://ostatus.org#"
             }
        ],
        "actor": "https://mastodon.world/users/xxxxxxx",
        "id": "https://mastodon.world/users/xxxxxxx/statuses/12345678#delete",
        "object": {
            "atomUri": "https://mastodon.world/users/xxxxxxx/statuses/12345678",
            "id": "https://mastodon.world/users/xxxxxxx/statuses/12345678",
            "type": "Tombstone",
            "to": "https://1.2/3"
        },
        "signature": {
            "created": "2024-01-01T01:01:01Z",
            "creator": "https://mastodon.world/users/xxxxxxx#main-key",
            "signatureValue": "RSA==",
            "type": "RsaSignature2017"
        },
        "to": ["https://www.w3.org/ns/activitystreams#Public"],
        "type": "Delete"
    }"#;

#[test]
fn test_tombstone_deserialize_success() {
    assert!(Activity::decode(&parse(SERIALIZED_DATA)).is_ok());
}

#[test]
fn test_addressee_field_matches() {
    let value = Activity::decode(&parse(SERIALIZED_DATA)).unwrap();

    assert!(value.to_field_matches(PUBLIC_ADDRESSEE));

    assert!(value.to_field_matches("https://1.2/3"));
}

#[test]
fn tombstone_payload_type_and_id() {
    let value = Activity::decode(&parse(SERIALIZED_DATA)).unwrap();
    assert_eq!(value.entity_type(), EntityType::Delete);
    assert_eq!(value.inner_object_type(), EntityType::Tombstone);
    assert_eq!(
        value.inner_object_id().unwrap().as_str(),
        "https://mastodon.world/users/xxxxxxx/statuses/12345678"
    );
    assert!(!value.to_field_matches("https://example.org/nobody"));
}

#[test]
fn test_object_deserialize_success() {
    let serialized = r#"{
    "id": "https://live-theater.net/notes/xxxxxx",
        "type": "Note",
        "attributedTo": "https://live-theater.net/users/yyyyyyy",
        "content": "<p><i>\u200b:arisa_fuo_1:\u200b</i><span> xyz<br></span><a href=\"https://live-theater.net/play/zzzzzzz\">https://live-theater.net/play/zzzzzzz</a></p>",
        "_misskey_content": "$[rainbow :arisa_fuo_1:] xyz\nhttps://live-theater.net/play/zzzzzzz",
        "source": {
            "content": "$[rainbow :arisa_fuo_1:] xyz\nhttps://live-theater.net/play/zzzzzzz",
            "mediaType": "text/x.misskeymarkdown"
        },
        "published": "2024-01-01T01:01:01.000Z",
        "to": [
            "https://www.w3.org/ns/activitystreams#Public"
        ],
        "cc": [
            "https://live-theater.net/users/yyyyyyy/followers"
        ],
        "inReplyTo": null,
        "attachment": [],
        "sensitive": false,
        "tag": [
            {
                "id": "https://live-theater.net/emojis/arisa_fuo_1",
                "type": "Emoji",
                "name": ":arisa_fuo_1:",
                "updated": "2023-10-10T10:10:10.010Z",
                "icon": {
                    "type": "Image",
                    "mediaType": "image/png",
                    "url": "https://cdn.live-theater.net/null/webpublic-id.png"
                }
            }
        ]
    }"#;
    assert!(Content::decode(&parse(serialized)).is_ok());
}

/// Escapes every angle bracket except those of `<a ...>` tags, which keep
/// only their `href` and get a safe `rel` and a closing tag.
fn clean_some_content(text: &str) -> String {
    let mut out = String::new();
    let mut rest = text;
    while let Some(at) = rest.find('<') {
        out.push_str(&rest[..at].replace('>', "&gt;"));
        let tail = &rest[at..];
        if tail.starts_with("<a ") {
            if let Some(end) = tail.find('>') {
                let tag = &tail[..end];
                let href = tag
                    .split("href=\"")
                    .nth(1)
                    .and_then(|h| h.split('"').next())
                    .unwrap_or("");
                out.push_str(&format!("<a href=\"{href}\" rel=\"noopener noreferrer\"></a>"));
                rest = &tail[end + 1..];
                continue;
            }
        }
        out.push_str("&lt;");
        rest = &tail[1..];
    }
    out.push_str(&rest.replace('>', "&gt;"));
    out
}

#[test]
fn test_urls_are_kept_intact_in_content() {
    let serialized = r#"{
          "@context": [],
          "id": "https://z.y.x/users/xyz/statuses/123456789",
          "type": "Note",
          "summary": null,
          "inReplyTo": null,
          "published": "2024-01-22T13:37:04Z",
          "url": "https://z.y.x/users/xyz/statuses/123456789",
          "attributedTo": "https://z.y.x/users/xyz",
          "sensitive": false,
          "content": "Text<\u003c>br /\u003e\u003ca href=\"https://www.xyz.net/x/y/z/\" target=\"_blank\" rel=\"nofollow noopener noreferrer\" translate=\"no\"\u003e",
          "contentMap": {
            "en": "Text<\u003c>br /\u003e\u003ca href=\"https://www.xyz.net/x/y/z/\" target=\"_blank\" rel=\"nofollow noopener noreferrer\" translate=\"no\"\u003e"
          },
          "attachment": [],
          "tag": []
        }"#;

    let content = Content::decode(&parse(serialized)).unwrap();
    let cleaner = |v: &str| clean_some_content(v);
    let content_map = content.get_content_map(&cleaner).unwrap();
    let en = content_map.iter().find(|(k, _)| k == "en").map(|(_, v)| v).unwrap();

    assert_eq!(
        en,
        "Text&lt;&lt;&gt;br /&gt;<a href=\"https://www.xyz.net/x/y/z/\" rel=\"noopener noreferrer\"></a>"
    )
}

#[test]
fn test_context_deserialize_success() {
    let serialized = r#"[
        "https://www.w3.org/ns/activitystreams",
        {
            "ostatus": "http://ostatus.org#",
            "atomUri": "ostatus:atomUri",
            "inReplyToAtomUri": "ostatus:inReplyToAtomUri",
            "conversation": "ostatus:conversation",
            "sensitive": "as:sensitive",
            "toot": "http://joinmastodon.org/ns#",
            "votersCount": "toot:votersCount",
            "blurhash": "toot:blurhash",
            "focalPoint": {"@container": "@list", "@id": "toot:focalPoint"}
        }
        ]"#;
    assert!(Context::decode(&parse(serialized)).is_some());
}

#[test]
fn test_search_in_context() {
    let serialized = r#"[
        "https://www.w3.org/ns/activitystreams",
        "https://w3id.org/security/v1",
        {
          "manuallyApprovesFollowers": "as:manuallyApprovesFollowers",
          "toot": "http://joinmastodon.org/ns#",
          "discoverable": "toot:discoverable",
          "Device": "toot:Device",
          "messageType": "toot:messageType",
          "cipherText": "toot:cipherText",
          "suspended": "toot:suspended",
          "memorial": "toot:memorial",
          "indexable": "toot:indexable"
        }
      ]"#;

    let context: Context = Context::decode(&parse(serialized)).unwrap();

    assert!(context.has_definition("indexable"));
    assert!(context.has_definition("discoverable"));
    assert!(!context.has_definition("param"));
}

#[test]
fn test_image_ordering_is_correct() {
    let serialized = r#"[
{
  "type": "Image",
  "url": "https://peertube.stream/lazy-static/thumbnails/xxx.jpg",
  "mediaType": "image/jpeg",
  "width": 280,
  "height": 157
},
{
  "type": "Image",
  "url": "https://peertube.stream/lazy-static/previews/yyy.jpg",
  "mediaType": "image/jpeg",
  "width": 850,
  "height": 480
}
]"#;
    let image_reference: ImageReference = ImageReference::decode(&parse(serialized)).unwrap();
    let image = image_reference.get_largest_image().unwrap();
    assert_eq!(850, image.width.unwrap());
}

#[test]
fn test_deserializaton() {
    let data = r#"[
        {
          "type": "Mention",
          "href": "https://b.network/profile/a",
          "name": "@a@b.network"
        },
        {
          "type": "Mention",
          "href": "",
          "name": "@a@b.chat"
        }
    ]"#;

    let tag_reference: TagReference = TagReference::decode(&parse(data)).unwrap();
    let tags = tag_reference.as_vec();

    assert_eq!(2, tags.len());

    let first_url = tags
        .get(0)
        .and_then(|tag| tag.id.as_ref())
        .and_then(|reference| reference.any_url())
        .unwrap();

    let second_url = tags
        .get(1)
        .and_then(|tag| tag.id.as_ref())
        .and_then(|reference| reference.any_url());

    assert_eq!(first_url.as_str(), "https://b.network/profile/a");
    assert!(second_url.is_none());
}
