//! Content items (notes, articles, videos...) and the content-level
//! discoverability rules.
use vstd::prelude::*;
use vstd::string::StringExecFns;
use crate::actor::{
    CompoundActorReference, CompoundActorReferenceView, is_public_searchable_by, pairs_view,
    read_url_list, searchable_by_verdict, spec_decode_compound_actor_reference, spec_decode_text_map, urls_view,
};
use crate::attachment::{AttachmentReference, AttachmentReferenceView, read_attachment_reference};
use crate::codec::{
    DecodeError, DecodeErrorView, field_bool, field_string, invalid_field, read_bool, read_string, result_view,
};
use crate::discoverable::{AllowReason, AllowReasonView, DenyReason, Discoverable, DiscoverableView};
use crate::entity::EntityType;
use crate::image::{ImageReference, ImageReferenceView, read_image_reference};
use crate::json::{JsonValue, JsonView, decode_each, items_of, lemma_decode_each, lemma_seq_view};
use crate::context::Context;
use crate::object::{ObjectTrait, Object, ObjectView, decode_url_list, spec_decode_object};
use crate::tag::{TagReference, TagReferenceView, or_alias, read_tag_reference};
use crate::text::{opt_view, vec_view};
use crate::time::{Timestamp, utc_instant};
use crate::url::{Url, UrlView};

verus! {

/// Texts by language. Most documents give an object of language and text;
/// a few give a list, whose first text stands for the `default` language.
pub enum ContentMap {
    Dictionary(Vec<(String, String)>),
    List(Vec<String>),
}

pub enum ContentMapView {
    Dictionary(Seq<(Seq<char>, Seq<char>)>),
    List(Seq<Seq<char>>),
}

impl View for ContentMap {
    type V = ContentMapView;

    open spec fn view(&self) -> ContentMapView {
        match self {
            ContentMap::Dictionary(m) => ContentMapView::Dictionary(pairs_view(*m)),
            ContentMap::List(l) => ContentMapView::List(vec_view(*l)),
        }
    }
}

impl ContentMapView {
    /// Language and text, in document order.
    pub open spec fn as_map(self) -> Seq<(Seq<char>, Seq<char>)> {
        match self {
            ContentMapView::Dictionary(m) => m,
            ContentMapView::List(l) => if l.len() == 0 {
                Seq::empty()
            } else {
                seq![("default"@, l[0])]
            },
        }
    }
}

/// A post, article, video or other content item.
pub struct Content {
    pub object_entity: Object,
    /// The author.
    pub attributed_to: CompoundActorReference,
    /// Consent to search indexing.
    pub indexable: Option<bool>,
    /// The older discoverability flag.
    pub discoverable: Option<bool>,
    /// When the content was published.
    pub published: Timestamp,
    pub sensitive: Option<bool>,
    /// Scopes the content may be searched by.
    pub searchable_by: Option<Vec<Url>>,
    /// Summary, e.g. a title or a content warning.
    pub summary: Option<String>,
    /// The body.
    pub content: Option<String>,
    /// The body in several languages.
    pub content_map: Option<ContentMap>,
    pub tag: Option<TagReference>,
    pub attachment: Option<AttachmentReference>,
    /// Image of the content.
    pub icon: Option<ImageReference>,
}

pub struct ContentView {
    pub object_entity: ObjectView,
    pub attributed_to: CompoundActorReferenceView,
    pub indexable: Option<bool>,
    pub discoverable: Option<bool>,
    pub published: Timestamp,
    pub sensitive: Option<bool>,
    pub searchable_by: Option<Seq<UrlView>>,
    pub summary: Option<Seq<char>>,
    pub content: Option<Seq<char>>,
    pub content_map: Option<ContentMapView>,
    pub tag: Option<TagReferenceView>,
    pub attachment: Option<AttachmentReferenceView>,
    pub icon: Option<ImageReferenceView>,
}

impl View for Content {
    type V = ContentView;

    open spec fn view(&self) -> ContentView {
        ContentView {
            object_entity: self.object_entity@,
            attributed_to: self.attributed_to@,
            indexable: self.indexable,
            discoverable: self.discoverable,
            published: self.published,
            sensitive: self.sensitive,
            searchable_by: match self.searchable_by {
                Some(l) => Some(vec_view(l)),
                None => None,
            },
            summary: opt_view(self.summary),
            content: opt_view(self.content),
            content_map: opt_view(self.content_map),
            tag: opt_view(self.tag),
            attachment: opt_view(self.attachment),
            icon: opt_view(self.icon),
        }
    }
}

/// The summary, as a paragraph, before the body.
pub open spec fn joined(summary: Seq<char>, body: Seq<char>) -> Seq<char> {
    "<p>"@ + summary + "</p>\n"@ + body
}

impl ContentView {
    /// The texts, by language, that are handed to the cleaner: each text of
    /// the content map after the summary; failing that, a `default` entry
    /// from the summary and the body (or the name), or from whichever of the
    /// two there is; `None` when there is no text at all.
    pub open spec fn texts(self) -> Option<Seq<(Seq<char>, Seq<char>)>> {
        let localized = match self.content_map {
            Some(cm) => cm.as_map(),
            None => Seq::empty(),
        };
        if localized.len() > 0 {
            Some(
                localized.map_values(
                    |p: (Seq<char>, Seq<char>)|
                        (
                            p.0,
                            match self.summary {
                                Some(s) => joined(s, p.1),
                                None => p.1,
                            },
                        ),
                ),
            )
        } else {
            match (or_alias(self.content, self.object_entity.name), self.summary) {
                (Some(b), Some(s)) => Some(seq![("default"@, joined(s, b))]),
                (None, Some(s)) => Some(seq![("default"@, s)]),
                (Some(b), None) => Some(seq![("default"@, b)]),
                (None, None) => None,
            }
        }
    }

    /// The content-level verdict, first rule that applies: a public address
    /// in `searchableBy`; `indexable` when set; `discoverable` when set;
    /// otherwise `default_state`.
    pub open spec fn discoverable_state(self, default_state: DiscoverableView) -> DiscoverableView {
        match searchable_by_verdict(self.searchable_by) {
            Some(v) => v,
            None => match self.indexable {
                Some(true) => DiscoverableView::Allowed(AllowReasonView::Indexable),
                Some(false) => DiscoverableView::Denied(DenyReason::Indexable),
                None => match self.discoverable {
                    Some(true) => DiscoverableView::Allowed(AllowReasonView::Discoverable),
                    Some(false) => DiscoverableView::Denied(DenyReason::Discoverable),
                    None => default_state,
                },
            },
        }
    }
}

/// Every entry of `m` has the language of the entry of `texts` at the same
/// place, and holds what `cleaner` made of that entry's text.
pub open spec fn cleaned_from<F: Fn(&str) -> String>(
    cleaner: F,
    texts: Seq<(Seq<char>, Seq<char>)>,
    m: Seq<(String, String)>,
) -> bool {
    &&& m.len() == texts.len()
    &&& forall|i: int|
        0 <= i < m.len() ==> (#[trigger] m[i]).0@ == texts[i].0 && exists|t: &str|
            t@ == texts[i].1 && cleaner.ensures((t,), m[i].1)
}

fn joined_text(summary: &str, body: &str) -> (r: String)
    ensures
        r@ == joined(summary@, body@),
{
    let mut t = "<p>".to_owned();
    t.append(summary);
    t.append("</p>\n");
    t.append(body);
    t
}

impl ContentMap {
    /// Language and text, whichever shape the map has.
    pub fn as_map(&self) -> (r: Vec<(String, String)>)
        ensures
            pairs_view(r) == self@.as_map(),
    {
        match self {
            ContentMap::Dictionary(map) => {
                let mut out: Vec<(String, String)> = Vec::new();
                let mut i: usize = 0;
                while i < map.len()
                    invariant
                        i <= map@.len(),
                        self@.as_map() == pairs_view(*map),
                        pairs_view(out) == pairs_view(*map).take(i as int),
                        out@.len() == i,
                    decreases map@.len() - i,
                {
                    let ghost prev = out@;
                    out.push((map[i].0.clone(), map[i].1.clone()));
                    proof {
                        assert forall|k: int| 0 <= k < i implies out@[k] == prev[k] by {}
                        assert(pairs_view(out) =~= pairs_view(*map).take(i + 1));
                    }
                    i = i + 1;
                }
                proof {
                    assert(pairs_view(*map).take(map@.len() as int) =~= pairs_view(*map));
                }
                out
            },
            ContentMap::List(list) => {
                let mut out: Vec<(String, String)> = Vec::new();
                if list.len() == 0 {
                    assert(pairs_view(out) =~= self@.as_map());
                    return out;
                }
                out.push(("default".to_owned(), list[0].clone()));
                assert(pairs_view(out) =~= self@.as_map());
                out
            },
        }
    }

    pub fn decode(j: &JsonValue) -> (r: Option<ContentMap>)
        ensures
            opt_view(r) == spec_decode_content_map(j@),
    {
        match crate::actor::decode_text_map(j) {
            Some(m) => { return Some(ContentMap::Dictionary(m)); },
            None => {},
        }
        match j {
            JsonValue::Array(items) => {
                let ghost views = items_of(*items);
                proof {
                    lemma_seq_view(items@, items@.len() as int);
                }
                let mut out: Vec<String> = Vec::new();
                let mut i: usize = 0;
                while i < items.len()
                    invariant
                        j@ == JsonView::Array(views),
                        spec_decode_text_map(j@) is None,
                        i <= items@.len(),
                        out@.len() == i,
                        views.len() == items@.len(),
                        forall|k: int| 0 <= k < items@.len() ==> #[trigger] views[k] == items@[k]@,
                        forall|k: int| 0 <= k < i ==> text_decoder()(#[trigger] views[k]) == Some(out@[k]@),
                    decreases items@.len() - i,
                {
                    match &items[i] {
                        JsonValue::Str(s) => out.push(s.clone()),
                        _ => {
                            proof {
                                lemma_decode_each(views, text_decoder());
                                assert(text_decoder()(views[i as int]) is None);
                            }
                            return None;
                        },
                    }
                    i = i + 1;
                }
                proof {
                    crate::json::lemma_decode_each_values(views, text_decoder(), vec_view(out));
                }
                Some(ContentMap::List(out))
            },
            _ => None,
        }
    }
}

pub open spec fn text_decoder() -> spec_fn(JsonView) -> Option<Seq<char>> {
    |j: JsonView| read_string(Some(j))
}

/// A content map is an object of texts or, failing that, a list of texts.
pub open spec fn spec_decode_content_map(j: JsonView) -> Option<ContentMapView> {
    match spec_decode_text_map(j) {
        Some(m) => Some(ContentMapView::Dictionary(m)),
        None => match j {
            JsonView::Array(items) => match decode_each(items, text_decoder()) {
                Some(l) => Some(ContentMapView::List(l)),
                None => None,
            },
            _ => None,
        },
    }
}

pub open spec fn read_published(j: Option<JsonView>) -> Option<Timestamp> {
    match j {
        Some(JsonView::Str(s)) => match utc_instant(s) {
            Some(p) => Some(Timestamp { seconds: p.0, nanos: p.1 }),
            None => None,
        },
        _ => None,
    }
}

pub open spec fn spec_decode_content(j: JsonView) -> Result<ContentView, DecodeErrorView> {
    match spec_decode_object(j) {
        Err(e) => Err(e),
        Ok(object_entity) => match j.get_present("attributedTo"@) {
            None => Err(DecodeErrorView::InvalidField("attributedTo"@)),
            Some(a) => match spec_decode_compound_actor_reference(a) {
                None => Err(DecodeErrorView::InvalidField("attributedTo"@)),
                Some(attributed_to) => match read_published(j.get_present("published"@)) {
                    None => Err(DecodeErrorView::InvalidField("published"@)),
                    Some(published) => Ok(
                        ContentView {
                            object_entity,
                            attributed_to,
                            indexable: read_bool(j.get_present("indexable"@)),
                            discoverable: read_bool(j.get_present("discoverable"@)),
                            published,
                            sensitive: read_bool(j.get_present("sensitive"@)),
                            searchable_by: read_url_list(j.get_present("searchableBy"@)),
                            summary: read_string(j.get_present("summary"@)),
                            content: read_string(j.get_present("content"@)),
                            content_map: match j.get_present("contentMap"@) {
                                Some(v) => spec_decode_content_map(v),
                                None => None,
                            },
                            tag: read_tag_reference(j.get_present("tag"@)),
                            attachment: read_attachment_reference(j.get_present("attachment"@)),
                            icon: or_alias(
                                read_image_reference(j.get_present("icon"@)),
                                read_image_reference(j.get_present("image"@)),
                            ),
                        },
                    ),
                },
            },
        },
    }
}

impl Content {
    pub fn decode(j: &JsonValue) -> (r: Result<Content, DecodeError>)
        ensures
            result_view(r) == spec_decode_content(j@),
    {
        let object_entity = match Object::decode(j) {
            Ok(o) => o,
            Err(e) => { return Err(e); },
        };
        let attributed_to = match j.get_present("attributedTo") {
            Some(a) => match CompoundActorReference::decode(a) {
                Some(r) => r,
                None => { return Err(invalid_field("attributedTo")); },
            },
            None => { return Err(invalid_field("attributedTo")); },
        };
        let published = match j.get_present("published") {
            Some(JsonValue::Str(s)) => match Timestamp::parse(s.as_str()) {
                Some(t) => t,
                None => { return Err(invalid_field("published")); },
            },
            _ => { return Err(invalid_field("published")); },
        };
        let searchable_by = match j.get_present("searchableBy") {
            Some(v) => decode_url_list(v),
            None => None,
        };
        let content_map = match j.get_present("contentMap") {
            Some(v) => ContentMap::decode(v),
            None => None,
        };
        let tag = match j.get_present("tag") {
            Some(v) => TagReference::decode(v),
            None => None,
        };
        let attachment = match j.get_present("attachment") {
            Some(v) => AttachmentReference::decode(v),
            None => None,
        };
        let icon = match j.get_present("icon") {
            Some(v) => ImageReference::decode(v),
            None => None,
        };
        let icon = match icon {
            Some(v) => Some(v),
            None => match j.get_present("image") {
                Some(v) => ImageReference::decode(v),
                None => None,
            },
        };
        Ok(
            Content {
                object_entity,
                attributed_to,
                indexable: field_bool(j, "indexable"),
                discoverable: field_bool(j, "discoverable"),
                published,
                sensitive: field_bool(j, "sensitive"),
                searchable_by,
                summary: field_string(j, "summary"),
                content: field_string(j, "content"),
                content_map,
                tag,
                attachment,
                icon,
            },
        )
    }

    /// Language and cleaned text of this content (see
    /// [`ContentView::texts`]); `cleaner` is applied to every text.
    pub fn get_content_map<F: Fn(&str) -> String>(&self, cleaner: &F) -> (r: Option<Vec<(String, String)>>)
        requires
            forall|t: &str| cleaner.requires((t,)),
        ensures
            match r {
                Some(m) => self@.texts() matches Some(texts) && cleaned_from(*cleaner, texts, m@),
                None => self@.texts() is None,
            },
    {
        let localized = match &self.content_map {
            Some(cm) => cm.as_map(),
            None => Vec::new(),
        };
        let ghost loc = pairs_view(localized);
        proof {
            assert(loc =~= match self@.content_map {
                Some(cm) => cm.as_map(),
                None => Seq::empty(),
            });
        }
        if localized.len() > 0 {
            let ghost texts = self@.texts()->0;
            let mut out: Vec<(String, String)> = Vec::new();
            let mut i: usize = 0;
            while i < localized.len()
                invariant
                    forall|t: &str| cleaner.requires((t,)),
                    loc == pairs_view(localized),
                    self@.texts() == Some(texts),
                    texts.len() == loc.len(),
                    forall|k: int| 0 <= k < loc.len() ==> (#[trigger] texts[k]) == (
                        loc[k].0,
                        match self@.summary {
                            Some(s) => joined(s, loc[k].1),
                            None => loc[k].1,
                        },
                    ),
                    i <= localized@.len(),
                    out@.len() == i,
                    forall|k: int|
                        0 <= k < i ==> (#[trigger] out@[k]).0@ == texts[k].0 && exists|t: &str|
                            t@ == texts[k].1 && cleaner.ensures((t,), out@[k].1),
                decreases localized@.len() - i,
            {
                let ghost prev = out@;
                let text = match &self.summary {
                    None => localized[i].1.clone(),
                    Some(summary) => joined_text(summary.as_str(), localized[i].1.as_str()),
                };
                assert(texts[i as int] == (loc[i as int].0, text@));
                let ts: &str = text.as_str();
                let cleaned = cleaner(ts);
                out.push((localized[i].0.clone(), cleaned));
                proof {
                    assert forall|k: int| 0 <= k < i implies out@[k] == prev[k] by {}
                    assert(out@[i as int].0@ == texts[i as int].0);
                    assert(ts@ == texts[i as int].1 && cleaner.ensures((ts,), out@[i as int].1));
                }
                i = i + 1;
            }
            return Some(out);
        }
        let body = match &self.content {
            Some(c) => Some(c),
            None => self.object_entity.name.as_ref(),
        };
        let ghost texts = self@.texts();
        let text = match (body, &self.summary) {
            (Some(b), Some(s)) => joined_text(s.as_str(), b.as_str()),
            (None, Some(s)) => s.clone(),
            (Some(b), None) => b.clone(),
            (None, None) => { return None; },
        };
        assert(texts == Some(seq![("default"@, text@)]));
        let ts: &str = text.as_str();
        let cleaned = cleaner(ts);
        let out = vec![("default".to_owned(), cleaned)];
        proof {
            assert(ts@ == texts->0[0].1 && cleaner.ensures((ts,), out@[0].1));
        }
        Some(out)
    }

    /// The content-level verdict, with `default_state` when no field decides
    /// (see [`ContentView::discoverable_state`]).
    pub fn get_discoverable_state(&self, default_state: Discoverable) -> (r: Discoverable)
        ensures
            r@ == self@.discoverable_state(default_state@),
    {
        match &self.searchable_by {
            Some(searchable_by) => {
                match is_public_searchable_by(searchable_by.as_slice()) {
                    Some(v) => {
                        assert(urls_view(searchable_by@) == vec_view(*searchable_by));
                        return v;
                    },
                    None => {
                        assert(urls_view(searchable_by@) == vec_view(*searchable_by));
                    },
                }
            },
            None => {},
        }
        if let Some(indexable) = self.indexable {
            return match indexable {
                true => Discoverable::Allowed(AllowReason::Indexable),
                false => Discoverable::Denied(DenyReason::Indexable),
            };
        }
        if let Some(discoverable) = self.discoverable {
            return match discoverable {
                true => Discoverable::Allowed(AllowReason::Discoverable),
                false => Discoverable::Denied(DenyReason::Discoverable),
            };
        }
        default_state
    }

    /// The verdict when the actor denied indexing: the content must opt in.
    pub fn get_optin_discoverable_state(&self) -> (r: Discoverable)
        ensures
            r@ == self@.discoverable_state(DiscoverableView::Denied(DenyReason::Default)),
    {
        self.get_discoverable_state(Discoverable::Denied(DenyReason::Default))
    }

    /// The verdict when the actor allowed indexing: the content may opt out.
    pub fn get_optout_discoverable_state(&self) -> (r: Discoverable)
        ensures
            r@ == self@.discoverable_state(DiscoverableView::Allowed(AllowReasonView::Assumed)),
    {
        self.get_discoverable_state(Discoverable::Allowed(AllowReason::Assumed))
    }
}


/// A `searchableBy` list that holds the public address allows indexing for
/// `searchableBy`, whatever `indexable`, `discoverable` and the default say.
pub proof fn lemma_public_searchable_by_wins(c: ContentView, default_state: DiscoverableView, k: int)
    requires
        c.searchable_by matches Some(l) && 0 <= k < l.len() && l[k].href == crate::actor::PUBLIC_ADDRESSEE@,
    ensures
        c.discoverable_state(default_state) matches DiscoverableView::Allowed(AllowReasonView::SearchableBy(h))
            && crate::actor::is_public_address(h),
{
    crate::actor::lemma_first_public(c.searchable_by->0, k);
}


impl ObjectTrait for Content {
    open spec fn object_view(&self) -> ObjectView {
        self.object_entity@
    }

    fn context(&self) -> (r: Option<&Context>) {
        self.object_entity.context()
    }

    fn object_id(&self) -> (r: &Url) {
        self.object_entity.object_id()
    }

    fn object_id_str(&self) -> (r: &str) {
        self.object_entity.object_id_str()
    }

    fn entity_type(&self) -> (r: EntityType) {
        self.object_entity.entity_type()
    }
}

} // verus!
