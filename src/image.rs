//! Images and the shapes an image-valued property takes.
use vstd::prelude::*;
use crate::codec::{
    bool_json, bool_or_null, field_bool, field_string, field_u32, field_url, read_bool, read_string, read_u32,
    read_url, string_json, string_or_null, u32_json, u32_or_null, url_json, url_or_null,
};
use crate::json::{JsonValue, JsonView, decode_each, entries_of, items_of, lemma_decode_each, lemma_seq_view, push_entry, push_item};
use crate::text::{clone_opt_string, opt_view, vec_view};
use crate::url::{Url, UrlView};

verus! {

/// An image description. It is not a full ActivityPub object: it carries no
/// context and no kind.
pub struct Image {
    /// Where the image data is.
    pub url: Option<Url>,
    /// Description or name of the image.
    pub summary: Option<String>,
    pub media_type: Option<String>,
    /// Whether the image is marked as sensitive.
    pub sensitive: Option<bool>,
    /// Width in pixels.
    pub width: Option<u32>,
    /// Height in pixels.
    pub height: Option<u32>,
}

pub struct ImageView {
    pub url: Option<UrlView>,
    pub summary: Option<Seq<char>>,
    pub media_type: Option<Seq<char>>,
    pub sensitive: Option<bool>,
    pub width: Option<u32>,
    pub height: Option<u32>,
}

impl View for Image {
    type V = ImageView;

    open spec fn view(&self) -> ImageView {
        ImageView {
            url: opt_view(self.url),
            summary: opt_view(self.summary),
            media_type: opt_view(self.media_type),
            sensitive: self.sensitive,
            width: self.width,
            height: self.height,
        }
    }
}

/// The shapes an image-valued property takes.
pub enum ImageReference {
    /// A bare URL of the image data.
    Url(Url),
    /// One image description.
    Single(Image),
    /// Several image descriptions.
    List(Vec<Image>),
}

pub enum ImageReferenceView {
    Url(UrlView),
    Single(ImageView),
    List(Seq<ImageView>),
}

impl View for ImageReference {
    type V = ImageReferenceView;

    open spec fn view(&self) -> ImageReferenceView {
        match self {
            ImageReference::Url(u) => ImageReferenceView::Url(u@),
            ImageReference::Single(i) => ImageReferenceView::Single(i@),
            ImageReference::List(l) => ImageReferenceView::List(vec_view(*l)),
        }
    }
}

/// An image known only by its URL.
pub open spec fn image_from_url(u: UrlView) -> ImageView {
    ImageView { url: Some(u), summary: None, media_type: None, sensitive: None, width: None, height: None }
}

/// `a` ranks above `b`: wider when both give a width, else taller when both
/// give a height. Otherwise neither ranks above the other.
pub open spec fn ranks_above(a: ImageView, b: ImageView) -> bool {
    if a.width is Some && b.width is Some {
        a.width->0 > b.width->0
    } else if a.height is Some && b.height is Some {
        a.height->0 > b.height->0
    } else {
        false
    }
}

/// The image kept after scanning `images` in order: a later image replaces
/// the kept one only when it ranks above it, so ties keep the earlier one.
pub open spec fn largest_of(images: Seq<ImageView>) -> Option<ImageView>
    decreases images.len(),
{
    if images.len() == 0 {
        None
    } else {
        match largest_of(images.drop_last()) {
            None => Some(images.last()),
            Some(best) => if ranks_above(images.last(), best) {
                Some(images.last())
            } else {
                Some(best)
            },
        }
    }
}

impl ImageReferenceView {
    /// The images referenced, in document order.
    pub open spec fn images(self) -> Seq<ImageView> {
        match self {
            ImageReferenceView::Url(u) => seq![image_from_url(u)],
            ImageReferenceView::Single(i) => seq![i],
            ImageReferenceView::List(l) => l,
        }
    }
}

/// The chosen image is one of the images.
pub proof fn lemma_largest_of(images: Seq<ImageView>)
    requires
        images.len() > 0,
    ensures
        largest_of(images) is Some,
        images.contains(largest_of(images)->0),
    decreases images.len(),
{
    if images.len() > 1 {
        lemma_largest_of(images.drop_last());
        let best = largest_of(images.drop_last())->0;
        let k = choose|k: int| 0 <= k < images.drop_last().len() && images.drop_last()[k] == best;
        assert(images[k] == best);
    } else {
        assert(images.drop_last().len() == 0);
        assert(images[0] == images.last());
    }
}

/// When every image gives its width, the chosen image is one of the widest.
pub proof fn lemma_largest_is_widest(images: Seq<ImageView>)
    requires
        images.len() > 0,
        forall|i: int| 0 <= i < images.len() ==> (#[trigger] images[i]).width is Some,
    ensures
        largest_of(images) is Some,
        largest_of(images)->0.width is Some,
        forall|i: int| 0 <= i < images.len() ==> (#[trigger] images[i]).width->0 <= largest_of(images)->0.width->0,
    decreases images.len(),
{
    if images.len() > 1 {
        let init = images.drop_last();
        assert forall|i: int| 0 <= i < init.len() implies (#[trigger] init[i]).width is Some by {
            assert(init[i] == images[i]);
        }
        lemma_largest_is_widest(init);
        assert(images.last() == images[images.len() - 1]);
        assert forall|i: int| 0 <= i < images.len() implies (#[trigger] images[i]).width->0 <= largest_of(
            images,
        )->0.width->0 by {
            if i < init.len() {
                assert(init[i] == images[i]);
            }
        }
    } else {
        assert(images.drop_last().len() == 0);
        assert(largest_of(images.drop_last()) is None);
        assert(images[0] == images.last());
    }
}

pub open spec fn spec_decode_image(j: JsonView) -> Option<ImageView> {
    if j is Object {
        Some(
            ImageView {
                url: read_url(j.get_present("url"@)),
                summary: match read_string(j.get_present("summary"@)) {
                    Some(s) => Some(s),
                    None => read_string(j.get_present("name"@)),
                },
                media_type: match read_string(j.get_present("media_type"@)) {
                    Some(s) => Some(s),
                    None => read_string(j.get_present("mediaType"@)),
                },
                sensitive: read_bool(j.get_present("sensitive"@)),
                width: read_u32(j.get_present("width"@)),
                height: read_u32(j.get_present("height"@)),
            },
        )
    } else {
        None
    }
}

pub open spec fn image_decoder() -> spec_fn(JsonView) -> Option<ImageView> {
    |j: JsonView| spec_decode_image(j)
}

/// An image reference is a URL, else one image, else a list of images.
pub open spec fn spec_decode_image_reference(j: JsonView) -> Option<ImageReferenceView> {
    match j {
        JsonView::Str(s) => match read_url(Some(j)) {
            Some(u) => Some(ImageReferenceView::Url(u)),
            None => None,
        },
        JsonView::Object(_) => match spec_decode_image(j) {
            Some(i) => Some(ImageReferenceView::Single(i)),
            None => None,
        },
        JsonView::Array(items) => match decode_each(items, image_decoder()) {
            Some(l) => Some(ImageReferenceView::List(l)),
            None => None,
        },
        _ => None,
    }
}

pub open spec fn read_image_reference(j: Option<JsonView>) -> Option<ImageReferenceView> {
    match j {
        Some(v) => spec_decode_image_reference(v),
        None => None,
    }
}

pub open spec fn image_entries(i: ImageView) -> Seq<(Seq<char>, JsonView)> {
    seq![
        ("url"@, url_or_null(i.url)),
        ("summary"@, string_or_null(i.summary)),
        ("media_type"@, string_or_null(i.media_type)),
        ("sensitive"@, bool_or_null(i.sensitive)),
        ("width"@, u32_or_null(i.width)),
        ("height"@, u32_or_null(i.height)),
    ]
}

pub open spec fn spec_encode_image(i: ImageView) -> JsonView {
    JsonView::Object(image_entries(i))
}

pub open spec fn spec_encode_image_reference(r: ImageReferenceView) -> JsonView {
    match r {
        ImageReferenceView::Url(u) => JsonView::Str(u.href),
        ImageReferenceView::Single(i) => spec_encode_image(i),
        ImageReferenceView::List(l) => JsonView::Array(l.map_values(|i: ImageView| spec_encode_image(i))),
    }
}

pub open spec fn image_reference_or_null(r: Option<ImageReferenceView>) -> JsonView {
    match r {
        Some(v) => spec_encode_image_reference(v),
        None => JsonView::Null,
    }
}

impl Image {
    /// An image known only by the URL of its data.
    pub fn from_url(url: Url) -> (r: Self)
        ensures
            r@ == image_from_url(url@),
    {
        Image { url: Some(url), summary: None, media_type: None, sensitive: None, width: None, height: None }
    }

    pub fn copy_image(&self) -> (r: Image)
        ensures
            r@ == self@,
    {
        Image {
            url: match &self.url {
                Some(u) => Some(u.copy_url()),
                None => None,
            },
            summary: clone_opt_string(&self.summary),
            media_type: clone_opt_string(&self.media_type),
            sensitive: self.sensitive,
            width: self.width,
            height: self.height,
        }
    }

    pub fn decode(j: &JsonValue) -> (r: Option<Image>)
        ensures
            opt_view(r) == spec_decode_image(j@),
    {
        match j {
            JsonValue::Object(_) => {},
            _ => { return None; },
        }
        let summary = match field_string(j, "summary") {
            Some(s) => Some(s),
            None => field_string(j, "name"),
        };
        let media_type = match field_string(j, "media_type") {
            Some(s) => Some(s),
            None => field_string(j, "mediaType"),
        };
        Some(
            Image {
                url: field_url(j, "url"),
                summary,
                media_type,
                sensitive: field_bool(j, "sensitive"),
                width: field_u32(j, "width"),
                height: field_u32(j, "height"),
            },
        )
    }

    pub fn to_json(&self) -> (r: JsonValue)
        ensures
            r@ == spec_encode_image(self@),
    {
        let mut out: Vec<(String, JsonValue)> = Vec::new();
        proof {
            assert(entries_of(out) =~= Seq::empty());
        }
        push_entry(&mut out, "url", url_json(&self.url));
        push_entry(&mut out, "summary", string_json(&self.summary));
        push_entry(&mut out, "media_type", string_json(&self.media_type));
        push_entry(&mut out, "sensitive", bool_json(self.sensitive));
        push_entry(&mut out, "width", u32_json(self.width));
        push_entry(&mut out, "height", u32_json(self.height));
        proof {
            assert(entries_of(out) =~= image_entries(self@));
        }
        JsonValue::Object(out)
    }
}

fn image_ranks_above(a: &Image, b: &Image) -> (r: bool)
    ensures
        r == ranks_above(a@, b@),
{
    match (a.width, b.width) {
        (Some(aw), Some(bw)) => { return aw > bw; },
        _ => {},
    }
    match (a.height, b.height) {
        (Some(ah), Some(bh)) => ah > bh,
        _ => false,
    }
}

impl ImageReference {
    pub fn decode(j: &JsonValue) -> (r: Option<ImageReference>)
        ensures
            opt_view(r) == spec_decode_image_reference(j@),
    {
        match j {
            JsonValue::Str(s) => match Url::parse(s.as_str()) {
                Some(u) => Some(ImageReference::Url(u)),
                None => None,
            },
            JsonValue::Object(_) => match Image::decode(j) {
                Some(i) => Some(ImageReference::Single(i)),
                None => None,
            },
            JsonValue::Array(items) => {
                let ghost views = items_of(*items);
                proof {
                    lemma_seq_view(items@, items@.len() as int);
                }
                let mut out: Vec<Image> = Vec::new();
                let mut i: usize = 0;
                while i < items.len()
                    invariant
                        j@ == JsonView::Array(views),
                        i <= items@.len(),
                        out@.len() == i,
                        views.len() == items@.len(),
                        forall|k: int| 0 <= k < items@.len() ==> #[trigger] views[k] == items@[k]@,
                        forall|k: int| 0 <= k < i ==> image_decoder()(#[trigger] views[k]) == Some(out@[k]@),
                    decreases items@.len() - i,
                {
                    match Image::decode(&items[i]) {
                        Some(x) => out.push(x),
                        None => {
                            proof {
                                lemma_decode_each(views, image_decoder());
                                assert(image_decoder()(views[i as int]) is None);
                            }
                            return None;
                        },
                    }
                    i = i + 1;
                }
                proof {
                    crate::json::lemma_decode_each_values(views, image_decoder(), vec_view(out));
                }
                Some(ImageReference::List(out))
            },
            _ => None,
        }
    }

    pub fn to_json(&self) -> (r: JsonValue)
        ensures
            r@ == spec_encode_image_reference(self@),
    {
        match self {
            ImageReference::Url(u) => JsonValue::Str(u.as_str().to_owned()),
            ImageReference::Single(i) => i.to_json(),
            ImageReference::List(l) => {
                let ghost target = vec_view(*l).map_values(|x: ImageView| spec_encode_image(x));
                let mut out: Vec<JsonValue> = Vec::new();
                let mut i: usize = 0;
                proof {
                    assert(items_of(out) =~= target.take(0));
                }
                while i < l.len()
                    invariant
                        i <= l@.len(),
                        target == vec_view(*l).map_values(|x: ImageView| spec_encode_image(x)),
                        items_of(out) == target.take(i as int),
                    decreases l@.len() - i,
                {
                    push_item(&mut out, l[i].to_json());
                    proof {
                        assert(target.take(i + 1) =~= target.take(i as int).push(target[i as int]));
                    }
                    i = i + 1;
                }
                proof {
                    assert(target.take(l@.len() as int) =~= target);
                }
                JsonValue::Array(out)
            },
        }
    }

    /// Consumes the reference and returns its images in document order.
    pub fn to_vec(self) -> (r: Vec<Image>)
        ensures
            vec_view(r) == self@.images(),
    {
        match self {
            ImageReference::Single(icon) => {
                let r = vec![icon];
                assert(vec_view(r) =~= self@.images());
                r
            },
            ImageReference::List(icons) => icons,
            ImageReference::Url(url) => {
                let r = vec![Image::from_url(url)];
                assert(vec_view(r) =~= self@.images());
                r
            },
        }
    }

    /// The largest image of the reference: the first image that no later
    /// image ranks above (see [`ranks_above`]); `None` when there is none.
    /// Images without dimensions tie, so the first of them is kept.
    pub fn get_largest_image(self) -> (r: Option<Image>)
        ensures
            opt_view(r) == largest_of(self@.images()),
            r is Some <==> self@.images().len() > 0,
    {
        let images = self.to_vec();
        let ghost all = vec_view(images);
        if images.len() == 0 {
            return None;
        }
        let mut best: usize = 0;
        let mut i: usize = 1;
        proof {
            assert(all.take(1).drop_last() =~= Seq::<ImageView>::empty());
            assert(largest_of(all.take(1).drop_last()) is None);
            assert(all.take(1).last() == all[0]);
        }
        while i < images.len()
            invariant
                all == vec_view(images),
                1 <= i <= images@.len(),
                best < i,
                largest_of(all.take(i as int)) == Some(all[best as int]),
            decreases images@.len() - i,
        {
            proof {
                assert(all.take(i + 1).drop_last() =~= all.take(i as int));
            }
            if image_ranks_above(&images[i], &images[best]) {
                best = i;
            }
            i = i + 1;
        }
        proof {
            assert(all.take(images@.len() as int) =~= all);
        }
        Some(images[best].copy_image())
    }
}

/// Looking up each property of an encoded image finds its entry.
pub proof fn lemma_image_lookups(entries: Seq<(Seq<char>, JsonView)>)
    requires
        entries.len() == 6,
        entries[0].0 == "url"@,
        entries[1].0 == "summary"@,
        entries[2].0 == "media_type"@,
        entries[3].0 == "sensitive"@,
        entries[4].0 == "width"@,
        entries[5].0 == "height"@,
    ensures
        JsonView::Object(entries).get("url"@) == Some(entries[0].1),
        JsonView::Object(entries).get("summary"@) == Some(entries[1].1),
        JsonView::Object(entries).get("media_type"@) == Some(entries[2].1),
        JsonView::Object(entries).get("sensitive"@) == Some(entries[3].1),
        JsonView::Object(entries).get("width"@) == Some(entries[4].1),
        JsonView::Object(entries).get("height"@) == Some(entries[5].1),
        JsonView::Object(entries).get("name"@) is None,
        JsonView::Object(entries).get("mediaType"@) is None,
{
    reveal_strlit("height");
    reveal_strlit("mediaType");
    reveal_strlit("media_type");
    reveal_strlit("name");
    reveal_strlit("sensitive");
    reveal_strlit("summary");
    reveal_strlit("url");
    reveal_strlit("width");
    crate::json::lemma_field_of_index(entries, "url"@, 0);
    assert forall|j: int| 0 <= j < 1 implies entries[j].0 != "summary"@ by {
        if j == 0 {
            assert("summary"@.len() != "url"@.len());
        }
    }
    crate::json::lemma_field_of_index(entries, "summary"@, 1);
    assert forall|j: int| 0 <= j < 2 implies entries[j].0 != "media_type"@ by {
        if j == 0 {
            assert("media_type"@.len() != "url"@.len());
        } else if j == 1 {
            assert("media_type"@.len() != "summary"@.len());
        }
    }
    crate::json::lemma_field_of_index(entries, "media_type"@, 2);
    assert forall|j: int| 0 <= j < 3 implies entries[j].0 != "sensitive"@ by {
        if j == 0 {
            assert("sensitive"@.len() != "url"@.len());
        } else if j == 1 {
            assert("sensitive"@.len() != "summary"@.len());
        } else if j == 2 {
            assert("sensitive"@.len() != "media_type"@.len());
        }
    }
    crate::json::lemma_field_of_index(entries, "sensitive"@, 3);
    assert forall|j: int| 0 <= j < 4 implies entries[j].0 != "width"@ by {
        if j == 0 {
            assert("width"@.len() != "url"@.len());
        } else if j == 1 {
            assert("width"@.len() != "summary"@.len());
        } else if j == 2 {
            assert("width"@.len() != "media_type"@.len());
        } else if j == 3 {
            assert("width"@.len() != "sensitive"@.len());
        }
    }
    crate::json::lemma_field_of_index(entries, "width"@, 4);
    assert forall|j: int| 0 <= j < 5 implies entries[j].0 != "height"@ by {
        if j == 0 {
            assert("height"@.len() != "url"@.len());
        } else if j == 1 {
            assert("height"@.len() != "summary"@.len());
        } else if j == 2 {
            assert("height"@.len() != "media_type"@.len());
        } else if j == 3 {
            assert("height"@.len() != "sensitive"@.len());
        } else if j == 4 {
            assert("height"@.len() != "width"@.len());
        }
    }
    crate::json::lemma_field_of_index(entries, "height"@, 5);
    assert forall|j: int| 0 <= j < 6 implies #[trigger] entries[j].0 != "name"@ by {
        if j == 0 {
            assert("name"@.len() != "url"@.len());
        } else if j == 1 {
            assert("name"@.len() != "summary"@.len());
        } else if j == 2 {
            assert("name"@.len() != "media_type"@.len());
        } else if j == 3 {
            assert("name"@.len() != "sensitive"@.len());
        } else if j == 4 {
            assert("name"@.len() != "width"@.len());
        } else if j == 5 {
            assert("name"@.len() != "height"@.len());
        }
    }
    crate::json::lemma_absent_lookup(entries, "name"@);
    assert forall|j: int| 0 <= j < 6 implies #[trigger] entries[j].0 != "mediaType"@ by {
        if j == 0 {
            assert("mediaType"@.len() != "url"@.len());
        } else if j == 1 {
            assert("mediaType"@.len() != "summary"@.len());
        } else if j == 2 {
            assert("mediaType"@.len() != "media_type"@.len());
        } else if j == 3 {
            assert("mediaType"@[0] != "sensitive"@[0]);
        } else if j == 4 {
            assert("mediaType"@.len() != "width"@.len());
        } else if j == 5 {
            assert("mediaType"@.len() != "height"@.len());
        }
    }
    crate::json::lemma_absent_lookup(entries, "mediaType"@);
}

impl ImageView {
    pub open spec fn canonical(self) -> bool {
        self.url matches Some(u) ==> u.wf()
    }
}

impl ImageReferenceView {
    pub open spec fn canonical(self) -> bool {
        match self {
            ImageReferenceView::Url(u) => u.wf(),
            ImageReferenceView::Single(i) => i.canonical(),
            ImageReferenceView::List(l) => forall|i: int| 0 <= i < l.len() ==> (#[trigger] l[i]).canonical(),
        }
    }
}

/// Decoding an encoded image gives it back.
pub proof fn lemma_image_round_trip(i: ImageView)
    requires
        i.canonical(),
    ensures
        spec_decode_image(spec_encode_image(i)) == Some(i),
{
    lemma_image_lookups(image_entries(i));
}

/// Decoding an encoded image reference gives it back, whichever its shape.
pub proof fn lemma_image_reference_round_trip(r: ImageReferenceView)
    requires
        r.canonical(),
    ensures
        spec_decode_image_reference(spec_encode_image_reference(r)) == Some(r),
{
    match r {
        ImageReferenceView::Url(u) => {},
        ImageReferenceView::Single(i) => {
            lemma_image_round_trip(i);
        },
        ImageReferenceView::List(l) => {
            let items = l.map_values(|x: ImageView| spec_encode_image(x));
            assert forall|k: int| 0 <= k < items.len() implies image_decoder()(#[trigger] items[k]) == Some(l[k]) by {
                lemma_image_round_trip(l[k]);
            }
            crate::json::lemma_decode_each_values(items, image_decoder(), l);
        },
    }
}

/// Reading back an encoded optional image reference gives it back.
pub proof fn lemma_read_image_reference_round_trip(r: Option<ImageReferenceView>)
    requires
        r matches Some(v) ==> v.canonical(),
    ensures
        read_image_reference(
            if image_reference_or_null(r) is Null {
                None
            } else {
                Some(image_reference_or_null(r))
            },
        ) == r,
{
    if let Some(v) = r {
        lemma_image_reference_round_trip(v);
        match v {
            ImageReferenceView::Url(_) => {},
            ImageReferenceView::Single(_) => {},
            ImageReferenceView::List(_) => {},
        }
    }
}

} // verus!
