//! A last-resort guess, from the path of a bare URL, of what it points to.
//! It is unreliable by nature and confirms nothing about the object.
use vstd::prelude::*;
use crate::actor::ActorReadableId;
use crate::text::opt_view;
use crate::url::{Url, UrlView};

verus! {

#[verifier::external_type_specification]
#[verifier::external_body]
pub struct ExRegex(regex::Regex);

/// The pattern compiles as a case-insensitive regular expression.
pub uninterp spec fn regex_compiles(pattern: Seq<char>) -> bool;

/// The case-insensitive regular expression `pattern` matches somewhere in
/// `text`.
pub uninterp spec fn regex_matches(pattern: Seq<char>, text: Seq<char>) -> bool;

/// What the group named `group` took in the first match of the
/// case-insensitive regular expression `pattern` in `text`, if it matched and
/// the group took part.
pub uninterp spec fn regex_capture(pattern: Seq<char>, text: Seq<char>, group: Seq<char>) -> Option<Seq<char>>;

/// A compiled case-insensitive regular expression, with its source.
pub struct Pattern {
    source: String,
    compiled: regex::Regex,
}

impl Pattern {
    pub closed spec fn source(&self) -> Seq<char> {
        self.source@
    }
}

/// Relies on `regex::RegexBuilder::new`, `case_insensitive(true)` and
/// `build`: whether a pattern compiles depends on the pattern alone.
#[verifier::external_body]
fn compile_pattern(source: &str) -> (r: Option<Pattern>)
    ensures
        r is Some <==> regex_compiles(source@),
        r matches Some(p) ==> p.source() == source@,
{
    regex::RegexBuilder::new(source).case_insensitive(true).build().ok().map(
        |compiled| Pattern { source: source.to_string(), compiled },
    )
}

/// Relies on `regex::Regex::is_match` of the expression that
/// `compile_pattern` built from the pattern's source.
#[verifier::external_body]
fn pattern_is_match(p: &Pattern, text: &str) -> (r: bool)
    ensures
        r == regex_matches(p.source(), text@),
{
    p.compiled.is_match(text)
}

/// Relies on `regex::Regex::captures` and `Captures::name` of the expression
/// that `compile_pattern` built from the pattern's source.
#[verifier::external_body]
fn pattern_capture(p: &Pattern, text: &str, group: &str) -> (r: Option<String>)
    ensures
        opt_view(r) == regex_capture(p.source(), text@, group@),
{
    p.compiled.captures(text).and_then(|c| c.name(group).map(|m| m.as_str().to_string()))
}

/// Known path shapes of actor URLs. The `user` group takes the account name,
/// which is often, though not always, the actual user name.
pub open spec fn actor_pattern_sources() -> Seq<Seq<char>> {
    seq![r"^/(users|u)/(?P<user>[^/]+)$"@, r"^/profile/(?P<user>[^/]+)$"@, r"^/ap/users/(?P<user>\d+)$"@]
}

/// Known path shapes of content URLs: Mastodon, Misskey, Pixelfed, Lemmy,
/// Soapbox and threads.net conventions, in this order.
pub open spec fn content_pattern_sources() -> Seq<Seq<char>> {
    seq![
        r"^/users/[^/]+/statuses/\d+$"@,
        r"^/notes/.+$"@,
        r"^/p/([^/]+)/\d+$"@,
        r"^/post/\d+$"@,
        r"^/(notice|objects)/[^/]+$"@,
        r"^/ap/users/\d+/post/\d+/?$"@,
    ]
}

/// What a URL is guessed to point to.
#[allow(non_camel_case_types)]
#[derive(Debug, PartialEq, Eq, Structural, Clone, Copy)]
pub enum GuessedType {
    /// An actor.
    ACTOR,
    /// A content item.
    CONTENT,
    /// No guess can be made.
    UNKNOWN,
}

/// Some pattern of `sources` matches `path`.
pub open spec fn any_matches(sources: Seq<Seq<char>>, path: Seq<char>) -> bool {
    exists|i: int| 0 <= i < sources.len() && #[trigger] regex_matches(sources[i], path)
}

/// The `user` group of the first pattern of `sources` that gives one.
pub open spec fn first_user(sources: Seq<Seq<char>>, path: Seq<char>) -> Option<Seq<char>>
    decreases sources.len(),
{
    if sources.len() == 0 {
        None
    } else {
        match regex_capture(sources[0], path, "user"@) {
            Some(u) => Some(u),
            None => first_user(sources.drop_first(), path),
        }
    }
}

pub open spec fn spec_guess_object_type(path: Seq<char>) -> GuessedType {
    if path.len() == 0 {
        GuessedType::UNKNOWN
    } else if any_matches(actor_pattern_sources(), path) {
        GuessedType::ACTOR
    } else if any_matches(content_pattern_sources(), path) {
        GuessedType::CONTENT
    } else {
        GuessedType::UNKNOWN
    }
}

pub open spec fn spec_username(url: UrlView) -> Option<Seq<char>> {
    if url.path.len() == 0 {
        None
    } else {
        first_user(actor_pattern_sources(), url.path)
    }
}

/// The compiled patterns, built once and then only read.
pub struct UrlClassifier {
    actor_patterns: Vec<Pattern>,
    content_patterns: Vec<Pattern>,
}

pub open spec fn sources_of(v: Seq<Pattern>) -> Seq<Seq<char>> {
    v.map_values(|p: Pattern| p.source())
}

impl UrlClassifier {
    /// The classifier holds the known patterns, in order.
    pub closed spec fn wf(&self) -> bool {
        sources_of(self.actor_patterns@) == actor_pattern_sources() && sources_of(self.content_patterns@)
            == content_pattern_sources()
    }

    /// Compiles the known patterns; `None` when one of them does not compile.
    pub fn new() -> (r: Option<UrlClassifier>)
        ensures
            r is Some <==> (forall|i: int| 0 <= i < actor_pattern_sources().len() ==> #[trigger] regex_compiles(actor_pattern_sources()[i]))
                && (forall|i: int| 0 <= i < content_pattern_sources().len() ==> #[trigger] regex_compiles(content_pattern_sources()[i])),
            r matches Some(c) ==> c.wf(),
    {
        let actor_sources: [&str; 3] = [
            r"^/(users|u)/(?P<user>[^/]+)$",
            r"^/profile/(?P<user>[^/]+)$",
            r"^/ap/users/(?P<user>\d+)$",
        ];
        let content_sources: [&str; 6] = [
            r"^/users/[^/]+/statuses/\d+$",
            r"^/notes/.+$",
            r"^/p/([^/]+)/\d+$",
            r"^/post/\d+$",
            r"^/(notice|objects)/[^/]+$",
            r"^/ap/users/\d+/post/\d+/?$",
        ];
        proof {
            assert(actor_sources@.map_values(|s: &str| s@) =~= actor_pattern_sources());
            assert(content_sources@.map_values(|s: &str| s@) =~= content_pattern_sources());
        }
        let actor_patterns = match compile_all(&actor_sources) {
            Some(v) => v,
            None => { return None; },
        };
        let content_patterns = match compile_all(&content_sources) {
            Some(v) => v,
            None => { return None; },
        };
        Some(UrlClassifier { actor_patterns, content_patterns })
    }
}

fn compile_all(sources: &[&str]) -> (r: Option<Vec<Pattern>>)
    ensures
        r is Some <==> forall|i: int| 0 <= i < sources@.len() ==> #[trigger] regex_compiles(sources@[i]@),
        r matches Some(v) ==> sources_of(v@) == sources@.map_values(|s: &str| s@),
{
    let mut out: Vec<Pattern> = Vec::new();
    let mut i: usize = 0;
    while i < sources.len()
        invariant
            i <= sources@.len(),
            out@.len() == i,
            forall|k: int| 0 <= k < i ==> #[trigger] regex_compiles(sources@[k]@),
            forall|k: int| 0 <= k < i ==> (#[trigger] out@[k]).source() == sources@[k]@,
        decreases sources@.len() - i,
    {
        match compile_pattern(sources[i]) {
            Some(p) => out.push(p),
            None => { return None; },
        }
        i = i + 1;
    }
    assert(sources_of(out@) =~= sources@.map_values(|s: &str| s@));
    Some(out)
}

fn matches_any(patterns: &Vec<Pattern>, path: &str) -> (r: bool)
    ensures
        r == any_matches(sources_of(patterns@), path@),
{
    let ghost sources = sources_of(patterns@);
    let mut i: usize = 0;
    while i < patterns.len()
        invariant
            sources == sources_of(patterns@),
            i <= patterns@.len(),
            forall|k: int| 0 <= k < i ==> !#[trigger] regex_matches(sources[k], path@),
        decreases patterns@.len() - i,
    {
        if pattern_is_match(&patterns[i], path) {
            assert(regex_matches(sources[i as int], path@));
            return true;
        }
        i = i + 1;
    }
    false
}

/// Matches `url` against the known actor URL shapes and returns the account
/// name that the first shape that gives one takes from its path.
pub fn extract_username_from_url(classifier: &UrlClassifier, url: &Url) -> (r: Option<String>)
    requires
        classifier.wf(),
    ensures
        opt_view(r) == spec_username(url@),
{
    let path = url.path();
    if path.unicode_len() == 0 {
        return None;
    }
    let ghost all = sources_of(classifier.actor_patterns@);
    proof {
        assert(all =~= actor_pattern_sources());
        assert(all.subrange(0, all.len() as int) =~= all);
    }
    let mut i: usize = 0;
    while i < classifier.actor_patterns.len()
        invariant
            all == sources_of(classifier.actor_patterns@),
            all == actor_pattern_sources(),
            path@ == url@.path,
            path@.len() > 0,
            i <= classifier.actor_patterns@.len(),
            first_user(all, path@) == first_user(all.subrange(i as int, all.len() as int), path@),
        decreases classifier.actor_patterns@.len() - i,
    {
        let ghost rest = all.subrange(i as int, all.len() as int);
        assert(rest.drop_first() =~= all.subrange(i + 1, all.len() as int));
        assert(rest[0] == all[i as int]);
        match pattern_capture(&classifier.actor_patterns[i], path, "user") {
            Some(u) => { return Some(u); },
            None => {},
        }
        i = i + 1;
    }
    None
}

/// Like [`extract_username_from_url`], paired with the host of `url`.
pub fn extract_actor_readable_id_from_url(classifier: &UrlClassifier, url: &Url) -> (r: Option<ActorReadableId>)
    requires
        classifier.wf(),
    ensures
        match (spec_username(url@), url@.host) {
            (Some(u), Some(h)) => r matches Some(id) && id.username@ == u && id.server@ == h,
            _ => r is None,
        },
{
    if let Some(username) = extract_username_from_url(classifier, url) {
        if let Some(host) = url.host() {
            return Some(ActorReadableId { server: host.clone(), username });
        }
    }
    None
}

/// Guesses from the path of `url` whether it points to an actor or to a
/// content item: actor shapes are tried first, then content shapes.
pub fn guess_object_type_from_url(classifier: &UrlClassifier, url: &Url) -> (r: GuessedType)
    requires
        classifier.wf(),
    ensures
        r == spec_guess_object_type(url@.path),
{
    let path = url.path();
    if path.unicode_len() == 0 {
        return GuessedType::UNKNOWN;
    }
    if matches_any(&classifier.actor_patterns, path) {
        return GuessedType::ACTOR;
    }
    if matches_any(&classifier.content_patterns, path) {
        return GuessedType::CONTENT;
    }
    GuessedType::UNKNOWN
}

} // verus!
