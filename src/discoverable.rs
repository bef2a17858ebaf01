//! The verdict on whether an actor or a content item may be indexed.
use vstd::prelude::*;

verus! {

/// Why indexing is allowed.
pub enum AllowReason {
    /// `discoverable` is `true`.
    Discoverable,
    /// `indexable` is `true`.
    Indexable,
    /// The `fedineko:index` property is `allow`.
    FedinekoProperty,
    /// `searchableBy` holds the public address or the indexer's own public
    /// address; the address found is kept.
    SearchableBy(String),
    /// Nothing denies indexing, so it is assumed to be allowed.
    Assumed,
}

/// Why indexing is denied.
#[derive(Debug, PartialEq, Eq, Structural, Clone, Copy)]
pub enum DenyReason {
    /// `discoverable` is `false`, or declared and not set.
    Discoverable,
    /// `indexable` is `false`, or declared and not set.
    Indexable,
    /// The `fedineko:index` property has a value other than `allow`.
    FedinekoProperty,
    /// There is an explicit opt-out request.
    OptedOut,
    /// The account is banned.
    Ban,
    /// Denied unless something opts in.
    Default,
}

/// Whether indexing is allowed, and why.
pub enum Discoverable {
    Allowed(AllowReason),
    Denied(DenyReason),
}

pub enum AllowReasonView {
    Discoverable,
    Indexable,
    FedinekoProperty,
    SearchableBy(Seq<char>),
    Assumed,
}

pub enum DiscoverableView {
    Allowed(AllowReasonView),
    Denied(DenyReason),
}

impl View for AllowReason {
    type V = AllowReasonView;

    open spec fn view(&self) -> AllowReasonView {
        match self {
            AllowReason::Discoverable => AllowReasonView::Discoverable,
            AllowReason::Indexable => AllowReasonView::Indexable,
            AllowReason::FedinekoProperty => AllowReasonView::FedinekoProperty,
            AllowReason::SearchableBy(s) => AllowReasonView::SearchableBy(s@),
            AllowReason::Assumed => AllowReasonView::Assumed,
        }
    }
}

impl View for Discoverable {
    type V = DiscoverableView;

    open spec fn view(&self) -> DiscoverableView {
        match self {
            Discoverable::Allowed(a) => DiscoverableView::Allowed(a@),
            Discoverable::Denied(d) => DiscoverableView::Denied(*d),
        }
    }
}

impl Discoverable {
    /// Returns `true` if indexing is allowed, whatever the reason.
    pub fn is_allowed_indexing(&self) -> (r: bool)
        ensures
            r == (self@ is Allowed),
    {
        matches!(self, Self::Allowed(_))
    }
}

} // verus!
