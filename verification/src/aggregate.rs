//! The catalog aggregator: per-source fetch outcomes merge into one
//! catalog.
//!
//! One fetch is issued per configured source.  Failures stay contained at
//! the smallest boundary: a source whose request failed, whose response
//! carried a non-success status, or whose body did not decode simply
//! contributes zero addons — it never aborts the aggregation and never
//! hides another source's contribution.  The merged catalog concatenates
//! the successful sources' addons in the fixed declared source order,
//! never in fetch-completion order, so the result is fully determined by
//! the outcomes themselves.

use vstd::prelude::*;

use crate::decode::addons_from_raws;
use crate::decode::spec_addons_of_raws;
use crate::model::Catalog;
use crate::model::CatalogAddon;
use crate::model::CatalogAddonView;
use crate::model::RawAddon;
use crate::model::RawAddonView;
use crate::model::Source;

verus! {

/// Ghost content of a [`FetchOutcome`].
#[verifier::ext_equal]
pub ghost enum FetchOutcomeView {
    Failure,
    Response { status: u16, addons: Option<Seq<RawAddonView>> },
}

/// How one source's fetch ended.
pub enum FetchOutcome {
    /// The request itself failed — network error or timeout — and no
    /// response was seen.
    Failure,
    /// A response arrived with this status code; `addons` holds the
    /// decoded body, or nothing when the body was not a well-formed
    /// payload.
    Response { status: u16, addons: Option<Vec<RawAddon>> },
}

impl View for FetchOutcome {
    type V = FetchOutcomeView;

    open spec fn view(&self) -> FetchOutcomeView {
        match self {
            FetchOutcome::Failure => FetchOutcomeView::Failure,
            FetchOutcome::Response { status, addons } => FetchOutcomeView::Response {
                status: *status,
                addons: match addons {
                    Some(raws) => Some(raws.deep_view()),
                    None => None,
                },
            },
        }
    }
}

impl DeepView for FetchOutcome {
    type V = FetchOutcomeView;

    open spec fn deep_view(&self) -> FetchOutcomeView {
        self.view()
    }
}

/// Ghost content of a [`SourceFetch`].
#[verifier::ext_equal]
pub ghost struct SourceFetchView {
    pub source: Source,
    pub outcome: FetchOutcomeView,
}

/// One configured source paired with how its fetch ended.
pub struct SourceFetch {
    pub source: Source,
    pub outcome: FetchOutcome,
}

impl View for SourceFetch {
    type V = SourceFetchView;

    open spec fn view(&self) -> SourceFetchView {
        SourceFetchView { source: self.source, outcome: self.outcome@ }
    }
}

impl DeepView for SourceFetch {
    type V = SourceFetchView;

    open spec fn deep_view(&self) -> SourceFetchView {
        self.view()
    }
}

/// The fixed catalog endpoint each provider publishes at.
pub open spec fn spec_catalog_url(source: Source) -> Seq<char> {
    match source {
        Source::Curse => "https://github.com/casperstorm/ajour-catalog/releases/latest/download/curse.json"@,
        Source::Tukui => "https://github.com/casperstorm/ajour-catalog/releases/latest/download/tukui.json"@,
        Source::WowI => "https://github.com/casperstorm/ajour-catalog/releases/latest/download/wowi.json"@,
    }
}

/// The fixed catalog endpoint of a provider.
pub fn catalog_url(source: Source) -> (r: &'static str)
    ensures
        r@ == spec_catalog_url(source),
{
    match source {
        Source::Curse => "https://github.com/casperstorm/ajour-catalog/releases/latest/download/curse.json",
        Source::Tukui => "https://github.com/casperstorm/ajour-catalog/releases/latest/download/tukui.json",
        Source::WowI => "https://github.com/casperstorm/ajour-catalog/releases/latest/download/wowi.json",
    }
}

/// The declared source order: Curse, then Tukui, then WowInterface.
/// Contributions are always concatenated in this order, whatever order
/// the fetches finish in.
pub fn declared_sources() -> (r: Vec<Source>)
    ensures
        r@ == seq![Source::Curse, Source::Tukui, Source::WowI],
{
    let mut v: Vec<Source> = Vec::new();
    v.push(Source::Curse);
    v.push(Source::Tukui);
    v.push(Source::WowI);
    proof {
        assert(v@ =~= seq![Source::Curse, Source::Tukui, Source::WowI]);
    }
    v
}

/// Whether a status code counts as success: the 2xx range.
pub open spec fn spec_is_success(status: u16) -> bool {
    200 <= status < 300
}

/// Whether a source's fetch contributes its addons: a response arrived,
/// its status was a success, its body decoded, and every record of the
/// payload passed validation.
pub open spec fn spec_fetch_succeeded(f: SourceFetchView) -> bool {
    match f.outcome {
        FetchOutcomeView::Failure => false,
        FetchOutcomeView::Response { status, addons } => spec_is_success(status) && match addons {
            Some(raws) => spec_addons_of_raws(raws, f.source) is Some,
            None => false,
        },
    }
}

/// The addons one source contributes to the merged catalog: its decoded,
/// normalized records when everything succeeded, and nothing at all
/// otherwise.
pub open spec fn spec_contribution(f: SourceFetchView) -> Seq<CatalogAddonView> {
    match f.outcome {
        FetchOutcomeView::Failure => Seq::empty(),
        FetchOutcomeView::Response { status, addons } => if spec_is_success(status) {
            match addons {
                Some(raws) => match spec_addons_of_raws(raws, f.source) {
                    Some(decoded) => decoded,
                    None => Seq::empty(),
                },
                None => Seq::empty(),
            }
        } else {
            Seq::empty()
        },
    }
}

/// The merged catalog: each source's contribution concatenated in the
/// order the sources are listed — the declared order, not the order
/// their fetches happened to finish in.
pub open spec fn spec_assemble(fs: Seq<SourceFetchView>) -> Seq<CatalogAddonView>
    decreases fs.len(),
{
    if fs.len() == 0 {
        Seq::empty()
    } else {
        spec_contribution(fs[0]) + spec_assemble(fs.drop_first())
    }
}

/// Appending one more outcome extends the merged sequence by exactly that
/// outcome's contribution.
proof fn lemma_assemble_push(fs: Seq<SourceFetchView>, f: SourceFetchView)
    ensures
        spec_assemble(fs.push(f)) == spec_assemble(fs) + spec_contribution(f),
    decreases fs.len(),
{
    if fs.len() == 0 {
        let s1 = fs.push(f);
        assert(s1.len() == 1);
        assert(s1[0] == f);
        assert(s1.drop_first() =~= Seq::<SourceFetchView>::empty());
        assert(spec_assemble(Seq::<SourceFetchView>::empty()) == Seq::<
            CatalogAddonView,
        >::empty());
        assert(spec_assemble(s1) == spec_contribution(f) + Seq::<CatalogAddonView>::empty());
        assert(spec_assemble(fs) == Seq::<CatalogAddonView>::empty());
        assert(spec_contribution(f) + Seq::<CatalogAddonView>::empty() =~= spec_contribution(f));
        assert(spec_assemble(fs) + spec_contribution(f) =~= spec_contribution(f));
    } else {
        assert(fs.push(f).drop_first() =~= fs.drop_first().push(f));
        lemma_assemble_push(fs.drop_first(), f);
        assert(spec_assemble(fs.push(f)) == spec_contribution(fs[0]) + (spec_assemble(
            fs.drop_first(),
        ) + spec_contribution(f)));
        assert(spec_contribution(fs[0]) + (spec_assemble(fs.drop_first()) + spec_contribution(f))
            =~= (spec_contribution(fs[0]) + spec_assemble(fs.drop_first())) + spec_contribution(
            f,
        ));
    }
}

/// Whether a status code counts as success.
pub fn is_success_status(status: u16) -> (r: bool)
    ensures
        r == spec_is_success(status),
{
    200 <= status && status < 300
}

/// Merges per-source fetch outcomes into one catalog, exactly as
/// [`spec_assemble`] describes.
///
/// Always returns a catalog: sources that failed (or whose payload was
/// rejected) contribute zero addons, and when every source failed the
/// catalog is simply empty.  The addon order is the concatenation of the
/// given (declared) source order, each source's internal order preserved.
pub fn assemble_catalog(fetches: &Vec<SourceFetch>) -> (c: Catalog)
    ensures
        c@ == spec_assemble(fetches.deep_view()),
{
    let mut merged: Vec<CatalogAddon> = Vec::new();
    let mut i: usize = 0;
    proof {
        assert(fetches.deep_view().take(0) =~= Seq::<SourceFetchView>::empty());
        assert(merged.deep_view() =~= spec_assemble(fetches.deep_view().take(0)));
    }
    while i < fetches.len()
        invariant
            0 <= i <= fetches.len(),
            merged.deep_view() == spec_assemble(fetches.deep_view().take(i as int)),
        decreases fetches.len() - i,
    {
        let f = &fetches[i];
        match &f.outcome {
            FetchOutcome::Failure => {},
            FetchOutcome::Response { status, addons } => {
                if is_success_status(*status) {
                    if let Some(raws) = addons {
                        match addons_from_raws(raws, f.source) {
                            Some(mut decoded) => {
                                merged.append(&mut decoded);
                            },
                            None => {},
                        }
                    }
                }
            },
        }
        proof {
            let pre = fetches.deep_view().take(i as int);
            assert(fetches.deep_view().take(i + 1) =~= pre.push(fetches.deep_view()[i as int]));
            lemma_assemble_push(pre, fetches.deep_view()[i as int]);
            assert(merged.deep_view() =~= spec_assemble(fetches.deep_view().take(i + 1)));
        }
        i = i + 1;
    }
    proof {
        assert(fetches.deep_view().take(fetches.len() as int) =~= fetches.deep_view());
    }
    Catalog { addons: merged }
}

/// A source whose fetch or decode failed contributes nothing: its
/// failure is invisible in the merged catalog.
pub proof fn lemma_failed_source_contributes_nothing(f: SourceFetchView)
    requires
        !spec_fetch_succeeded(f),
    ensures
        spec_contribution(f) == Seq::<CatalogAddonView>::empty(),
{
}

/// When every source fails, the merged catalog is empty — an empty
/// catalog, not an error.
pub proof fn lemma_all_sources_failed_empty_catalog(fs: Seq<SourceFetchView>)
    requires
        forall|i: int| 0 <= i < fs.len() ==> !spec_fetch_succeeded(#[trigger] fs[i]),
    ensures
        spec_assemble(fs) == Seq::<CatalogAddonView>::empty(),
    decreases fs.len(),
{
    if fs.len() > 0 {
        assert(!spec_fetch_succeeded(fs[0]));
        lemma_failed_source_contributes_nothing(fs[0]);
        assert(forall|i: int|
            0 <= i < fs.drop_first().len() ==> !spec_fetch_succeeded(
                #[trigger] fs.drop_first()[i],
            ));
        lemma_all_sources_failed_empty_catalog(fs.drop_first());
        assert(spec_contribution(fs[0]) + spec_assemble(fs.drop_first()) =~= Seq::<
            CatalogAddonView,
        >::empty());
    }
}

/// The outcomes whose sources actually contribute: the succeeded ones,
/// in their declared order.
pub open spec fn spec_succeeded_only(fs: Seq<SourceFetchView>) -> Seq<SourceFetchView> {
    fs.filter(|f: SourceFetchView| spec_fetch_succeeded(f))
}

/// Failed sources are invisible: merging all outcomes gives exactly the
/// catalog of the succeeded sources' addons, still in declared order.
pub proof fn lemma_failed_sources_are_invisible(fs: Seq<SourceFetchView>)
    ensures
        spec_assemble(fs) == spec_assemble(spec_succeeded_only(fs)),
    decreases fs.len(),
{
    reveal(Seq::filter);
    if fs.len() > 0 {
        let init = fs.drop_last();
        let last = fs.last();
        lemma_failed_sources_are_invisible(init);
        assert(fs =~= init.push(last));
        lemma_assemble_push(init, last);
        assert(spec_assemble(fs) == spec_assemble(init) + spec_contribution(last));
        if spec_fetch_succeeded(last) {
            assert(spec_succeeded_only(fs) == spec_succeeded_only(init).push(last));
            lemma_assemble_push(spec_succeeded_only(init), last);
        } else {
            lemma_failed_source_contributes_nothing(last);
            assert(spec_succeeded_only(fs) == spec_succeeded_only(init));
            assert(spec_assemble(init) + Seq::<CatalogAddonView>::empty() =~= spec_assemble(
                init,
            ));
        }
    }
}

/// Aggregation is order-stable and deterministic: identical fetch
/// outcomes merge to identical catalogs, however the underlying requests
/// were scheduled.
pub proof fn lemma_assemble_deterministic(a: Seq<SourceFetchView>, b: Seq<SourceFetchView>)
    requires
        a == b,
    ensures
        spec_assemble(a) == spec_assemble(b),
{
}

} // verus!
