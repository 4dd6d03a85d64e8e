//! The search for the installed version: each install location is asked in turn,
//! and the first one that answers decides.
//!
//! The search stops at the first location whose lookup could not be run, and fails
//! with that cause: the locations after it are not asked.

use vstd::prelude::*;

use crate::error::Error;
use crate::error::ErrorView;
use crate::install::preference;
use crate::install::Webview2Install;
use crate::text::trimmed;
use crate::version::lossy_text;
use crate::version::version_in;
use crate::version::Version;

verus! {

/// What asking one install location gave.
#[derive(Debug, PartialEq, Eq)]
pub enum Lookup {
    /// The command ran and printed a version.
    Found(Version),
    /// The command ran, and failed or printed nothing: no runtime is installed here.
    Missing,
    /// The command could not be run; the text says why.
    Failed(String),
}

/// A [`Lookup`] with its texts as sequences of characters.
pub enum LookupView {
    Found(Seq<char>),
    Missing,
    Failed(Seq<char>),
}

impl View for Lookup {
    type V = LookupView;

    open spec fn view(&self) -> LookupView {
        match self {
            Lookup::Found(version) => LookupView::Found(version@),
            Lookup::Missing => LookupView::Missing,
            Lookup::Failed(cause) => LookupView::Failed(cause@),
        }
    }
}

/// The outcome of a lookup whose command ran, from whether it succeeded and the
/// text of its standard output.
pub open spec fn outcome_of(success: bool, output: Seq<char>) -> LookupView {
    match version_in(success, output) {
        Some(version) => LookupView::Found(version),
        None => LookupView::Missing,
    }
}

impl Lookup {
    /// The outcome of a lookup whose command ran, from whether it succeeded and
    /// the bytes of its standard output.
    pub fn ran(success: bool, stdout: &[u8]) -> (outcome: Lookup)
        ensures
            outcome@ == outcome_of(success, lossy_text(stdout@)),
    {
        Lookup::of(Version::from_output(success, stdout))
    }

    /// The outcome of a lookup whose command ran: found where it gave a version,
    /// missing where it gave none.
    pub fn of(version: Option<Version>) -> (outcome: Lookup)
        ensures
            outcome@ == match version {
                Some(v) => LookupView::Found(v@),
                None => LookupView::Missing,
            },
    {
        match version {
            Some(v) => Lookup::Found(v),
            None => Lookup::Missing,
        }
    }

    /// The outcome of a lookup whose command could not be run.
    pub fn not_run(cause: String) -> (outcome: Lookup)
        ensures
            outcome@ == LookupView::Failed(cause@),
    {
        Lookup::Failed(cause)
    }
}

/// Where the search stands.
#[derive(Debug, PartialEq, Eq)]
pub enum Search {
    /// This location is to be asked next.
    Ask(Webview2Install),
    /// The search is over: this version is installed.
    Found(Version),
    /// The search is over, without a version.
    Failed(Error),
}

/// A [`Search`] with its texts as sequences of characters.
pub enum SearchView {
    Ask(Webview2Install),
    Found(Seq<char>),
    Failed(ErrorView),
}

impl View for Search {
    type V = SearchView;

    open spec fn view(&self) -> SearchView {
        match self {
            Search::Ask(install) => SearchView::Ask(*install),
            Search::Found(version) => SearchView::Found(version@),
            Search::Failed(error) => SearchView::Failed(error@),
        }
    }
}

/// Where the search stands when the locations before position `at` were asked and
/// had nothing, and `outcomes` holds what each location asked so far gave.
pub open spec fn search_from(outcomes: Seq<LookupView>, at: int) -> SearchView
    decreases preference().len() - at,
{
    if at < 0 || at >= preference().len() {
        SearchView::Failed(ErrorView::NoInstallFound)
    } else if at >= outcomes.len() {
        SearchView::Ask(preference()[at])
    } else {
        match outcomes[at] {
            LookupView::Found(version) => SearchView::Found(version),
            LookupView::Failed(cause) => SearchView::Failed(ErrorView::LookupFailed(cause)),
            LookupView::Missing => search_from(outcomes, at + 1),
        }
    }
}

/// Where the search stands after the lookups that gave `outcomes`, the first of
/// them made at the first location, the second at the second, and so on.
pub open spec fn search(outcomes: Seq<LookupView>) -> SearchView {
    search_from(outcomes, 0)
}

/// The views of `outcomes`, in order.
pub open spec fn outcome_views(outcomes: Seq<Lookup>) -> Seq<LookupView> {
    outcomes.map_values(|outcome: Lookup| outcome@)
}

/// Finds the installed WebView2 version, one step at a time. `outcomes` holds what
/// the lookups made so far gave, in the order in which the locations are asked;
/// the result names the location to ask next, or ends the search.
///
/// The first location that has a version ends the search with it. A lookup that
/// could not be run ends it with `LookupFailed`. Once all four locations were asked
/// and had nothing, it ends with `NoInstallFound`.
pub fn webview2_version(outcomes: &Vec<Lookup>) -> (next: Search)
    ensures
        next@ == search(outcome_views(outcomes@)),
{
    let ghost views = outcome_views(outcomes@);
    let mut at: usize = 0;
    while at < 4 && at < outcomes.len()
        invariant
            at <= 4,
            views == outcome_views(outcomes@),
            search(views) == search_from(views, at as int),
        decreases 4 - at,
    {
        assert(views[at as int] == outcomes@[at as int]@);
        match &outcomes[at] {
            Lookup::Found(version) => {
                return Search::Found(version.clone());
            },
            Lookup::Failed(cause) => {
                return Search::Failed(Error::LookupFailed(cause.clone()));
            },
            Lookup::Missing => {},
        }
        at = at + 1;
    }
    match Webview2Install::nth(at) {
        Some(install) => Search::Ask(install),
        None => Search::Failed(Error::NoInstallFound),
    }
}

/// The first location that has a version decides: where the locations before
/// position `k` had nothing and the one at `k` had `version`, the search ends with
/// `version`, whatever the outcomes after `k` hold. Before that it asked the
/// locations up to `k` one by one, in order, and with the outcome at `k` it is over:
/// no location after `k` is asked.
pub proof fn lemma_first_found_decides(outcomes: Seq<LookupView>, k: int, version: Seq<char>)
    requires
        0 <= k < preference().len(),
        k < outcomes.len(),
        outcomes[k] == LookupView::Found(version),
        forall|j: int| 0 <= j < k ==> #[trigger] outcomes[j] == LookupView::Missing,
    ensures
        search(outcomes) == SearchView::Found(version),
        search(outcomes.take(k + 1)) == SearchView::Found(version),
        forall|n: int|
            0 <= n <= k ==> #[trigger] search(outcomes.take(n)) == SearchView::Ask(
                preference()[n],
            ),
{
    lemma_search_skips_missing(outcomes, k, 0);
    lemma_search_skips_missing(outcomes.take(k + 1), k, 0);
    assert forall|n: int| 0 <= n <= k implies #[trigger] search(outcomes.take(n))
        == SearchView::Ask(preference()[n]) by {
        lemma_search_skips_missing(outcomes.take(n), n, 0);
    }
}

/// Where no location has a version, the search fails with `NoInstallFound` and with
/// no other error: all four lookups ran, and each had nothing.
pub proof fn lemma_nothing_found(outcomes: Seq<LookupView>)
    requires
        outcomes.len() >= preference().len(),
        forall|j: int| 0 <= j < preference().len() ==> #[trigger] outcomes[j] == LookupView::Missing,
    ensures
        search(outcomes) == SearchView::Failed(ErrorView::NoInstallFound),
{
    lemma_search_skips_missing(outcomes, preference().len() as int, 0);
}

/// What a command gave when it ran: whether it succeeded, and the text of its
/// standard output.
pub type Output = (bool, Seq<char>);

/// Whether a command printed a version: it succeeded, and its output holds more
/// than white space.
pub open spec fn has_version(output: Output) -> bool {
    output.0 && trimmed(output.1).len() > 0
}

/// The outcomes of lookups whose commands ran, in order.
pub open spec fn outcomes_of(runs: Seq<Output>) -> Seq<LookupView> {
    runs.map_values(|output: Output| outcome_of(output.0, output.1))
}

/// The first location whose command prints a version decides, and the version is
/// its trimmed output. Where every lookup could be run and the one at position `k` is
/// the first that succeeded with more than white space in its output, the search
/// ends with that output, trimmed. It asked the locations up to `k` one by one, in
/// order, and with the run at `k` it is over: no location after `k` is asked,
/// whatever a lookup there would give.
pub proof fn lemma_first_version_wins(runs: Seq<Output>, k: int)
    requires
        0 <= k < preference().len(),
        k < runs.len(),
        has_version(runs[k]),
        forall|j: int| 0 <= j < k ==> !has_version(#[trigger] runs[j]),
    ensures
        search(outcomes_of(runs)) == SearchView::Found(trimmed(runs[k].1)),
        search(outcomes_of(runs.take(k + 1))) == SearchView::Found(trimmed(runs[k].1)),
        forall|n: int|
            0 <= n <= k ==> #[trigger] search(outcomes_of(runs.take(n))) == SearchView::Ask(
                preference()[n],
            ),
{
    let outcomes = outcomes_of(runs);
    let version = trimmed(runs[k].1);
    assert(outcomes[k] == outcome_of(runs[k].0, runs[k].1));
    assert forall|j: int| 0 <= j < k implies #[trigger] outcomes[j] == LookupView::Missing by {
        assert(outcomes[j] == outcome_of(runs[j].0, runs[j].1));
        assert(!has_version(runs[j]));
    }
    lemma_first_found_decides(outcomes, k, version);
    assert(outcomes_of(runs.take(k + 1)) =~= outcomes.take(k + 1));
    assert forall|n: int| 0 <= n <= k implies #[trigger] search(outcomes_of(runs.take(n)))
        == SearchView::Ask(preference()[n]) by {
        assert(outcomes_of(runs.take(n)) =~= outcomes.take(n));
        assert(search(outcomes.take(n)) == SearchView::Ask(preference()[n]));
    }
}

/// Where every location was asked, every lookup could be run, and none printed a
/// version, the search fails with `NoInstallFound`, and with no other error.
pub proof fn lemma_no_version_anywhere(runs: Seq<Output>)
    requires
        runs.len() >= preference().len(),
        forall|j: int| 0 <= j < preference().len() ==> !has_version(#[trigger] runs[j]),
    ensures
        search(outcomes_of(runs)) == SearchView::Failed(ErrorView::NoInstallFound),
{
    let outcomes = outcomes_of(runs);
    assert forall|j: int| 0 <= j < preference().len() implies #[trigger] outcomes[j]
        == LookupView::Missing by {
        assert(outcomes[j] == outcome_of(runs[j].0, runs[j].1));
        assert(!has_version(runs[j]));
    }
    lemma_nothing_found(outcomes);
}

/// A lookup that could not be run ends the search at once: where the locations
/// before position `k` had nothing and the lookup at `k` failed with `cause`, the
/// search fails with `LookupFailed` and that cause.
pub proof fn lemma_failed_lookup_ends(outcomes: Seq<LookupView>, k: int, cause: Seq<char>)
    requires
        0 <= k < preference().len(),
        k < outcomes.len(),
        outcomes[k] == LookupView::Failed(cause),
        forall|j: int| 0 <= j < k ==> #[trigger] outcomes[j] == LookupView::Missing,
    ensures
        search(outcomes) == SearchView::Failed(ErrorView::LookupFailed(cause)),
{
    lemma_search_skips_missing(outcomes, k, 0);
}

/// The search is over exactly when it does not ask: it asks location `n` exactly
/// when `n` lookups were made, fewer than there are locations, and all had nothing.
pub proof fn lemma_asks_in_order(outcomes: Seq<LookupView>, install: Webview2Install)
    requires
        search(outcomes) == SearchView::Ask(install),
    ensures
        outcomes.len() < preference().len(),
        install == preference()[outcomes.len() as int],
        forall|j: int| 0 <= j < outcomes.len() ==> #[trigger] outcomes[j] == LookupView::Missing,
{
    lemma_ask_from(outcomes, install, 0);
}

proof fn lemma_search_skips_missing(outcomes: Seq<LookupView>, k: int, at: int)
    requires
        0 <= at <= k <= preference().len(),
        forall|j: int| 0 <= j < k && j < outcomes.len() ==> #[trigger] outcomes[j]
            == LookupView::Missing,
        k <= outcomes.len(),
    ensures
        search_from(outcomes, at) == search_from(outcomes, k),
    decreases k - at,
{
    if at < k {
        assert(outcomes[at] == LookupView::Missing);
        lemma_search_skips_missing(outcomes, k, at + 1);
    }
}

proof fn lemma_ask_from(outcomes: Seq<LookupView>, install: Webview2Install, at: int)
    requires
        0 <= at <= outcomes.len(),
        search_from(outcomes, at) == SearchView::Ask(install),
    ensures
        outcomes.len() < preference().len(),
        install == preference()[outcomes.len() as int],
        forall|j: int| at <= j < outcomes.len() ==> #[trigger] outcomes[j] == LookupView::Missing,
    decreases preference().len() - at,
{
    if at < preference().len() && at < outcomes.len() {
        lemma_ask_from(outcomes, install, at + 1);
    }
}

} // verus!
