//! Listing the keys under a prefix: the pages of the store are gathered into
//! one result, or the whole listing fails.

use crate::error::{classify, Error, ErrorView, Fault, FaultView, fault_kind};
use vstd::prelude::*;
use vstd::string::StringExecFns;

verus! {

/// The number of keys asked of the store in one page.
pub const PAGE_SIZE: i32 = 50;

/// The key that stands for an entry that the store listed without one.
pub open spec fn placeholder_key() -> Seq<char> {
    "Unknown"@
}

/// The message of a listing that failed.
pub open spec fn list_failure_message() -> Seq<char> {
    "Unable to list objects"@
}

/// The key that an entry of a page is listed as.
pub open spec fn entry_key(entry: Option<Seq<char>>) -> Seq<char> {
    match entry {
        Some(key) => key,
        None => placeholder_key(),
    }
}

/// The keys of a page, in the page's order.
pub open spec fn page_keys(page: Seq<Option<Seq<char>>>) -> Seq<Seq<char>> {
    Seq::new(page.len(), |i: int| entry_key(page[i]))
}

/// What a listing fails with when the store fails a page with `fault`.
pub open spec fn list_failure(fault: FaultView) -> ErrorView {
    ErrorView { kind: fault_kind(fault), message: list_failure_message() }
}

/// The result of a listing whose pages came as `pages`, in this order: every
/// key of every page, or the failure of the first page that failed.
pub open spec fn listed(pages: Seq<Result<Seq<Option<Seq<char>>>, FaultView>>) -> Result<
    Seq<Seq<char>>,
    ErrorView,
>
    decreases pages.len(),
{
    if pages.len() == 0 {
        Ok(Seq::empty())
    } else {
        match pages[0] {
            Ok(page) => following(page_keys(page), listed(pages.drop_first())),
            Err(fault) => Err(list_failure(fault)),
        }
    }
}

/// The result `rest` of the pages that follow, behind the keys gathered so far.
pub open spec fn following(keys: Seq<Seq<char>>, rest: Result<Seq<Seq<char>>, ErrorView>) -> Result<
    Seq<Seq<char>>,
    ErrorView,
> {
    match rest {
        Ok(more) => Ok(keys + more),
        Err(error) => Err(error),
    }
}

/// The model of the answer of the store to the request for a page.
pub open spec fn page_view(page: Result<Vec<Option<String>>, Fault>) -> Result<
    Seq<Option<Seq<char>>>,
    FaultView,
> {
    match page {
        Ok(entries) => Ok(entries.deep_view()),
        Err(fault) => Err(fault@),
    }
}

/// The model of the answers of the store to the requests of one listing.
pub open spec fn pages_view(pages: Seq<Result<Vec<Option<String>>, Fault>>) -> Seq<
    Result<Seq<Option<Seq<char>>>, FaultView>,
> {
    Seq::new(pages.len(), |i: int| page_view(pages[i]))
}

/// The model of the result of a listing.
pub open spec fn keys_outcome(r: Result<Vec<String>, Error>) -> Result<Seq<Seq<char>>, ErrorView> {
    match r {
        Ok(keys) => Ok(keys.deep_view()),
        Err(error) => Err(error@),
    }
}

/// What the store answered to the request for the next page.
#[derive(Debug)]
pub enum PageEvent {
    /// A page: the key of each entry, where the entry has one.
    Page(Vec<Option<String>>),
    /// The store failed the request.
    Failed(Fault),
    /// No page is left.
    Exhausted,
}

/// What a listing does after an event.
#[derive(Debug)]
pub enum ListStep {
    /// Ask the store for the next page.
    NextPage(Listing),
    /// Return this result, and ask for no more.
    Finished(Result<Vec<String>, Error>),
}

/// A listing in progress: the keys of the pages received so far.
#[derive(Debug)]
pub struct Listing {
    keys: Vec<String>,
}

impl View for Listing {
    type V = Seq<Seq<char>>;

    closed spec fn view(&self) -> Seq<Seq<char>> {
        self.keys.deep_view()
    }
}

impl Listing {
    /// A listing that has received no page.
    pub fn new() -> (listing: Listing)
        ensures
            listing@ == Seq::<Seq<char>>::empty(),
    {
        Listing { keys: Vec::new() }
    }

    /// Adds the keys of a page behind those already gathered. An entry
    /// without a key is listed under the placeholder.
    pub fn absorb(&mut self, page: &Vec<Option<String>>)
        ensures
            final(self)@ == old(self)@ + page_keys(page.deep_view()),
    {
        let mut i: usize = 0;
        while i < page.len()
            invariant
                i <= page.len(),
                self.keys.deep_view() == old(self).keys.deep_view() + page_keys(
                    page.deep_view(),
                ).take(i as int),
            decreases page.len() - i,
        {
            let ghost before = self.keys.deep_view();
            let key = match &page[i] {
                Some(key) => key.clone(),
                None => String::from_str("Unknown"),
            };
            self.keys.push(key);
            assert(self.keys.deep_view() =~= before.push(key@));
            i += 1;
        }
    }

    /// Ends the listing with the keys gathered.
    pub fn finish(self) -> (keys: Vec<String>)
        ensures
            keys.deep_view() == self@,
    {
        self.keys
    }

    /// Ends the listing with the failure of a page. The keys gathered so far
    /// are given up.
    pub fn fail(self, fault: &Fault) -> (error: Error)
        ensures
            error@ == list_failure(fault@),
    {
        Error { kind: classify(fault), message: String::from_str("Unable to list objects") }
    }

    /// Takes the store's answer to the request for the next page, and says
    /// what to do next.
    pub fn step(self, event: &PageEvent) -> (next: ListStep)
        ensures
            match *event {
                PageEvent::Page(page) => next matches ListStep::NextPage(listing) && listing@
                    == self@ + page_keys(page.deep_view()),
                PageEvent::Failed(fault) => next matches ListStep::Finished(Err(error)) && error@
                    == list_failure(fault@),
                PageEvent::Exhausted => next matches ListStep::Finished(Ok(keys))
                    && keys.deep_view() == self@,
            },
    {
        match event {
            PageEvent::Page(page) => {
                let mut listing = self;
                listing.absorb(page);
                ListStep::NextPage(listing)
            },
            PageEvent::Failed(fault) => ListStep::Finished(Err(self.fail(fault))),
            PageEvent::Exhausted => ListStep::Finished(Ok(self.finish())),
        }
    }
}

/// Gathers the pages of one listing, in the order in which the store gave
/// them, into its result: every key, or the failure of the first page that
/// failed and no key at all.
pub fn list_objects(pages: &Vec<Result<Vec<Option<String>>, Fault>>) -> (r: Result<
    Vec<String>,
    Error,
>)
    ensures
        keys_outcome(r) == listed(pages_view(pages@)),
{
    let mut listing = Listing::new();
    let mut i: usize = 0;
    let ghost all = pages_view(pages@);
    assert(all.skip(0) =~= all);
    while i < pages.len()
        invariant
            i <= pages.len(),
            all == pages_view(pages@),
            listed(all) == following(listing@, listed(all.skip(i as int))),
        decreases pages.len() - i,
    {
        let ghost rest = all.skip(i as int);
        assert(rest.drop_first() =~= all.skip(i + 1 as int));
        match &pages[i] {
            Ok(page) => {
                let ghost before = listing@;
                listing.absorb(page);
                let ghost more = listed(rest.drop_first())->Ok_0;
                assert(before + (page_keys(page.deep_view()) + more) =~= listing@ + more);
            },
            Err(fault) => {
                return Err(listing.fail(fault));
            },
        }
        i += 1;
    }
    Ok(listing.finish())
}

/// The answers of a store that fails no request and gives the keys in
/// `pages`, a key with every entry.
pub open spec fn delivered(pages: Seq<Seq<Seq<char>>>) -> Seq<
    Result<Seq<Option<Seq<char>>>, FaultView>,
> {
    Seq::new(
        pages.len(),
        |i: int| Ok(Seq::new(pages[i].len(), |j: int| Some(pages[i][j]))),
    )
}

/// Pagination does not show in a listing: however the store cuts its keys
/// into pages, the listing returns exactly these keys, each as often and in
/// the order in which the store gave it.
pub proof fn lemma_pagination_is_transparent(pages: Seq<Seq<Seq<char>>>)
    ensures
        listed(delivered(pages)) == Ok::<Seq<Seq<char>>, ErrorView>(pages.flatten()),
    decreases pages.len(),
{
    if pages.len() > 0 {
        let answers = delivered(pages);
        lemma_pagination_is_transparent(pages.drop_first());
        assert(answers.drop_first() =~= delivered(pages.drop_first()));
        assert(page_keys(answers[0]->Ok_0) =~= pages[0]);
    }
}

/// Two ways of cutting the same keys into pages give the same listing.
pub proof fn lemma_page_boundaries_do_not_matter(
    first: Seq<Seq<Seq<char>>>,
    second: Seq<Seq<Seq<char>>>,
)
    requires
        first.flatten() == second.flatten(),
    ensures
        listed(delivered(first)) == listed(delivered(second)),
{
    lemma_pagination_is_transparent(first);
    lemma_pagination_is_transparent(second);
}

/// A listing is all or nothing: it fails exactly when the store failed one of
/// its pages, and then returns no key.
pub proof fn lemma_listing_is_all_or_nothing(
    pages: Seq<Result<Seq<Option<Seq<char>>>, FaultView>>,
)
    ensures
        listed(pages) is Err <==> exists|i: int| 0 <= i < pages.len() && pages[i] is Err,
    decreases pages.len(),
{
    if pages.len() > 0 {
        let rest = pages.drop_first();
        lemma_listing_is_all_or_nothing(rest);
        if exists|i: int| 0 <= i < pages.len() && pages[i] is Err {
            let i = choose|i: int| 0 <= i < pages.len() && pages[i] is Err;
            if i > 0 {
                assert(rest[i - 1] is Err);
            }
        }
    }
}

} // verus!
