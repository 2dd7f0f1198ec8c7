use vstd::prelude::*;
use crate::error::OperationError;
use crate::operator::RemoteCall;

verus! {

/// The key that a listing records for one entry of a page: the entry's key, or
/// `"Unknown"` for an entry that came without one.
pub open spec fn entry_key(entry: Option<String>) -> Seq<char> {
    match entry {
        Some(key) => key@,
        None => "Unknown"@,
    }
}

/// The keys that a listing records for one page, in the page's order.
pub open spec fn page_keys(page: Seq<Option<String>>) -> Seq<Seq<char>> {
    page.map_values(|entry: Option<String>| entry_key(entry))
}

/// The keys that a listing records for a run of pages, page after page.
pub open spec fn listed(pages: Seq<Seq<Option<String>>>) -> Seq<Seq<char>>
    decreases pages.len(),
{
    if pages.len() == 0 {
        Seq::empty()
    } else {
        listed(pages.drop_last()) + page_keys(pages.last())
    }
}

/// The characters of each listed key.
pub open spec fn keys_view(keys: Seq<String>) -> Seq<Seq<char>> {
    keys.map_values(|key: String| key@)
}

/// What one poll of the listing's page stream gave.
pub enum ListEvent {
    /// A page, with the key of each entry (`None` where an entry carried none).
    Page(Vec<Option<String>>),
    /// The request for the next page failed, with the transport's message.
    Failed(String),
    /// No page is left.
    Exhausted,
}

/// What to do after an event: poll for the next page, or finish with this result.
pub enum ListStep {
    Continue(Listing),
    Done(Result<Vec<String>, OperationError>),
}

/// A listing of a bucket's keys in progress: the keys of the pages received so far.
pub struct Listing {
    keys: Vec<String>,
    pages: Ghost<Seq<Seq<Option<String>>>>,
}

impl View for Listing {
    type V = Seq<Seq<char>>;

    closed spec fn view(&self) -> Seq<Seq<char>> {
        keys_view(self.keys@)
    }
}

impl Listing {
    /// The pages received so far, in order.
    pub closed spec fn received(&self) -> Seq<Seq<Option<String>>> {
        self.pages@
    }

    /// The keys gathered are those that the pages received list.
    #[verifier::type_invariant]
    spec fn gathered_from_received(&self) -> bool {
        keys_view(self.keys@) == listed(self.pages@)
    }

    /// A listing that has received no page yet.
    pub fn new() -> (r: Self)
        ensures
            r.received() == Seq::<Seq<Option<String>>>::empty(),
            r@ == Seq::<Seq<char>>::empty(),
    {
        let keys: Vec<String> = Vec::new();
        assert(keys_view(keys@) =~= Seq::<Seq<char>>::empty());
        Listing { keys, pages: Ghost(Seq::empty()) }
    }

    /// Takes in what the page stream gave. A page is received and appends its keys in order;
    /// a failure ends the listing with that failure, dropping the keys gathered; the end of
    /// the stream ends it with the keys of every page received.
    pub fn step(self, event: ListEvent) -> (r: ListStep)
        ensures
            match event {
                ListEvent::Page(page) => {
                    &&& r is Continue
                    &&& r->Continue_0.received() == self.received().push(page@)
                    &&& r->Continue_0@ == self@ + page_keys(page@)
                },
                ListEvent::Failed(message) => r == ListStep::Done(
                    Err(RemoteCall::ListObjectsV2.failure(message)),
                ),
                ListEvent::Exhausted => {
                    &&& r is Done
                    &&& r->Done_0 is Ok
                    &&& keys_view(r->Done_0->Ok_0@) == listed(self.received())
                    &&& keys_view(r->Done_0->Ok_0@) == self@
                },
            },
    {
        proof {
            use_type_invariant(&self);
        }
        match event {
            ListEvent::Page(page) => ListStep::Continue(self.append_page(&page)),
            ListEvent::Failed(message) => ListStep::Done(
                Err(OperationError::AWSSdkS3ListObjectsV2Error(message)),
            ),
            ListEvent::Exhausted => ListStep::Done(Ok(self.keys)),
        }
    }

    fn append_page(self, page: &Vec<Option<String>>) -> (r: Self)
        ensures
            r.received() == self.received().push(page@),
            r@ == self@ + page_keys(page@),
    {
        proof {
            use_type_invariant(&self);
        }
        let Listing { keys, pages } = self;
        let ghost start = keys@;
        let mut keys = keys;
        let mut i: usize = 0;
        while i < page.len()
            invariant
                i <= page.len(),
                keys_view(keys@) == keys_view(start) + page_keys(page@.subrange(0, i as int)),
            decreases page.len() - i,
        {
            let key = match &page[i] {
                Some(key) => key.clone(),
                None => "Unknown".to_owned(),
            };
            proof {
                assert(key@ == entry_key(page@[i as int]));
                assert(page@.subrange(0, i + 1) =~= page@.subrange(0, i as int).push(page@[i as int]));
                assert(page_keys(page@.subrange(0, i + 1)) =~= page_keys(page@.subrange(0, i as int)).push(key@));
            }
            let ghost before = keys@;
            keys.push(key);
            assert(keys_view(keys@) =~= keys_view(before).push(key@));
            i = i + 1;
        }
        let ghost received = pages@.push(page@);
        proof {
            assert(page@.subrange(0, page@.len() as int) =~= page@);
            assert(received.drop_last() =~= pages@);
        }
        Listing { keys, pages: Ghost(received) }
    }
}

proof fn page_keys_distributes(a: Seq<Option<String>>, b: Seq<Option<String>>)
    ensures
        page_keys(a + b) == page_keys(a) + page_keys(b),
{
    assert(page_keys(a + b) =~= page_keys(a) + page_keys(b));
}

/// A listing does not depend on where the service split the entries into pages: after any
/// run of pages it holds the keys of all their entries, in order.
pub proof fn listing_ignores_page_boundaries(pages: Seq<Seq<Option<String>>>)
    ensures
        listed(pages) == page_keys(pages.flatten()),
    decreases pages.len(),
{
    pages.lemma_flatten_and_flatten_alt_are_equivalent();
    if pages.len() == 0 {
        assert(page_keys(pages.flatten()) =~= Seq::<Seq<char>>::empty());
    } else {
        listing_ignores_page_boundaries(pages.drop_last());
        pages.drop_last().lemma_flatten_and_flatten_alt_are_equivalent();
        page_keys_distributes(pages.drop_last().flatten_alt(), pages.last());
    }
}

/// When the pages hold, across all of them, entries for the distinct keys `keys` and
/// nothing else, the listing holds each of those keys exactly once, in that order.
pub proof fn distinct_keys_listed_once(pages: Seq<Seq<Option<String>>>, keys: Seq<Seq<char>>)
    requires
        keys.no_duplicates(),
        pages.flatten().len() == keys.len(),
        forall|i: int|
            0 <= i < keys.len() ==> #[trigger] pages.flatten()[i] is Some
                && pages.flatten()[i]->Some_0@ == keys[i],
    ensures
        listed(pages) == keys,
        listed(pages).no_duplicates(),
{
    listing_ignores_page_boundaries(pages);
    assert(page_keys(pages.flatten()) =~= keys);
}

} // verus!
