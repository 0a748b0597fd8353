//! The paginated walk through a registry's catalog.
//!
//! A crawl asks for one page after another, each request naming the last
//! repository seen so far, and ends with the page that is shorter than the
//! page size. With page size zero it asks once, for whatever the registry
//! serves by default. The requests themselves are made by the caller: a
//! crawl says what to ask next and takes what came back.

use vstd::prelude::*;
use vstd::string::*;
use crate::decode::repos_of;
use crate::json::{parse_json, parsed_json};
use crate::model::Repos;
use crate::text::{decimal, decimal_string};

verus! {

/// The address of one catalog page: the page size is named unless it is
/// zero, the cursor unless it is empty.
pub open spec fn catalog_url_of(registry: Seq<char>, page_size: nat, last: Seq<char>) -> Seq<
    char,
> {
    let base = registry + "/_catalog"@;
    if page_size == 0 {
        if last.len() == 0 {
            base
        } else {
            base + "?last="@ + last
        }
    } else {
        if last.len() == 0 {
            base + "?n="@ + decimal(page_size)
        } else {
            base + "?n="@ + decimal(page_size) + "&last="@ + last
        }
    }
}

/// Builds the address of one catalog page.
pub fn catalog_url(registry: &str, page_size: usize, last: &str) -> (r: String)
    ensures
        r@ == catalog_url_of(registry@, page_size as nat, last@),
{
    let mut url = String::from_str(registry);
    url.append("/_catalog");
    if page_size != 0 {
        let n = decimal_string(page_size);
        url.append("?n=");
        url.append(n.as_str());
        if !last.is_empty() {
            url.append("&last=");
            url.append(last);
        }
    } else if !last.is_empty() {
        url.append("?last=");
        url.append(last);
    }
    url
}

/// The cursor after a run of names: the last of them, or the empty text.
pub open spec fn cursor_of(names: Seq<Seq<char>>) -> Seq<char> {
    if names.len() == 0 {
        Seq::empty()
    } else {
        names.last()
    }
}

/// Whether a page of this length ends a crawl with this page size.
pub open spec fn is_last_page(page_size: nat, page_len: nat) -> bool {
    page_size == 0 || page_len < page_size
}

/// A crawl under way: the page size it asks for and the names it has.
#[derive(Debug)]
pub struct Crawl {
    page_size: usize,
    names: Vec<String>,
}

/// A crawl as a value: its page size and the names it has, in order.
pub ghost struct CrawlView {
    pub page_size: nat,
    pub names: Seq<Seq<char>>,
}

impl View for Crawl {
    type V = CrawlView;

    closed spec fn view(&self) -> CrawlView {
        CrawlView { page_size: self.page_size as nat, names: self.names.deep_view() }
    }
}

/// What a crawl does after a page: ask again, or hand over the catalog.
#[derive(Debug)]
pub enum CrawlStep {
    /// The page was full: the crawl goes on.
    Fetch(Crawl),
    /// The page was the last: the whole catalog, to be stored in one piece.
    Publish(Vec<String>),
}

/// A step of a crawl as a value.
pub ghost enum CrawlStepView {
    Fetch(CrawlView),
    Publish(Seq<Seq<char>>),
}

impl View for CrawlStep {
    type V = CrawlStepView;

    open spec fn view(&self) -> CrawlStepView {
        match self {
            CrawlStep::Fetch(c) => CrawlStepView::Fetch(c@),
            CrawlStep::Publish(names) => CrawlStepView::Publish(names.deep_view()),
        }
    }
}

/// The step after a page: its names are added, and the crawl ends if the
/// page was the last.
pub open spec fn absorbed(crawl: CrawlView, page: Seq<Seq<char>>) -> CrawlStepView {
    let names = crawl.names + page;
    if is_last_page(crawl.page_size, page.len()) {
        CrawlStepView::Publish(names)
    } else {
        CrawlStepView::Fetch(CrawlView { page_size: crawl.page_size, names })
    }
}

/// Why a crawl was given up. Nothing is published then.
#[derive(Debug)]
pub enum CrawlError {
    /// The request failed; the text says how.
    Request(String),
    /// The answer is not a catalog page.
    Decode,
}

/// A crawl error as a value.
pub ghost enum CrawlErrorView {
    Request(Seq<char>),
    Decode,
}

impl View for CrawlError {
    type V = CrawlErrorView;

    open spec fn view(&self) -> CrawlErrorView {
        match self {
            CrawlError::Request(why) => CrawlErrorView::Request(why@),
            CrawlError::Decode => CrawlErrorView::Decode,
        }
    }
}

impl CrawlError {
    /// The words that the error is reported with.
    pub open spec fn message_of(self) -> Seq<char> {
        match self {
            CrawlError::Request(why) => "Failed to request docker directory: "@ + why@,
            CrawlError::Decode => "Failed to parse docker directory response"@,
        }
    }

    /// Reports the error in words.
    pub fn message(&self) -> (r: String)
        ensures
            r@ == self.message_of(),
    {
        match self {
            CrawlError::Request(why) => {
                let mut text = String::from_str("Failed to request docker directory: ");
                text.append(why.as_str());
                text
            },
            CrawlError::Decode => String::from_str("Failed to parse docker directory response"),
        }
    }
}

/// What came of one request.
#[derive(Debug)]
pub enum FetchOutcome {
    /// The body of the answer.
    Body(String),
    /// The request failed; the text says how.
    Failed(String),
}

/// The view of what `advance` answers.
pub open spec fn advance_view(r: Result<CrawlStep, CrawlError>) -> Result<
    CrawlStepView,
    CrawlErrorView,
> {
    match r {
        Ok(step) => Ok(step@),
        Err(e) => Err(e@),
    }
}

/// The step that a catalog page in text form leads to.
pub open spec fn advanced(crawl: CrawlView, outcome: FetchOutcome) -> Result<
    CrawlStepView,
    CrawlErrorView,
> {
    match outcome {
        FetchOutcome::Failed(why) => Err(CrawlErrorView::Request(why@)),
        FetchOutcome::Body(text) => match parsed_json(text@) {
            None => Err(CrawlErrorView::Decode),
            Some(doc) => match repos_of(doc) {
                None => Err(CrawlErrorView::Decode),
                Some(page) => Ok(absorbed(crawl, page.repositories)),
            },
        },
    }
}

impl Crawl {
    /// A crawl that has asked for nothing yet.
    pub fn new(page_size: usize) -> (r: Crawl)
        ensures
            r@ == (CrawlView { page_size: page_size as nat, names: Seq::empty() }),
    {
        let r = Crawl { page_size, names: Vec::new() };
        assert(r.names.deep_view() =~= Seq::empty());
        r
    }

    /// The number of names gathered so far.
    pub fn len(&self) -> (r: usize)
        ensures
            r == self@.names.len(),
    {
        self.names.len()
    }

    /// The cursor of the next request.
    pub fn cursor(&self) -> (r: &str)
        ensures
            r@ == cursor_of(self@.names),
    {
        let n = self.names.len();
        if n == 0 {
            let r = "";
            proof {
                reveal_strlit("");
                assert(r@ =~= Seq::empty());
            }
            r
        } else {
            self.names[n - 1].as_str()
        }
    }

    /// The address to ask next.
    pub fn request(&self, registry: &str) -> (r: String)
        ensures
            r@ == catalog_url_of(registry@, self@.page_size, cursor_of(self@.names)),
    {
        catalog_url(registry, self.page_size, self.cursor())
    }

    /// Takes the names of the page that the last request brought.
    pub fn absorb(self, page: Vec<String>) -> (r: CrawlStep)
        ensures
            r@ == absorbed(self@, page.deep_view()),
    {
        let ghost before = self.names.deep_view();
        let ghost added = page.deep_view();
        let page_len = page.len();
        let page_size = self.page_size;
        let mut names = self.names;
        let mut page = page;
        names.append(&mut page);
        assert(names.deep_view() =~= before + added);
        if page_size == 0 || page_len < page_size {
            CrawlStep::Publish(names)
        } else {
            CrawlStep::Fetch(Crawl { page_size, names })
        }
    }

    /// Takes what came of the last request. A failed request and an answer
    /// that is no catalog page both end the crawl with an error.
    pub fn advance(self, outcome: FetchOutcome) -> (r: Result<CrawlStep, CrawlError>)
        ensures
            advance_view(r) == advanced(self@, outcome),
    {
        match outcome {
            FetchOutcome::Failed(why) => Err(CrawlError::Request(why)),
            FetchOutcome::Body(text) => match parse_json(text.as_str()) {
                None => Err(CrawlError::Decode),
                Some(doc) => match Repos::from_json(&doc) {
                    None => Err(CrawlError::Decode),
                    Some(page) => Ok(self.absorb(page.repositories)),
                },
            },
        }
    }
}

/// What a registry that holds `catalog` answers to a request: the names
/// that follow the cursor, at most `page_size` of them, or all of them
/// where the page size is zero.
pub open spec fn served(catalog: Seq<Seq<char>>, page_size: nat, last: Seq<char>) -> Seq<
    Seq<char>,
> {
    let start = if last.len() == 0 {
        0
    } else if catalog.contains(last) {
        catalog.index_of(last) + 1
    } else {
        catalog.len() as int
    };
    let end = if page_size == 0 || start + page_size > catalog.len() {
        catalog.len() as int
    } else {
        start + page_size
    };
    catalog.subrange(start, end)
}

/// The catalog that a crawl hands over when each of its requests is
/// answered by a registry that holds `catalog`; `None` where it has not
/// ended after `rounds` requests.
pub open spec fn crawl_outcome(catalog: Seq<Seq<char>>, crawl: CrawlView, rounds: nat) -> Option<
    Seq<Seq<char>>,
>
    decreases rounds,
{
    if rounds == 0 {
        None
    } else {
        match absorbed(crawl, served(catalog, crawl.page_size, cursor_of(crawl.names))) {
            CrawlStepView::Publish(names) => Some(names),
            CrawlStepView::Fetch(next) => crawl_outcome(catalog, next, (rounds - 1) as nat),
        }
    }
}

/// A catalog names each repository once, and no name is empty.
pub open spec fn is_catalog(catalog: Seq<Seq<char>>) -> bool {
    &&& catalog.no_duplicates()
    &&& forall|i: int| 0 <= i < catalog.len() ==> (#[trigger] catalog[i]).len() > 0
}

proof fn lemma_crawl_from(catalog: Seq<Seq<char>>, page_size: nat, done: nat)
    requires
        is_catalog(catalog),
        page_size >= 1,
        done <= catalog.len(),
    ensures
        crawl_outcome(
            catalog,
            CrawlView { page_size, names: catalog.take(done as int) },
            ((catalog.len() - done) / (page_size as int) + 1) as nat,
        ) == Some(catalog),
    decreases catalog.len() - done,
{
    let crawl = CrawlView { page_size, names: catalog.take(done as int) };
    let left = catalog.len() - done;
    let rounds = (left / (page_size as int) + 1) as nat;
    let last = cursor_of(crawl.names);
    assert(left / (page_size as int) >= 0) by (nonlinear_arith)
        requires
            left >= 0,
            page_size >= 1,
    ;
    if done > 0 {
        assert(last == catalog[done - 1]);
        assert(catalog.contains(last));
        assert(catalog.index_of(last) == done - 1);
    }
    let page = served(catalog, page_size, last);
    if left < page_size {
        assert(page == catalog.subrange(done as int, catalog.len() as int));
        assert(crawl.names + page =~= catalog);
    } else {
        assert(page == catalog.subrange(done as int, (done + page_size) as int));
        assert(crawl.names + page =~= catalog.take((done + page_size) as int));
        assert(left / (page_size as int) == (left - page_size) / (page_size as int) + 1)
            by (nonlinear_arith)
            requires
                left >= page_size,
                page_size >= 1,
        ;
        lemma_crawl_from(catalog, page_size, done + page_size);
    }
}

/// A crawl against a registry whose catalog does not change ends, and hands
/// over the whole catalog: after one request more than the number of full
/// pages in the catalog, or after its only request where the page size is
/// zero.
pub proof fn lemma_crawl_collects_catalog(catalog: Seq<Seq<char>>, page_size: nat)
    requires
        is_catalog(catalog),
    ensures
        crawl_outcome(
            catalog,
            CrawlView { page_size, names: Seq::empty() },
            if page_size == 0 {
                1
            } else {
                catalog.len() / page_size + 1
            },
        ) == Some(catalog),
{
    assert(catalog.take(0) =~= Seq::<Seq<char>>::empty());
    if page_size == 0 {
        let crawl = CrawlView { page_size, names: Seq::<Seq<char>>::empty() };
        let page = served(catalog, page_size, cursor_of(crawl.names));
        assert(page =~= catalog);
        assert(crawl.names + page =~= catalog);
        assert(crawl_outcome(catalog, crawl, 1) == Some(catalog));
    } else {
        lemma_crawl_from(catalog, page_size, 0);
    }
}

} // verus!
