//! Page windows over the cached catalog.
//!
//! Pages are numbered from one. The number of pages is the cardinality
//! divided by the page size, rounded down: names beyond the last full page
//! are not served. A page starts where the one before it ends.

use vstd::prelude::*;
use vstd::string::*;
use crate::text::{decimal, decimal_string, parse_decimal, read_decimal};

verus! {

/// The page size used where none is configured.
pub const DEFAULT_PAGE_SIZE: usize = 20;

/// The part of the sorted catalog that a page shows.
#[derive(Debug, Clone, Copy, PartialEq, Eq, Structural)]
pub struct PageWindow {
    /// How many names come before the page.
    pub offset: usize,
    /// How many names the page holds.
    pub limit: usize,
}

/// A page request that is out of range.
#[derive(Debug, Clone, Copy, PartialEq, Eq, Structural)]
pub struct PageError {
    /// The highest page number there is; zero where the page size is zero.
    pub max_page: usize,
    /// The page number asked for.
    pub page: usize,
}

/// The highest page number for a catalog of `card` names.
pub open spec fn max_page_of(card: nat, page_size: nat) -> nat {
    if page_size == 0 {
        0
    } else {
        card / page_size
    }
}

/// Whether there is such a page.
pub open spec fn page_exists(card: nat, page_number: nat, page_size: nat) -> bool {
    page_size >= 1 && 1 <= page_number <= max_page_of(card, page_size)
}

/// The window of a page, or the refusal of a page there is not.
pub open spec fn window_of(card: usize, page_number: usize, page_size: usize) -> Result<
    PageWindow,
    PageError,
> {
    if page_exists(card as nat, page_number as nat, page_size as nat) {
        Ok(PageWindow { offset: (page_size * (page_number - 1)) as usize, limit: page_size })
    } else {
        Err(PageError { max_page: max_page_of(card as nat, page_size as nat) as usize, page: page_number })
    }
}

/// Every page there is lies within the catalog.
pub proof fn lemma_window_within(card: nat, page_number: nat, page_size: nat)
    requires
        page_exists(card, page_number, page_size),
    ensures
        page_size * (page_number - 1) + page_size <= card,
{
    let m = card / page_size;
    assert(page_size * m <= card) by (nonlinear_arith)
        requires
            m == card / page_size,
            page_size >= 1,
    ;
    assert(page_size * (page_number - 1) + page_size <= page_size * m) by (nonlinear_arith)
        requires
            1 <= page_number <= m,
            page_size >= 1,
    ;
}

/// A page begins where the page before it ends.
pub proof fn lemma_windows_adjoin(card: usize, page_number: usize, page_size: usize)
    requires
        window_of(card, page_number, page_size) is Ok,
        page_number < usize::MAX,
        window_of(card, (page_number + 1) as usize, page_size) is Ok,
    ensures
        window_of(card, (page_number + 1) as usize, page_size).unwrap().offset == window_of(
            card,
            page_number,
            page_size,
        ).unwrap().offset + window_of(card, page_number, page_size).unwrap().limit,
{
    lemma_window_within(card as nat, page_number as nat, page_size as nat);
    lemma_window_within(card as nat, (page_number + 1) as nat, page_size as nat);
    assert(page_size * ((page_number + 1) - 1) == page_size * (page_number - 1) + page_size)
        by (nonlinear_arith);
}

/// Computes the window of page `page_number` in a catalog of `card` names.
pub fn page_window(card: usize, page_number: usize, page_size: usize) -> (r: Result<
    PageWindow,
    PageError,
>)
    ensures
        r == window_of(card, page_number, page_size),
        r matches Ok(w) ==> w.offset + w.limit <= card,
{
    if page_size < 1 {
        return Err(PageError { max_page: 0, page: page_number });
    }
    let max_page = card / page_size;
    if page_number < 1 || max_page < page_number {
        return Err(PageError { max_page, page: page_number });
    }
    proof {
        lemma_window_within(card as nat, page_number as nat, page_size as nat);
        assert(page_size * (page_number - 1) >= 0) by (nonlinear_arith)
            requires
                page_size >= 1,
                page_number >= 1,
        ;
    }
    Ok(PageWindow { offset: page_size * (page_number - 1), limit: page_size })
}

impl PageError {
    /// The words that the refusal is reported with.
    pub open spec fn message_of(self) -> Seq<char> {
        "invalid page or page size\nmax page: "@ + decimal(self.max_page as nat) + "\npage: "@
            + decimal(self.page as nat)
    }

    /// Reports the refusal in words.
    pub fn message(&self) -> (r: String)
        ensures
            r@ == self.message_of(),
    {
        let mut text = String::from_str("invalid page or page size\nmax page: ");
        let max_page = decimal_string(self.max_page);
        text.append(max_page.as_str());
        text.append("\npage: ");
        let page = decimal_string(self.page);
        text.append(page.as_str());
        text
    }
}

/// The reading of a configured page size: a run of digits, which a plus
/// sign may precede.
pub open spec fn read_setting(text: Seq<char>) -> Option<usize> {
    if text.len() > 1 && text[0] == '+' {
        read_decimal(text.skip(1))
    } else {
        read_decimal(text)
    }
}

/// The page size to use: the configured one where it can be read, else the
/// default.
pub open spec fn page_size_of(configured: Option<Seq<char>>) -> usize {
    match configured {
        Some(text) => match read_setting(text) {
            Some(n) => n,
            None => DEFAULT_PAGE_SIZE,
        },
        None => DEFAULT_PAGE_SIZE,
    }
}

/// Picks the page size from what is configured. The second part of the
/// answer says whether the default was fallen back on.
pub fn page_size_setting(configured: Option<&str>) -> (r: (usize, bool))
    ensures
        r.0 == page_size_of(configured.deep_view()),
        r.1 == (configured.deep_view() matches Some(text) ==> read_setting(text) is None),
{
    match configured {
        None => (DEFAULT_PAGE_SIZE, true),
        Some(text) => {
            let n = text.unicode_len();
            let read = if n > 1 && text.get_char(0) == '+' {
                let digits = text.substring_char(1, n);
                assert(digits@ =~= text@.skip(1));
                parse_decimal(digits)
            } else {
                parse_decimal(text)
            };
            match read {
                Some(size) => (size, false),
                None => (DEFAULT_PAGE_SIZE, true),
            }
        },
    }
}

} // verus!
