//! Finding the data of a board in the page that shows it.

use vstd::prelude::*;
use vstd::string::*;

use crate::text::chars_of;

verus! {

/// Why a page holds no data.
#[derive(Debug, Clone, Copy, PartialEq, Eq, Structural)]
pub enum PageError {
    /// The page has no element that holds the data.
    NoMarker,
    /// The element that holds the data is not closed.
    UnclosedScript,
}

/// `pattern` stands in `text` at place `i`.
pub open spec fn occurs_at(text: Seq<char>, pattern: Seq<char>, i: int) -> bool {
    &&& 0 <= i
    &&& i + pattern.len() <= text.len()
    &&& text.subrange(i, i + pattern.len()) == pattern
}

/// `i` is the first place at or behind `from` where `pattern` stands in `text`.
pub open spec fn first_at(text: Seq<char>, pattern: Seq<char>, from: int, i: int) -> bool {
    &&& from <= i
    &&& occurs_at(text, pattern, i)
    &&& forall|j: int| from <= j < i ==> !occurs_at(text, pattern, j)
}

/// The first place at or behind `from` where `pattern` stands in `text`.
pub open spec fn first_occurrence(text: Seq<char>, pattern: Seq<char>, from: int) -> Option<int> {
    if exists|i: int| first_at(text, pattern, from, i) {
        Some(choose|i: int| first_at(text, pattern, from, i))
    } else {
        None
    }
}

/// The data of a page: what stands between the first opening of the data element
/// and the first closing tag behind it.
pub open spec fn data_of(page: Seq<char>) -> Result<Seq<char>, PageError> {
    let marker = "id=\"__NEXT_DATA__\" type=\"application/json\">"@;
    match first_occurrence(page, marker, 0) {
        None => Err(PageError::NoMarker),
        Some(at) => {
            let start = at + marker.len();
            match first_occurrence(page, "</script>"@, start) {
                None => Err(PageError::UnclosedScript),
                Some(end) => Ok(page.subrange(start, end)),
            }
        },
    }
}

fn matches_at(text: &Vec<char>, pattern: &Vec<char>, i: usize) -> (found: bool)
    requires
        i + pattern@.len() <= text@.len(),
    ensures
        found == occurs_at(text@, pattern@, i as int),
{
    let n = text.len();
    let mut k: usize = 0;
    while k < pattern.len()
        invariant
            k <= pattern@.len(),
            n == text@.len(),
            i + pattern@.len() <= text@.len(),
            forall|j: int| 0 <= j < k ==> text@[i + j] == pattern@[j],
        decreases pattern@.len() - k,
    {
        if text[i + k] != pattern[k] {
            assert(text@.subrange(i as int, i + pattern@.len())[k as int] == text@[i + k]);
            return false;
        }
        k += 1;
    }
    assert(text@.subrange(i as int, i + pattern@.len()) =~= pattern@);
    true
}

fn find_from(text: &Vec<char>, pattern: &Vec<char>, from: usize) -> (place: Option<usize>)
    ensures
        match place {
            Some(i) => first_occurrence(text@, pattern@, from as int) == Some(i as int) && from <= i
                && i + pattern@.len() <= text@.len(),
            None => first_occurrence(text@, pattern@, from as int) is None,
        },
{
    if pattern.len() > text.len() || from > text.len() - pattern.len() {
        assert(forall|i: int| !first_at(text@, pattern@, from as int, i));
        return None;
    }
    let last = text.len() - pattern.len();
    let mut i: usize = from;
    loop
        invariant
            from <= i <= last,
            last == text@.len() - pattern@.len(),
            forall|j: int| from <= j < i ==> !occurs_at(text@, pattern@, j),
        decreases last - i,
    {
        if matches_at(text, pattern, i) {
            assert(first_at(text@, pattern@, from as int, i as int));
            proof {
                let chosen = choose|k: int| first_at(text@, pattern@, from as int, k);
                assert(chosen == i);
            }
            return Some(i);
        }
        if i == last {
            assert(forall|k: int| !first_at(text@, pattern@, from as int, k));
            return None;
        }
        i += 1;
    }
}

/// Cuts the data of a board out of the page that shows it.
pub fn fetch_next_data(page: &str) -> (data: Result<String, PageError>)
    ensures
        match data {
            Ok(text) => data_of(page@) == Ok::<Seq<char>, PageError>(text@),
            Err(error) => data_of(page@) == Err::<Seq<char>, PageError>(error),
        },
{
    let text = chars_of(page);
    let marker = chars_of("id=\"__NEXT_DATA__\" type=\"application/json\">");
    let closing = chars_of("</script>");
    let at = match find_from(&text, &marker, 0) {
        Some(at) => at,
        None => {
            return Err(PageError::NoMarker);
        },
    };
    let length = text.len();
    let start = at + marker.len();
    match find_from(&text, &closing, start) {
        Some(end) => Ok(page.substring_char(start, end).to_owned()),
        None => Err(PageError::UnclosedScript),
    }
}

} // verus!
