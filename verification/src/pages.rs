//! The pages of the catalogue: where each is found, and their text as one.

use vstd::prelude::*;
use vstd::string::*;
use crate::decimal::{decimal_digits, push_decimal};

verus! {

/// The address of a page of the catalogue, up to the number of the page.
pub const URL_TEMPLATE: &'static str =
    "https://videa.hu/kategoriak/film-animacio?sort=0&category=0&page=";

/// The address of the page with the number `number`: the template, then the
/// number as a decimal numeral.
pub open spec fn page_address(template: Seq<char>, number: u32) -> Seq<char> {
    template + decimal_digits(number as nat)
}

/// The texts of `pages` as one text, a line feed between each two.
pub open spec fn joined(pages: Seq<Seq<char>>) -> Seq<char>
    decreases pages.len(),
{
    if pages.len() == 0 {
        Seq::empty()
    } else if pages.len() == 1 {
        pages[0]
    } else {
        joined(pages.drop_last()) + seq!['\n'] + pages.last()
    }
}

/// The address of the page with the number `number`.
pub fn page_url(template: &str, number: u32) -> (url: String)
    ensures
        url@ == page_address(template@, number),
{
    let mut url = template.to_owned();
    push_decimal(&mut url, number);
    url
}

/// The addresses of the pages with the numbers `numbers`, in their order.
pub fn page_urls(template: &str, numbers: &Vec<u32>) -> (urls: Vec<String>)
    ensures
        urls@.len() == numbers@.len(),
        forall|i: int|
            0 <= i < numbers@.len() ==> (#[trigger] urls@[i])@ == page_address(
                template@,
                numbers@[i],
            ),
{
    let mut urls: Vec<String> = Vec::new();
    let mut i: usize = 0;
    while i < numbers.len()
        invariant
            i <= numbers@.len(),
            urls@.len() == i,
            forall|k: int|
                0 <= k < i ==> (#[trigger] urls@[k])@ == page_address(template@, numbers@[k]),
        decreases numbers@.len() - i,
    {
        urls.push(page_url(template, numbers[i]));
        i += 1;
    }
    urls
}

/// Joins the texts of the pages into one, a line feed between each two.
pub fn join_pages(pages: &Vec<String>) -> (text: String)
    ensures
        text@ == joined(pages.deep_view()),
{
    let mut text = String::new();
    let ghost given = pages.deep_view();
    let mut i: usize = 0;
    proof {
        reveal_strlit("\n");
    }
    while i < pages.len()
        invariant
            i <= pages@.len(),
            given == pages.deep_view(),
            text@ == joined(given.take(i as int)),
            "\n"@ == seq!['\n'],
        decreases pages@.len() - i,
    {
        assert(given.take(i + 1).drop_last() =~= given.take(i as int));
        if i > 0 {
            text.append("\n");
        }
        text.append(pages[i].as_str());
        i += 1;
    }
    assert(given.take(pages@.len() as int) =~= given);
    text
}

} // verus!
