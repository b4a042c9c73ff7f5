//! The catalog page: where the episode titles stand in it, and how a title
//! is put together from the text of a list item.

use crate::error::ListingError;
use scraper::{ElementRef, Html, Selector};
use vstd::prelude::*;
use vstd::string::StringExecFns;

verus! {

/// The selector of the element that marks the episode list.
pub const MARKER_SELECTOR: &'static str = ".episode-list";

/// The selector of a list inside the marked element.
pub const LIST_SELECTOR: &'static str = "ul";

/// The selector of an item of the list.
pub const ITEM_SELECTOR: &'static str = "li";

/// One list item: its text nodes, in the order in which they are found.
pub struct ListItem {
    pub text_nodes: Vec<String>,
}

/// One list: its items, in the order in which they are selected.
pub struct ItemList {
    pub items: Vec<ListItem>,
}

/// One marked element: the lists below it, in the order in which they are
/// selected.
pub struct Region {
    pub lists: Vec<ItemList>,
}

/// What a catalog page holds of the listing: its marked elements, in the
/// order in which they are selected.
pub struct ListingPage {
    pub regions: Vec<Region>,
}

impl View for ListItem {
    type V = Seq<Seq<char>>;

    open spec fn view(&self) -> Seq<Seq<char>> {
        Seq::new(self.text_nodes@.len(), |i: int| self.text_nodes@[i]@)
    }
}

impl View for ItemList {
    type V = Seq<Seq<Seq<char>>>;

    open spec fn view(&self) -> Seq<Seq<Seq<char>>> {
        Seq::new(self.items@.len(), |i: int| self.items@[i]@)
    }
}

impl View for Region {
    type V = Seq<Seq<Seq<Seq<char>>>>;

    open spec fn view(&self) -> Seq<Seq<Seq<Seq<char>>>> {
        Seq::new(self.lists@.len(), |i: int| self.lists@[i]@)
    }
}

impl View for ListingPage {
    type V = Seq<Seq<Seq<Seq<Seq<char>>>>>;

    open spec fn view(&self) -> Seq<Seq<Seq<Seq<Seq<char>>>>> {
        Seq::new(self.regions@.len(), |i: int| self.regions@[i]@)
    }
}

/// What `Html::parse_document` makes of `body` under three selectors, each
/// read by `Selector::parse`: for every element that `marker` selects in the
/// document, for every element below it that `list` selects, for every
/// element below that one that `item` selects, its text nodes. Each level is
/// in the order in which the selection yields it. `None` where a selector is
/// not accepted.
pub uninterp spec fn page_structure(
    body: Seq<char>,
    marker: Seq<char>,
    list: Seq<char>,
    item: Seq<char>,
) -> Option<Seq<Seq<Seq<Seq<Seq<char>>>>>>;

/// Parses `body` with `Html::parse_document` and the selectors with
/// `Selector::parse`, then walks `Html::select` for `marker`,
/// `ElementRef::select` for `list` and for `item`, and `ElementRef::text`.
/// The contract only gives the outcome its name: the same four texts give
/// the same page.
#[verifier::external_body]
fn query_page(body: &str, marker: &str, list: &str, item: &str) -> (r: Option<ListingPage>)
    ensures
        match r {
            Some(page) => page_structure(body@, marker@, list@, item@) == Some(page@),
            None => page_structure(body@, marker@, list@, item@) is None,
        },
{
    let marker = Selector::parse(marker).ok()?;
    let list = Selector::parse(list).ok()?;
    let item = Selector::parse(item).ok()?;
    let texts = |e: ElementRef| ListItem { text_nodes: e.text().map(String::from).collect() };
    let items = |e: ElementRef| ItemList { items: e.select(&item).map(texts).collect() };
    let lists = |e: ElementRef| Region { lists: e.select(&list).map(items).collect() };
    Some(ListingPage { regions: Html::parse_document(body).select(&marker).map(lists).collect() })
}

/// The parts of a text put together with one space between each two.
pub open spec fn joined(parts: Seq<Seq<char>>) -> Seq<char>
    decreases parts.len(),
{
    if parts.len() == 0 {
        Seq::empty()
    } else if parts.len() == 1 {
        parts[0]
    } else {
        joined(parts.drop_last()) + seq![' '] + parts.last()
    }
}

/// The titles of a list: for each item, its text nodes joined by spaces.
pub open spec fn item_titles(items: Seq<Seq<Seq<char>>>) -> Seq<Seq<char>> {
    Seq::new(items.len(), |i: int| joined(items[i]))
}

/// The episode titles of a page: those of the first list of the first
/// marked element.
pub open spec fn page_titles(page: Seq<Seq<Seq<Seq<Seq<char>>>>>) -> Result<
    Seq<Seq<char>>,
    ListingError,
> {
    if page.len() == 0 {
        Err(ListingError::MissingMarker)
    } else if page[0].len() == 0 {
        Err(ListingError::MissingList)
    } else {
        Ok(item_titles(page[0][0]))
    }
}

/// A page that has a marked element with a list in it gives exactly one
/// title for each item of that list, in the order of the items, and each
/// title is made of the item's text nodes with single spaces between them.
pub proof fn lemma_one_title_per_item(page: Seq<Seq<Seq<Seq<Seq<char>>>>>)
    requires
        page.len() > 0,
        page[0].len() > 0,
    ensures
        page_titles(page) is Ok,
        page_titles(page)->Ok_0.len() == page[0][0].len(),
        forall|i: int|
            0 <= i < page[0][0].len() ==> (#[trigger] page_titles(page)->Ok_0[i]) == joined(
                page[0][0][i],
            ),
{
}

/// The texts of `titles`.
pub open spec fn title_texts(titles: Vec<String>) -> Seq<Seq<char>> {
    Seq::new(titles@.len(), |i: int| titles@[i]@)
}

/// Joins the text nodes of one item by single spaces.
pub fn join_text(parts: &Vec<String>) -> (r: String)
    ensures
        r@ == joined(Seq::new(parts@.len(), |i: int| parts@[i]@)),
{
    let ghost texts = Seq::new(parts@.len(), |i: int| parts@[i]@);
    let mut text = String::new();
    let mut i: usize = 0;
    while i < parts.len()
        invariant
            i <= parts@.len(),
            texts == Seq::new(parts@.len(), |i: int| parts@[i]@),
            text@ == joined(texts.take(i as int)),
        decreases parts@.len() - i,
    {
        proof {
            reveal_strlit(" ");
            assert(texts.take(i + 1).drop_last() =~= texts.take(i as int));
            assert(texts.take(i + 1).last() == parts@[i as int]@);
        }
        if i > 0 {
            text.append(" ");
        }
        text.append(parts[i].as_str());
        assert(text@ =~= joined(texts.take(i + 1)));
        i = i + 1;
    }
    assert(texts.take(i as int) =~= texts);
    text
}

/// Gives the episode titles of a page, in document order: one for each
/// item of the first list of the first marked element.
pub fn extract_titles(page: &ListingPage) -> (r: Result<Vec<String>, ListingError>)
    ensures
        match r {
            Ok(titles) => page_titles(page@) == Ok::<Seq<Seq<char>>, ListingError>(
                title_texts(titles),
            ),
            Err(e) => page_titles(page@) == Err::<Seq<Seq<char>>, ListingError>(e),
        },
{
    if page.regions.len() == 0 {
        return Err(ListingError::MissingMarker);
    }
    let region = &page.regions[0];
    if region.lists.len() == 0 {
        return Err(ListingError::MissingList);
    }
    let list = &region.lists[0];
    let mut titles: Vec<String> = Vec::new();
    let mut i: usize = 0;
    while i < list.items.len()
        invariant
            i <= list.items@.len(),
            titles@.len() == i,
            forall|j: int| 0 <= j < i ==> (#[trigger] titles@[j])@ == joined(list.items@[j]@),
        decreases list.items@.len() - i,
    {
        let title = join_text(&list.items[i].text_nodes);
        titles.push(title);
        i = i + 1;
    }
    assert(page@[0][0] == list@);
    assert(title_texts(titles) =~= item_titles(list@));
    Ok(titles)
}

/// The episode titles that the catalog page `body` lists.
pub open spec fn listed_titles(body: Seq<char>) -> Result<Seq<Seq<char>>, ListingError> {
    match page_structure(body, MARKER_SELECTOR@, LIST_SELECTOR@, ITEM_SELECTOR@) {
        Some(page) => page_titles(page),
        None => Err(ListingError::InvalidSelector),
    }
}

/// Reads the catalog page `body` as HTML and gives the episode titles that
/// it lists, in document order.
pub fn scrape_titles(body: &str) -> (r: Result<Vec<String>, ListingError>)
    ensures
        match r {
            Ok(titles) => listed_titles(body@) == Ok::<Seq<Seq<char>>, ListingError>(
                title_texts(titles),
            ),
            Err(e) => listed_titles(body@) == Err::<Seq<Seq<char>>, ListingError>(e),
        },
{
    match query_page(body, MARKER_SELECTOR, LIST_SELECTOR, ITEM_SELECTOR) {
        Some(page) => extract_titles(&page),
        None => Err(ListingError::InvalidSelector),
    }
}

} // verus!
