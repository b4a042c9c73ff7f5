use episode_fetcher::error::ListingError;
use episode_fetcher::listing::{
    extract_titles, join_text, scrape_titles, ItemList, ListItem, ListingPage, Region,
};

fn item(parts: &[&str]) -> ListItem {
    ListItem { text_nodes: parts.iter().map(|p| p.to_string()).collect() }
}

#[test]
fn scrape_gives_one_title_per_item_in_document_order() {
    let body = "<html><body><div class=\"episode-list\"><ul>\
        <li>Episode 1</li><li>Episode 2</li><li>Episode 3</li>\
        </ul></div></body></html>";
    let titles = scrape_titles(body).unwrap();
    assert_eq!(titles, vec!["Episode 1", "Episode 2", "Episode 3"]);
}

#[test]
fn scrape_joins_split_text_nodes_with_single_spaces() {
    let body = "<div class=\"episode-list\"><ul>\
        <li><a href=\"/1\">The Arrival</a><span>of Raditz</span></li>\
        <li><b>Gohan's</b><i>Hidden</i><u>Powers</u></li>\
        </ul></div>";
    let titles = scrape_titles(body).unwrap();
    assert_eq!(titles, vec!["The Arrival of Raditz", "Gohan's Hidden Powers"]);
}

#[test]
fn scrape_reads_only_the_first_list_of_the_first_marked_element() {
    let body = "<ul><li>outside</li></ul>\
        <div class=\"episode-list\"><p>intro</p><ul><li>a</li><li>b</li></ul><ul><li>c</li></ul></div>\
        <div class=\"episode-list\"><ul><li>d</li></ul></div>";
    assert_eq!(scrape_titles(body).unwrap(), vec!["a", "b"]);
}

#[test]
fn scrape_without_marker_fails() {
    let body = "<html><body><ul><li>Episode 1</li></ul></body></html>";
    assert_eq!(scrape_titles(body), Err(ListingError::MissingMarker));
    assert_eq!(scrape_titles(""), Err(ListingError::MissingMarker));
    assert_eq!(scrape_titles("not html at all"), Err(ListingError::MissingMarker));
}

#[test]
fn scrape_without_list_fails() {
    let body = "<div class=\"episode-list\"><p>nothing here</p></div>";
    assert_eq!(scrape_titles(body), Err(ListingError::MissingList));
}

#[test]
fn scrape_of_an_empty_list_gives_no_titles() {
    let body = "<div class=\"episode-list\"><ul></ul></div>";
    assert_eq!(scrape_titles(body), Ok(Vec::new()));
}

#[test]
fn join_text_puts_one_space_between_parts() {
    assert_eq!(join_text(&Vec::new()), "");
    assert_eq!(join_text(&vec!["one".to_string()]), "one");
    assert_eq!(join_text(&vec!["one".to_string(), "two".to_string()]), "one two");
    assert_eq!(join_text(&vec!["a".to_string(), "".to_string(), "b".to_string()]), "a  b");
}

#[test]
fn extract_titles_follows_the_page_model() {
    let page = ListingPage {
        regions: vec![
            Region {
                lists: vec![
                    ItemList { items: vec![item(&["Ep", "1"]), item(&[]), item(&["Ep 3"])] },
                    ItemList { items: vec![item(&["other"])] },
                ],
            },
            Region { lists: vec![] },
        ],
    };
    assert_eq!(extract_titles(&page), Ok(vec!["Ep 1".to_string(), "".to_string(), "Ep 3".to_string()]));
    assert_eq!(extract_titles(&ListingPage { regions: vec![] }), Err(ListingError::MissingMarker));
    assert_eq!(
        extract_titles(&ListingPage { regions: vec![Region { lists: vec![] }] }),
        Err(ListingError::MissingList)
    );
}
