use site_builder::index::get_site_index;
use site_builder::naming::file_stem;
use site_builder::timefmt::Instant;
use site_builder::web_page::PageSource;

fn source(name: &str) -> PageSource {
    PageSource {
        file_name: name.to_string(),
        content: String::new(),
        modified: Instant { secs: 0, nanos: 0 },
    }
}

#[test]
fn identifiers_are_file_stems() {
    let sources = vec![source("home.htm"), source("notes.htm"), source("about.htm")];
    let index = get_site_index(&sources);
    assert_eq!(index.pages, vec!["home", "notes", "about"]);
}

#[test]
fn listing_keeps_source_order_not_alphabetical() {
    let sources = vec![source("zebra.htm"), source("alpha.htm"), source("mango.htm")];
    let index = get_site_index(&sources);
    assert_eq!(index.pages, vec!["zebra", "alpha", "mango"]);
    let z = index.page.content.find("zebra.html").unwrap();
    let a = index.page.content.find("alpha.html").unwrap();
    let m = index.page.content.find("mango.html").unwrap();
    assert!(z < a && a < m);
}

#[test]
fn index_page_content_is_heading_and_listing() {
    let sources = vec![source("home.htm")];
    let index = get_site_index(&sources);
    assert_eq!(index.page.name, "index");
    assert_eq!(
        index.page.content,
        "<div><h2>Site Index</h2><ul><li><a href=\"home.html\">home</a></li></ul></div>"
    );
}

#[test]
fn empty_source_list_yields_empty_listing() {
    let sources: Vec<PageSource> = Vec::new();
    let index = get_site_index(&sources);
    assert!(index.pages.is_empty());
    assert_eq!(
        index.page.content,
        "<div><h2>Site Index</h2><ul></ul></div>"
    );
}

#[test]
fn duplicate_stems_are_kept_visibly() {
    // Two sources sharing one stem collapse to one identifier in the set
    // sense; the identifier list keeps both entries so the collapse is
    // visible rather than silent.
    let sources = vec![source("a/x.htm"), source("x.htm")];
    let stems: Vec<String> = sources
        .iter()
        .map(|s| file_stem(&s.file_name))
        .collect();
    assert_eq!(stems, vec!["a/x", "x"]);
    let same = vec![source("x.htm"), source("x.htm")];
    let index = get_site_index(&same);
    assert_eq!(index.pages, vec!["x", "x"]);
}

#[test]
fn file_stem_cases() {
    assert_eq!(file_stem("foo.htm"), "foo");
    assert_eq!(file_stem("archive.tar.gz"), "archive.tar");
    assert_eq!(file_stem("noext"), "noext");
    assert_eq!(file_stem(".hidden"), ".hidden");
    assert_eq!(file_stem("trailing."), "trailing");
    assert_eq!(file_stem(""), "");
}
