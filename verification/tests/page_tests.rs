use site_builder::index::SiteIndex;
use site_builder::timefmt::Instant;
use site_builder::web_page::PageBuildError;
use site_builder::web_page::PageSource;
use site_builder::web_page::WebPage;

const SITE: &str = "my website";

fn page(name: &str) -> WebPage {
    WebPage::from_string(name.to_string(), "content".to_string())
}

fn make_index(ids: &[&str]) -> SiteIndex {
    let page = WebPage::from_string("index".to_string(), String::new());
    let pages: Vec<String> = ids.iter().map(|s| s.to_string()).collect();
    SiteIndex { page, pages }
}

#[test]
fn home_header_has_no_back_link() {
    let header = page("home").get_header(SITE);
    assert_eq!(
        header,
        "<header><div class=\"special\"><h1><a href=\"index.html\" class=\"logo\">*</a>my website</h1></div></header>"
    );
    assert_eq!(header.matches("back to home").count(), 0);
}

#[test]
fn other_pages_header_has_exactly_one_back_link() {
    let header = page("notes").get_header(SITE);
    assert_eq!(
        header,
        "<header><div class=\"special\"><h1><a href=\"index.html\" class=\"logo\">*</a>my website</h1></div><div class=\"mini-indent\"><a href=\"home.html\">back to home</a></div></header>"
    );
    assert_eq!(header.matches("back to home").count(), 1);
    let index_header = page("index").get_header(SITE);
    assert_eq!(index_header.matches("back to home").count(), 1);
}

#[test]
fn main_region_nests_content_in_wrappers() {
    let main = page("notes").get_main();
    assert_eq!(
        main,
        "<main><div class=\"inner\"><div class=\"indent\">content</div></div></main>"
    );
}

#[test]
fn footer_block_holds_source_link_and_time() {
    let footer = WebPage::render_footer_block("03:45pm, mar 9, 2024");
    assert_eq!(
        footer,
        "<footer><div class=\"left\"><p><a href=\"https://github.com/andii-online/me\">*website src</a></p></div><div class=\"right\"><p>edited on 03:45pm, mar 9, 2024</p></div></footer>"
    );
}

#[test]
fn built_document_has_the_fixed_shell() {
    let doc = page("notes").build_document(SITE, "03:45pm, mar 9, 2024");
    let mut expected = String::new();
    expected.push_str("<!DOCTYPE html><html lang=\"en\">");
    expected.push_str("<head>");
    expected.push_str("<title>my website - notes</title>");
    expected.push_str("<meta name=\"description\" content=\"welcome to my website!!\">");
    expected.push_str("<link href=\"../icons/apple-touch-icon.png\" rel=\"apple-touch-icon\" sizes=\"180x180\">");
    expected.push_str("<link href=\"../site.manifest\" rel=\"manifest\">");
    expected.push_str("<meta name=\"viewport\" content=\"width=device-width, initial-scale=1.0\">");
    expected.push_str("<link href=\"../styles/style.css\" rel=\"stylesheet\">");
    expected.push_str("</head>");
    expected.push_str("<body>");
    expected.push_str("<header><div class=\"special\"><h1><a href=\"index.html\" class=\"logo\">*</a>my website</h1></div><div class=\"mini-indent\"><a href=\"home.html\">back to home</a></div></header>");
    expected.push_str("<main><div class=\"inner\"><div class=\"indent\">content</div></div></main>");
    expected.push_str("<footer><div class=\"left\"><p><a href=\"https://github.com/andii-online/me\">*website src</a></p></div><div class=\"right\"><p>edited on 03:45pm, mar 9, 2024</p></div></footer>");
    expected.push_str("</body>");
    expected.push_str("</html>");
    assert_eq!(doc, expected);
}

#[test]
fn build_formats_the_stored_edit_time() {
    let built = page("notes").build(SITE);
    assert!(built.starts_with("<!DOCTYPE html><html lang=\"en\"><head><title>my website - notes</title>"));
    assert!(built.contains("edited on "));
    assert!(built.ends_with("</body></html>"));
}

#[test]
fn from_web_page_file_resolves_references() {
    let index = make_index(&["home", "about"]);
    let src = PageSource {
        file_name: "notes.htm".to_string(),
        content: "go {home} or read {about,the about page}".to_string(),
        modified: Instant { secs: 1_700_000_000, nanos: 123 },
    };
    let page = WebPage::from_web_page_file(src, &index).unwrap();
    assert_eq!(page.name, "notes");
    assert_eq!(
        page.content,
        "go <a href=\"home.html\">home</a> or read <a href=\"about.html\">the about page</a>"
    );
    assert_eq!(page.date_edited, Instant { secs: 1_700_000_000, nanos: 123 });
}

#[test]
fn from_web_page_file_fails_on_dangling_reference() {
    let index = make_index(&["home"]);
    let src = PageSource {
        file_name: "notes.htm".to_string(),
        content: "go {ghost}".to_string(),
        modified: Instant { secs: 0, nanos: 0 },
    };
    let err: PageBuildError = WebPage::from_web_page_file(src, &index).unwrap_err();
    assert_eq!(err.page, "notes");
    assert_eq!(err.identifier, "ghost");
    assert_eq!(
        err.message(),
        "While trying to build page 'notes'...\n Found bad link 'ghost'"
    );
}

#[test]
fn from_string_keeps_name_and_content() {
    let p = WebPage::from_string("leaf".to_string(), "body text".to_string());
    assert_eq!(p.name, "leaf");
    assert_eq!(p.content, "body text");
}
