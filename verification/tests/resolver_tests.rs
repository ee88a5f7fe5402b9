use site_builder::index::SiteIndex;
use site_builder::links::generate_link;
use site_builder::links::replace_file_links;
use site_builder::web_page::WebPage;

fn make_index(ids: &[&str]) -> SiteIndex {
    let page = WebPage::from_string("index".to_string(), String::new());
    let pages: Vec<String> = ids.iter().map(|s| s.to_string()).collect();
    SiteIndex { page, pages }
}

#[test]
fn no_tokens_returns_text_unchanged() {
    let index = make_index(&["home"]);
    let text = "plain text with no references at all.";
    let out = replace_file_links(text, &index).unwrap();
    assert_eq!(out, text);
}

#[test]
fn empty_text_resolves_to_empty() {
    let index = make_index(&[]);
    let out = replace_file_links("", &index).unwrap();
    assert_eq!(out, "");
}

#[test]
fn default_link_uses_identifier_as_text() {
    let index = make_index(&["home"]);
    let out = replace_file_links("{home}", &index).unwrap();
    assert_eq!(out, "<a href=\"home.html\">home</a>");
}

#[test]
fn labeled_link_uses_label_as_text() {
    let index = make_index(&["home"]);
    let out = replace_file_links("{home,Welcome}", &index).unwrap();
    assert_eq!(out, "<a href=\"home.html\">Welcome</a>");
}

#[test]
fn dangling_reference_fails_naming_identifier() {
    let index = make_index(&["home"]);
    let err = replace_file_links("{ghost}", &index).unwrap_err();
    assert_eq!(err.identifier, "ghost");
    assert_eq!(err.message(), "Found bad link 'ghost'");
}

#[test]
fn first_dangling_reference_is_reported() {
    let index = make_index(&["home"]);
    let err = replace_file_links("{home} {ghost} {phantom}", &index).unwrap_err();
    assert_eq!(err.identifier, "ghost");
}

#[test]
fn resolving_resolved_output_is_identity() {
    let index = make_index(&["home", "notes"]);
    let once = replace_file_links("see {home} and {notes,my notes}!", &index).unwrap();
    let twice = replace_file_links(&once, &index).unwrap();
    assert_eq!(twice, once);
}

#[test]
fn text_around_tokens_is_preserved() {
    let index = make_index(&["a", "b"]);
    let out = replace_file_links("x {a} y {b,B} z", &index).unwrap();
    assert_eq!(
        out,
        "x <a href=\"a.html\">a</a> y <a href=\"b.html\">B</a> z"
    );
}

#[test]
fn label_may_contain_commas() {
    let index = make_index(&["a"]);
    let out = replace_file_links("{a,one, two}", &index).unwrap();
    assert_eq!(out, "<a href=\"a.html\">one, two</a>");
}

#[test]
fn label_whitespace_is_preserved_verbatim() {
    let index = make_index(&["a"]);
    let out = replace_file_links("{a,  padded  }", &index).unwrap();
    assert_eq!(out, "<a href=\"a.html\">  padded  </a>");
}

#[test]
fn malformed_tokens_pass_through() {
    let index = make_index(&["a"]);
    assert_eq!(replace_file_links("{}", &index).unwrap(), "{}");
    assert_eq!(replace_file_links("{a", &index).unwrap(), "{a");
    assert_eq!(replace_file_links("{,x}", &index).unwrap(), "{,x}");
    assert_eq!(replace_file_links("{a,}", &index).unwrap(), "{a,}");
    assert_eq!(replace_file_links("a } b", &index).unwrap(), "a } b");
}

#[test]
fn brace_before_token_still_resolves_later_token() {
    let index = make_index(&["a"]);
    let out = replace_file_links("{}{a}", &index).unwrap();
    assert_eq!(out, "{}<a href=\"a.html\">a</a>");
}

#[test]
fn identifier_matching_is_case_sensitive() {
    let index = make_index(&["Home"]);
    let err = replace_file_links("{home}", &index).unwrap_err();
    assert_eq!(err.identifier, "home");
}

#[test]
fn generate_link_default_and_labeled() {
    assert_eq!(generate_link("home", None), "<a href=\"home.html\">home</a>");
    assert_eq!(
        generate_link("home", Some("Welcome")),
        "<a href=\"home.html\">Welcome</a>"
    );
}
