//! Pages: sources read from disk, resolved pages, and document assembly.
//!
//! A resolved page is assembled into a complete document with a fixed
//! shell: a head with the site title and chrome links, a header with the
//! site branding and — on every page but `home` — a single navigation
//! block back to the home page, a main region holding the resolved
//! content, and a footer with a source link and the formatted edit time.

use vstd::prelude::*;
use vstd::string::StringExecFns;
use crate::index::SiteIndex;
use crate::links::replace_file_links;
use crate::links::resolve_from;
use crate::markup::spec_anchor;
use crate::markup::spec_anchor_classed;
use crate::markup::spec_div_classed;
use crate::markup::spec_document;
use crate::markup::spec_head_el;
use crate::markup::spec_footer;
use crate::markup::spec_h1;
use crate::markup::spec_header;
use crate::markup::spec_link;
use crate::markup::spec_link_sized;
use crate::markup::spec_main;
use crate::markup::spec_meta;
use crate::markup::spec_p;
use crate::markup::spec_title;
use crate::markup::render_anchor;
use crate::markup::render_anchor_classed;
use crate::markup::render_body;
use crate::markup::render_div_classed;
use crate::markup::render_footer;
use crate::markup::render_h1;
use crate::markup::render_head;
use crate::markup::render_header;
use crate::markup::render_html_root;
use crate::markup::render_link;
use crate::markup::render_link_sized;
use crate::markup::render_main;
use crate::markup::render_meta;
use crate::markup::render_p;
use crate::markup::render_title;
use crate::naming::file_stem;
use crate::naming::spec_file_stem;
use crate::timefmt::CivilTime;
use crate::timefmt::Instant;
use crate::timefmt::MAX_INSTANT_SECS;
use crate::timefmt::format_civil_time;
use crate::timefmt::is_local_reading;
use crate::timefmt::local_civil_time;
use crate::timefmt::now_instant;
use crate::timefmt::spec_time_string;

verus! {

/// A page's source: its file name, its raw text, and the file's
/// last-modification instant, all read by the caller before the core
/// runs.
#[derive(Debug)]
pub struct PageSource {
    pub file_name: String,
    pub content: String,
    pub modified: Instant,
}

impl PageSource {
    pub open spec fn wf(self) -> bool {
        self.modified.wf()
    }
}

/// The error of a failed page build: while building `page`, a
/// cross-reference named `identifier`, which the site index does not
/// contain.
#[derive(Debug)]
pub struct PageBuildError {
    pub page: String,
    pub identifier: String,
}

impl PageBuildError {
    /// The report for a failed page build, naming the page and the
    /// offending identifier.
    pub fn message(&self) -> (r: String)
        ensures
            r@ == "While trying to build page '"@ + self.page@ + "'...\n Found bad link '"@
                + self.identifier@ + "'"@,
    {
        let mut m = String::from_str("While trying to build page '");
        m.append(self.page.as_str());
        m.append("'...\n Found bad link '");
        m.append(self.identifier.as_str());
        m.append("'");
        m
    }
}

/// The page title: `<site name> - <page name>`.
pub open spec fn spec_site_title(site_name: Seq<char>, page_name: Seq<char>) -> Seq<char> {
    site_name + " - "@ + page_name
}

/// The description meta text: a fixed welcome interpolating the site name.
pub open spec fn spec_description(site_name: Seq<char>) -> Seq<char> {
    "welcome to "@ + site_name + "!!"@
}

/// The head's children: title, description, icon, manifest, viewport and
/// stylesheet, in that order.
pub open spec fn spec_head_inner(site_name: Seq<char>, page_name: Seq<char>) -> Seq<char> {
    spec_title(spec_site_title(site_name, page_name)) + spec_meta(
        "description"@,
        spec_description(site_name),
    ) + spec_link_sized("../icons/apple-touch-icon.png"@, "apple-touch-icon"@, "180x180"@)
        + spec_link("../site.manifest"@, "manifest"@) + spec_meta(
        "viewport"@,
        "width=device-width, initial-scale=1.0"@,
    ) + spec_link("../styles/style.css"@, "stylesheet"@)
}

/// The branding block: a logo anchor and the site name as a heading.
pub open spec fn spec_branding(site_name: Seq<char>) -> Seq<char> {
    spec_div_classed("special"@, spec_h1(spec_anchor_classed("index.html"@, "logo"@, "*"@) + site_name))
}

/// The navigation block back to the home page.
pub open spec fn spec_back_to_home() -> Seq<char> {
    spec_div_classed("mini-indent"@, spec_anchor("home.html"@, "back to home"@))
}

/// The page header: the branding, and on every page but `home` one
/// back-to-home navigation block.
pub open spec fn spec_header_block(site_name: Seq<char>, page_name: Seq<char>) -> Seq<char> {
    if page_name == "home"@ {
        spec_header(spec_branding(site_name))
    } else {
        spec_header(spec_branding(site_name) + spec_back_to_home())
    }
}

/// The main region: the resolved content in nested wrappers.
pub open spec fn spec_main_block(content: Seq<char>) -> Seq<char> {
    spec_main(spec_div_classed("inner"@, spec_div_classed("indent"@, content)))
}

/// The footer: a source link on the left, the formatted edit time on the
/// right.
pub open spec fn spec_footer_block(time_str: Seq<char>) -> Seq<char> {
    spec_footer(
        spec_div_classed(
            "left"@,
            spec_p(spec_anchor("https://github.com/andii-online/me"@, "*website src"@)),
        ) + spec_div_classed("right"@, spec_p("edited on "@ + time_str)),
    )
}

/// A page's complete document for a given site name and formatted edit
/// time.
pub open spec fn spec_page_document(
    site_name: Seq<char>,
    page_name: Seq<char>,
    content: Seq<char>,
    time_str: Seq<char>,
) -> Seq<char> {
    spec_document(
        "en"@,
        spec_head_inner(site_name, page_name),
        spec_header_block(site_name, page_name) + spec_main_block(content) + spec_footer_block(
            time_str,
        ),
    )
}

/// `needle` occurs somewhere in `hay`.
pub open spec fn contains_sub(hay: Seq<char>, needle: Seq<char>) -> bool {
    exists|k: int|
        0 <= k <= hay.len() - needle.len() && #[trigger] hay.subrange(k, k + needle.len())
            == needle
}

proof fn lemma_contains_append(a: Seq<char>, b: Seq<char>, n: Seq<char>)
    requires
        contains_sub(b, n),
    ensures
        contains_sub(a + b, n),
{
    let k = choose|k: int|
        0 <= k <= b.len() - n.len() && #[trigger] b.subrange(k, k + n.len()) == n;
    assert((a + b).subrange(a.len() + k, a.len() + k + n.len()) =~= b.subrange(k, k + n.len()));
}

proof fn lemma_contains_prepend(a: Seq<char>, b: Seq<char>, n: Seq<char>)
    requires
        contains_sub(a, n),
    ensures
        contains_sub(a + b, n),
{
    let k = choose|k: int|
        0 <= k <= a.len() - n.len() && #[trigger] a.subrange(k, k + n.len()) == n;
    assert((a + b).subrange(k, k + n.len()) =~= a.subrange(k, k + n.len()));
}

/// Law: the home page's rendered header is the bare branding block and
/// contains no "back to home" text, provided the site name does not smuggle
/// that text in; every other page's header is that same branding header
/// with exactly one fixed navigation block appended, and contains it.
pub proof fn lemma_back_to_home(site_name: Seq<char>, page_name: Seq<char>)
    requires
        !contains_sub(spec_header(spec_branding(site_name)), "back to home"@),
    ensures
        page_name == "home"@ ==> spec_header_block(site_name, page_name) == spec_header(
            spec_branding(site_name),
        ),
        page_name == "home"@ ==> !contains_sub(
            spec_header_block(site_name, page_name),
            "back to home"@,
        ),
        page_name != "home"@ ==> spec_header_block(site_name, page_name) == spec_header(
            spec_branding(site_name) + spec_back_to_home(),
        ),
        page_name != "home"@ ==> contains_sub(
            spec_header_block(site_name, page_name),
            "back to home"@,
        ),
{
    let phrase = "back to home"@;
    if page_name != "home"@ {
        assert(phrase.subrange(0, 0 + phrase.len() as int) =~= phrase);
        assert(contains_sub(phrase, phrase));
        let pre = "<a href=\""@ + "home.html"@ + "\">"@;
        lemma_contains_append(pre, phrase, phrase);
        lemma_contains_prepend(pre + phrase, "</a>"@, phrase);
        assert(spec_anchor("home.html"@, phrase) == pre + phrase + "</a>"@);
        assert(contains_sub(spec_anchor("home.html"@, phrase), phrase));
        let dpre = "<div class=\""@ + "mini-indent"@ + "\">"@;
        lemma_contains_append(dpre, spec_anchor("home.html"@, phrase), phrase);
        lemma_contains_prepend(dpre + spec_anchor("home.html"@, phrase), "</div>"@, phrase);
        assert(contains_sub(spec_back_to_home(), phrase));
        let hpre = "<header>"@ + (spec_branding(site_name) + spec_back_to_home());
        lemma_contains_append(
            "<header>"@ + spec_branding(site_name),
            spec_back_to_home(),
            phrase,
        );
        assert(hpre =~= ("<header>"@ + spec_branding(site_name)) + spec_back_to_home());
        lemma_contains_prepend(hpre, "</header>"@, phrase);
        assert(spec_header_block(site_name, page_name) =~= hpre + "</header>"@);
    }
}

/// A resolved page, immutable once constructed: its identifier, its
/// link-resolved content, and the instant it was last edited.
#[derive(Debug, Eq, Ord, PartialEq, PartialOrd)]
pub struct WebPage {
    pub name: String,
    pub content: String,
    pub date_edited: Instant,
}

impl WebPage {
    pub open spec fn wf(self) -> bool {
        self.date_edited.wf()
    }

    /// Constructs a page from a source file's data: the identifier is the
    /// file's stem, the content is the source text with every
    /// cross-reference resolved against the index, and the edit time is
    /// the file's modification instant.  Fails, with no page, on the
    /// first reference the index does not know.
    pub fn from_web_page_file(page_file: PageSource, index: &SiteIndex) -> (r: Result<
        WebPage,
        PageBuildError,
    >)
        requires
            page_file.wf(),
        ensures
            match r {
                Ok(p) => {
                    &&& resolve_from(page_file.content@, index.ids(), 0) == Ok::<
                        Seq<char>,
                        Seq<char>,
                    >(p.content@)
                    &&& p.name@ == spec_file_stem(page_file.file_name@)
                    &&& p.date_edited == page_file.modified
                    &&& p.wf()
                },
                Err(e) => {
                    &&& resolve_from(page_file.content@, index.ids(), 0) == Err::<
                        Seq<char>,
                        Seq<char>,
                    >(e.identifier@)
                    &&& e.page@ == spec_file_stem(page_file.file_name@)
                },
            },
    {
        let name = file_stem(page_file.file_name.as_str());
        match replace_file_links(page_file.content.as_str(), index) {
            Ok(linked) => Ok(
                WebPage { name, content: linked, date_edited: page_file.modified },
            ),
            Err(e) => Err(PageBuildError { page: name, identifier: e.identifier }),
        }
    }

    /// Converts a string into a page; the edit time is the moment of the
    /// call, clamped into the displayable range.
    pub fn from_string(name: String, content: String) -> (r: WebPage)
        ensures
            r.name == name,
            r.content == content,
            r.wf(),
    {
        let now = now_instant();
        let secs: i64 = if now.secs < -MAX_INSTANT_SECS {
            -MAX_INSTANT_SECS
        } else if now.secs > MAX_INSTANT_SECS {
            MAX_INSTANT_SECS
        } else {
            now.secs
        };
        let nanos: u32 = if now.nanos >= 1_000_000_000 {
            999_999_999
        } else {
            now.nanos
        };
        WebPage { name, content, date_edited: Instant { secs, nanos } }
    }

    /// The page's edit time, formatted for the footer: the clock-format
    /// rendering of the edit instant read in the machine's local time
    /// zone (its civil reading under some zone offset within one day).
    pub fn get_formatted_time(&self) -> (r: String)
        requires
            self.wf(),
        ensures
            exists|c: CivilTime|
                c.wf() && is_local_reading(c, self.date_edited.secs as int) && r@
                    == #[trigger] spec_time_string(c),
    {
        let c = local_civil_time(self.date_edited.secs, self.date_edited.nanos);
        let r = format_civil_time(c);
        proof {
            assert(
                c.wf() && is_local_reading(c, self.date_edited.secs as int) && r@
                    == spec_time_string(c));
        }
        r
    }

    /// The page's header block.
    pub fn get_header(&self, site_name: &str) -> (r: String)
        ensures
            r@ == spec_header_block(site_name@, self.name@),
    {
        let logo = render_anchor_classed("index.html", "logo", "*");
        let mut h1_inner = logo;
        h1_inner.append(site_name);
        let heading = render_h1(h1_inner.as_str());
        let branding = render_div_classed("special", heading.as_str());
        let mut inner = branding;
        let home = String::from_str("home");
        if !(self.name == home) {
            let back = render_anchor("home.html", "back to home");
            let nav = render_div_classed("mini-indent", back.as_str());
            inner.append(nav.as_str());
        }
        render_header(inner.as_str())
    }

    /// The page's main region.
    pub fn get_main(&self) -> (r: String)
        ensures
            r@ == spec_main_block(self.content@),
    {
        let indent = render_div_classed("indent", self.content.as_str());
        let inner = render_div_classed("inner", indent.as_str());
        render_main(inner.as_str())
    }

    /// The footer block for a given formatted edit time.
    pub fn render_footer_block(time_str: &str) -> (r: String)
        ensures
            r@ == spec_footer_block(time_str@),
    {
        let src_link = render_anchor("https://github.com/andii-online/me", "*website src");
        let left_p = render_p(src_link.as_str());
        let left = render_div_classed("left", left_p.as_str());
        let mut msg = String::from_str("edited on ");
        msg.append(time_str);
        let right_p = render_p(msg.as_str());
        let right = render_div_classed("right", right_p.as_str());
        let mut inner = left;
        inner.append(right.as_str());
        render_footer(inner.as_str())
    }

    /// The page's footer, holding the edit instant's local-time rendering.
    pub fn get_footer(&self) -> (r: String)
        requires
            self.wf(),
        ensures
            exists|c: CivilTime|
                c.wf() && is_local_reading(c, self.date_edited.secs as int) && r@
                    == spec_footer_block(#[trigger] spec_time_string(c)),
    {
        let t = self.get_formatted_time();
        let r = Self::render_footer_block(t.as_str());
        proof {
            let c = choose|c: CivilTime|
                c.wf() && is_local_reading(c, self.date_edited.secs as int) && t@
                    == #[trigger] spec_time_string(c);
            assert(
                c.wf() && is_local_reading(c, self.date_edited.secs as int) && r@
                    == spec_footer_block(spec_time_string(c)));
        }
        r
    }

    /// The page's head: title, description, icon, manifest, viewport and
    /// stylesheet.
    pub fn get_head(&self, site_name: &str) -> (r: String)
        ensures
            r@ == spec_head_el(spec_head_inner(site_name@, self.name@)),
    {
        let mut title_text = String::from_str(site_name);
        title_text.append(" - ");
        title_text.append(self.name.as_str());
        let title = render_title(title_text.as_str());
        let mut desc = String::from_str("welcome to ");
        desc.append(site_name);
        desc.append("!!");
        let meta_desc = render_meta("description", desc.as_str());
        let icon = render_link_sized(
            "../icons/apple-touch-icon.png",
            "apple-touch-icon",
            "180x180",
        );
        let manifest = render_link("../site.manifest", "manifest");
        let viewport = render_meta("viewport", "width=device-width, initial-scale=1.0");
        let style = render_link("../styles/style.css", "stylesheet");
        let mut head_inner = title;
        head_inner.append(meta_desc.as_str());
        head_inner.append(icon.as_str());
        head_inner.append(manifest.as_str());
        head_inner.append(viewport.as_str());
        head_inner.append(style.as_str());
        render_head(head_inner.as_str())
    }

    /// The page's complete document for a given site name and formatted
    /// edit time.
    pub fn build_document(&self, site_name: &str, time_str: &str) -> (r: String)
        ensures
            r@ == spec_page_document(site_name@, self.name@, self.content@, time_str@),
    {
        let head = self.get_head(site_name);
        let header = self.get_header(site_name);
        let main_region = self.get_main();
        let footer = Self::render_footer_block(time_str);
        let mut body_inner = header;
        body_inner.append(main_region.as_str());
        body_inner.append(footer.as_str());
        let body = render_body(body_inner.as_str());
        let mut doc_inner = head;
        doc_inner.append(body.as_str());
        render_html_root("en", doc_inner.as_str())
    }

    /// Collects the page's content into its complete built document,
    /// with the edit instant formatted in the machine's local time zone.
    pub fn build(&self, site_name: &str) -> (r: String)
        requires
            self.wf(),
        ensures
            exists|c: CivilTime|
                c.wf() && is_local_reading(c, self.date_edited.secs as int) && r@
                    == spec_page_document(
                    site_name@,
                    self.name@,
                    self.content@,
                    #[trigger] spec_time_string(c),
                ),
    {
        let t = self.get_formatted_time();
        let r = self.build_document(site_name, t.as_str());
        proof {
            let c = choose|c: CivilTime|
                c.wf() && is_local_reading(c, self.date_edited.secs as int) && t@
                    == #[trigger] spec_time_string(c);
            assert(
                c.wf() && is_local_reading(c, self.date_edited.secs as int) && r@
                    == spec_page_document(
                    site_name@,
                    self.name@,
                    self.content@,
                    spec_time_string(c),
                ));
        }
        r
    }
}

} // verus!
