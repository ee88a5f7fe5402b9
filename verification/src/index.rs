//! The site index: the frozen set of known page identifiers, and the
//! synthesized page that lists them.

use vstd::prelude::*;
use vstd::string::StringExecFns;
use crate::links::seq_views;
use crate::markup::spec_anchor;
use crate::markup::spec_div;
use crate::markup::spec_h2;
use crate::markup::spec_li;
use crate::markup::spec_ul;
use crate::markup::render_anchor;
use crate::markup::render_div;
use crate::markup::render_h2;
use crate::markup::render_li;
use crate::markup::render_ul;
use crate::naming::file_stem;
use crate::naming::spec_file_stem;
use crate::web_page::PageSource;
use crate::web_page::WebPage;

verus! {

/// The site-wide index, built once per run from the complete list of
/// page sources, before any page is resolved, and read-only thereafter.
pub struct SiteIndex {
    /// The synthesized listing page, identifier `index`.
    pub page: WebPage,
    /// The identifiers of all known pages, in source order.
    pub pages: Vec<String>,
}

impl SiteIndex {
    /// The identifiers this index knows, in source order.
    pub open spec fn ids(&self) -> Seq<Seq<char>> {
        seq_views(self.pages@)
    }
}

/// The list items of the index page: one anchor per identifier, href
/// `<identifier>.html`, text the identifier itself, in order.
pub open spec fn spec_index_items(ids: Seq<Seq<char>>) -> Seq<char>
    decreases ids.len(),
{
    if ids.len() == 0 {
        Seq::empty()
    } else {
        spec_index_items(ids.drop_last()) + spec_li(
            spec_anchor(ids.last() + ".html"@, ids.last()),
        )
    }
}

/// The content of the index page: a `Site Index` heading and the listing.
pub open spec fn spec_index_content(ids: Seq<Seq<char>>) -> Seq<char> {
    spec_div(spec_h2("Site Index"@) + spec_ul(spec_index_items(ids)))
}

/// Builds the site index from the full list of page sources: the
/// identifiers are the sources' file stems, in source order, and the
/// synthesized page lists them under identifier `index`.
pub fn get_site_index(sources: &Vec<PageSource>) -> (r: SiteIndex)
    ensures
        r.ids() == sources@.map_values(|ps: PageSource| spec_file_stem(ps.file_name@)),
        r.page.name@ == "index"@,
        r.page.content@ == spec_index_content(r.ids()),
        r.page.wf(),
{
    let mut items = String::new();
    let mut stems: Vec<String> = Vec::new();
    let mut k: usize = 0;
    proof {
        assert(seq_views(stems@) =~= Seq::<Seq<char>>::empty());
    }
    while k < sources.len()
        invariant
            k <= sources@.len(),
            stems@.len() == k,
            forall|m: int| 0 <= m < k ==> stems@[m]@ == spec_file_stem(sources@[m].file_name@),
            items@ == spec_index_items(seq_views(stems@)),
        decreases sources@.len() - k,
    {
        let stem = file_stem(sources[k].file_name.as_str());
        let mut href = String::from_str(stem.as_str());
        href.append(".html");
        let anchor = render_anchor(href.as_str(), stem.as_str());
        let li = render_li(anchor.as_str());
        items.append(li.as_str());
        let ghost stems_pre = stems@;
        stems.push(stem);
        k = k + 1;
        proof {
            let vs = seq_views(stems@);
            assert(vs.drop_last() =~= seq_views(stems_pre));
            assert(vs.last() == stems@[stems@.len() - 1]@);
        }
    }
    let listing = render_ul(items.as_str());
    let mut inner = render_h2("Site Index");
    inner.append(listing.as_str());
    let content = render_div(inner.as_str());
    let page = WebPage::from_string(String::from_str("index"), content);
    let r = SiteIndex { page, pages: stems };
    proof {
        assert(r.ids() =~= sources@.map_values(
            |ps: PageSource| spec_file_stem(ps.file_name@),
        ));
    }
    r
}

} // verus!
