//! The cross-reference resolver.
//!
//! Body text may contain tokens of the form `{identifier}` or
//! `{identifier,label}`.  An identifier is a nonempty run of characters
//! other than `,` and `}`; a label is a nonempty run of characters other
//! than `}`.  Tokens are matched left to right, non-overlapping and
//! non-nested; text outside tokens is copied through unchanged.  Every
//! identifier must name a page of the site index; the first one that does
//! not fails the whole resolution, with no partial output.

use vstd::prelude::*;
use vstd::string::StrSliceExecFns;
use vstd::string::StringExecFns;
use crate::index::SiteIndex;
use crate::markup::spec_anchor;
use crate::markup::render_anchor;

verus! {

/// Characters an identifier may contain.
pub open spec fn is_ident_char(c: char) -> bool {
    c != ',' && c != '}'
}

/// Characters a label may contain.
pub open spec fn is_label_char(c: char) -> bool {
    c != '}'
}

/// Length of the run of identifier characters starting at `j`.
pub open spec fn ident_run_len(s: Seq<char>, j: int) -> nat
    decreases s.len() - j,
{
    if j < s.len() && is_ident_char(s[j]) {
        (1 + ident_run_len(s, j + 1)) as nat
    } else {
        0
    }
}

/// Length of the run of label characters starting at `j`.
pub open spec fn label_run_len(s: Seq<char>, j: int) -> nat
    decreases s.len() - j,
{
    if j < s.len() && is_label_char(s[j]) {
        (1 + label_run_len(s, j + 1)) as nat
    } else {
        0
    }
}

/// A parsed token: its identifier, its label if one was given, and the
/// position just past its closing brace.
pub struct SpecToken {
    pub ident: Seq<char>,
    pub label: Option<Seq<char>>,
    pub end: int,
}

/// The token starting at position `i`, if any: an opening brace, a
/// nonempty greedy identifier run, then either a closing brace or a
/// comma, a nonempty greedy label run and a closing brace.
pub open spec fn token_at(s: Seq<char>, i: int) -> Option<SpecToken> {
    if 0 <= i < s.len() && s[i] == '{' {
        let il = ident_run_len(s, i + 1) as int;
        let ie = i + 1 + il;
        if il == 0 {
            None
        } else if ie < s.len() && s[ie] == '}' {
            Some(SpecToken { ident: s.subrange(i + 1, ie), label: None, end: ie + 1 })
        } else if ie < s.len() && s[ie] == ',' {
            let ll = label_run_len(s, ie + 1) as int;
            let le = ie + 1 + ll;
            if ll > 0 && le < s.len() && s[le] == '}' {
                Some(
                    SpecToken {
                        ident: s.subrange(i + 1, ie),
                        label: Some(s.subrange(ie + 1, le)),
                        end: le + 1,
                    },
                )
            } else {
                None
            }
        } else {
            None
        }
    } else {
        None
    }
}

/// The markup a token is replaced with: an anchor to `<identifier>.html`
/// whose text is the label when one was given, else the identifier.
pub open spec fn spec_link_markup(ident: Seq<char>, label: Option<Seq<char>>) -> Seq<char> {
    spec_anchor(
        ident + ".html"@,
        match label {
            Some(l) => l,
            None => ident,
        },
    )
}

/// The views of a sequence of strings.
pub open spec fn seq_views(v: Seq<String>) -> Seq<Seq<char>> {
    v.map_values(|p: String| p@)
}

/// Resolution of `s` from position `i` on against the identifiers `ids`:
/// either the text with every token replaced by its link markup, or the
/// first identifier that `ids` does not contain.
pub open spec fn resolve_from(s: Seq<char>, ids: Seq<Seq<char>>, i: int) -> Result<
    Seq<char>,
    Seq<char>,
>
    decreases s.len() - i,
{
    if i >= s.len() {
        Ok(Seq::empty())
    } else {
        match token_at(s, i) {
            Some(t) => {
                if ids.contains(t.ident) {
                    match resolve_from(s, ids, t.end) {
                        Ok(rest) => Ok(spec_link_markup(t.ident, t.label) + rest),
                        Err(e) => Err(e),
                    }
                } else {
                    Err(t.ident)
                }
            },
            None => match resolve_from(s, ids, i + 1) {
                Ok(rest) => Ok(seq![s[i]] + rest),
                Err(e) => Err(e),
            },
        }
    }
}

/// No position of `s` starts a token.
pub open spec fn token_free(s: Seq<char>) -> bool {
    forall|i: int| token_at(s, i) is None
}

proof fn lemma_resolve_token_free_from(s: Seq<char>, ids: Seq<Seq<char>>, i: int)
    requires
        0 <= i <= s.len(),
        token_free(s),
    ensures
        resolve_from(s, ids, i) == Ok::<Seq<char>, Seq<char>>(s.skip(i)),
    decreases s.len() - i,
{
    if i == s.len() {
        assert(s.skip(i) =~= Seq::<char>::empty());
    } else {
        assert(token_at(s, i) is None);
        lemma_resolve_token_free_from(s, ids, i + 1);
        assert(seq![s[i]] + s.skip(i + 1) =~= s.skip(i));
    }
}

/// Law: resolving text that contains no token returns it unchanged,
/// whatever the index holds.  In particular, resolving the output of a
/// successful resolution a second time is a no-op once that output
/// contains no more tokens.
pub proof fn lemma_resolve_token_free_identity(s: Seq<char>, ids: Seq<Seq<char>>)
    requires
        token_free(s),
    ensures
        resolve_from(s, ids, 0) == Ok::<Seq<char>, Seq<char>>(s),
{
    lemma_resolve_token_free_from(s, ids, 0);
    assert(s.skip(0) =~= s);
}

/// The error of a failed resolution: a token named an identifier absent
/// from the site index.
#[derive(Debug)]
pub struct DanglingReference {
    pub identifier: String,
}

impl DanglingReference {
    /// The resolver's report, naming the offending identifier.
    pub fn message(&self) -> (r: String)
        ensures
            r@ == "Found bad link '"@ + self.identifier@ + "'"@,
    {
        let mut m = String::from_str("Found bad link '");
        m.append(self.identifier.as_str());
        m.append("'");
        m
    }
}

/// Renders the replacement markup for one resolved reference.
pub fn generate_link(file_name: &str, pretty_name: Option<&str>) -> (r: String)
    ensures
        r@ == spec_link_markup(
            file_name@,
            match pretty_name {
                Some(p) => Some(p@),
                None => None,
            },
        ),
{
    let mut href = String::from_str(file_name);
    href.append(".html");
    match pretty_name {
        Some(p) => render_anchor(href.as_str(), p),
        None => render_anchor(href.as_str(), file_name),
    }
}

/// The span of a token found in a string: the positions just past the
/// identifier and label runs, and just past the closing brace.
struct TokenSpan {
    ident_end: usize,
    label_end: usize,
    has_label: bool,
    end: usize,
}

/// Scans for a token starting exactly at position `i`.
fn find_token(s: &str, i: usize) -> (r: Option<TokenSpan>)
    requires
        i < s@.len(),
    ensures
        match r {
            Some(t) => {
                let st = token_at(s@, i as int)->Some_0;
                &&& token_at(s@, i as int) is Some
                &&& i + 1 < t.ident_end < s@.len()
                &&& st.ident == s@.subrange(i as int + 1, t.ident_end as int)
                &&& st.end == t.end
                &&& i + 2 < t.end <= s@.len()
                &&& t.has_label ==> t.ident_end + 1 < t.label_end < s@.len() && st.label
                    == Some(s@.subrange(t.ident_end as int + 1, t.label_end as int))
                &&& !t.has_label ==> st.label is None
            },
            None => token_at(s@, i as int) is None,
        },
{
    if s.get_char(i) != '{' {
        return None;
    }
    let n = s.unicode_len();
    let mut j = i + 1;
    while j < n && s.get_char(j) != ',' && s.get_char(j) != '}'
        invariant
            i + 1 <= j <= n,
            n == s@.len(),
            i < n,
            s@[i as int] == '{',
            forall|k: int| i + 1 <= k < j ==> is_ident_char(s@[k]),
            ident_run_len(s@, i as int + 1) == j - i - 1 + ident_run_len(s@, j as int),
        decreases n - j,
    {
        j = j + 1;
    }
    proof {
        assert(ident_run_len(s@, j as int) == 0);
        assert(ident_run_len(s@, i as int + 1) == j - i - 1);
    }
    if j == i + 1 {
        return None;
    }
    if j == n {
        return None;
    }
    let c = s.get_char(j);
    if c == '}' {
        return Some(TokenSpan { ident_end: j, label_end: 0, has_label: false, end: j + 1 });
    }
    if c == ',' {
        let mut k = j + 1;
        while k < n && s.get_char(k) != '}'
            invariant
                j + 1 <= k <= n,
                n == s@.len(),
                forall|m: int| j + 1 <= m < k ==> is_label_char(s@[m]),
                label_run_len(s@, j as int + 1) == k - j - 1 + label_run_len(s@, k as int),
            decreases n - k,
        {
            k = k + 1;
        }
        proof {
            assert(label_run_len(s@, k as int) == 0);
            assert(label_run_len(s@, j as int + 1) == k - j - 1);
        }
        if k == j + 1 {
            return None;
        }
        if k == n {
            return None;
        }
        return Some(TokenSpan { ident_end: j, label_end: k, has_label: true, end: k + 1 });
    }
    None
}

/// Tests whether the index knows an identifier.
fn contains_id(pages: &Vec<String>, ident: &String) -> (r: bool)
    ensures
        r == seq_views(pages@).contains(ident@),
{
    let mut k: usize = 0;
    while k < pages.len()
        invariant
            k <= pages@.len(),
            forall|m: int| 0 <= m < k ==> pages@[m]@ != ident@,
        decreases pages@.len() - k,
    {
        if pages[k] == *ident {
            proof {
                assert(seq_views(pages@)[k as int] == ident@);
            }
            return true;
        }
        k = k + 1;
    }
    proof {
        assert forall|m: int| 0 <= m < seq_views(pages@).len() implies seq_views(pages@)[m]
            != ident@ by {}
    }
    false
}

/// Rewrites every cross-reference token of `input` into link markup,
/// validating each against the site index; fails on the first unknown
/// identifier, returning no partial output.
pub fn replace_file_links(input: &str, index: &SiteIndex) -> (r: Result<String, DanglingReference>)
    ensures
        match r {
            Ok(out) => resolve_from(input@, index.ids(), 0) == Ok::<Seq<char>, Seq<char>>(out@),
            Err(e) => resolve_from(input@, index.ids(), 0) == Err::<Seq<char>, Seq<char>>(
                e.identifier@,
            ),
        },
{
    let n = input.unicode_len();
    let mut out = String::new();
    let mut i: usize = 0;
    proof {
        match resolve_from(input@, index.ids(), 0) {
            Ok(rest) => {
                assert(Seq::<char>::empty() + rest =~= rest);
            },
            Err(_) => {},
        }
    }
    while i < n
        invariant
            i <= n,
            n == input@.len(),
            ({
                let full = resolve_from(input@, index.ids(), 0);
                let rest = resolve_from(input@, index.ids(), i as int);
                full == match rest {
                    Ok(r_) => Ok::<Seq<char>, Seq<char>>(out@ + r_),
                    Err(e_) => Err::<Seq<char>, Seq<char>>(e_),
                }
            }),
        decreases n - i,
    {
        let ghost out_pre = out@;
        let ghost i_pre = i as int;
        match find_token(input, i) {
            Some(t) => {
                let ident = String::from_str(input.substring_char(i + 1, t.ident_end));
                if !contains_id(&index.pages, &ident) {
                    proof {
                        let st = token_at(input@, i_pre)->Some_0;
                        assert(resolve_from(input@, index.ids(), i_pre) == Err::<
                            Seq<char>,
                            Seq<char>,
                        >(st.ident));
                    }
                    return Err(DanglingReference { identifier: ident });
                }
                let link = if t.has_label {
                    let label = input.substring_char(t.ident_end + 1, t.label_end);
                    generate_link(ident.as_str(), Some(label))
                } else {
                    generate_link(ident.as_str(), None)
                };
                out.append(link.as_str());
                i = t.end;
                proof {
                    let st = token_at(input@, i_pre)->Some_0;
                    match resolve_from(input@, index.ids(), st.end) {
                        Ok(rest) => {
                            assert((out_pre + link@) + rest =~= out_pre + (
                            spec_link_markup(st.ident, st.label) + rest));
                        },
                        Err(_) => {},
                    }
                }
            },
            None => {
                let piece = input.substring_char(i, i + 1);
                out.append(piece);
                i = i + 1;
                proof {
                    assert(piece@ =~= seq![input@[i_pre]]);
                    match resolve_from(input@, index.ids(), i_pre + 1) {
                        Ok(rest) => {
                            assert((out_pre + piece@) + rest =~= out_pre + (
                            seq![input@[i_pre]] + rest));
                        },
                        Err(_) => {},
                    }
                }
            },
        }
    }
    proof {
        assert(resolve_from(input@, index.ids(), n as int) == Ok::<Seq<char>, Seq<char>>(
            Seq::empty(),
        ));
        assert(out@ + Seq::<char>::empty() =~= out@);
    }
    Ok(out)
}

} // verus!

