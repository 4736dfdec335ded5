//! The formatter: turns a package-detail document or a search-result document
//! into the markup text the bot sends back. Every rendering function states
//! its full output as a spec-level character sequence.

use vstd::prelude::*;
use vstd::string::StringExecFns;
use crate::models::Meta;
use crate::models::Version;
use crate::models::Pkg;
use crate::models::SearchPackage;
use crate::models::SearchResult;
use crate::models::shows;
use crate::numtext::dec_str;
use crate::numtext::usize_to_string;

verus! {

/// How many search results are rendered individually before the listing is
/// cut off with a single "more results" link.
pub open spec fn truncation_window() -> int {
    11
}

/// The first displayable entry of a version listing, if any.
pub open spec fn first_shown(metas: Seq<Meta>) -> Option<Meta>
    decreases metas.len(),
{
    if metas.len() == 0 {
        None
    } else if shows(metas[0]) {
        Some(metas[0])
    } else {
        first_shown(metas.drop_first())
    }
}

/// The line the package view devotes to one repository: its first displayable
/// version, or nothing at all when no entry is displayable.
pub open spec fn repo_line(v: Version) -> Seq<char> {
    match first_shown(v.meta@) {
        Some(m) => "<b>"@ + v.repo@ + "</b>: <code>"@ + m.version@ + "</code>\n"@,
        None => Seq::<char>::empty(),
    }
}

/// The repository lines of a whole version matrix, in matrix order.
pub open spec fn matrix_text(vs: Seq<Version>) -> Seq<char>
    decreases vs.len(),
{
    if vs.len() == 0 {
        Seq::<char>::empty()
    } else {
        repo_line(vs[0]) + matrix_text(vs.drop_first())
    }
}

/// The whole package-detail message: bold name, blank line, description,
/// blank line, then one line per repository that has a displayable version.
pub open spec fn package_text(p: Pkg) -> Seq<char> {
    "<b>"@ + p.name@ + "</b>\n\n"@ + p.description@ + "\n\n"@ + matrix_text(p.version_matrix@)
}

/// The header line of a search reply for `n` matches.
pub open spec fn found_header(n: nat) -> Seq<char> {
    "<b>Found "@ + dec_str(n) + " matching package(s)</b>:\n\n"@
}

/// One rendered search entry: a link whose label and target both carry the
/// package name.
pub open spec fn entry_line(base: Seq<char>, name: Seq<char>) -> Seq<char> {
    "<a href=\""@ + base + "/packages/"@ + name + "\">"@ + name + "</a>\n"@
}

/// The rendered entries of a list of packages, in service order.
pub open spec fn entry_lines(pkgs: Seq<SearchPackage>, base: Seq<char>) -> Seq<char>
    decreases pkgs.len(),
{
    if pkgs.len() == 0 {
        Seq::<char>::empty()
    } else {
        entry_line(base, pkgs[0].name@) + entry_lines(pkgs.drop_first(), base)
    }
}

/// The trailing link shown when more matches exist than the truncation
/// window admits.
pub open spec fn more_line(base: Seq<char>, query: Seq<char>) -> Seq<char> {
    "\nFor more results, check out <a href=\""@ + base + "/search?q="@ + query
        + "&noredir=true\">packages.aosc.io</a>"@
}

/// The whole search reply: the count header, then every match rendered
/// individually while they fit the truncation window, else the first eleven
/// followed by one "more results" line.
pub open spec fn search_text(r: SearchResult, query: Seq<char>, base: Seq<char>) -> Seq<char> {
    if r.packages@.len() <= truncation_window() {
        found_header(r.packages@.len()) + entry_lines(r.packages@, base)
    } else {
        found_header(r.packages@.len()) + entry_lines(r.packages@.take(truncation_window()), base)
            + more_line(base, query)
    }
}

/// The ordered package names of a search result; rendering reads nothing
/// else of the entries.
pub open spec fn names_of(pkgs: Seq<SearchPackage>) -> Seq<Seq<char>> {
    pkgs.map_values(|p: SearchPackage| p.name@)
}

proof fn lemma_matrix_text_push(vs: Seq<Version>, v: Version)
    ensures
        matrix_text(vs.push(v)) == matrix_text(vs) + repo_line(v),
    decreases vs.len(),
{
    if vs.len() == 0 {
        assert(vs.push(v).drop_first() =~= vs);
        assert(matrix_text(vs.push(v)) =~= matrix_text(vs) + repo_line(v));
    } else {
        lemma_matrix_text_push(vs.drop_first(), v);
        assert(vs.push(v).drop_first() =~= vs.drop_first().push(v));
        assert(matrix_text(vs.push(v)) =~= matrix_text(vs) + repo_line(v));
    }
}

proof fn lemma_entry_lines_push(pkgs: Seq<SearchPackage>, p: SearchPackage, base: Seq<char>)
    ensures
        entry_lines(pkgs.push(p), base) == entry_lines(pkgs, base) + entry_line(base, p.name@),
    decreases pkgs.len(),
{
    if pkgs.len() == 0 {
        assert(pkgs.push(p).drop_first() =~= pkgs);
        assert(entry_lines(pkgs.push(p), base) =~= entry_lines(pkgs, base) + entry_line(
            base,
            p.name@,
        ));
    } else {
        lemma_entry_lines_push(pkgs.drop_first(), p, base);
        assert(pkgs.push(p).drop_first() =~= pkgs.drop_first().push(p));
        assert(entry_lines(pkgs.push(p), base) =~= entry_lines(pkgs, base) + entry_line(
            base,
            p.name@,
        ));
    }
}

/// The index of the first displayable entry, with the guarantee that nothing
/// before it is displayable; `None` exactly when no entry is displayable.
fn first_shown_index(metas: &Vec<Meta>) -> (r: Option<usize>)
    ensures
        match r {
            Some(j) => {
                &&& j < metas@.len()
                &&& shows(metas@[j as int])
                &&& forall|k: int| 0 <= k < j ==> !shows(metas@[k])
                &&& first_shown(metas@) == Some(metas@[j as int])
            },
            None => first_shown(metas@) is None,
        },
{
    let n = metas.len();
    let mut j: usize = 0;
    while j < n
        invariant
            n == metas@.len(),
            j <= n,
            forall|k: int| 0 <= k < j ==> !shows(metas@[k]),
        decreases n - j,
    {
        let m = &metas[j];
        if m.hasmeta && !m.version.as_str().is_empty() {
            proof {
                lemma_first_shown_at(metas@, j as int);
            }
            return Some(j);
        }
        j += 1;
    }
    proof {
        lemma_first_shown_none(metas@);
    }
    None
}

/// `first_shown` picks index `j` when `j` is displayable and nothing
/// before it is.
pub proof fn lemma_first_shown_at(metas: Seq<Meta>, j: int)
    requires
        0 <= j < metas.len(),
        shows(metas[j]),
        forall|k: int| 0 <= k < j ==> !shows(metas[k]),
    ensures
        first_shown(metas) == Some(metas[j]),
    decreases j,
{
    if j > 0 {
        lemma_first_shown_at(metas.drop_first(), j - 1);
    }
}

/// `first_shown` finds nothing when no entry is displayable.
pub proof fn lemma_first_shown_none(metas: Seq<Meta>)
    requires
        forall|k: int| 0 <= k < metas.len() ==> !shows(metas[k]),
    ensures
        first_shown(metas) is None,
    decreases metas.len(),
{
    if metas.len() > 0 {
        lemma_first_shown_none(metas.drop_first());
    }
}

impl Pkg {
    /// Renders the package-detail message exactly as `package_text` states it.
    pub fn render(&self) -> (r: String)
        ensures
            r@ == package_text(*self),
    {
        let mut s: String = "<b>".to_owned();
        s.append(self.name.as_str());
        s.append("</b>\n\n");
        s.append(self.description.as_str());
        s.append("\n\n");
        let ghost head: Seq<char> = "<b>"@ + self.name@ + "</b>\n\n"@ + self.description@
            + "\n\n"@;
        proof {
            assert(s@ =~= head + matrix_text(self.version_matrix@.take(0)));
        }
        let n = self.version_matrix.len();
        let mut i: usize = 0;
        while i < n
            invariant
                n == self.version_matrix@.len(),
                i <= n,
                head == "<b>"@ + self.name@ + "</b>\n\n"@ + self.description@ + "\n\n"@,
                s@ == head + matrix_text(self.version_matrix@.take(i as int)),
            decreases n - i,
        {
            let v = &self.version_matrix[i];
            match first_shown_index(&v.meta) {
                Some(j) => {
                    s.append("<b>");
                    s.append(v.repo.as_str());
                    s.append("</b>: <code>");
                    s.append(v.meta[j].version.as_str());
                    s.append("</code>\n");
                },
                None => {
                },
            }
            proof {
                lemma_matrix_text_push(self.version_matrix@.take(i as int), self.version_matrix@[i as int]);
                assert(self.version_matrix@.take(i as int).push(self.version_matrix@[i as int])
                    =~= self.version_matrix@.take(i as int + 1));
                assert(s@ =~= head + matrix_text(self.version_matrix@.take(i as int + 1)));
            }
            i += 1;
        }
        proof {
            assert(self.version_matrix@.take(n as int) =~= self.version_matrix@);
            assert(s@ =~= package_text(*self));
        }
        s
    }
}

impl SearchResult {
    /// Renders the search reply exactly as `search_text` states it.
    pub fn fmt_result(&self, search: &str, package_site_url: &str) -> (r: String)
        ensures
            r@ == search_text(*self, search@, package_site_url@),
    {
        let n = self.packages.len();
        let mut s: String = "<b>Found ".to_owned();
        let count = usize_to_string(n);
        s.append(count.as_str());
        s.append(" matching package(s)</b>:\n\n");
        proof {
            assert(s@ =~= found_header(n as nat) + entry_lines(
                self.packages@.take(0),
                package_site_url@,
            ));
        }
        let limit: usize = if n <= 11 {
            n
        } else {
            11
        };
        let mut i: usize = 0;
        while i < limit
            invariant
                n == self.packages@.len(),
                limit == if n <= 11 { n as int } else { truncation_window() },
                i <= limit,
                s@ == found_header(n as nat) + entry_lines(
                    self.packages@.take(i as int),
                    package_site_url@,
                ),
            decreases limit - i,
        {
            let p = &self.packages[i];
            s.append("<a href=\"");
            s.append(package_site_url);
            s.append("/packages/");
            s.append(p.name.as_str());
            s.append("\">");
            s.append(p.name.as_str());
            s.append("</a>\n");
            proof {
                lemma_entry_lines_push(
                    self.packages@.take(i as int),
                    self.packages@[i as int],
                    package_site_url@,
                );
                assert(self.packages@.take(i as int).push(self.packages@[i as int])
                    =~= self.packages@.take(i as int + 1));
                assert(s@ =~= found_header(n as nat) + entry_lines(
                    self.packages@.take(i as int + 1),
                    package_site_url@,
                ));
            }
            i += 1;
        }
        if n > 11 {
            s.append("\nFor more results, check out <a href=\"");
            s.append(package_site_url);
            s.append("/search?q=");
            s.append(search);
            s.append("&noredir=true\">packages.aosc.io</a>");
            proof {
                assert(s@ =~= search_text(*self, search@, package_site_url@));
            }
        } else {
            proof {
                assert(self.packages@.take(n as int) =~= self.packages@);
                assert(s@ =~= search_text(*self, search@, package_site_url@));
            }
        }
        s
    }
}

} // verus!
