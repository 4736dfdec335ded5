//! Properties of the formatter that hold of every input, stated once and
//! proved from the rendering specifications.

use vstd::prelude::*;
use crate::format::entry_line;
use crate::format::entry_lines;
use crate::format::found_header;
use crate::format::lemma_first_shown_at;
use crate::format::lemma_first_shown_none;
use crate::format::matrix_text;
use crate::format::more_line;
use crate::format::names_of;
use crate::format::repo_line;
use crate::format::search_text;
use crate::format::truncation_window;
use crate::models::SearchPackage;
use crate::models::SearchResult;
use crate::models::Version;
use crate::models::shows;

verus! {

proof fn lemma_matrix_text_concat(a: Seq<Version>, b: Seq<Version>)
    ensures
        matrix_text(a + b) == matrix_text(a) + matrix_text(b),
    decreases a.len(),
{
    if a.len() == 0 {
        assert(a + b =~= b);
        assert(matrix_text(a + b) =~= matrix_text(a) + matrix_text(b));
    } else {
        lemma_matrix_text_concat(a.drop_first(), b);
        assert((a + b).drop_first() =~= a.drop_first() + b);
        assert((a + b)[0] == a[0]);
        assert(matrix_text(a + b) =~= matrix_text(a) + matrix_text(b));
    }
}

/// A repository none of whose entries is displayable is omitted entirely:
/// the rendered version matrix is the same as if the repository were not
/// there at all — no row and no placeholder.
pub proof fn lemma_undisplayable_repo_omitted(vs: Seq<Version>, i: int)
    requires
        0 <= i < vs.len(),
        forall|k: int| 0 <= k < vs[i].meta@.len() ==> !shows(#[trigger] vs[i].meta@[k]),
    ensures
        matrix_text(vs) == matrix_text(vs.remove(i)),
{
    lemma_first_shown_none(vs[i].meta@);
    let a = vs.subrange(0, i);
    let m = seq![vs[i]];
    let b = vs.subrange(i + 1, vs.len() as int);
    assert(vs =~= (a + m) + b);
    assert(vs.remove(i) =~= a + b);
    lemma_matrix_text_concat(a + m, b);
    lemma_matrix_text_concat(a, m);
    lemma_matrix_text_concat(a, b);
    assert(m.len() == 1);
    assert(m.drop_first() =~= Seq::<Version>::empty());
    assert(matrix_text(Seq::<Version>::empty()) =~= Seq::<char>::empty());
    assert(m[0] == vs[i]);
    assert(repo_line(vs[i]) =~= Seq::<char>::empty());
    assert(matrix_text(m) =~= Seq::<char>::empty());
    assert(matrix_text(vs) =~= matrix_text(vs.remove(i)));
}

/// Of several displayable entries, the first in listing order decides the
/// rendered version; later displayable entries change nothing.
pub proof fn lemma_first_displayable_entry_wins(v: Version, j: int)
    requires
        0 <= j < v.meta@.len(),
        shows(v.meta@[j]),
        forall|k: int| 0 <= k < j ==> !shows(#[trigger] v.meta@[k]),
    ensures
        repo_line(v) == "<b>"@ + v.repo@ + "</b>: <code>"@ + v.meta@[j].version@ + "</code>\n"@,
{
    lemma_first_shown_at(v.meta@, j);
}

/// The truncation window: while the matches fit it, every one renders and no
/// "more results" line appears; past it, exactly the first eleven render and
/// a single "more results" line follows.
pub proof fn lemma_truncation_window(r: SearchResult, query: Seq<char>, base: Seq<char>)
    ensures
        r.packages@.len() <= truncation_window() ==> search_text(r, query, base) == found_header(
            r.packages@.len(),
        ) + entry_lines(r.packages@, base),
        r.packages@.len() > truncation_window() ==> search_text(r, query, base) == found_header(
            r.packages@.len(),
        ) + entry_lines(r.packages@.take(truncation_window()), base) + more_line(base, query),
{
}

proof fn lemma_entry_lines_names(a: Seq<SearchPackage>, b: Seq<SearchPackage>, base: Seq<char>)
    requires
        names_of(a) == names_of(b),
    ensures
        entry_lines(a, base) == entry_lines(b, base),
    decreases a.len(),
{
    assert(names_of(a).len() == a.len());
    assert(names_of(b).len() == b.len());
    if a.len() == 0 {
        assert(entry_lines(a, base) =~= entry_lines(b, base));
    } else {
        assert(names_of(a)[0] == a[0].name@);
        assert(names_of(b)[0] == b[0].name@);
        assert(names_of(a.drop_first()) =~= names_of(a).drop_first());
        assert(names_of(b.drop_first()) =~= names_of(b).drop_first());
        lemma_entry_lines_names(a.drop_first(), b.drop_first(), base);
        assert(entry_line(base, a[0].name@) == entry_line(base, b[0].name@));
        assert(entry_lines(a, base) =~= entry_lines(b, base));
    }
}

/// Rendering a search result reads nothing beyond the ordered package names:
/// two results whose name sequences agree — for instance a result and any
/// re-decoding that reproduces its names in order — render identically, count
/// header and entry order included.
pub proof fn lemma_search_rendering_names_only(
    a: SearchResult,
    b: SearchResult,
    query: Seq<char>,
    base: Seq<char>,
)
    requires
        names_of(a.packages@) == names_of(b.packages@),
    ensures
        search_text(a, query, base) == search_text(b, query, base),
{
    assert(names_of(a.packages@).len() == a.packages@.len());
    assert(names_of(b.packages@).len() == b.packages@.len());
    lemma_entry_lines_names(a.packages@, b.packages@, base);
    if a.packages@.len() > truncation_window() {
        assert(names_of(a.packages@.take(truncation_window())) =~= names_of(
            a.packages@,
        ).take(truncation_window()));
        assert(names_of(b.packages@.take(truncation_window())) =~= names_of(
            b.packages@,
        ).take(truncation_window()));
        lemma_entry_lines_names(
            a.packages@.take(truncation_window()),
            b.packages@.take(truncation_window()),
            base,
        );
    }
}

} // verus!
