//! The style composer: builds the content of the active stylesheet from a
//! style name and either a fresh source template or the sheet already in
//! place.
//!
//! A stylesheet's first line is the import directive naming its theme. A
//! fresh apply puts a new directive above an entire source template; a
//! re-apply replaces the first line of the current sheet and keeps the rest.

use vstd::prelude::*;
use vstd::string::*;

use crate::errors::BarChangerError;
use crate::errors::is_invalid_input;

verus! {

/// The import directive naming the theme `style`.
pub open spec fn import_line_of(style: Seq<char>) -> Seq<char> {
    "@import 'themes/"@ + style + ".css';"@
}

/// A stylesheet freshly applied: the directive for `style`, a newline, then
/// the source template unmodified.
pub open spec fn fresh_style_of(style: Seq<char>, source: Seq<char>) -> Seq<char> {
    import_line_of(style) + "\n"@ + source
}

/// Whether `s` contains a newline at all — a sheet without one has no second
/// line to keep, so a re-apply must reject it.
pub open spec fn has_newline(s: Seq<char>) -> bool {
    exists|i: int| 0 <= i < s.len() && s[i] == '\n'
}

/// Holds when `i` is the position of the first newline of `s`.
pub open spec fn is_first_newline(s: Seq<char>, i: int) -> bool {
    &&& 0 <= i < s.len()
    &&& s[i] == '\n'
    &&& forall|j: int| 0 <= j < i ==> s[j] != '\n'
}

/// The position of the first newline of `s`; meaningful only when
/// `has_newline(s)` holds.
pub open spec fn first_newline(s: Seq<char>) -> int {
    choose|i: int| is_first_newline(s, i)
}

/// Everything of `s` after its first line: the part a re-apply keeps.
pub open spec fn tail_after_first_line(s: Seq<char>) -> Seq<char> {
    s.subrange(first_newline(s) + 1, s.len() as int)
}

/// A stylesheet re-applied in place: the directive for `style`, a newline,
/// then everything after the first line of the sheet `active`.
pub open spec fn reapplied_style_of(style: Seq<char>, active: Seq<char>) -> Seq<char> {
    import_line_of(style) + "\n"@ + tail_after_first_line(active)
}

/// At most one position can be the first newline.
pub proof fn lemma_first_newline_unique(s: Seq<char>, i1: int, i2: int)
    requires
        is_first_newline(s, i1),
        is_first_newline(s, i2),
    ensures
        i1 == i2,
{
    if i1 < i2 {
        assert(s[i1] != '\n');
    }
    if i2 < i1 {
        assert(s[i2] != '\n');
    }
}

/// The import directive for a style name without newlines holds no newline
/// itself.
pub proof fn lemma_import_line_newline_free(style: Seq<char>)
    requires
        !has_newline(style),
    ensures
        !has_newline(import_line_of(style)),
{
    reveal_strlit("@import 'themes/");
    reveal_strlit(".css';");
    let pre = "@import 'themes/"@;
    let suf = ".css';"@;
    let imp = import_line_of(style);
    assert forall|i: int| 0 <= i < imp.len() implies imp[i] != '\n' by {
        if i < pre.len() {
            assert(imp[i] == pre[i]);
        } else if i < pre.len() + style.len() {
            assert(imp[i] == style[i - pre.len()]);
        } else {
            assert(imp[i] == suf[i - pre.len() - style.len()]);
        }
    }
}

/// A fresh apply is a function of the style and the bar's source template
/// alone — whatever sheet was active before never enters it — so applying
/// the same bar and style twice composes identical content both times.
pub proof fn lemma_fresh_apply_idempotent(
    style: Seq<char>,
    source: Seq<char>,
    first: Seq<char>,
    second: Seq<char>,
)
    requires
        first == fresh_style_of(style, source),
        second == fresh_style_of(style, source),
    ensures
        first == second,
{
}

/// The style-only round trip: re-applying a style over a freshly applied
/// sheet swaps exactly the import directive and keeps the body, so the
/// result is the fresh sheet of the new style. Holds for any style name
/// without a newline in it — with one, the sheet's first line would end
/// inside the directive and the re-apply would keep part of it.
pub proof fn lemma_style_round_trip(
    first_style: Seq<char>,
    second_style: Seq<char>,
    source: Seq<char>,
)
    requires
        !has_newline(first_style),
    ensures
        reapplied_style_of(second_style, fresh_style_of(first_style, source)) == fresh_style_of(
            second_style,
            source,
        ),
{
    reveal_strlit("\n");
    let imp = import_line_of(first_style);
    let a = fresh_style_of(first_style, source);
    let li = imp.len() as int;
    lemma_import_line_newline_free(first_style);
    assert(a[li] == '\n');
    assert(is_first_newline(a, li)) by {
        assert forall|j: int| 0 <= j < li implies a[j] != '\n' by {
            assert(a[j] == imp[j]);
        }
    }
    let fi = first_newline(a);
    assert(is_first_newline(a, fi));
    lemma_first_newline_unique(a, fi, li);
    assert(tail_after_first_line(a) =~= source);
    assert(reapplied_style_of(second_style, a) =~= fresh_style_of(second_style, source));
}

/// Builds the import directive for the theme `style`.
pub fn import_line(style: &String) -> (r: String)
    ensures
        r@ == import_line_of(style@),
{
    let mut s = String::from_str("@import 'themes/");
    s.append(style.as_str());
    s.append(".css';");
    s
}

/// Composes a freshly applied stylesheet: the directive for `style` above
/// the whole source template. Whatever sheet was active before plays no part.
pub fn compose_fresh(style: &String, source: &String) -> (r: String)
    ensures
        r@ == fresh_style_of(style@, source@),
{
    let mut s = import_line(style);
    s.append("\n");
    s.append(source.as_str());
    s
}

/// The position of the first newline of `s`, if any.
fn find_first_newline(s: &str) -> (r: Option<usize>)
    ensures
        match r {
            Some(i) => is_first_newline(s@, i as int),
            None => !has_newline(s@),
        },
{
    let n = s.unicode_len();
    let mut i: usize = 0;
    while i < n
        invariant
            i <= n,
            n == s@.len(),
            forall|j: int| 0 <= j < i ==> s@[j] != '\n',
        decreases n - i,
    {
        if s.get_char(i) == '\n' {
            return Some(i);
        }
        i += 1;
    }
    None
}

/// Composes a re-applied stylesheet: the directive for `style` replaces the
/// first line of `active`, and everything after that line is kept. A sheet
/// with no newline has nothing to keep and is rejected as invalid input.
pub fn compose_reapplied(style: &String, active: &String) -> (r: Result<String, BarChangerError>)
    ensures
        has_newline(active@) ==> r is Ok && r->Ok_0@ == reapplied_style_of(style@, active@),
        !has_newline(active@) ==> is_invalid_input(r, "Failed to get styling"@),
{
    match find_first_newline(active.as_str()) {
        Some(i) => {
            let n = active.as_str().unicode_len();
            let tail = active.as_str().substring_char(i + 1, n);
            let mut s = import_line(style);
            s.append("\n");
            s.append(tail);
            proof {
                assert(is_first_newline(active@, i as int));
                let fi = first_newline(active@);
                assert(is_first_newline(active@, fi));
                lemma_first_newline_unique(active@, fi, i as int);
                assert(s@ =~= reapplied_style_of(style@, active@));
            }
            Ok(s)
        },
        None => Err(BarChangerError::InvalidInput(String::from_str("Failed to get styling"))),
    }
}

} // verus!
