//! The path mapper: classification of files by extension, the
//! extension swap for articles, and the canonical `/`-joined URL.
//!
//! Paths are handled as their components relative to the input root;
//! a component that is not a plain name is a fatal error, so mapped
//! paths can never escape the roots.

use vstd::prelude::*;

use crate::errors::PipelineError;

verus! {

/// How one file is handled.
#[derive(Clone, Copy, Debug, PartialEq, Eq, Structural)]
pub enum FileKind {
    /// A markdown article, rendered to HTML.
    Article,
    /// Anything else, copied verbatim.
    Media,
}

/// The views of a sequence of strings.
pub open spec fn seq_views(parts: Seq<String>) -> Seq<Seq<char>> {
    parts.map_values(|s: String| s@)
}

/// Index of the last `.` in `s`, if any.
pub open spec fn last_dot(s: Seq<char>) -> Option<int>
    decreases s.len(),
{
    if s.len() == 0 {
        None
    } else if s[s.len() - 1] == '.' {
        Some(s.len() - 1)
    } else {
        last_dot(s.take(s.len() - 1))
    }
}

/// The extension of a file name: the part after the last `.`, absent
/// when there is no `.` or the only `.` begins the name.
pub open spec fn extension_of(s: Seq<char>) -> Option<Seq<char>> {
    match last_dot(s) {
        Some(i) => if i == 0 {
            None
        } else {
            Some(s.subrange(i + 1, s.len() as int))
        },
        None => None,
    }
}

/// How a file name classifies: articles carry the extension `md` or
/// `markdown`; a name without an extension is a fatal error.
pub open spec fn spec_classify(s: Seq<char>) -> Result<FileKind, PipelineError> {
    match extension_of(s) {
        Some(e) => if e == "md"@ || e == "markdown"@ {
            Ok(FileKind::Article)
        } else {
            Ok(FileKind::Media)
        },
        None => Err(PipelineError::NoExtension),
    }
}

/// The article's output name: the extension replaced by `html`.
pub open spec fn swap_to_html(name: Seq<char>) -> Seq<char> {
    name.take(last_dot(name)->0) + ".html"@
}

/// The output components of an article: the input components with the
/// last name's extension swapped to `html`.
pub open spec fn mapped_article_components(parts: Seq<Seq<char>>) -> Seq<Seq<char>> {
    parts.update(parts.len() - 1, swap_to_html(parts.last()))
}

/// A plain path component: non-empty, no current- or
/// parent-directory reference, no separator character.
pub open spec fn plain_component(c: Seq<char>) -> bool {
    c.len() > 0 && c != "."@ && c != ".."@ && !c.contains('/') && !c.contains('\\')
}

/// Every component is a plain name.
pub open spec fn all_plain(parts: Seq<Seq<char>>) -> bool {
    forall|i: int| 0 <= i < parts.len() ==> plain_component(#[trigger] parts[i])
}

/// The components joined by the separator `sep`.
pub open spec fn join_with(parts: Seq<Seq<char>>, sep: char) -> Seq<char>
    decreases parts.len(),
{
    if parts.len() == 0 {
        Seq::empty()
    } else if parts.len() == 1 {
        parts[0]
    } else {
        join_with(parts.drop_last(), sep) + seq![sep] + parts.last()
    }
}

/// `s` with every occurrence of the separator `sep` replaced by `/`.
pub open spec fn normalize_seps(s: Seq<char>, sep: char) -> Seq<char> {
    s.map_values(|c: char| if c == sep { '/' } else { c })
}

/// The last dot of a name, when present, is a `.` inside the name.
pub proof fn lemma_last_dot_bounds(s: Seq<char>)
    ensures
        last_dot(s) matches Some(i) ==> 0 <= i < s.len() && s[i] == '.',
    decreases s.len(),
{
    if s.len() > 0 && s[s.len() - 1] != '.' {
        lemma_last_dot_bounds(s.take(s.len() - 1));
    }
}

/// Character-for-character equality of two strings.
pub(crate) fn str_eq(a: &str, b: &str) -> (r: bool)
    ensures
        r == (a@ == b@),
{
    let na = a.unicode_len();
    let nb = b.unicode_len();
    if na != nb {
        return false;
    }
    let mut i: usize = 0;
    while i < na
        invariant
            0 <= i <= na,
            na == a@.len(),
            nb == b@.len(),
            na == nb,
            forall|k: int| 0 <= k < i ==> a@[k] == b@[k],
        decreases na - i,
    {
        if a.get_char(i) != b.get_char(i) {
            return false;
        }
        i = i + 1;
    }
    proof {
        assert(a@ =~= b@);
    }
    true
}

/// Finds the last `.` of a file name.
fn find_last_dot(name: &str) -> (r: Option<usize>)
    ensures
        r matches Some(i) ==> last_dot(name@) == Some(i as int) && i < name@.len(),
        r is None ==> last_dot(name@) is None,
{
    let n = name.unicode_len();
    proof {
        assert(name@.take(n as int) =~= name@);
    }
    let mut i: usize = n;
    while i > 0
        invariant
            0 <= i <= n,
            n == name@.len(),
            last_dot(name@) == last_dot(name@.take(i as int)),
        decreases i,
    {
        if name.get_char(i - 1) == '.' {
            assert(last_dot(name@.take(i as int)) == Some(i - 1 as int));
            return Some(i - 1);
        }
        proof {
            assert(name@.take(i as int).take(i - 1 as int) =~= name@.take(i - 1 as int));
        }
        i = i - 1;
    }
    assert(last_dot(name@.take(0)) is None);
    None
}

/// Classifies a file name by its extension: `md` and `markdown` make
/// an article, any other extension makes media, and a name without an
/// extension is a fatal error.
pub fn classify(name: &str) -> (r: Result<FileKind, PipelineError>)
    ensures
        r == spec_classify(name@),
{
    let n = name.unicode_len();
    match find_last_dot(name) {
        None => Err(PipelineError::NoExtension),
        Some(i) => {
            if i == 0 {
                Err(PipelineError::NoExtension)
            } else {
                let ext = name.substring_char(i + 1, n);
                if str_eq(ext, "md") || str_eq(ext, "markdown") {
                    Ok(FileKind::Article)
                } else {
                    Ok(FileKind::Media)
                }
            }
        },
    }
}

/// The output name of an article: the extension replaced by `html`.
pub fn article_output_name(name: &str) -> (r: String)
    requires
        last_dot(name@) matches Some(d) && d >= 1,
    ensures
        r@ == swap_to_html(name@),
{
    let n = name.unicode_len();
    let i = match find_last_dot(name) {
        Some(i) => i,
        None => {
            proof {
                assert(false);
            }
            0
        },
    };
    let stem = name.substring_char(0, i);
    proof {
        assert(stem@ =~= name@.take(i as int));
    }
    let mut out = String::from_str(stem);
    out.append(".html");
    out
}

/// Whether a component is a plain name.
pub fn component_ok(c: &str) -> (r: bool)
    ensures
        r == plain_component(c@),
{
    let n = c.unicode_len();
    if n == 0 {
        return false;
    }
    if str_eq(c, ".") || str_eq(c, "..") {
        return false;
    }
    let mut i: usize = 0;
    while i < n
        invariant
            0 <= i <= n,
            n == c@.len(),
            forall|k: int| 0 <= k < i ==> c@[k] != '/' && c@[k] != '\\',
        decreases n - i,
    {
        let ch = c.get_char(i);
        if ch == '/' || ch == '\\' {
            assert(c@.contains(ch));
            return false;
        }
        i = i + 1;
    }
    proof {
        if c@.contains('/') {
            let k = choose|k: int| 0 <= k < c@.len() && c@[k] == '/';
            assert(false);
        }
        if c@.contains('\\') {
            let k = choose|k: int| 0 <= k < c@.len() && c@[k] == '\\';
            assert(false);
        }
    }
    true
}

/// Whether every component is a plain name.
pub fn check_components(parts: &Vec<String>) -> (r: bool)
    ensures
        r == all_plain(seq_views(parts@)),
{
    let mut i: usize = 0;
    while i < parts.len()
        invariant
            0 <= i <= parts@.len(),
            forall|k: int| 0 <= k < i ==> plain_component(#[trigger] seq_views(parts@)[k]),
        decreases parts@.len() - i,
    {
        if !component_ok(parts[i].as_str()) {
            assert(!plain_component(seq_views(parts@)[i as int]));
            return false;
        }
        i = i + 1;
    }
    true
}

/// Joins the first `k` components with `/`.
pub fn join_prefix(parts: &Vec<String>, k: usize) -> (r: String)
    requires
        k <= parts@.len(),
    ensures
        r@ == join_with(seq_views(parts@).take(k as int), '/'),
{
    proof {
        reveal_strlit("/");
    }
    let mut out = String::new();
    let mut i: usize = 0;
    while i < k
        invariant
            0 <= i <= k <= parts@.len(),
            out@ == join_with(seq_views(parts@).take(i as int), '/'),
        decreases k - i,
    {
        if i > 0 {
            out.append("/");
        }
        out.append(parts[i].as_str());
        proof {
            reveal_strlit("/");
            let sv = seq_views(parts@);
            assert(sv.take(i + 1 as int).drop_last() =~= sv.take(i as int));
            assert(sv.take(i + 1 as int).last() == parts@[i as int]@);
            if i == 0 {
                assert(join_with(sv.take(1), '/') == sv.take(1)[0]);
                assert(out@ =~= sv.take(1)[0]);
            } else {
                assert("/"@ =~= seq!['/']);
                assert(out@ =~= join_with(sv.take(i as int), '/') + seq!['/'] + parts@[
                    i as int
                ]@);
            }
        }
        i = i + 1;
    }
    out
}

/// Joins all components with `/`: the canonical URL form.
pub fn join_url(parts: &Vec<String>) -> (r: String)
    ensures
        r@ == join_with(seq_views(parts@), '/'),
{
    let r = join_prefix(parts, parts.len());
    proof {
        assert(seq_views(parts@).take(parts@.len() as int) =~= seq_views(parts@));
    }
    r
}

/// Maps an article's components: swaps the last name's extension to
/// `html`, rejects any component that is not a plain name, and
/// derives the `/`-joined URL.
pub fn map_article(components: &Vec<String>) -> (r: Result<(Vec<String>, String), PipelineError>)
    requires
        components@.len() > 0,
        last_dot(seq_views(components@).last()) matches Some(d) && d >= 1,
    ensures
        r matches Ok(p) ==> seq_views(p.0@) == mapped_article_components(seq_views(components@))
            && p.1@ == join_with(mapped_article_components(seq_views(components@)), '/')
            && all_plain(mapped_article_components(seq_views(components@))),
        r is Err <==> !all_plain(mapped_article_components(seq_views(components@))),
        r matches Err(e) ==> e == PipelineError::BadComponent,
{
    let ghost mapped = mapped_article_components(seq_views(components@));
    let n = components.len();
    let mut out: Vec<String> = Vec::new();
    let mut i: usize = 0;
    while i < n - 1
        invariant
            0 <= i <= n - 1,
            n == components@.len(),
            n > 0,
            out@.len() == i,
            forall|k: int| 0 <= k < i ==> #[trigger] out@[k]@ == seq_views(components@)[k],
        decreases n - i,
    {
        out.push(components[i].clone());
        i = i + 1;
    }
    let swapped = article_output_name(components[n - 1].as_str());
    out.push(swapped);
    proof {
        assert(seq_views(out@) =~= mapped);
    }
    if !check_components(&out) {
        return Err(PipelineError::BadComponent);
    }
    let url = join_url(&out);
    Ok((out, url))
}

/// Every occurrence of a character can be found by scanning.
proof fn lemma_no_occurrence(s: Seq<char>, c: char)
    requires
        !s.contains(c),
    ensures
        forall|i: int| 0 <= i < s.len() ==> s[i] != c,
{
    assert forall|i: int| 0 <= i < s.len() implies s[i] != c by {
        if s[i] == c {
            assert(s.contains(c));
        }
    }
}

proof fn lemma_normalize_concat(a: Seq<char>, b: Seq<char>, sep: char)
    ensures
        normalize_seps(a + b, sep) =~= normalize_seps(a, sep) + normalize_seps(b, sep),
{
    assert forall|i: int| 0 <= i < a.len() + b.len() implies normalize_seps(a + b, sep)[i] == (
    normalize_seps(a, sep) + normalize_seps(b, sep))[i] by {
        if i < a.len() {
            assert((a + b)[i] == a[i]);
        } else {
            assert((a + b)[i] == b[i - a.len()]);
        }
    }
}

proof fn lemma_normalize_plain(s: Seq<char>, sep: char)
    requires
        !s.contains(sep),
    ensures
        normalize_seps(s, sep) =~= s,
{
    lemma_no_occurrence(s, sep);
    assert forall|i: int| 0 <= i < s.len() implies normalize_seps(s, sep)[i] == s[i] by {
        assert(s[i] != sep);
    }
}

/// The URL uses only `/` as separator, whatever the host convention:
/// joining components that are free of the host separator with that
/// separator and then normalizing separators gives exactly the
/// `/`-joined URL.
pub proof fn lemma_url_normalizes_output_path(parts: Seq<Seq<char>>, sep: char)
    requires
        forall|i: int| 0 <= i < parts.len() ==> !(#[trigger] parts[i]).contains(sep),
    ensures
        normalize_seps(join_with(parts, sep), sep) == join_with(parts, '/'),
    decreases parts.len(),
{
    if parts.len() == 0 {
        assert(normalize_seps(join_with(parts, sep), sep) =~= join_with(parts, '/'));
    } else if parts.len() == 1 {
        lemma_normalize_plain(parts[0], sep);
    } else {
        lemma_url_normalizes_output_path(parts.drop_last(), sep);
        lemma_normalize_concat(join_with(parts.drop_last(), sep) + seq![sep], parts.last(), sep);
        lemma_normalize_concat(join_with(parts.drop_last(), sep), seq![sep], sep);
        lemma_normalize_plain(parts.last(), sep);
        assert(normalize_seps(seq![sep], sep) =~= seq!['/']);
    }
}

} // verus!
