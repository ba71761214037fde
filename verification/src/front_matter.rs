//! Front-matter extraction.
//!
//! A document may begin with a fence: a line of three or more `-`
//! characters ended by a line terminator (`\n` or `\r\n`).  The block
//! between the opening fence and the first following line that is
//! itself three or more `-` characters ended by a line terminator is
//! parsed as structured data; the rest of the document is the body.
//! A missing fence, a fence that never closes, or an unparseable block
//! degrades to "no front matter" rather than failing.

use vstd::prelude::*;

verus! {

/// A line terminator begins at position `i` of `s`: either a bare `\n`
/// or the pair `\r\n`.
pub open spec fn term_at(s: Seq<u8>, i: int) -> bool {
    (0 <= i < s.len() && s[i] == 10u8) || (0 <= i && i + 1 < s.len() && s[i] == 13u8 && s[i
        + 1] == 10u8)
}

/// Length of the line terminator that begins at position `i` of `s`.
pub open spec fn term_len_at(s: Seq<u8>, i: int) -> int {
    if 0 <= i < s.len() && s[i] == 10u8 {
        1
    } else {
        2
    }
}

/// Number of consecutive `-` bytes in `s` starting at position `p`.
pub open spec fn dash_run(s: Seq<u8>, p: int) -> int
    decreases s.len() - p when 0 <= p <= s.len()
{
    if p < s.len() && s[p] == 45u8 {
        1 + dash_run(s, p + 1)
    } else {
        0
    }
}

/// A fence line begins at position `p`: three or more `-` bytes whose
/// run ends at a line terminator.
pub open spec fn fence_at(s: Seq<u8>, p: int) -> bool {
    dash_run(s, p) >= 3 && term_at(s, p + dash_run(s, p))
}

/// Position just after the fence line that begins at `p`, terminator
/// included.
pub open spec fn fence_end(s: Seq<u8>, p: int) -> int {
    p + dash_run(s, p) + term_len_at(s, p + dash_run(s, p))
}

/// Position just after the first `\n` at or after `p`, if any.
pub open spec fn next_line_start(s: Seq<u8>, p: int) -> Option<int>
    decreases s.len() - p when 0 <= p <= s.len()
{
    if p >= s.len() {
        None
    } else if s[p] == 10u8 {
        Some(p + 1)
    } else {
        next_line_start(s, p + 1)
    }
}

proof fn lemma_next_line_start_bounds(s: Seq<u8>, p: int)
    requires
        0 <= p <= s.len(),
    ensures
        next_line_start(s, p) matches Some(q) ==> p < q <= s.len(),
    decreases s.len() - p,
{
    if p < s.len() && s[p] != 10u8 {
        lemma_next_line_start_bounds(s, p + 1);
    }
}

/// The first line start at or after `p` where a closing fence line
/// begins, if any; `p` itself must be a line start.
pub open spec fn find_closing(s: Seq<u8>, p: int) -> Option<int>
    decreases s.len() - p when 0 <= p <= s.len() via find_closing_decreases
{
    if fence_at(s, p) {
        Some(p)
    } else {
        match next_line_start(s, p) {
            Some(q) => find_closing(s, q),
            None => None,
        }
    }
}

#[via_fn]
proof fn find_closing_decreases(s: Seq<u8>, p: int) {
    lemma_next_line_start_bounds(s, p);
}

/// Splits `s` at its front-matter fence: the bytes strictly between
/// the opening and closing fence lines, and the body strictly after
/// the closing fence line.  `None` if the opening fence is absent or
/// the closing fence is never found.
pub open spec fn fence_split(s: Seq<u8>) -> Option<(Seq<u8>, Seq<u8>)> {
    if fence_at(s, 0) {
        match find_closing(s, fence_end(s, 0)) {
            Some(c) => Some(
                (s.subrange(fence_end(s, 0), c), s.subrange(fence_end(s, c), s.len() as int)),
            ),
            None => None,
        }
    } else {
        None
    }
}

/// Key/value pairs have pairwise distinct keys.
pub open spec fn unique_keys(pairs: Seq<(Seq<char>, serde_json::Value)>) -> bool {
    forall|i: int, j: int| 0 <= i < j < pairs.len() ==> (#[trigger] pairs[i]).0 != (
    #[trigger] pairs[j]).0
}

/// The front-matter fields that the structured-data parsing service
/// yields for the bytes `b`: `None` when the text cannot be parsed at
/// all, `Some` of the field list when it parses (empty when the
/// parsed document is not a mapping).
pub uninterp spec fn yaml_fields_of(b: Seq<u8>) -> Option<Seq<(Seq<char>, serde_json::Value)>>;

/// The view of a field list: each key as its characters.
pub open spec fn fields_view(fields: Seq<(String, serde_json::Value)>) -> Seq<
    (Seq<char>, serde_json::Value),
> {
    fields.map_values(|p: (String, serde_json::Value)| (p.0@, p.1))
}

/// Relies on `serde_yaml::from_slice` followed by serde_json's
/// conversion of the parsed document, as the structured-data parsing
/// service: the outcome is a function of the bytes alone.  A document
/// that the parser rejects gives `None`; one that parses but is not a
/// mapping (or cannot be represented as a JSON mapping) gives an
/// empty field list; a parsed mapping gives its fields, whose keys
/// are distinct.
#[verifier::external_body]
pub(crate) fn parse_yaml_fields(bytes: &[u8]) -> (r: Option<Vec<(String, serde_json::Value)>>)
    ensures
        r is Some <==> yaml_fields_of(bytes@) is Some,
        r matches Some(v) ==> Some(fields_view(v@)) == yaml_fields_of(bytes@),
        r matches Some(v) ==> unique_keys(fields_view(v@)),
{
    match serde_yaml::from_slice::<serde_yaml::Value>(bytes) {
        Err(_) => None,
        Ok(doc) => match serde_json::to_string(&doc) {
            Err(_) => Some(Vec::new()),
            Ok(text) => match serde_json::from_str::<serde_json::Value>(&text) {
                Ok(serde_json::Value::Object(map)) => Some(map.into_iter().collect()),
                _ => Some(Vec::new()),
            },
        },
    }
}

/// The front matter of one document: field names with their parsed
/// values, in parsed order, names distinct.
pub struct FrontMatter {
    pub fields: Vec<(String, serde_json::Value)>,
}

impl View for FrontMatter {
    type V = Seq<(Seq<char>, serde_json::Value)>;

    open spec fn view(&self) -> Seq<(Seq<char>, serde_json::Value)> {
        fields_view(self.fields@)
    }
}

impl FrontMatter {
    pub open spec fn wf(&self) -> bool {
        unique_keys(self@)
    }

    /// The empty front matter.
    pub fn empty() -> (r: FrontMatter)
        ensures
            r@ == Seq::<(Seq<char>, serde_json::Value)>::empty(),
            r.wf(),
    {
        let r = FrontMatter { fields: Vec::new() };
        proof {
            assert(r@ =~= Seq::<(Seq<char>, serde_json::Value)>::empty());
        }
        r
    }
}

/// What `extract` returns for the document `s`: the body bytes and the
/// front-matter fields.
pub open spec fn extract_result(s: Seq<u8>) -> (Seq<u8>, Seq<(Seq<char>, serde_json::Value)>) {
    match fence_split(s) {
        Some(split) => match yaml_fields_of(split.0) {
            Some(fields) => (split.1, fields),
            None => (s, Seq::empty()),
        },
        None => (s, Seq::empty()),
    }
}

/// Counts the `-` bytes at the head of `s[p..]`.
fn dash_run_from(s: &[u8], p: usize) -> (r: usize)
    requires
        p <= s@.len(),
    ensures
        r == dash_run(s@, p as int),
        p + r <= s@.len(),
{
    let mut i: usize = p;
    while i < s.len() && s[i] == 45u8
        invariant
            p <= i <= s@.len(),
            dash_run(s@, p as int) == (i - p) + dash_run(s@, i as int),
        decreases s@.len() - i,
    {
        i = i + 1;
    }
    i - p
}

/// Length of the line terminator at position `i`, or 0 if none
/// begins there.
fn term_len_from(s: &[u8], i: usize) -> (r: usize)
    requires
        i <= s@.len(),
    ensures
        r != 0 <==> term_at(s@, i as int),
        r != 0 ==> r == term_len_at(s@, i as int),
        i + r <= s@.len(),
{
    if i < s.len() && s[i] == 10u8 {
        1
    } else if i < s.len() && s[i] == 13u8 && i + 1 < s.len() && s[i + 1] == 10u8 {
        2
    } else {
        0
    }
}

/// Finds the first closing fence line at a line start at or after `p`.
fn find_closing_from(s: &[u8], p: usize) -> (r: Option<usize>)
    requires
        p <= s@.len(),
    ensures
        r matches Some(c) ==> p <= c && c as int + dash_run(s@, c as int) + term_len_at(
            s@,
            c as int + dash_run(s@, c as int),
        ) <= s@.len() && fence_at(s@, c as int) && find_closing(s@, p as int) == Some(c as int),
        r is None ==> find_closing(s@, p as int) is None,
    decreases s@.len() - p,
{
    let n = s.len();
    let mut q: usize = p;
    loop
        invariant
            n == s@.len(),
            p <= q <= s@.len(),
            find_closing(s@, p as int) == find_closing(s@, q as int),
        decreases s@.len() - q,
    {
        let run = dash_run_from(s, q);
        let t = term_len_from(s, q + run);
        if run >= 3 && t != 0 {
            assert(fence_at(s@, q as int));
            assert(find_closing(s@, q as int) == Some(q as int));
            return Some(q);
        }
        assert(!fence_at(s@, q as int));
        let mut j: usize = q;
        while j < s.len() && s[j] != 10u8
            invariant
                q <= j <= s@.len(),
                next_line_start(s@, q as int) == next_line_start(s@, j as int),
            decreases s@.len() - j,
        {
            j = j + 1;
        }
        if j == s.len() {
            assert(next_line_start(s@, j as int) is None);
            assert(find_closing(s@, q as int) is None);
            return None;
        }
        assert(next_line_start(s@, q as int) == Some(j + 1 as int));
        assert(find_closing(s@, q as int) == find_closing(s@, j + 1 as int));
        q = j + 1;
    }
}

/// Extracts the optional front-matter block from the head of a
/// document.  Returns the body bytes and the parsed front matter: the
/// document unchanged and empty front matter when the opening fence is
/// absent, the closing fence is never found, or the fenced text cannot
/// be parsed; otherwise everything strictly after the closing fence
/// line together with the parsed fields.
pub fn extract(bytes: &[u8]) -> (r: (Vec<u8>, FrontMatter))
    ensures
        r.0@ == extract_result(bytes@).0,
        r.1@ == extract_result(bytes@).1,
        r.1.wf(),
{
    let n = bytes.len();
    let run = dash_run_from(bytes, 0);
    let t = term_len_from(bytes, run);
    if run >= 3 && t != 0 {
        let cs = run + t;
        match find_closing_from(bytes, cs) {
            Some(c) => {
                let inner = vstd::slice::slice_subrange(bytes, cs, c);
                match parse_yaml_fields(inner) {
                    Some(fields) => {
                        let run2 = dash_run_from(bytes, c);
                        let t2 = term_len_from(bytes, c + run2);
                        let body = vstd::slice::slice_to_vec(
                            vstd::slice::slice_subrange(bytes, c + run2 + t2, n),
                        );
                        let fm = FrontMatter { fields };
                        (body, fm)
                    },
                    None => (vstd::slice::slice_to_vec(bytes), FrontMatter::empty()),
                }
            },
            None => (vstd::slice::slice_to_vec(bytes), FrontMatter::empty()),
        }
    } else {
        (vstd::slice::slice_to_vec(bytes), FrontMatter::empty())
    }
}

/// A document with no opening fence is returned unchanged, with empty
/// front matter.
pub proof fn lemma_no_fence_unchanged(s: Seq<u8>)
    requires
        !fence_at(s, 0),
    ensures
        extract_result(s) == (s, Seq::<(Seq<char>, serde_json::Value)>::empty()),
{
}

/// A well-formed fenced block yields exactly the fields the parsing
/// service gives for the fenced bytes, and a body equal to everything
/// strictly after the closing fence line.
pub proof fn lemma_fenced_extract(s: Seq<u8>, fields: Seq<(Seq<char>, serde_json::Value)>)
    requires
        fence_at(s, 0),
        find_closing(s, fence_end(s, 0)) is Some,
        yaml_fields_of(s.subrange(fence_end(s, 0), find_closing(s, fence_end(s, 0))->0)) == Some(
            fields,
        ),
    ensures
        extract_result(s).1 == fields,
        extract_result(s).0 == s.subrange(
            fence_end(s, find_closing(s, fence_end(s, 0))->0),
            s.len() as int,
        ),
{
}

} // verus!
