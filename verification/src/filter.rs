//! FFmpeg filters: the text that describes one, the escaping that keeps
//! caller-provided values intact inside such text, and the wiring of
//! several filters into a graph.

use vstd::prelude::*;

use crate::flags::MediaType;
use crate::fmt::{FrameFormat, PixelFormat, SampleFormat};
use crate::text::{chars_of, push_char};

pub mod graph;
pub mod acceptance;
pub mod ready_made;
pub mod video;
pub mod audio;
pub mod runtime;

verus! {

/// The whitespace FFmpeg's escaping knows: space, newline, tab, carriage return.
pub open spec fn escape_ws(c: char) -> bool {
    c == ' ' || c == '\n' || c == '\t' || c == '\r'
}

/// Characters special to one filter's option list: `\ ' : , [ ] = { } ;`.
pub open spec fn option_special(c: char) -> bool {
    c == '\\' || c == '\'' || c == ':' || c == ',' || c == '[' || c == ']' || c == '='
        || c == '{' || c == '}' || c == ';'
}

/// Characters special to a whole graph description: `\ ' [ ] , ;`.
pub open spec fn graph_special(c: char) -> bool {
    c == '\\' || c == '\'' || c == '[' || c == ']' || c == ',' || c == ';'
}

/// Whether FFmpeg's backslash escaping (`av_escape`) puts a backslash before
/// character `i` of `s`. At the option level every whitespace character is
/// escaped; at the graph level only a leading or trailing one is.
pub open spec fn needs_escape(s: Seq<char>, i: int, graph: bool) -> bool {
    if graph {
        graph_special(s[i]) || (escape_ws(s[i]) && (i == 0 || i == s.len() - 1))
    } else {
        option_special(s[i]) || escape_ws(s[i])
    }
}

/// Character `i` of `s` as it appears after escaping.
pub open spec fn escape_piece(s: Seq<char>, i: int, graph: bool) -> Seq<char> {
    if needs_escape(s, i, graph) {
        seq!['\\', s[i]]
    } else {
        seq![s[i]]
    }
}

/// Characters `lo..hi` of `s` after escaping.
pub open spec fn escape_range(s: Seq<char>, lo: int, hi: int, graph: bool) -> Seq<char>
    decreases hi - lo,
{
    if lo >= hi {
        Seq::empty()
    } else {
        escape_piece(s, lo, graph) + escape_range(s, lo + 1, hi, graph)
    }
}

/// `s` with every NUL character removed.
pub open spec fn without_nul(s: Seq<char>) -> Seq<char> {
    s.filter(|c: char| c != '\0')
}

/// What escaping a text gives: each character escaped as [`needs_escape`]
/// says; a text holding a NUL character, which FFmpeg cannot take, comes back
/// with its NUL characters removed and nothing escaped.
pub open spec fn escaped(s: Seq<char>, graph: bool) -> Seq<char> {
    if s.contains('\0') {
        without_nul(s)
    } else {
        escape_range(s, 0, s.len() as int, graph)
    }
}

/// What an FFmpeg parser reads back from escaped text: a backslash makes
/// the character after it literal and is itself dropped.
pub open spec fn unescape(s: Seq<char>) -> Seq<char>
    decreases s.len(),
{
    if s.len() == 0 {
        Seq::empty()
    } else if s[0] == '\\' && s.len() >= 2 {
        seq![s[1]] + unescape(s.subrange(2, s.len() as int))
    } else {
        seq![s[0]] + unescape(s.subrange(1, s.len() as int))
    }
}

proof fn lemma_escape_range_snoc(s: Seq<char>, lo: int, hi: int, graph: bool)
    requires
        lo <= hi,
    ensures
        escape_range(s, lo, hi + 1, graph) == escape_range(s, lo, hi, graph) + escape_piece(s, hi, graph),
    decreases hi - lo,
{
    if lo < hi {
        lemma_escape_range_snoc(s, lo + 1, hi, graph);
        assert(escape_range(s, lo, hi + 1, graph) =~= escape_range(s, lo, hi, graph) + escape_piece(s, hi, graph));
    } else {
        assert(escape_range(s, lo + 1, hi + 1, graph) =~= Seq::<char>::empty());
        assert(escape_range(s, lo, hi + 1, graph) =~= escape_piece(s, hi, graph));
    }
}

proof fn lemma_unescape_range(s: Seq<char>, lo: int, graph: bool)
    requires
        0 <= lo <= s.len(),
    ensures
        unescape(escape_range(s, lo, s.len() as int, graph)) == s.subrange(lo, s.len() as int),
    decreases s.len() - lo,
{
    if lo < s.len() {
        lemma_unescape_range(s, lo + 1, graph);
        let rest = escape_range(s, lo + 1, s.len() as int, graph);
        let whole = escape_piece(s, lo, graph) + rest;
        if needs_escape(s, lo, graph) {
            assert(whole.subrange(2, whole.len() as int) =~= rest);
        } else {
            assert(whole.subrange(1, whole.len() as int) =~= rest);
        }
        assert(s.subrange(lo, s.len() as int) =~= seq![s[lo]] + s.subrange(lo + 1, s.len() as int));
    } else {
        assert(s.subrange(lo, s.len() as int) =~= Seq::<char>::empty());
    }
}

/// Parsing escaped text gives the text back, at either level, for any text
/// FFmpeg can take (one without NUL characters).
pub proof fn law_unescape_escaped(s: Seq<char>, graph: bool)
    requires
        !s.contains('\0'),
    ensures
        unescape(escaped(s, graph)) == s,
{
    lemma_unescape_range(s, 0, graph);
    assert(s.subrange(0, s.len() as int) =~= s);
}

/// A value escaped for the option level and then for the graph level reads
/// back as itself once the graph parser and then the option parser have
/// each removed their level.
pub proof fn law_two_level_round_trip(s: Seq<char>)
    requires
        !s.contains('\0'),
    ensures
        unescape(unescape(escaped(escaped(s, false), true))) == s,
{
    law_unescape_escaped(s, false);
    let once = escaped(s, false);
    lemma_escaped_has_no_nul(s, false);
    law_unescape_escaped(once, true);
}

proof fn lemma_escape_range_chars(s: Seq<char>, lo: int, hi: int, graph: bool)
    requires
        0 <= lo <= hi <= s.len(),
    ensures
        forall|k: int| 0 <= k < escape_range(s, lo, hi, graph).len() ==>
            (#[trigger] escape_range(s, lo, hi, graph)[k] == '\\' || exists|j: int| lo <= j < hi && s[j] == escape_range(s, lo, hi, graph)[k]),
    decreases hi - lo,
{
    if lo < hi {
        lemma_escape_range_chars(s, lo + 1, hi, graph);
        let piece = escape_piece(s, lo, graph);
        let rest = escape_range(s, lo + 1, hi, graph);
        let whole = escape_range(s, lo, hi, graph);
        assert forall|k: int| 0 <= k < whole.len() implies
            (#[trigger] whole[k] == '\\' || exists|j: int| lo <= j < hi && s[j] == whole[k]) by {
            if k < piece.len() {
                if whole[k] != '\\' {
                    assert(whole[k] == s[lo]);
                }
            } else {
                assert(whole[k] == rest[k - piece.len()]);
            }
        }
    }
}

proof fn lemma_escaped_has_no_nul(s: Seq<char>, graph: bool)
    requires
        !s.contains('\0'),
    ensures
        !escaped(s, graph).contains('\0'),
{
    lemma_escape_range_chars(s, 0, s.len() as int, graph);
    let e = escaped(s, graph);
    if e.contains('\0') {
        let k = choose|k: int| 0 <= k < e.len() && e[k] == '\0';
        assert(e[k] == '\\' || exists|j: int| 0 <= j < s.len() && s[j] == e[k]);
    }
}

/// Escapes `chars` (which hold no NUL) at the given level.
fn escape_chars(chars: &Vec<char>, graph: bool) -> (out: String)
    requires
        !chars@.contains('\0'),
    ensures
        out@ == escaped(chars@, graph),
{
    let n = chars.len();
    let mut out = String::new();
    let mut i: usize = 0;
    while i < n
        invariant
            n == chars@.len(),
            i <= n,
            out@ == escape_range(chars@, 0, i as int, graph),
        decreases n - i,
    {
        let c = chars[i];
        let special = if graph {
            c == '\\' || c == '\'' || c == '[' || c == ']' || c == ',' || c == ';'
        } else {
            c == '\\' || c == '\'' || c == ':' || c == ',' || c == '[' || c == ']' || c == '='
                || c == '{' || c == '}' || c == ';'
        };
        let ws = c == ' ' || c == '\n' || c == '\t' || c == '\r';
        let edge = i == 0 || i + 1 == n;
        let needs = if graph { special || (ws && edge) } else { special || ws };
        proof {
            lemma_escape_range_snoc(chars@, 0, i as int, graph);
        }
        if needs {
            push_char(&mut out, '\\');
        }
        push_char(&mut out, c);
        proof {
            assert(out@ =~= escape_range(chars@, 0, i as int, graph) + escape_piece(chars@, i as int, graph));
        }
        i = i + 1;
    }
    out
}

/// The characters of `chars` other than NUL, in order.
fn drop_nul(chars: &Vec<char>) -> (out: String)
    ensures
        out@ == without_nul(chars@),
{
    let n = chars.len();
    let mut out = String::new();
    let mut i: usize = 0;
    while i < n
        invariant
            n == chars@.len(),
            i <= n,
            out@ == without_nul(chars@.subrange(0, i as int)),
        decreases n - i,
    {
        let c = chars[i];
        proof {
            let pre = chars@.subrange(0, i as int);
            assert(chars@.subrange(0, i + 1) =~= pre.push(c));
            pre.lemma_filter_push(c, |c: char| c != '\0');
        }
        if c != '\0' {
            push_char(&mut out, c);
        }
        i = i + 1;
    }
    proof {
        assert(chars@.subrange(0, n as int) =~= chars@);
    }
    out
}

/// Whether `chars` holds a NUL character.
fn has_nul(chars: &Vec<char>) -> (b: bool)
    ensures
        b == chars@.contains('\0'),
{
    let n = chars.len();
    let mut i: usize = 0;
    while i < n
        invariant
            n == chars@.len(),
            i <= n,
            forall|k: int| 0 <= k < i ==> chars@[k] != '\0',
        decreases n - i,
    {
        if chars[i] == '\0' {
            assert(chars@[i as int] == '\0');
            return true;
        }
        i = i + 1;
    }
    false
}

fn escape_text(input: &str, graph: bool) -> (out: String)
    ensures
        out@ == escaped(input@, graph),
{
    let chars = chars_of(input);
    if has_nul(&chars) {
        drop_nul(&chars)
    } else {
        escape_chars(&chars, graph)
    }
}

/// Escapes `input` for use as a value inside one filter's option list, the
/// way FFmpeg's `av_escape` does with whitespace escaping on: a backslash
/// goes before every `\ ' : , [ ] = { } ;` and every space, newline, tab or
/// carriage return. Text holding a NUL character comes back with the NUL
/// characters removed and nothing escaped.
pub fn escape_filter_str(input: &str) -> (out: String)
    ensures
        out@ == escaped(input@, false),
{
    escape_text(input, false)
}

/// Escapes text that has already been escaped for the option level once
/// more, for the graph level: a backslash goes before every `\ ' [ ] , ;`
/// and before a leading or trailing whitespace character.
pub fn escape_filter_graph_str(input: &str) -> (out: String)
    ensures
        out@ == escaped(input@, true),
{
    escape_text(input, true)
}

/// A value escaped for the option level and then for the graph level.
pub open spec fn option_escaped(s: Seq<char>) -> Seq<char> {
    escaped(escaped(s, false), true)
}

/// Writes a caller-provided value into a filter description without
/// quotes: escapes it for the option level, then for the graph level.
pub fn escape_filter_option(input: &str) -> (out: String)
    ensures
        out@ == option_escaped(input@),
{
    let once = escape_filter_str(input);
    escape_filter_graph_str(once.as_str())
}

/// Whether an expansion block `%{` starts at position `k` of `s`.
pub open spec fn opens_at(s: Seq<char>, k: int) -> bool {
    0 <= k && k + 1 < s.len() && s[k] == '%' && s[k + 1] == '{'
}

/// Position of the first `%{` in `s` at or after `from`.
pub open spec fn find_open(s: Seq<char>, from: int) -> Option<int>
    decreases s.len() - from,
{
    if from < 0 || from + 1 >= s.len() {
        None
    } else if s[from] == '%' && s[from + 1] == '{' {
        Some(from)
    } else {
        find_open(s, from + 1)
    }
}

/// Position of the first `}` in `s` at or after `from`.
pub open spec fn find_close(s: Seq<char>, from: int) -> Option<int>
    decreases s.len() - from,
{
    if from < 0 || from >= s.len() {
        None
    } else if s[from] == '}' {
        Some(from)
    } else {
        find_close(s, from + 1)
    }
}

pub proof fn lemma_find_open_bounds(s: Seq<char>, from: int)
    ensures
        find_open(s, from) matches Some(p) ==> from <= p && p + 1 < s.len() && s[p] == '%' && s[p + 1] == '{'
            && opens_at(s, p),
        find_open(s, from) is None ==> forall|k: int| 0 <= from <= k ==> !#[trigger] opens_at(s, k),
    decreases s.len() - from,
{
    if from >= 0 && from + 1 < s.len() && !(s[from] == '%' && s[from + 1] == '{') {
        lemma_find_open_bounds(s, from + 1);
    }
}

pub proof fn lemma_find_close_bounds(s: Seq<char>, from: int)
    ensures
        find_close(s, from) matches Some(e) ==> from <= e < s.len() && s[e] == '}',
    decreases s.len() - from,
{
    if from >= 0 && from < s.len() && s[from] != '}' {
        lemma_find_close_bounds(s, from + 1);
    }
}

/// Characters `i..` of `s` after escaping that keeps FFmpeg's `%{...}`
/// expansion blocks: text before a `%{` is escaped, the block through its
/// closing `}` is kept as it is; a `%{` without a closing `}` is escaped
/// with the rest of the text.
pub open spec fn expr_from(s: Seq<char>, i: int) -> Seq<char>
    decreases s.len() - i,
{
    if i < 0 || i > s.len() {
        Seq::empty()
    } else {
        match find_open(s, i) {
            None => escaped(s.subrange(i, s.len() as int), false),
            Some(p) => {
                proof {
                    lemma_find_open_bounds(s, i);
                }
                match find_close(s, p) {
                    Some(e) => {
                        proof {
                            lemma_find_close_bounds(s, p);
                        }
                        escaped(s.subrange(i, p), false) + s.subrange(p, e + 1) + expr_from(s, e + 1)
                    },
                    None => escaped(s.subrange(i, p), false) + escaped(s.subrange(p, s.len() as int), false),
                }
            },
        }
    }
}

/// `s` escaped for the option level with its `%{...}` expansion blocks kept.
pub open spec fn expr_escaped(s: Seq<char>) -> Seq<char> {
    expr_from(s, 0)
}

fn find_open_at(chars: &Vec<char>, from: usize) -> (r: Option<usize>)
    requires
        from <= chars@.len(),
    ensures
        r matches Some(p) ==> find_open(chars@, from as int) == Some(p as int),
        r is None ==> find_open(chars@, from as int) is None,
{
    let n = chars.len();
    let mut k = from;
    while n > 0 && k < n - 1
        invariant
            n == chars@.len(),
            from <= k <= n,
            find_open(chars@, from as int) == find_open(chars@, k as int),
        decreases n - k,
    {
        if chars[k] == '%' && chars[k + 1] == '{' {
            return Some(k);
        }
        k = k + 1;
    }
    None
}

fn find_close_at(chars: &Vec<char>, from: usize) -> (r: Option<usize>)
    requires
        from <= chars@.len(),
    ensures
        r matches Some(e) ==> find_close(chars@, from as int) == Some(e as int),
        r is None ==> find_close(chars@, from as int) is None,
{
    let n = chars.len();
    let mut k = from;
    while k < n
        invariant
            n == chars@.len(),
            from <= k <= n,
            find_close(chars@, from as int) == find_close(chars@, k as int),
        decreases n - k,
    {
        if chars[k] == '}' {
            return Some(k);
        }
        k = k + 1;
    }
    None
}

/// Characters `lo..hi` of `chars`, as a vector.
fn sub_chars(chars: &Vec<char>, lo: usize, hi: usize) -> (v: Vec<char>)
    requires
        lo <= hi <= chars@.len(),
    ensures
        v@ == chars@.subrange(lo as int, hi as int),
{
    let mut v: Vec<char> = Vec::new();
    let mut k = lo;
    while k < hi
        invariant
            lo <= k <= hi <= chars@.len(),
            v@ == chars@.subrange(lo as int, k as int),
        decreases hi - k,
    {
        v.push(chars[k]);
        k = k + 1;
        assert(v@ =~= chars@.subrange(lo as int, k as int));
    }
    v
}

/// Escapes characters `lo..hi` of `chars` for the option level.
fn escape_part(chars: &Vec<char>, lo: usize, hi: usize) -> (out: String)
    requires
        lo <= hi <= chars@.len(),
    ensures
        out@ == escaped(chars@.subrange(lo as int, hi as int), false),
{
    let part = sub_chars(chars, lo, hi);
    if has_nul(&part) {
        drop_nul(&part)
    } else {
        escape_chars(&part, false)
    }
}

/// Escapes `input` like [`escape_filter_str`] but keeps FFmpeg's `%{...}`
/// text expansion blocks (`%{localtime}`, `%{pts:hms}`, ...) as they are, so
/// that `drawtext` still expands them.
pub fn escape_filter_expr(input: &str) -> (out: String)
    ensures
        out@ == expr_escaped(input@),
{
    let chars = chars_of(input);
    let n = chars.len();
    let mut out = String::new();
    let mut i: usize = 0;
    loop
        invariant
            chars@ == input@,
            n == chars@.len(),
            i <= n,
            out@ + expr_from(chars@, i as int) == expr_from(chars@, 0),
        decreases n - i,
    {
        match find_open_at(&chars, i) {
            None => {
                let tail = escape_part(&chars, i, n);
                out.append(tail.as_str());
                proof {
                    assert(out@ =~= expr_from(chars@, 0));
                }
                return out;
            },
            Some(p) => {
                proof {
                    lemma_find_open_bounds(chars@, i as int);
                }
                let head = escape_part(&chars, i, p);
                out.append(head.as_str());
                match find_close_at(&chars, p) {
                    Some(e) => {
                        proof {
                            lemma_find_close_bounds(chars@, p as int);
                        }
                        let block = sub_chars(&chars, p, e + 1);
                        let block_text = crate::text::string_of(block.as_slice());
                        out.append(block_text.as_str());
                        proof {
                            assert(out@ + expr_from(chars@, e + 1) =~= expr_from(chars@, 0));
                        }
                        i = e + 1;
                    },
                    None => {
                        let tail = escape_part(&chars, p, n);
                        out.append(tail.as_str());
                        proof {
                            assert(out@ =~= expr_from(chars@, 0));
                        }
                        return out;
                    },
                }
            },
        }
    }
}

/// Without any `%{` in the text, keeping expansion blocks changes nothing:
/// the text is escaped exactly as a plain option value.
pub proof fn law_expr_without_blocks(s: Seq<char>)
    requires
        forall|k: int| 0 <= k ==> !#[trigger] opens_at(s, k),
    ensures
        expr_escaped(s) == escaped(s, false),
{
    lemma_find_open_bounds(s, 0);
    assert(s.subrange(0, s.len() as int) =~= s);
}

proof fn lemma_find_open_shift(pre: Seq<char>, rest: Seq<char>, j: int)
    requires
        0 <= j,
    ensures
        find_open(pre + rest, pre.len() + j) == match find_open(rest, j) {
            Some(p) => Some(p + pre.len()),
            None => None::<int>,
        },
    decreases rest.len() - j,
{
    let s = pre + rest;
    let n = pre.len() as int;
    if j + 1 < rest.len() {
        assert(s[n + j] == rest[j]);
        assert(s[n + j + 1] == rest[j + 1]);
        if !(rest[j] == '%' && rest[j + 1] == '{') {
            lemma_find_open_shift(pre, rest, j + 1);
            assert(n + j + 1 == pre.len() + (j + 1));
        }
    }
}

proof fn lemma_find_close_shift(pre: Seq<char>, rest: Seq<char>, j: int)
    requires
        0 <= j,
    ensures
        find_close(pre + rest, pre.len() + j) == match find_close(rest, j) {
            Some(e) => Some(e + pre.len()),
            None => None::<int>,
        },
    decreases rest.len() - j,
{
    let s = pre + rest;
    let n = pre.len() as int;
    if j < rest.len() {
        assert(s[n + j] == rest[j]);
        if rest[j] != '}' {
            lemma_find_close_shift(pre, rest, j + 1);
            assert(n + j + 1 == pre.len() + (j + 1));
        }
    }
}

/// Escaping an expression from a point inside `rest` does not depend on
/// what stands before `rest`.
proof fn lemma_expr_shift(pre: Seq<char>, rest: Seq<char>, j: int)
    requires
        0 <= j <= rest.len(),
    ensures
        expr_from(pre + rest, pre.len() + j) == expr_from(rest, j),
    decreases rest.len() - j,
{
    let s = pre + rest;
    let n = pre.len() as int;
    lemma_find_open_shift(pre, rest, j);
    lemma_find_open_bounds(rest, j);
    match find_open(rest, j) {
        None => {
            assert(s.subrange(n + j, s.len() as int) =~= rest.subrange(j, rest.len() as int));
        },
        Some(p) => {
            lemma_find_close_shift(pre, rest, p);
            lemma_find_close_bounds(rest, p);
            assert(s.subrange(n + j, n + p) =~= rest.subrange(j, p));
            match find_close(rest, p) {
                Some(e) => {
                    assert(s.subrange(n + p, n + e + 1) =~= rest.subrange(p, e + 1));
                    lemma_expr_shift(pre, rest, e + 1);
                    assert(n + e + 1 == pre.len() + (e + 1));
                },
                None => {
                    assert(s.subrange(n + p, s.len() as int) =~= rest.subrange(p, rest.len() as int));
                },
            }
        },
    }
}

proof fn lemma_find_open_first(s: Seq<char>, from: int, p: int)
    requires
        0 <= from <= p,
        opens_at(s, p),
        forall|k: int| from <= k < p ==> !#[trigger] opens_at(s, k),
    ensures
        find_open(s, from) == Some(p),
    decreases p - from,
{
    if from < p {
        assert(!opens_at(s, from));
        lemma_find_open_first(s, from + 1, p);
    }
}

proof fn lemma_find_close_first(s: Seq<char>, from: int, e: int)
    requires
        0 <= from <= e < s.len(),
        s[e] == '}',
        forall|k: int| from <= k < e ==> #[trigger] s[k] != '}',
    ensures
        find_close(s, from) == Some(e),
    decreases e - from,
{
    if from < e {
        lemma_find_close_first(s, from + 1, e);
    }
}

proof fn lemma_find_close_none(s: Seq<char>, from: int)
    requires
        0 <= from,
        forall|k: int| from <= k < s.len() ==> #[trigger] s[k] != '}',
    ensures
        find_close(s, from) is None,
    decreases s.len() - from,
{
    if from < s.len() {
        lemma_find_close_none(s, from + 1);
    }
}

/// How an expression with an expansion block is escaped: the text `a`
/// before the first `%{` is escaped as a plain option value, a block
/// `%{b}` closed by its first `}` is kept as it is and the rest is escaped
/// on its own; a `%{` that is never closed is escaped with the text after it.
pub proof fn law_expr_blocks(a: Seq<char>, b: Seq<char>, rest: Seq<char>)
    requires
        forall|k: int| 0 <= k ==> !#[trigger] opens_at(a, k),
        !b.contains('}'),
    ensures
        expr_escaped(a + seq!['%', '{'] + b + seq!['}'] + rest)
            == escaped(a, false) + (seq!['%', '{'] + b + seq!['}']) + expr_escaped(rest),
        expr_escaped(a + seq!['%', '{'] + b) == escaped(a, false) + escaped(seq!['%', '{'] + b, false),
{
    let n = a.len() as int;
    let block = seq!['%', '{'] + b + seq!['}'];
    let open = a + seq!['%', '{'] + b;
    let closed = a + block;
    let s = closed + rest;
    let e = n + 2 + b.len();
    assert(open =~= a + (seq!['%', '{'] + b));
    assert(s =~= a + block + rest);
    // the first `%{` of either text is the one after `a`
    assert(opens_at(s, n));
    assert forall|k: int| 0 <= k < n implies !#[trigger] opens_at(s, k) by {
        if k + 1 < n {
            assert(s[k] == a[k] && s[k + 1] == a[k + 1]);
            assert(!opens_at(a, k));
        } else {
            assert(s[k + 1] == '%');
        }
    }
    lemma_find_open_first(s, 0, n);
    assert(opens_at(open, n));
    assert forall|k: int| 0 <= k < n implies !#[trigger] opens_at(open, k) by {
        if k + 1 < n {
            assert(open[k] == a[k] && open[k + 1] == a[k + 1]);
            assert(!opens_at(a, k));
        } else {
            assert(open[k + 1] == '%');
        }
    }
    lemma_find_open_first(open, 0, n);
    // the block closes at the `}` after `b`
    assert forall|k: int| n <= k < e implies #[trigger] s[k] != '}' by {
        if k >= n + 2 {
            assert(s[k] == b[k - n - 2]);
        }
    }
    assert(s[e] == '}');
    lemma_find_close_first(s, n, e);
    assert forall|k: int| n <= k < open.len() implies #[trigger] open[k] != '}' by {
        if k >= n + 2 {
            assert(open[k] == b[k - n - 2]);
        }
    }
    lemma_find_close_none(open, n);
    // what follows the block is escaped as `rest` alone
    assert(s.subrange(0, n) =~= a);
    assert(s.subrange(n, e + 1) =~= block);
    assert(closed.len() == e + 1);
    lemma_expr_shift(closed, rest, 0);
    assert(expr_from(s, e + 1) == expr_from(rest, 0));
    assert(expr_from(s, 0) == escaped(s.subrange(0, n), false) + s.subrange(n, e + 1) + expr_from(s, e + 1));
    assert(a + seq!['%', '{'] + b + seq!['}'] + rest =~= s);
    assert(open.subrange(0, n) =~= a);
    assert(open.subrange(n, open.len() as int) =~= seq!['%', '{'] + b);
}

/// One filter: the FFmpeg filter's name, the media kind it works on, its
/// description text (`name=option=value:...`), and the input format the
/// filter asks frames to be converted to first, if any.
#[derive(Debug, Clone)]
pub struct Filter {
    pub name: &'static str,
    pub media_type: MediaType,
    pub spec: String,
    pub input_format: Option<FrameFormat>,
}

impl Filter {
    /// A filter with the given name, media kind and description, asking no
    /// particular input format.
    pub fn new(name: &'static str, media_type: MediaType, spec: String) -> (f: Filter)
        ensures
            f.name@ == name@,
            f.media_type == media_type,
            f.spec@ == spec@,
            f.input_format is None,
    {
        Filter { name, media_type, spec, input_format: None }
    }

    /// Declares the format frames must have when they enter the filter.
    pub fn with_input_format(self, format: FrameFormat) -> (f: Filter)
        ensures
            f.name@ == self.name@,
            f.media_type == self.media_type,
            f.spec@ == self.spec@,
            f.input_format == Some(format),
    {
        Filter { input_format: Some(format), ..self }
    }

    /// The FFmpeg filter's name.
    pub fn name(&self) -> (n: &'static str)
        ensures
            n@ == self.name@,
    {
        self.name
    }

    /// The media kind the filter works on.
    pub fn media_type(&self) -> (m: MediaType)
        ensures
            m == self.media_type,
    {
        self.media_type
    }

    /// The filter's description text.
    pub fn spec(&self) -> (s: String)
        ensures
            s@ == self.spec@,
    {
        self.spec.clone()
    }

    /// The input format the filter asks for, if any.
    pub fn input_format(&self) -> (f: Option<FrameFormat>)
        ensures
            f == self.input_format,
    {
        self.input_format
    }
}

/// A filter with its wiring in a graph: the labels its input pads are fed
/// from and the labels of its output pads, both in pad order. Empty input
/// labels mean "continue the chain"; empty output labels mean "let the
/// builder name the single output".
#[derive(Debug, Clone)]
pub struct FilterNode {
    pub filter: Filter,
    pub inputs: Vec<String>,
    pub outputs: Vec<String>,
}

/// The labels of `v`, as sequences of characters.
pub open spec fn label_seqs(v: Seq<String>) -> Seq<Seq<char>> {
    v.map_values(|l: String| l@)
}

/// `String`s with the characters of `v`'s labels, in order.
fn owned_labels(v: &[&str]) -> (out: Vec<String>)
    ensures
        label_seqs(out@) == v@.map_values(|l: &str| l@),
{
    let mut out: Vec<String> = Vec::new();
    let mut i: usize = 0;
    while i < v.len()
        invariant
            i <= v@.len(),
            label_seqs(out@) == v@.subrange(0, i as int).map_values(|l: &str| l@),
        decreases v@.len() - i,
    {
        let t = v[i].to_string();
        assert(t@ == v@[i as int]@);
        let ghost before = out@;
        out.push(t);
        assert(out@ == before.push(t));
        assert(label_seqs(out@) =~= label_seqs(before).push(t@));
        assert(v@.subrange(0, i + 1) =~= v@.subrange(0, i as int).push(v@[i as int]));
        i = i + 1;
        assert(label_seqs(out@) =~= v@.subrange(0, i as int).map_values(|l: &str| l@));
    }
    assert(v@.subrange(0, i as int) =~= v@);
    out
}

impl FilterNode {
    /// A node holding `filter`, wired to continue the chain.
    pub fn new(filter: Filter) -> (n: FilterNode)
        ensures
            n.filter.name@ == filter.name@,
            n.filter.media_type == filter.media_type,
            n.filter.spec@ == filter.spec@,
            n.filter.input_format == filter.input_format,
            n.inputs@.len() == 0,
            n.outputs@.len() == 0,
    {
        FilterNode { filter, inputs: Vec::new(), outputs: Vec::new() }
    }

    /// Feeds the node's input pads, in order, from the given labels (graph
    /// inputs or outputs of earlier nodes).
    pub fn with_inputs(self, inputs: &[&str]) -> (n: FilterNode)
        ensures
            n.filter == self.filter,
            label_seqs(n.inputs@) == inputs@.map_values(|l: &str| l@),
            label_seqs(n.outputs@) == label_seqs(self.outputs@),
    {
        FilterNode { inputs: owned_labels(inputs), ..self }
    }

    /// Names the node's single output pad.
    pub fn with_label(self, label: &str) -> (n: FilterNode)
        ensures
            n.filter == self.filter,
            label_seqs(n.inputs@) == label_seqs(self.inputs@),
            label_seqs(n.outputs@) == seq![label@],
    {
        let mut outputs: Vec<String> = Vec::new();
        outputs.push(label.to_string());
        assert(label_seqs(outputs@) =~= seq![label@]);
        FilterNode { outputs, ..self }
    }

    /// Names every output pad, in pad order (for filters with several
    /// outputs, such as `split`).
    pub fn with_outputs(self, outputs: &[&str]) -> (n: FilterNode)
        ensures
            n.filter == self.filter,
            label_seqs(n.inputs@) == label_seqs(self.inputs@),
            label_seqs(n.outputs@) == outputs@.map_values(|l: &str| l@),
    {
        FilterNode { outputs: owned_labels(outputs), ..self }
    }

    /// The filter the node holds.
    pub fn filter(&self) -> (f: &Filter)
        ensures
            *f == self.filter,
    {
        &self.filter
    }

    /// The labels the input pads are fed from (empty when the node continues the chain).
    pub fn inputs(&self) -> (v: &[String])
        ensures
            v@ == self.inputs@,
    {
        self.inputs.as_slice()
    }

    /// The label of the first output pad, if any was given.
    pub fn label(&self) -> (l: Option<&str>)
        ensures
            self.outputs@.len() == 0 ==> l is None,
            self.outputs@.len() > 0 ==> (l matches Some(t) && t@ == self.outputs@[0]@),
    {
        if self.outputs.len() == 0 {
            None
        } else {
            Some(self.outputs[0].as_str())
        }
    }

    /// The labels of the output pads (empty when the builder names the output).
    pub fn outputs(&self) -> (v: &[String])
        ensures
            v@ == self.outputs@,
    {
        self.outputs.as_slice()
    }
}

/// A rational number as FFmpeg writes one (`AVRational`): `num/den`.
#[derive(Debug, Copy, Clone, PartialEq, Eq, Structural)]
pub struct Rational {
    pub num: i32,
    pub den: i32,
}

/// What a video frame entering or leaving a graph looks like.
#[derive(Debug, Copy, Clone, PartialEq, Eq, Structural)]
pub struct VideoEndpoint {
    pub width: i32,
    pub height: i32,
    pub format: PixelFormat,
    pub time_base: Rational,
    pub frame_rate: Rational,
    pub pixel_aspect: Rational,
}

impl VideoEndpoint {
    /// A video endpoint with square pixels (`1/1`).
    pub fn new(width: i32, height: i32, format: PixelFormat, time_base: Rational, frame_rate: Rational) -> (e: VideoEndpoint)
        ensures
            e == (VideoEndpoint { width, height, format, time_base, frame_rate, pixel_aspect: Rational { num: 1, den: 1 } }),
    {
        VideoEndpoint { width, height, format, time_base, frame_rate, pixel_aspect: Rational { num: 1, den: 1 } }
    }

    /// The same endpoint with another pixel aspect ratio.
    pub fn with_pixel_aspect(self, pixel_aspect: Rational) -> (e: VideoEndpoint)
        ensures
            e == (VideoEndpoint { pixel_aspect, ..self }),
    {
        VideoEndpoint { pixel_aspect, ..self }
    }
}

/// What an audio frame entering or leaving a graph looks like.
#[derive(Debug, Copy, Clone, PartialEq, Eq, Structural)]
pub struct AudioEndpoint {
    pub nb_channels: i32,
    pub sample_rate: i32,
    pub format: SampleFormat,
    pub time_base: Rational,
}

impl AudioEndpoint {
    /// An audio endpoint.
    pub fn new(nb_channels: i32, sample_rate: i32, format: SampleFormat, time_base: Rational) -> (e: AudioEndpoint)
        ensures
            e == (AudioEndpoint { nb_channels, sample_rate, format, time_base }),
    {
        AudioEndpoint { nb_channels, sample_rate, format, time_base }
    }
}

/// A graph input or output: video or audio, with its format.
#[derive(Debug, Copy, Clone, PartialEq, Eq, Structural)]
pub enum Endpoint {
    Video(VideoEndpoint),
    Audio(AudioEndpoint),
}

/// The media kind an endpoint carries.
pub open spec fn endpoint_media(e: Endpoint) -> MediaType {
    match e {
        Endpoint::Video(_) => MediaType::VIDEO,
        Endpoint::Audio(_) => MediaType::AUDIO,
    }
}

impl Endpoint {
    /// The media kind this endpoint carries.
    pub fn media_type(&self) -> (m: MediaType)
        ensures
            m == endpoint_media(*self),
    {
        match self {
            Endpoint::Video(_) => MediaType::VIDEO,
            Endpoint::Audio(_) => MediaType::AUDIO,
        }
    }
}

impl From<VideoEndpoint> for Endpoint {
    fn from(value: VideoEndpoint) -> (e: Endpoint) {
        Endpoint::Video(value)
    }
}

impl vstd::std_specs::convert::FromSpecImpl<VideoEndpoint> for Endpoint {
    open spec fn obeys_from_spec() -> bool {
        true
    }

    open spec fn from_spec(value: VideoEndpoint) -> Endpoint {
        Endpoint::Video(value)
    }
}

impl From<AudioEndpoint> for Endpoint {
    fn from(value: AudioEndpoint) -> (e: Endpoint) {
        Endpoint::Audio(value)
    }
}

impl vstd::std_specs::convert::FromSpecImpl<AudioEndpoint> for Endpoint {
    open spec fn obeys_from_spec() -> bool {
        true
    }

    open spec fn from_spec(value: AudioEndpoint) -> Endpoint {
        Endpoint::Audio(value)
    }
}

/// The formats a single-input filter chain runs between: frames enter as
/// `src_format` and leave as `format`.
#[derive(Debug, Copy, Clone, PartialEq, Eq, Structural)]
pub struct VideoParams {
    pub width: i32,
    pub height: i32,
    /// Pixel format of the frames the graph hands out.
    pub format: PixelFormat,
    /// Pixel format of the frames pushed into the graph.
    pub src_format: PixelFormat,
    pub time_base: Rational,
    pub frame_rate: Rational,
    pub pixel_aspect: Rational,
}

/// The formats a single-input audio filter chain runs between: frames enter
/// as `src_format` and leave as `format`.
#[derive(Debug, Copy, Clone, PartialEq, Eq, Structural)]
pub struct AudioParams {
    pub nb_channels: i32,
    pub sample_rate: i32,
    /// Sample format of the frames the graph hands out.
    pub format: SampleFormat,
    /// Sample format of the frames pushed into the graph.
    pub src_format: SampleFormat,
    pub time_base: Rational,
}

/// The parameters of a single-input filter chain, video or audio.
#[derive(Debug, Copy, Clone, PartialEq, Eq, Structural)]
pub enum FilterParams {
    Video(VideoParams),
    Audio(AudioParams),
}

/// The endpoint frames enter a chain through: the parameters with the
/// pushed (`src_format`) format.
pub open spec fn video_params_endpoint(p: VideoParams) -> VideoEndpoint {
    VideoEndpoint {
        width: p.width,
        height: p.height,
        format: p.src_format,
        time_base: p.time_base,
        frame_rate: p.frame_rate,
        pixel_aspect: p.pixel_aspect,
    }
}

/// The endpoint audio frames enter a chain through.
pub open spec fn audio_params_endpoint(p: AudioParams) -> AudioEndpoint {
    AudioEndpoint { nb_channels: p.nb_channels, sample_rate: p.sample_rate, format: p.src_format, time_base: p.time_base }
}

/// The media kind of a chain's parameters.
pub open spec fn params_media(p: FilterParams) -> MediaType {
    match p {
        FilterParams::Video(_) => MediaType::VIDEO,
        FilterParams::Audio(_) => MediaType::AUDIO,
    }
}

/// Where frames enter a chain: in the format they are pushed with.
pub open spec fn params_input(p: FilterParams) -> Endpoint {
    match p {
        FilterParams::Video(v) => Endpoint::Video(video_params_endpoint(v)),
        FilterParams::Audio(a) => Endpoint::Audio(audio_params_endpoint(a)),
    }
}

/// Where frames leave a chain: as the input, but in the handed-out format.
pub open spec fn params_output(p: FilterParams) -> Endpoint {
    match p {
        FilterParams::Video(v) => Endpoint::Video(VideoEndpoint { format: v.format, ..video_params_endpoint(v) }),
        FilterParams::Audio(a) => Endpoint::Audio(AudioEndpoint { format: a.format, ..audio_params_endpoint(a) }),
    }
}

impl FilterParams {
    /// Video or audio.
    pub fn media_type(&self) -> (m: MediaType)
        ensures
            m == params_media(*self),
    {
        match self {
            FilterParams::Video(_) => MediaType::VIDEO,
            FilterParams::Audio(_) => MediaType::AUDIO,
        }
    }

    /// The endpoint frames are pushed through, declared with the format they
    /// arrive in (`src_format`).
    pub fn input_endpoint(&self) -> (e: Endpoint)
        ensures
            e == params_input(*self),
    {
        match self {
            FilterParams::Video(p) => Endpoint::Video(VideoEndpoint::from(*p)),
            FilterParams::Audio(p) => Endpoint::Audio(AudioEndpoint::from(*p)),
        }
    }

    /// The endpoint frames are taken from, constrained to the negotiated
    /// format (`format`); the conversion from `src_format` happens inside the
    /// graph.
    pub fn output_endpoint(&self) -> (e: Endpoint)
        ensures
            e == params_output(*self),
    {
        match self {
            FilterParams::Video(p) => {
                let endpoint = VideoEndpoint::from(*p);
                Endpoint::Video(VideoEndpoint { format: p.format, ..endpoint })
            },
            FilterParams::Audio(p) => {
                let endpoint = AudioEndpoint::from(*p);
                Endpoint::Audio(AudioEndpoint { format: p.format, ..endpoint })
            },
        }
    }
}

impl From<VideoParams> for VideoEndpoint {
    /// Takes `src_format`: the format frames are pushed into the graph with.
    fn from(params: VideoParams) -> (e: VideoEndpoint) {
        VideoEndpoint {
            width: params.width,
            height: params.height,
            format: params.src_format,
            time_base: params.time_base,
            frame_rate: params.frame_rate,
            pixel_aspect: params.pixel_aspect,
        }
    }
}

impl vstd::std_specs::convert::FromSpecImpl<VideoParams> for VideoEndpoint {
    open spec fn obeys_from_spec() -> bool {
        true
    }

    open spec fn from_spec(params: VideoParams) -> VideoEndpoint {
        video_params_endpoint(params)
    }
}

impl From<AudioParams> for AudioEndpoint {
    /// Takes `src_format`: the format frames are pushed into the graph with.
    fn from(params: AudioParams) -> (e: AudioEndpoint) {
        AudioEndpoint {
            nb_channels: params.nb_channels,
            sample_rate: params.sample_rate,
            format: params.src_format,
            time_base: params.time_base,
        }
    }
}

impl vstd::std_specs::convert::FromSpecImpl<AudioParams> for AudioEndpoint {
    open spec fn obeys_from_spec() -> bool {
        true
    }

    open spec fn from_spec(params: AudioParams) -> AudioEndpoint {
        audio_params_endpoint(params)
    }
}

impl From<VideoParams> for Endpoint {
    fn from(params: VideoParams) -> (e: Endpoint) {
        Endpoint::Video(VideoEndpoint::from(params))
    }
}

impl vstd::std_specs::convert::FromSpecImpl<VideoParams> for Endpoint {
    open spec fn obeys_from_spec() -> bool {
        true
    }

    open spec fn from_spec(params: VideoParams) -> Endpoint {
        Endpoint::Video(video_params_endpoint(params))
    }
}

impl From<AudioParams> for Endpoint {
    fn from(params: AudioParams) -> (e: Endpoint) {
        Endpoint::Audio(AudioEndpoint::from(params))
    }
}

impl vstd::std_specs::convert::FromSpecImpl<AudioParams> for Endpoint {
    open spec fn obeys_from_spec() -> bool {
        true
    }

    open spec fn from_spec(params: AudioParams) -> Endpoint {
        Endpoint::Audio(audio_params_endpoint(params))
    }
}

/// A character allowed in a graph label: ASCII letter, digit or underscore.
pub open spec fn label_char(c: char) -> bool {
    ('a' <= c && c <= 'z') || ('A' <= c && c <= 'Z') || ('0' <= c && c <= '9') || c == '_'
}

/// A label that can be written into a graph description: non-empty, made of
/// ASCII letters, digits and underscores.
pub open spec fn valid_label(l: Seq<char>) -> bool {
    l.len() > 0 && forall|k: int| 0 <= k < l.len() ==> #[trigger] label_char(l[k])
}

/// Whether `label` can be written into a graph description: non-empty and
/// made only of ASCII letters, digits and underscores.
pub fn is_valid_label(label: &str) -> (b: bool)
    ensures
        b == valid_label(label@),
{
    let chars = chars_of(label);
    if chars.len() == 0 {
        return false;
    }
    let mut i: usize = 0;
    while i < chars.len()
        invariant
            chars@ == label@,
            i <= chars@.len(),
            forall|k: int| 0 <= k < i ==> #[trigger] label_char(chars@[k]),
        decreases chars@.len() - i,
    {
        let c = chars[i];
        let ok = ('a' <= c && c <= 'z') || ('A' <= c && c <= 'Z') || ('0' <= c && c <= '9') || c == '_';
        if !ok {
            assert(!label_char(label@[i as int]));
            return false;
        }
        i = i + 1;
    }
    true
}

/// The audio filter's name for audio, the video filter's otherwise.
pub open spec fn media_filter_name(audio: &'static str, video: &'static str, mt: MediaType) -> Seq<char> {
    if mt == MediaType::AUDIO { audio@ } else { video@ }
}

fn audio_or_video_filter_name(audio: &'static str, video: &'static str, mt: MediaType) -> (n: &'static str)
    ensures
        n@ == media_filter_name(audio, video, mt),
{
    if mt == MediaType::AUDIO { audio } else { video }
}

/// Changes timestamps by the FFmpeg expression `expr` (`0.5*PTS`,
/// `PTS-STARTPTS`, ...), with `asetpts` for audio and `setpts` otherwise:
/// `NAME=EXPR`.
pub fn setpts(media_type: MediaType, expr: &str) -> (f: Filter)
    ensures
        f.name@ == media_filter_name("asetpts", "setpts", media_type),
        f.media_type == media_type,
        f.spec@ == media_filter_name("asetpts", "setpts", media_type) + "="@ + option_escaped(expr@),
        f.input_format is None,
{
    let name = audio_or_video_filter_name("asetpts", "setpts", media_type);
    let escaped_expr = escape_filter_option(expr);
    let mut s = name.to_string();
    crate::text::push_str(&mut s, "=");
    crate::text::push_str(&mut s, escaped_expr.as_str());
    Filter::new(name, media_type, s)
}

} // verus!
