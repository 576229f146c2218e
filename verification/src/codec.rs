//! Codec profiles and container formats: what they read as, and finding a
//! container format by one of its names.

use vstd::prelude::*;

use crate::error::RsmediaError;
use crate::filter::Rational;
use crate::flags::MediaType;
use crate::fmt::{pixel_debug, sample_code, sample_debug, PixelFormat, SampleFormat};
use crate::text::{chars_of, int_text, push_i64, push_str};

verus! {

/// One entry of a codec's profile list: FFmpeg's profile number and its name.
#[derive(Debug)]
pub struct Profile {
    pub id: i32,
    pub name: String,
}

impl Clone for Profile {
    fn clone(&self) -> (r: Self)
        ensures
            r.id == self.id,
            r.name@ == self.name@,
    {
        Profile { id: self.id, name: self.name.clone() }
    }
}

impl PartialEq for Profile {
    fn eq(&self, other: &Self) -> (r: bool) {
        self.id == other.id && self.name == other.name
    }
}

impl vstd::std_specs::cmp::PartialEqSpecImpl for Profile {
    open spec fn obeys_eq_spec() -> bool {
        true
    }

    open spec fn eq_spec(&self, other: &Self) -> bool {
        self.id == other.id && self.name@ == other.name@
    }
}

impl Eq for Profile {}

impl Profile {
    /// What the profile reads as: its name, or its number when it has no name.
    pub fn display_text(&self) -> (s: String)
        ensures
            s@ == if self.name@.len() == 0 { int_text(self.id as int) } else { self.name@ },
    {
        if self.name.as_str().is_empty() {
            let mut s = String::new();
            push_i64(&mut s, self.id as i64);
            s
        } else {
            self.name.clone()
        }
    }
}

/// A container format (muxer or demuxer): its comma-separated short names
/// (`matroska,webm`), its description and its usual file extensions.
#[derive(Debug)]
pub struct FormatInfo {
    pub name: String,
    pub long_name: String,
    pub extensions: Vec<String>,
}

/// The pieces of `s` between commas, in order (`"a,,b"` gives `a`, ``, `b`).
pub open spec fn split_commas(s: Seq<char>) -> Seq<Seq<char>>
    decreases s.len(),
{
    if s.len() == 0 {
        seq![s]
    } else {
        match first_comma(s, 0) {
            None => seq![s],
            Some(p) => {
                proof {
                    lemma_first_comma_bounds(s, 0);
                }
                seq![s.subrange(0, p)] + split_commas(s.subrange(p + 1, s.len() as int))
            },
        }
    }
}

/// Position of the first `,` in `s` at or after `from`.
pub open spec fn first_comma(s: Seq<char>, from: int) -> Option<int>
    decreases s.len() - from,
{
    if from < 0 || from >= s.len() {
        None
    } else if s[from] == ',' {
        Some(from)
    } else {
        first_comma(s, from + 1)
    }
}

pub proof fn lemma_first_comma_bounds(s: Seq<char>, from: int)
    ensures
        first_comma(s, from) matches Some(p) ==> from <= p < s.len() && s[p] == ',',
        first_comma(s, from) is None ==> forall|k: int| 0 <= from <= k < s.len() ==> s[k] != ',',
    decreases s.len() - from,
{
    if from >= 0 && from < s.len() && s[from] != ',' {
        lemma_first_comma_bounds(s, from + 1);
    }
}

/// The first short name of a format's name list: everything before the first comma.
pub open spec fn primary_name(s: Seq<char>) -> Seq<char> {
    match first_comma(s, 0) {
        Some(p) => s.subrange(0, p),
        None => s,
    }
}

/// A Unicode `White_Space` character (what `str::trim` removes).
pub open spec fn white_space(c: char) -> bool {
    ('\u{9}' <= c && c <= '\u{d}') || c == ' ' || c == '\u{85}' || c == '\u{a0}' || c == '\u{1680}'
        || ('\u{2000}' <= c && c <= '\u{200a}') || c == '\u{2028}' || c == '\u{2029}' || c == '\u{202f}'
        || c == '\u{205f}' || c == '\u{3000}'
}

/// `s` without its leading white space.
pub open spec fn trim_start(s: Seq<char>) -> Seq<char>
    decreases s.len(),
{
    if s.len() > 0 && white_space(s[0]) {
        trim_start(s.drop_first())
    } else {
        s
    }
}

/// `s` without its trailing white space.
pub open spec fn trim_end(s: Seq<char>) -> Seq<char>
    decreases s.len(),
{
    if s.len() > 0 && white_space(s.last()) {
        trim_end(s.drop_last())
    } else {
        s
    }
}

/// `s` without leading and trailing white space.
pub open spec fn trimmed(s: Seq<char>) -> Seq<char> {
    trim_end(trim_start(s))
}

/// Whether the name list `name` is `short_name` itself or has an alias
/// that, trimmed, is `short_name`.
pub open spec fn name_matches_spec(name: Seq<char>, short_name: Seq<char>) -> bool {
    name == short_name || exists|k: int| 0 <= k < split_commas(name).len()
        && #[trigger] trimmed(split_commas(name)[k]) == short_name
}

fn is_white_space(c: char) -> (b: bool)
    ensures
        b == white_space(c),
{
    ('\u{9}' <= c && c <= '\u{d}') || c == ' ' || c == '\u{85}' || c == '\u{a0}' || c == '\u{1680}'
        || ('\u{2000}' <= c && c <= '\u{200a}') || c == '\u{2028}' || c == '\u{2029}' || c == '\u{202f}'
        || c == '\u{205f}' || c == '\u{3000}'
}

proof fn lemma_trim_start_range(s: Seq<char>, lo: int)
    requires
        0 <= lo <= s.len(),
        forall|k: int| 0 <= k < lo ==> white_space(#[trigger] s[k]),
    ensures
        trim_start(s) == trim_start(s.subrange(lo, s.len() as int)),
    decreases lo,
{
    if lo > 0 {
        assert(s.drop_first().subrange(lo - 1, s.drop_first().len() as int) =~= s.subrange(lo, s.len() as int));
        lemma_trim_start_range(s.drop_first(), lo - 1);
    } else {
        assert(s.subrange(0, s.len() as int) =~= s);
    }
}

proof fn lemma_trim_end_range(s: Seq<char>, hi: int)
    requires
        0 <= hi <= s.len(),
        forall|k: int| hi <= k < s.len() ==> white_space(#[trigger] s[k]),
    ensures
        trim_end(s) == trim_end(s.subrange(0, hi)),
    decreases s.len() - hi,
{
    if hi < s.len() {
        assert(s.drop_last().subrange(0, hi) =~= s.subrange(0, hi));
        lemma_trim_end_range(s.drop_last(), hi);
    } else {
        assert(s.subrange(0, s.len() as int) =~= s);
    }
}

/// Whether characters `lo..hi` of `chars`, trimmed, are exactly `target`.
fn trimmed_equals(chars: &Vec<char>, lo: usize, hi: usize, target: &Vec<char>) -> (b: bool)
    requires
        lo <= hi <= chars@.len(),
    ensures
        b == (trimmed(chars@.subrange(lo as int, hi as int)) == target@),
{
    let ghost piece = chars@.subrange(lo as int, hi as int);
    let mut a = lo;
    while a < hi && is_white_space(chars[a])
        invariant
            lo <= a <= hi <= chars@.len(),
            piece == chars@.subrange(lo as int, hi as int),
            forall|k: int| 0 <= k < a - lo ==> white_space(#[trigger] piece[k]),
        decreases hi - a,
    {
        a = a + 1;
    }
    proof {
        lemma_trim_start_range(piece, a - lo);
        assert(piece.subrange(a - lo, piece.len() as int) =~= chars@.subrange(a as int, hi as int));
    }
    let ghost start = chars@.subrange(a as int, hi as int);
    assert(trim_start(piece) == start);
    let mut z = hi;
    while z > a && is_white_space(chars[z - 1])
        invariant
            lo <= a <= z <= hi <= chars@.len(),
            start == chars@.subrange(a as int, hi as int),
            forall|k: int| z - a <= k < start.len() ==> white_space(#[trigger] start[k]),
        decreases z - a,
    {
        z = z - 1;
    }
    proof {
        lemma_trim_end_range(start, z - a);
        assert(start.subrange(0, z - a) =~= chars@.subrange(a as int, z as int));
    }
    let ghost result = chars@.subrange(a as int, z as int);
    assert(trimmed(piece) == result);
    if z - a != target.len() {
        return false;
    }
    let mut k: usize = 0;
    while k < target.len()
        invariant
            lo <= a <= z <= hi <= chars@.len(),
            piece == chars@.subrange(lo as int, hi as int),
            trimmed(piece) == result,
            z - a == target@.len(),
            k <= target@.len(),
            result == chars@.subrange(a as int, z as int),
            forall|q: int| 0 <= q < k ==> result[q] == target@[q],
        decreases target@.len() - k,
    {
        if chars[a + k] != target[k] {
            assert(result[k as int] != target@[k as int]);
            return false;
        }
        k = k + 1;
    }
    assert(result =~= target@);
    true
}

fn alias_matches(name: &str, short_name: &str) -> (b: bool)
    ensures
        b == name_matches_spec(name@, short_name@),
{
    let chars = chars_of(name);
    let target = chars_of(short_name);
    if chars.len() == target.len() {
        let mut k: usize = 0;
        let mut same = true;
        while k < chars.len()
            invariant
                chars@.len() == target@.len(),
                k <= chars@.len(),
                same == forall|q: int| 0 <= q < k ==> chars@[q] == target@[q],
            decreases chars@.len() - k,
        {
            if chars[k] != target[k] {
                same = false;
            }
            k = k + 1;
        }
        if same {
            assert(chars@ =~= target@);
            return true;
        }
        assert(chars@ != target@) by {
            let q = choose|q: int| 0 <= q < chars@.len() && chars@[q] != target@[q];
        }
    }
    assert(chars@ != target@ || chars@ == target@);
    // Walk the aliases: `lo` is where the current alias starts.
    let n = chars.len();
    let mut lo: usize = 0;
    let ghost mut seen: int = 0;
    assert(chars@.subrange(0, n as int) =~= chars@);
    assert(split_commas(chars@).subrange(0, 0) + split_commas(chars@) =~= split_commas(chars@));
    loop
        invariant
            n == chars@.len(),
            chars@ == name@,
            target@ == short_name@,
            chars@ != target@,
            lo <= n,
            0 <= seen <= split_commas(chars@).len(),
            split_commas(chars@) == split_commas(chars@).subrange(0, seen) + split_commas(chars@.subrange(lo as int, n as int)),
            forall|q: int| 0 <= q < seen ==> trimmed(#[trigger] split_commas(chars@)[q]) != target@,
        decreases n - lo,
    {
        let mut p = lo;
        while p < n && chars[p] != ','
            invariant
                lo <= p <= n,
                n == chars@.len(),
                forall|k: int| lo <= k < p ==> chars@[k] != ',',
            decreases n - p,
        {
            p = p + 1;
        }
        let ghost rest = chars@.subrange(lo as int, n as int);
        proof {
            assert(forall|k: int| 0 <= k < p - lo ==> rest[k] != ',');
            if p < n {
                assert(rest[p - lo] == ',');
                lemma_first_comma_bounds(rest, 0);
                lemma_first_comma_prefix(rest, p - lo);
            } else {
                lemma_first_comma_prefix(rest, rest.len() as int);
            }
        }
        if trimmed_equals(&chars, lo, p, &target) {
            proof {
                let piece = chars@.subrange(lo as int, p as int);
                assert(rest.subrange(0, p - lo) =~= piece);
                if p < n {
                    assert(split_commas(rest)[0] == piece);
                } else {
                    assert(rest =~= piece);
                    if rest.len() == 0 {
                        assert(split_commas(rest) == seq![rest]);
                    }
                    assert(split_commas(rest)[0] == piece);
                }
                let pre = split_commas(chars@).subrange(0, seen);
                assert((pre + split_commas(rest))[seen] == split_commas(rest)[0]);
                assert(split_commas(chars@)[seen] == piece);
                assert(trimmed(split_commas(chars@)[seen]) == short_name@);
            }
            return true;
        }
        if p >= n {
            proof {
                let piece = chars@.subrange(lo as int, p as int);
                assert(rest =~= piece);
                assert(split_commas(rest) =~= seq![rest]);
                let pre = split_commas(chars@).subrange(0, seen);
                assert((pre + split_commas(rest))[seen] == split_commas(rest)[0]);
                assert(split_commas(chars@).len() == seen + 1);
                assert forall|q: int| 0 <= q < split_commas(chars@).len() implies
                    trimmed(#[trigger] split_commas(chars@)[q]) != short_name@ by {
                    if q == seen {
                        assert(split_commas(chars@)[q] == piece);
                    }
                }
            }
            return false;
        }
        proof {
            let piece = chars@.subrange(lo as int, p as int);
            assert(rest.subrange(0, p - lo) =~= piece);
            assert(rest.subrange(p - lo + 1, rest.len() as int) =~= chars@.subrange(p + 1, n as int));
            assert(split_commas(rest) == seq![piece] + split_commas(chars@.subrange(p + 1, n as int)));
            assert(split_commas(chars@).subrange(0, seen + 1) =~= split_commas(chars@).subrange(0, seen).push(piece));
            assert(split_commas(chars@) =~= split_commas(chars@).subrange(0, seen + 1) + split_commas(chars@.subrange(p + 1, n as int)));
            assert forall|q: int| 0 <= q < seen + 1 implies trimmed(#[trigger] split_commas(chars@)[q]) != target@ by {
                if q == seen {
                    assert(split_commas(chars@)[q] == piece);
                }
            }
            seen = seen + 1;
        }
        lo = p + 1;
    }
}

proof fn lemma_first_comma_prefix(s: Seq<char>, p: int)
    requires
        0 <= p <= s.len(),
        forall|k: int| 0 <= k < p ==> s[k] != ',',
        p < s.len() ==> s[p] == ',',
    ensures
        first_comma(s, 0) == if p < s.len() { Some(p) } else { None::<int> },
{
    lemma_first_comma_from(s, 0, p);
}

proof fn lemma_first_comma_from(s: Seq<char>, from: int, p: int)
    requires
        0 <= from <= p <= s.len(),
        forall|k: int| from <= k < p ==> s[k] != ',',
        p < s.len() ==> s[p] == ',',
    ensures
        first_comma(s, from) == if p < s.len() { Some(p) } else { None::<int> },
    decreases p - from,
{
    if from < p {
        lemma_first_comma_from(s, from + 1, p);
    }
}

/// The texts of `v`.
pub open spec fn texts(v: Seq<String>) -> Seq<Seq<char>> {
    v.map_values(|t: String| t@)
}

impl Clone for FormatInfo {
    fn clone(&self) -> (r: Self)
        ensures
            r.name@ == self.name@,
            r.long_name@ == self.long_name@,
            texts(r.extensions@) == texts(self.extensions@),
    {
        let mut extensions: Vec<String> = Vec::new();
        let mut k: usize = 0;
        while k < self.extensions.len()
            invariant
                k <= self.extensions@.len(),
                texts(extensions@) == texts(self.extensions@).subrange(0, k as int),
            decreases self.extensions@.len() - k,
        {
            let ghost before = extensions@;
            extensions.push(self.extensions[k].clone());
            assert(texts(extensions@) =~= texts(before).push(self.extensions@[k as int]@));
            k = k + 1;
            assert(texts(extensions@) =~= texts(self.extensions@).subrange(0, k as int));
        }
        assert(texts(self.extensions@).subrange(0, k as int) =~= texts(self.extensions@));
        FormatInfo { name: self.name.clone(), long_name: self.long_name.clone(), extensions }
    }
}

impl PartialEq for FormatInfo {
    fn eq(&self, other: &Self) -> (r: bool) {
        if self.name != other.name || self.long_name != other.long_name {
            return false;
        }
        if self.extensions.len() != other.extensions.len() {
            assert(texts(self.extensions@).len() != texts(other.extensions@).len());
            return false;
        }
        let mut k: usize = 0;
        while k < self.extensions.len()
            invariant
                k <= self.extensions@.len(),
                self.extensions@.len() == other.extensions@.len(),
                texts(self.extensions@).subrange(0, k as int) == texts(other.extensions@).subrange(0, k as int),
            decreases self.extensions@.len() - k,
        {
            if self.extensions[k] != other.extensions[k] {
                assert(texts(self.extensions@)[k as int] != texts(other.extensions@)[k as int]);
                return false;
            }
            assert(texts(self.extensions@).subrange(0, k + 1) =~= texts(self.extensions@).subrange(0, k as int).push(self.extensions@[k as int]@));
            assert(texts(other.extensions@).subrange(0, k + 1) =~= texts(other.extensions@).subrange(0, k as int).push(other.extensions@[k as int]@));
            k = k + 1;
        }
        assert(texts(self.extensions@) =~= texts(self.extensions@).subrange(0, k as int));
        assert(texts(other.extensions@) =~= texts(other.extensions@).subrange(0, k as int));
        true
    }
}

impl vstd::std_specs::cmp::PartialEqSpecImpl for FormatInfo {
    open spec fn obeys_eq_spec() -> bool {
        true
    }

    open spec fn eq_spec(&self, other: &Self) -> bool {
        &&& self.name@ == other.name@
        &&& self.long_name@ == other.long_name@
        &&& texts(self.extensions@) == texts(other.extensions@)
    }
}

impl Eq for FormatInfo {}

impl FormatInfo {
    /// The first short name of the format (`matroska` for `matroska,webm`).
    pub fn short_name(&self) -> (s: &str)
        ensures
            s@ == primary_name(self.name@),
    {
        let chars = chars_of(self.name.as_str());
        let mut p: usize = 0;
        while p < chars.len() && chars[p] != ','
            invariant
                p <= chars@.len(),
                chars@ == self.name@,
                forall|k: int| 0 <= k < p ==> chars@[k] != ',',
            decreases chars@.len() - p,
        {
            p = p + 1;
        }
        proof {
            lemma_first_comma_prefix(chars@, p as int);
        }
        if p < chars.len() {
            self.name.as_str().substring_char(0, p)
        } else {
            self.name.as_str()
        }
    }

    /// Whether the name list `name` is `short_name` or has an alias that,
    /// trimmed, is `short_name`.
    pub fn name_matches(name: &str, short_name: &str) -> (b: bool)
        ensures
            b == name_matches_spec(name@, short_name@),
    {
        alias_matches(name, short_name)
    }

    /// The first format of `formats` (in order) known by `short_name`.
    #[verifier::loop_isolation(false)]
    fn find_by_name(formats: Vec<FormatInfo>, short_name: &str) -> (r: Option<FormatInfo>)
        ensures
            r is Some <==> exists|i: int| 0 <= i < formats@.len() && name_matches_spec(#[trigger] formats@[i].name@, short_name@),
            r matches Some(f) ==> exists|i: int| 0 <= i < formats@.len() && f == formats@[i]
                && name_matches_spec(formats@[i].name@, short_name@)
                && forall|j: int| 0 <= j < i ==> !name_matches_spec(#[trigger] formats@[j].name@, short_name@),
    {
        let ghost all = formats@;
        let mut v = formats;
        let mut i: usize = 0;
        while i < v.len()
            invariant
                v@ == all,
                i <= all.len(),
                forall|j: int| 0 <= j < i ==> !name_matches_spec(#[trigger] all[j].name@, short_name@),
            decreases all.len() - i,
        {
            if alias_matches(v[i].name.as_str(), short_name) {
                let f = v.remove(i);
                assert(f == all[i as int]);
                assert(name_matches_spec(all[i as int].name@, short_name@));
                return Some(f);
            }
            i = i + 1;
        }
        None
    }

    /// The first muxer of `muxers` (the build's list, in its order) known by
    /// `short_name` (`mp4`, `matroska`, ...).
    pub fn find_muxer(muxers: Vec<FormatInfo>, short_name: &str) -> (r: Option<FormatInfo>)
        ensures
            r is Some <==> exists|i: int| 0 <= i < muxers@.len() && name_matches_spec(#[trigger] muxers@[i].name@, short_name@),
            r matches Some(f) ==> exists|i: int| 0 <= i < muxers@.len() && f == muxers@[i]
                && name_matches_spec(muxers@[i].name@, short_name@)
                && forall|j: int| 0 <= j < i ==> !name_matches_spec(#[trigger] muxers@[j].name@, short_name@),
    {
        Self::find_by_name(muxers, short_name)
    }

    /// The first demuxer of `demuxers` (the build's list, in its order)
    /// known by `short_name`.
    pub fn find_demuxer(demuxers: Vec<FormatInfo>, short_name: &str) -> (r: Option<FormatInfo>)
        ensures
            r is Some <==> exists|i: int| 0 <= i < demuxers@.len() && name_matches_spec(#[trigger] demuxers@[i].name@, short_name@),
            r matches Some(f) ==> exists|i: int| 0 <= i < demuxers@.len() && f == demuxers@[i]
                && name_matches_spec(demuxers@[i].name@, short_name@)
                && forall|j: int| 0 <= j < i ==> !name_matches_spec(#[trigger] demuxers@[j].name@, short_name@),
    {
        Self::find_by_name(demuxers, short_name)
    }
}

/// The short name is the first alias of the name list.
proof fn lemma_primary_is_first_alias(name: Seq<char>)
    ensures
        split_commas(name).len() > 0,
        split_commas(name)[0] == primary_name(name),
{
    lemma_first_comma_bounds(name, 0);
    if name.len() == 0 {
        assert(first_comma(name, 0) is None);
    }
}

/// A format is found by its own short name, as long as that first alias
/// carries no surrounding white space.
pub proof fn law_found_by_short_name(name: Seq<char>)
    requires
        trimmed(primary_name(name)) == primary_name(name),
    ensures
        name_matches_spec(name, primary_name(name)),
{
    lemma_primary_is_first_alias(name);
    assert(trimmed(split_commas(name)[0]) == primary_name(name));
}

proof fn lemma_first_comma_at(s: Seq<char>, from: int, p: int)
    requires
        0 <= from <= p < s.len(),
        s[p] == ',',
        forall|k: int| from <= k < p ==> s[k] != ',',
    ensures
        first_comma(s, from) == Some(p),
    decreases p - from,
{
    if from < p {
        lemma_first_comma_at(s, from + 1, p);
    }
}

proof fn lemma_no_comma(s: Seq<char>, from: int)
    requires
        0 <= from,
        forall|k: int| from <= k < s.len() ==> s[k] != ',',
    ensures
        first_comma(s, from) is None,
    decreases s.len() - from,
{
    if from < s.len() {
        lemma_no_comma(s, from + 1);
    }
}

/// A format whose name list holds two aliases is found by either of them,
/// white space around the alias aside.
pub proof fn law_found_by_any_alias(first: Seq<char>, second: Seq<char>)
    requires
        forall|k: int| 0 <= k < first.len() ==> first[k] != ',',
        forall|k: int| 0 <= k < second.len() ==> second[k] != ',',
    ensures
        name_matches_spec(first + seq![','] + second, trimmed(first)),
        name_matches_spec(first + seq![','] + second, trimmed(second)),
{
    let s = first + seq![','] + second;
    let p = first.len() as int;
    assert forall|k: int| 0 <= k < p implies s[k] != ',' by {
        assert(s[k] == first[k]);
    }
    lemma_first_comma_at(s, 0, p);
    assert(s.subrange(0, p) =~= first);
    assert(s.subrange(p + 1, s.len() as int) =~= second);
    lemma_no_comma(second, 0);
    assert(split_commas(second) == seq![second]);
    assert(split_commas(s) == seq![first] + seq![second]);
    assert(split_commas(s)[0] == first);
    assert(split_commas(s)[1] == second);
    assert(trimmed(split_commas(s)[0]) == trimmed(first));
    assert(trimmed(split_commas(s)[1]) == trimmed(second));
}

proof fn lemma_trim_start_cut(s: Seq<char>) -> (i: int)
    ensures
        0 <= i <= s.len(),
        trim_start(s) == s.subrange(i, s.len() as int),
        forall|k: int| 0 <= k < i ==> white_space(#[trigger] s[k]),
        i < s.len() ==> !white_space(s[i]),
    decreases s.len(),
{
    if s.len() > 0 && white_space(s[0]) {
        let i0 = lemma_trim_start_cut(s.drop_first());
        assert(s.drop_first().subrange(i0, s.drop_first().len() as int) =~= s.subrange(i0 + 1, s.len() as int));
        assert forall|k: int| 0 <= k < i0 + 1 implies white_space(#[trigger] s[k]) by {
            if k > 0 {
                assert(s[k] == s.drop_first()[k - 1]);
            }
        }
        if i0 + 1 < s.len() {
            assert(s[i0 + 1] == s.drop_first()[i0]);
        }
        i0 + 1
    } else {
        assert(s.subrange(0, s.len() as int) =~= s);
        0
    }
}

proof fn lemma_trim_end_cut(s: Seq<char>) -> (j: int)
    ensures
        0 <= j <= s.len(),
        trim_end(s) == s.subrange(0, j),
        forall|k: int| j <= k < s.len() ==> white_space(#[trigger] s[k]),
        j > 0 ==> !white_space(s[j - 1]),
    decreases s.len(),
{
    if s.len() > 0 && white_space(s.last()) {
        let j0 = lemma_trim_end_cut(s.drop_last());
        assert(s.drop_last().subrange(0, j0) =~= s.subrange(0, j0));
        assert forall|k: int| j0 <= k < s.len() implies white_space(#[trigger] s[k]) by {
            if k < s.len() - 1 {
                assert(s[k] == s.drop_last()[k]);
            }
        }
        if j0 > 0 {
            assert(s[j0 - 1] == s.drop_last()[j0 - 1]);
        }
        j0
    } else {
        assert(s.subrange(0, s.len() as int) =~= s);
        s.len() as int
    }
}

/// Trimming a name cuts white space, and only white space, off both ends:
/// what is left is a stretch of the name that neither starts nor ends with
/// white space.
pub proof fn law_trimming(s: Seq<char>)
    ensures
        exists|i: int, j: int| 0 <= i <= j <= s.len() && trimmed(s) == s.subrange(i, j)
            && (forall|k: int| 0 <= k < i ==> white_space(#[trigger] s[k]))
            && (forall|k: int| j <= k < s.len() ==> white_space(#[trigger] s[k])),
        trimmed(s).len() > 0 ==> !white_space(trimmed(s)[0]) && !white_space(trimmed(s).last()),
{
    let i = lemma_trim_start_cut(s);
    let t = s.subrange(i, s.len() as int);
    let j = lemma_trim_end_cut(t);
    assert(t.subrange(0, j) =~= s.subrange(i, i + j));
    assert forall|k: int| i + j <= k < s.len() implies white_space(#[trigger] s[k]) by {
        assert(s[k] == t[k - i]);
    }
    if trimmed(s).len() > 0 {
        assert(trimmed(s)[0] == s[i]);
        assert(trimmed(s).last() == t[j - 1]);
    }
}

// ---------------------------------------------------------------------------
// Codecs of the FFmpeg build, as plain values.

/// `AV_CODEC_CAP_DELAY`: the codec holds input back and emits it only later.
pub const CAP_DELAY: i32 = 32;
/// `AV_CODEC_CAP_VARIABLE_FRAME_SIZE`: an audio encoder takes any frame size.
pub const CAP_VARIABLE_FRAME_SIZE: i32 = 65536;
/// `AV_CODEC_CAP_HARDWARE`: a hardware-accelerated implementation.
pub const CAP_HARDWARE: i32 = 262144;

/// A codec of the FFmpeg build, as the values read from its descriptor.
///
/// A list that is `None` is one FFmpeg does not restrict, or could not
/// report: either way every value passes.
#[derive(Debug)]
pub struct CodecConfig {
    /// FFmpeg's `AVCodecID`.
    pub id: i32,
    pub name: String,
    pub long_name: String,
    pub media_type: MediaType,
    /// `av_codec_is_encoder`.
    pub encoder: bool,
    /// `av_codec_is_decoder`.
    pub decoder: bool,
    /// The `AV_CODEC_CAP_*` bits.
    pub capabilities: i32,
    /// Accepted pixel formats, by their FFmpeg number.
    pub pixel_formats: Option<Vec<i32>>,
    /// Accepted sample formats, by their FFmpeg number.
    pub sample_formats: Option<Vec<i32>>,
    pub frame_rates: Option<Vec<Rational>>,
    pub sample_rates: Option<Vec<i32>>,
    /// The channel count of each channel layout FFmpeg lists.
    pub layout_channels: Option<Vec<i32>>,
    /// The declared profiles; empty when the codec declares none.
    pub profiles: Vec<Profile>,
}

/// `v` passes the list `l`: there is no list, or `v` is on it.
pub open spec fn passes(l: Option<Vec<i32>>, v: i32) -> bool {
    match l {
        None => true,
        Some(list) => list@.contains(v),
    }
}

/// The positive channel counts of the listed layouts, in order.
pub open spec fn positive_counts(s: Seq<i32>) -> Seq<i32>
    decreases s.len(),
{
    if s.len() == 0 {
        s
    } else if s.last() > 0 {
        positive_counts(s.drop_last()).push(s.last())
    } else {
        positive_counts(s.drop_last())
    }
}

/// The channel counts a codec accepts: the positive counts of its layouts,
/// `None` when that leaves none (or there is no list).
pub open spec fn channel_counts(l: Option<Vec<i32>>) -> Option<Seq<i32>> {
    match l {
        None => None,
        Some(v) => if positive_counts(v@).len() == 0 { None } else { Some(positive_counts(v@)) },
    }
}

/// The codecs of `all` that are encoders (or decoders), optionally only
/// those of one codec id, in their order.
pub open spec fn codecs_of(all: Seq<CodecConfig>, encoders: bool, id: Option<i32>) -> Seq<CodecConfig>
    decreases all.len(),
{
    if all.len() == 0 {
        all
    } else {
        let rest = codecs_of(all.drop_last(), encoders, id);
        let c = all.last();
        if (if encoders { c.encoder } else { c.decoder }) && (id matches Some(i) ==> c.id == i) {
            rest.push(c)
        } else {
            rest
        }
    }
}

pub const M_CODEC: &'static str = "codec '";
pub const M_CODEC_MISSING_END: &'static str = "' is not available in this FFmpeg build";

fn select_codecs(all: Vec<CodecConfig>, encoders: bool, id: Option<i32>) -> (r: Vec<CodecConfig>)
    ensures
        r@ == codecs_of(all@, encoders, id),
{
    let ghost orig = all@;
    let mut rest = all;
    let mut out: Vec<CodecConfig> = Vec::new();
    let ghost mut k: int = 0;
    while rest.len() > 0
        invariant
            0 <= k <= orig.len(),
            rest@ == orig.subrange(k, orig.len() as int),
            out@ == codecs_of(orig.subrange(0, k), encoders, id),
        decreases rest@.len(),
    {
        let c = rest.remove(0);
        proof {
            assert(orig.subrange(0, k + 1).drop_last() =~= orig.subrange(0, k));
            assert(orig.subrange(0, k + 1).last() == c);
            assert(rest@ =~= orig.subrange(k + 1, orig.len() as int));
        }
        let role = if encoders { c.encoder } else { c.decoder };
        let wanted = match id {
            Some(i) => c.id == i,
            None => true,
        };
        if role && wanted {
            out.push(c);
        }
        proof {
            k = k + 1;
        }
    }
    assert(orig.subrange(0, orig.len() as int) =~= orig);
    out
}

fn list_contains(list: &Vec<i32>, v: i32) -> (b: bool)
    ensures
        b == list@.contains(v),
{
    let mut i: usize = 0;
    while i < list.len()
        invariant
            i <= list@.len(),
            forall|k: int| 0 <= k < i ==> list@[k] != v,
        decreases list@.len() - i,
    {
        if list[i] == v {
            assert(list@[i as int] == v);
            return true;
        }
        i = i + 1;
    }
    false
}

impl CodecConfig {
    /// FFmpeg's id of the codec.
    pub fn id(&self) -> (r: i32)
        ensures
            r == self.id,
    {
        self.id
    }

    /// The codec's short name (`"libx264"`, `"aac"`, ...).
    pub fn name(&self) -> (r: &str)
        ensures
            r@ == self.name@,
    {
        self.name.as_str()
    }

    /// The codec's descriptive name.
    pub fn long_name(&self) -> (r: &str)
        ensures
            r@ == self.long_name@,
    {
        self.long_name.as_str()
    }

    /// Whether the codec encodes.
    pub fn is_encoder(&self) -> (b: bool)
        ensures
            b == self.encoder,
    {
        self.encoder
    }

    /// Whether the codec decodes.
    pub fn is_decoder(&self) -> (b: bool)
        ensures
            b == self.decoder,
    {
        self.decoder
    }

    /// `AV_CODEC_CAP_VARIABLE_FRAME_SIZE`: an audio encoder may be handed any
    /// frame size, rather than multiples of one fixed value.
    pub fn supports_variable_frame_size(&self) -> (b: bool)
        ensures
            b == (self.capabilities & CAP_VARIABLE_FRAME_SIZE != 0),
    {
        self.capabilities & CAP_VARIABLE_FRAME_SIZE != 0
    }

    /// `AV_CODEC_CAP_DELAY`: the codec buffers input and emits it only later,
    /// so an encoder must be flushed (and a decoder drained) to get the tail out.
    pub fn supports_delay(&self) -> (b: bool)
        ensures
            b == (self.capabilities & CAP_DELAY != 0),
    {
        self.capabilities & CAP_DELAY != 0
    }

    /// Whether this is a hardware-accelerated implementation
    /// (`h264_nvenc`, `h264_vaapi`, ...).
    pub fn is_hardware(&self) -> (b: bool)
        ensures
            b == (self.capabilities & CAP_HARDWARE != 0),
    {
        self.capabilities & CAP_HARDWARE != 0
    }

    /// The media kind the codec handles.
    pub fn media_type(&self) -> (m: MediaType)
        ensures
            m == self.media_type,
    {
        self.media_type
    }

    /// The pixel formats the codec accepts; `None` when FFmpeg sets no limit.
    pub fn supported_pixel_formats(&self) -> (r: Option<&[i32]>)
        ensures
            match self.pixel_formats {
                None => r is None,
                Some(v) => r matches Some(s) && s@ == v@,
            },
    {
        match &self.pixel_formats {
            Some(v) => Some(v.as_slice()),
            None => None,
        }
    }

    /// The sample formats the codec accepts; `None` when FFmpeg sets no limit.
    pub fn supported_sample_formats(&self) -> (r: Option<&[i32]>)
        ensures
            match self.sample_formats {
                None => r is None,
                Some(v) => r matches Some(s) && s@ == v@,
            },
    {
        match &self.sample_formats {
            Some(v) => Some(v.as_slice()),
            None => None,
        }
    }

    /// The frame rates the codec accepts; `None` when FFmpeg sets no limit.
    pub fn supported_frame_rates(&self) -> (r: Option<&[Rational]>)
        ensures
            match self.frame_rates {
                None => r is None,
                Some(v) => r matches Some(s) && s@ == v@,
            },
    {
        match &self.frame_rates {
            Some(v) => Some(v.as_slice()),
            None => None,
        }
    }

    /// The sample rates the codec accepts; `None` when FFmpeg sets no limit.
    pub fn supported_sample_rates(&self) -> (r: Option<&[i32]>)
        ensures
            match self.sample_rates {
                None => r is None,
                Some(v) => r matches Some(s) && s@ == v@,
            },
    {
        match &self.sample_rates {
            Some(v) => Some(v.as_slice()),
            None => None,
        }
    }

    /// The channel counts the codec accepts: the positive channel counts of
    /// its layouts, in order; `None` when there are none.
    pub fn supported_channel_counts(&self) -> (r: Option<Vec<i32>>)
        ensures
            match channel_counts(self.layout_channels) {
                None => r is None,
                Some(c) => r matches Some(v) && v@ == c,
            },
    {
        match &self.layout_channels {
            None => None,
            Some(layouts) => {
                let mut counts: Vec<i32> = Vec::new();
                let mut i: usize = 0;
                while i < layouts.len()
                    invariant
                        i <= layouts@.len(),
                        counts@ == positive_counts(layouts@.subrange(0, i as int)),
                    decreases layouts@.len() - i,
                {
                    proof {
                        assert(layouts@.subrange(0, i + 1).drop_last() =~= layouts@.subrange(0, i as int));
                        assert(layouts@.subrange(0, i + 1).last() == layouts@[i as int]);
                    }
                    if layouts[i] > 0 {
                        counts.push(layouts[i]);
                    }
                    i = i + 1;
                }
                assert(layouts@.subrange(0, layouts@.len() as int) =~= layouts@);
                if counts.len() == 0 { None } else { Some(counts) }
            },
        }
    }

    /// Whether the codec takes pixel format number `pix_fmt`: yes when FFmpeg
    /// sets no limit, so that no valid frame is turned away.
    pub fn is_support_pixel_format(&self, pix_fmt: i32) -> (b: bool)
        ensures
            b == passes(self.pixel_formats, pix_fmt),
    {
        match &self.pixel_formats {
            None => true,
            Some(v) => list_contains(v, pix_fmt),
        }
    }

    /// Whether the codec takes sample format number `sample_fmt`.
    pub fn is_support_sample_format(&self, sample_fmt: i32) -> (b: bool)
        ensures
            b == passes(self.sample_formats, sample_fmt),
    {
        match &self.sample_formats {
            None => true,
            Some(v) => list_contains(v, sample_fmt),
        }
    }

    /// Whether the codec takes the sample rate `sample_rate`.
    pub fn is_support_sample_rate(&self, sample_rate: i32) -> (b: bool)
        ensures
            b == passes(self.sample_rates, sample_rate),
    {
        match &self.sample_rates {
            None => true,
            Some(v) => list_contains(v, sample_rate),
        }
    }

    /// Whether the codec takes `nb_channels` channels: yes when it lists no
    /// channel counts.
    pub fn is_support_channel_count(&self, nb_channels: i32) -> (b: bool)
        ensures
            b == match channel_counts(self.layout_channels) {
                None => true,
                Some(c) => c.contains(nb_channels),
            },
    {
        match self.supported_channel_counts() {
            None => true,
            Some(counts) => list_contains(&counts, nb_channels),
        }
    }

    /// The codec's declared profiles.
    pub fn profiles(&self) -> (r: Vec<Profile>)
        ensures
            r@.len() == self.profiles@.len(),
            forall|i: int| 0 <= i < r@.len() ==> #[trigger] r@[i].id == self.profiles@[i].id
                && r@[i].name@ == self.profiles@[i].name@,
    {
        let mut out: Vec<Profile> = Vec::new();
        let mut i: usize = 0;
        while i < self.profiles.len()
            invariant
                i <= self.profiles@.len(),
                out@.len() == i,
                forall|k: int| 0 <= k < i ==> #[trigger] out@[k].id == self.profiles@[k].id
                    && out@[k].name@ == self.profiles@[k].name@,
            decreases self.profiles@.len() - i,
        {
            out.push(self.profiles[i].clone());
            i = i + 1;
        }
        out
    }

    /// The codec found by a lookup, or the error for one the FFmpeg build
    /// lacks, naming what was looked for.
    pub fn from_lookup(found: Option<CodecConfig>, wanted: &str) -> (r: Result<CodecConfig, RsmediaError>)
        ensures
            found is Some ==> r == Ok::<CodecConfig, RsmediaError>(found->0),
            found is None ==> (r matches Err(e) && e matches RsmediaError::Unsupported(m)
                && m@ == M_CODEC@ + wanted@ + M_CODEC_MISSING_END@),
    {
        match found {
            Some(c) => Ok(c),
            None => {
                let mut m = M_CODEC.to_string();
                push_str(&mut m, wanted);
                push_str(&mut m, M_CODEC_MISSING_END);
                Err(RsmediaError::Unsupported(m))
            },
        }
    }

    /// The encoders among `all` (the codecs of the build), in order.
    pub fn encoders(all: Vec<CodecConfig>) -> (r: Vec<CodecConfig>)
        ensures
            r@ == codecs_of(all@, true, None),
    {
        select_codecs(all, true, None)
    }

    /// The decoders among `all`, in order.
    pub fn decoders(all: Vec<CodecConfig>) -> (r: Vec<CodecConfig>)
        ensures
            r@ == codecs_of(all@, false, None),
    {
        select_codecs(all, false, None)
    }

    /// The encoders among `all` for codec id `id` (for H.264 typically
    /// `libx264`, `h264_nvenc`, ... as the build has them), in order.
    pub fn encoders_for(all: Vec<CodecConfig>, id: i32) -> (r: Vec<CodecConfig>)
        ensures
            r@ == codecs_of(all@, true, Some(id)),
    {
        select_codecs(all, true, Some(id))
    }

    /// The decoders among `all` for codec id `id`, in order.
    pub fn decoders_for(all: Vec<CodecConfig>, id: i32) -> (r: Vec<CodecConfig>)
        ensures
            r@ == codecs_of(all@, false, Some(id)),
    {
        select_codecs(all, false, Some(id))
    }
}

/// Every codec the selection keeps is of the asked role (and id), and is
/// one of the given codecs.
pub proof fn law_selected_codecs_fit(all: Seq<CodecConfig>, encoders: bool, id: Option<i32>)
    ensures
        codecs_of(all, encoders, id).len() <= all.len(),
        forall|i: int| 0 <= i < codecs_of(all, encoders, id).len() ==> {
            let c = #[trigger] codecs_of(all, encoders, id)[i];
            &&& (if encoders { c.encoder } else { c.decoder })
            &&& (id matches Some(n) ==> c.id == n)
            &&& all.contains(c)
        },
    decreases all.len(),
{
    if all.len() > 0 {
        let p = all.drop_last();
        law_selected_codecs_fit(p, encoders, id);
        let s = codecs_of(all, encoders, id);
        assert forall|i: int| 0 <= i < s.len() implies {
            let c = #[trigger] s[i];
            &&& (if encoders { c.encoder } else { c.decoder })
            &&& (id matches Some(n) ==> c.id == n)
            &&& all.contains(c)
        } by {
            let q = codecs_of(p, encoders, id);
            if i < q.len() {
                assert(s[i] == q[i]);
                let j = choose|j: int| 0 <= j < p.len() && p[j] == q[i];
                assert(all[j] == p[j]);
            } else {
                assert(s[i] == all.last());
                assert(all[all.len() - 1] == all.last());
            }
        }
    }
}

// ---------------------------------------------------------------------------
// Choosing the format an encoder works in.

pub const M_ENCODER: &'static str = "encoder '";
pub const M_NO_PIXEL_FORMAT: &'static str = "' does not support pixel format ";
pub const M_NO_SAMPLE_FORMAT: &'static str = "' does not support sample format ";

/// The pixel format an encoder works in: one asked for is kept when the
/// encoder takes it (a hardware encoder is not checked, its formats are its
/// own); otherwise the first one the encoder lists, or `YUV420P` (0) when it
/// lists none.
pub open spec fn negotiated_pixel(explicit: Option<PixelFormat>, hardware: bool, config: CodecConfig) -> Option<PixelFormat> {
    match explicit {
        Some(fmt) => if !hardware && !passes(config.pixel_formats, fmt.0) { None } else { Some(fmt) },
        None => match config.pixel_formats {
            Some(list) => if list@.len() > 0 { Some(PixelFormat(list@[0])) } else { Some(PixelFormat(0)) },
            None => Some(PixelFormat(0)),
        },
    }
}

/// The sample format an encoder works in: one asked for is kept when the
/// encoder takes it; otherwise `FLTP` when the encoder takes it (or lists
/// nothing), else the first one it lists.
pub open spec fn negotiated_sample(explicit: Option<SampleFormat>, config: CodecConfig) -> Option<int> {
    match explicit {
        Some(fmt) => if !passes(config.sample_formats, sample_code(fmt) as i32) { None } else { Some(sample_code(fmt)) },
        None => match config.sample_formats {
            Some(list) => if list@.len() > 0 && !list@.contains(8) { Some(list@[0] as int) } else { Some(8) },
            None => Some(8),
        },
    }
}

/// Chooses the pixel format an encoder named `codec_name` works in (see
/// [`negotiated_pixel`]); an explicitly asked format the encoder does not
/// take is an error, found before any FFmpeg work.
pub fn negotiate_pixel_format(explicit: Option<PixelFormat>, hardware: bool, config: &CodecConfig, codec_name: &str) -> (r: Result<PixelFormat, RsmediaError>)
    ensures
        match negotiated_pixel(explicit, hardware, *config) {
            Some(p) => r == Ok::<PixelFormat, RsmediaError>(p),
            None => r matches Err(e) && e matches RsmediaError::InvalidConfig(m)
                && m@ == M_ENCODER@ + codec_name@ + M_NO_PIXEL_FORMAT@ + pixel_debug(explicit->0),
        },
{
    match explicit {
        Some(fmt) => {
            if !hardware && !config.is_support_pixel_format(fmt.0) {
                let mut m = M_ENCODER.to_string();
                push_str(&mut m, codec_name);
                push_str(&mut m, M_NO_PIXEL_FORMAT);
                let shown = fmt.debug_name();
                push_str(&mut m, shown.as_str());
                return Err(RsmediaError::InvalidConfig(m));
            }
            Ok(fmt)
        },
        None => {
            match &config.pixel_formats {
                Some(list) => {
                    if list.len() > 0 { Ok(PixelFormat(list[0])) } else { Ok(PixelFormat(0)) }
                },
                None => Ok(PixelFormat(0)),
            }
        },
    }
}

/// Chooses the sample format an encoder named `codec_name` works in (see
/// [`negotiated_sample`]); an explicitly asked format the encoder does not
/// take is an error. The first listed format, when it is taken, must be one
/// FFmpeg numbers.
pub fn negotiate_sample_format(explicit: Option<SampleFormat>, config: &CodecConfig, codec_name: &str) -> (r: Result<SampleFormat, RsmediaError>)
    requires
        explicit is None && config.sample_formats is Some && config.sample_formats->0@.len() > 0
            && !config.sample_formats->0@.contains(8) ==> -1 <= config.sample_formats->0@[0] <= 11,
    ensures
        match negotiated_sample(explicit, *config) {
            Some(code) => r matches Ok(f) && sample_code(f) == code,
            None => r matches Err(e) && e matches RsmediaError::InvalidConfig(m)
                && m@ == M_ENCODER@ + codec_name@ + M_NO_SAMPLE_FORMAT@ + sample_debug(explicit->0),
        },
{
    match explicit {
        Some(fmt) => {
            if !config.is_support_sample_format(fmt.raw()) {
                let mut m = M_ENCODER.to_string();
                push_str(&mut m, codec_name);
                push_str(&mut m, M_NO_SAMPLE_FORMAT);
                let shown = fmt.debug_name();
                push_str(&mut m, shown.as_str());
                return Err(RsmediaError::InvalidConfig(m));
            }
            Ok(fmt)
        },
        None => {
            match &config.sample_formats {
                Some(list) => {
                    if list.len() > 0 && !list_contains(list, 8) {
                        match SampleFormat::from_raw(list[0]) {
                            Some(f) => Ok(f),
                            None => Ok(SampleFormat::FLTP),
                        }
                    } else {
                        Ok(SampleFormat::FLTP)
                    }
                },
                None => Ok(SampleFormat::FLTP),
            }
        },
    }
}


/// With no format asked for, an encoder works in planar float (`FLTP`, 8)
/// when it takes it or lists nothing, and otherwise in the first format of
/// its list; a format asked for is kept when the encoder takes it and
/// refused otherwise.
pub proof fn law_sample_negotiation(explicit: Option<SampleFormat>, config: CodecConfig)
    ensures
        explicit is None && config.sample_formats is Some && config.sample_formats->0@.len() > 0
            && !config.sample_formats->0@.contains(8)
            ==> negotiated_sample(explicit, config) == Some(config.sample_formats->0@[0] as int),
        explicit is None && (config.sample_formats is None || config.sample_formats->0@.len() == 0
            || config.sample_formats->0@.contains(8)) ==> negotiated_sample(explicit, config) == Some(8int),
        explicit is Some ==> (negotiated_sample(explicit, config) is Some
            <==> (config.sample_formats is None || config.sample_formats->0@.contains(sample_code(explicit->0) as i32))),
        explicit is Some && negotiated_sample(explicit, config) is Some
            ==> negotiated_sample(explicit, config) == Some(sample_code(explicit->0)),
{
}

/// The encoders (or decoders) selected from a list are exactly the codecs of
/// the list with that role, and with the given id when there is one, in
/// their order: nothing of that kind is left out, nothing else is kept.
pub proof fn law_codec_selection_is_complete(all: Seq<CodecConfig>, encoders: bool, id: Option<i32>)
    ensures
        codecs_of(all, encoders, id) == all.filter(
            |c: CodecConfig| (if encoders { c.encoder } else { c.decoder }) && (id matches Some(n) ==> c.id == n),
        ),
    decreases all.len(),
{
    reveal(Seq::filter);
    if all.len() > 0 {
        law_codec_selection_is_complete(all.drop_last(), encoders, id);
    }
}

/// With no format asked for, an encoder works in the first pixel format it
/// lists, or in format 0 when it lists none; a format asked for is kept as
/// it is for hardware encoding or when the encoder takes it, and refused
/// otherwise.
pub proof fn law_pixel_negotiation(explicit: Option<PixelFormat>, hardware: bool, config: CodecConfig)
    ensures
        explicit is None && (config.pixel_formats matches Some(l) && l@.len() > 0)
            ==> negotiated_pixel(explicit, hardware, config) == Some(PixelFormat(config.pixel_formats->0@[0])),
        explicit is None && !(config.pixel_formats matches Some(l) && l@.len() > 0)
            ==> negotiated_pixel(explicit, hardware, config) == Some(PixelFormat(0)),
        explicit is Some && hardware ==> negotiated_pixel(explicit, hardware, config) == explicit,
        (explicit matches Some(p) && (config.pixel_formats is None || config.pixel_formats->0@.contains(p.0))) && !hardware
            ==> negotiated_pixel(explicit, hardware, config) == explicit,
        (explicit matches Some(p) && (config.pixel_formats matches Some(l) && !l@.contains(p.0))) && !hardware
            ==> negotiated_pixel(explicit, hardware, config) is None,
{
}

/// A codec that lists no values takes every value; one that lists some takes
/// exactly the values listed.
pub proof fn law_listed_values_pass(l: Option<Vec<i32>>, v: i32)
    ensures
        l is None ==> passes(l, v),
        l is Some ==> (passes(l, v) <==> exists|i: int| 0 <= i < l->0@.len() && l->0@[i] == v),
{
}

proof fn lemma_positive_counts_filter(s: Seq<i32>)
    ensures
        positive_counts(s) == s.filter(|n: i32| n > 0),
    decreases s.len(),
{
    reveal(Seq::filter);
    if s.len() > 0 {
        lemma_positive_counts_filter(s.drop_last());
    }
}

/// The channel counts a codec takes are the positive counts of its layouts,
/// in order; a codec whose layouts give none (or that lists no layouts) has
/// no such list and takes any count.
pub proof fn law_channel_counts(l: Option<Vec<i32>>)
    ensures
        l is None ==> channel_counts(l) is None,
        l matches Some(v) ==> (channel_counts(l) is None <==> v@.filter(|n: i32| n > 0).len() == 0),
        (l matches Some(v) && v@.filter(|n: i32| n > 0).len() > 0) ==> channel_counts(l) == Some(l->0@.filter(|n: i32| n > 0)),
{
    if let Some(v) = l {
        lemma_positive_counts_filter(v@);
    }
}

} // verus!
