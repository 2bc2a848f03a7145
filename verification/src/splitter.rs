//! The sentence splitter: segments raw input text into independent synthesis
//! units.
//!
//! The text is cut at every delimiter character (the Japanese and ASCII
//! sentence enders and the newline), each piece is trimmed of Unicode
//! whitespace, and empty pieces are dropped.  Delimiters are discarded and
//! order is preserved.

use vstd::prelude::*;
use vstd::string::*;

verus! {

/// The fixed delimiter set: ideographic full stop (U+3002), fullwidth
/// question and exclamation marks (U+FF1F, U+FF01), ASCII `!` and `?`, and
/// the newline.
pub open spec fn is_delimiter(c: char) -> bool {
    let n = c as int;
    n == 0x3002 || n == 0xFF1F || n == 0xFF01 || n == 0x21 || n == 0x3F || n == 0x0A
}

/// The Unicode `White_Space` set, which `trim` removes at segment edges.
pub open spec fn is_space(c: char) -> bool {
    let n = c as int;
    (0x09 <= n <= 0x0D) || n == 0x20 || n == 0x85 || n == 0xA0 || n == 0x1680 || (0x2000 <= n
        <= 0x200A) || n == 0x2028 || n == 0x2029 || n == 0x202F || n == 0x205F || n == 0x3000
}

/// The sequence with its leading whitespace removed.
pub open spec fn trim_start_spec(s: Seq<char>) -> Seq<char>
    decreases s.len(),
{
    if s.len() > 0 && is_space(s[0]) {
        trim_start_spec(s.drop_first())
    } else {
        s
    }
}

/// The sequence with its trailing whitespace removed.
pub open spec fn trim_end_spec(s: Seq<char>) -> Seq<char>
    decreases s.len(),
{
    if s.len() > 0 && is_space(s.last()) {
        trim_end_spec(s.drop_last())
    } else {
        s
    }
}

/// The sequence with whitespace removed at both edges.
pub open spec fn trim_spec(s: Seq<char>) -> Seq<char> {
    trim_end_spec(trim_start_spec(s))
}

/// What a raw piece contributes to the result: its trimmed form, or nothing
/// when trimming leaves it empty.
pub open spec fn kept_segment(s: Seq<char>) -> Seq<Seq<char>> {
    if trim_spec(s).len() == 0 {
        seq![]
    } else {
        seq![trim_spec(s)]
    }
}

/// Splits `s` at every delimiter, with `cur` the piece accumulated so far.
pub open spec fn split_rec(s: Seq<char>, cur: Seq<char>) -> Seq<Seq<char>>
    decreases s.len(),
{
    if s.len() == 0 {
        kept_segment(cur)
    } else if is_delimiter(s[0]) {
        kept_segment(cur) + split_rec(s.drop_first(), Seq::empty())
    } else {
        split_rec(s.drop_first(), cur.push(s[0]))
    }
}

/// The splitter's result on a whole text: the ordered sequence of non-empty,
/// trimmed segments between delimiters.
pub open spec fn split_text_spec(s: Seq<char>) -> Seq<Seq<char>> {
    split_rec(s, Seq::empty())
}

/// What the splitter guarantees of every segment it returns: non-empty,
/// trimmed at both edges, and free of delimiter characters.
pub open spec fn segment_clean(t: Seq<char>) -> bool {
    &&& t.len() > 0
    &&& !is_space(t[0])
    &&& !is_space(t.last())
    &&& forall|k: int| 0 <= k < t.len() ==> !is_delimiter(#[trigger] t[k])
}

/// `trim_start_spec` returns a suffix whose first character, if any, is not
/// whitespace.
proof fn lemma_trim_start_props(s: Seq<char>)
    ensures
        trim_start_spec(s).len() <= s.len(),
        forall|k: int|
            0 <= k < trim_start_spec(s).len() ==> #[trigger] trim_start_spec(s)[k] == s[k + (
            s.len() - trim_start_spec(s).len())],
        trim_start_spec(s).len() > 0 ==> !is_space(trim_start_spec(s)[0]),
    decreases s.len(),
{
    if s.len() > 0 && is_space(s[0]) {
        lemma_trim_start_props(s.drop_first());
    }
}

/// `trim_end_spec` returns a prefix whose last character, if any, is not
/// whitespace.
proof fn lemma_trim_end_props(s: Seq<char>)
    ensures
        trim_end_spec(s).len() <= s.len(),
        forall|k: int|
            0 <= k < trim_end_spec(s).len() ==> #[trigger] trim_end_spec(s)[k] == s[k],
        trim_end_spec(s).len() > 0 ==> !is_space(trim_end_spec(s).last()),
    decreases s.len(),
{
    if s.len() > 0 && is_space(s.last()) {
        lemma_trim_end_props(s.drop_last());
    }
}

/// Trimming a delimiter-free piece leaves, if anything, a clean segment.
proof fn lemma_trim_clean(s: Seq<char>)
    requires
        forall|k: int| 0 <= k < s.len() ==> !is_delimiter(#[trigger] s[k]),
    ensures
        trim_spec(s).len() > 0 ==> segment_clean(trim_spec(s)),
{
    lemma_trim_start_props(s);
    lemma_trim_end_props(trim_start_spec(s));
}

/// Every segment of `split_rec` is clean, provided the piece accumulated so
/// far holds no delimiter.
proof fn lemma_split_rec_clean(s: Seq<char>, cur: Seq<char>)
    requires
        forall|k: int| 0 <= k < cur.len() ==> !is_delimiter(#[trigger] cur[k]),
    ensures
        forall|i: int|
            0 <= i < split_rec(s, cur).len() ==> segment_clean(#[trigger] split_rec(s, cur)[i]),
    decreases s.len(),
{
    let r = split_rec(s, cur);
    if s.len() == 0 {
        lemma_trim_clean(cur);
    } else if is_delimiter(s[0]) {
        lemma_trim_clean(cur);
        lemma_split_rec_clean(s.drop_first(), Seq::empty());
        let tail = split_rec(s.drop_first(), Seq::empty());
        assert forall|i: int| 0 <= i < r.len() implies segment_clean(#[trigger] r[i]) by {
            if i < kept_segment(cur).len() {
                assert(r[i] == kept_segment(cur)[i]);
            } else {
                assert(r[i] == tail[i - kept_segment(cur).len()]);
            }
        }
    } else {
        let pushed = cur.push(s[0]);
        assert forall|k: int| 0 <= k < pushed.len() implies !is_delimiter(#[trigger] pushed[k]) by {
            if k < cur.len() {
                assert(pushed[k] == cur[k]);
            } else {
                assert(pushed[k] == s[0]);
            }
        }
        lemma_split_rec_clean(s.drop_first(), pushed);
        assert forall|i: int| 0 <= i < r.len() implies segment_clean(#[trigger] r[i]) by {
            assert(r[i] == split_rec(s.drop_first(), pushed)[i]);
        }
    }
}

/// Every segment the splitter returns is non-empty, trimmed at both edges,
/// and free of delimiter characters, for any input text.
pub proof fn lemma_split_segments_clean(s: Seq<char>)
    ensures
        forall|i: int|
            0 <= i < split_text_spec(s).len() ==> segment_clean(#[trigger] split_text_spec(s)[i]),
{
    lemma_split_rec_clean(s, Seq::empty());
}

fn is_delimiter_exec(c: char) -> (r: bool)
    ensures
        r == is_delimiter(c),
{
    let n = c as u32;
    n == 0x3002 || n == 0xFF1F || n == 0xFF01 || n == 0x21 || n == 0x3F || n == 0x0A
}

fn is_space_exec(c: char) -> (r: bool)
    ensures
        r == is_space(c),
{
    let n = c as u32;
    (0x09 <= n && n <= 0x0D) || n == 0x20 || n == 0x85 || n == 0xA0 || n == 0x1680 || (0x2000 <= n
        && n <= 0x200A) || n == 0x2028 || n == 0x2029 || n == 0x202F || n == 0x205F || n == 0x3000
}

/// A whitespace scan from the left computes `trim_start_spec`.
proof fn lemma_trim_start_scan(s: Seq<char>, start: int, ts: int, end: int)
    requires
        0 <= start <= ts <= end <= s.len(),
        forall|k: int| start <= k < ts ==> is_space(#[trigger] s[k]),
        ts < end ==> !is_space(s[ts]),
    ensures
        trim_start_spec(s.subrange(start, end)) =~= s.subrange(ts, end),
    decreases ts - start,
{
    if start == ts {
        if ts < end {
            assert(s.subrange(start, end)[0] == s[ts]);
        }
    } else {
        assert(s.subrange(start, end)[0] == s[start]);
        assert(s.subrange(start, end).drop_first() =~= s.subrange(start + 1, end));
        lemma_trim_start_scan(s, start + 1, ts, end);
    }
}

/// A whitespace scan from the right computes `trim_end_spec`.
proof fn lemma_trim_end_scan(s: Seq<char>, start: int, te: int, end: int)
    requires
        0 <= start <= te <= end <= s.len(),
        forall|k: int| te <= k < end ==> is_space(#[trigger] s[k]),
        te > start ==> !is_space(s[te - 1]),
    ensures
        trim_end_spec(s.subrange(start, end)) =~= s.subrange(start, te),
    decreases end - te,
{
    if te == end {
        if te > start {
            assert(s.subrange(start, end).last() == s[te - 1]);
        }
    } else {
        assert(s.subrange(start, end).last() == s[end - 1]);
        assert(s.subrange(start, end).drop_last() =~= s.subrange(start, end - 1));
        lemma_trim_end_scan(s, start, te, end - 1);
    }
}

/// Trims the piece `text[start..end]` and appends it to `out` if anything is
/// left of it.
fn push_segment(text: &str, start: usize, end: usize, out: &mut Vec<String>)
    requires
        start <= end <= text@.len(),
    ensures
        final (out).deep_view() =~~= old(out).deep_view() + kept_segment(
            text@.subrange(start as int, end as int),
        ),
{
    let mut ts = start;
    while ts < end && is_space_exec(text.get_char(ts))
        invariant
            start <= ts <= end <= text@.len(),
            forall|k: int| start <= k < ts ==> is_space(#[trigger] text@[k]),
        decreases end - ts,
    {
        ts = ts + 1;
    }
    let mut te = end;
    while te > ts && is_space_exec(text.get_char(te - 1))
        invariant
            ts <= te <= end <= text@.len(),
            forall|k: int| te <= k < end ==> is_space(#[trigger] text@[k]),
        decreases te,
    {
        te = te - 1;
    }
    proof {
        lemma_trim_start_scan(text@, start as int, ts as int, end as int);
        lemma_trim_end_scan(text@, ts as int, te as int, end as int);
        assert(trim_spec(text@.subrange(start as int, end as int)) =~= text@.subrange(
            ts as int,
            te as int,
        ));
    }
    if ts < te {
        let seg = text.substring_char(ts, te).to_owned();
        let ghost prev = out.deep_view();
        out.push(seg);
        proof {
            assert(out.deep_view() =~~= prev.push(seg@));
            assert(out.deep_view() =~~= prev + kept_segment(
                text@.subrange(start as int, end as int),
            ));
        }
    } else {
        proof {
            assert(out.deep_view() =~~= old(out).deep_view() + kept_segment(
                text@.subrange(start as int, end as int),
            ));
        }
    }
}

/// The sentence splitter.  Its delimiter set is fixed: see [`is_delimiter`].
pub struct TextSplitter {}

impl Default for TextSplitter {
    fn default() -> Self {
        TextSplitter {  }
    }
}

impl TextSplitter {
    pub fn new() -> Self {
        TextSplitter {  }
    }

    /// Splits `text` into the ordered sequence of non-empty, trimmed segments
    /// between delimiters; delimiters are discarded.  Text without a
    /// delimiter yields one segment (the whole trimmed text); all-whitespace
    /// or empty input yields no segment.
    pub fn split_text(&self, text: &str) -> (r: Vec<String>)
        ensures
            r.deep_view() == split_text_spec(text@),
    {
        let n = text.unicode_len();
        let mut out: Vec<String> = Vec::new();
        let mut seg_start: usize = 0;
        let mut i: usize = 0;
        proof {
            assert(text@.subrange(0, n as int) =~= text@);
            assert(text@.subrange(0, 0) =~= Seq::<char>::empty());
        }
        while i < n
            invariant
                n == text@.len(),
                seg_start <= i <= n,
                split_text_spec(text@) =~~= out.deep_view() + split_rec(
                    text@.subrange(i as int, n as int),
                    text@.subrange(seg_start as int, i as int),
                ),
            decreases n - i,
        {
            let c = text.get_char(i);
            let ghost rest = text@.subrange(i as int, n as int);
            let ghost cur = text@.subrange(seg_start as int, i as int);
            proof {
                assert(rest[0] == text@[i as int]);
                assert(rest.drop_first() =~= text@.subrange(i + 1 as int, n as int));
            }
            if is_delimiter_exec(c) {
                let ghost prev = out.deep_view();
                push_segment(text, seg_start, i, &mut out);
                proof {
                    assert(split_rec(rest, cur) =~~= kept_segment(cur) + split_rec(
                        rest.drop_first(),
                        Seq::empty(),
                    ));
                    assert(prev + split_rec(rest, cur) =~~= (prev + kept_segment(cur)) + split_rec(
                        rest.drop_first(),
                        Seq::empty(),
                    ));
                    assert(text@.subrange(i + 1 as int, i + 1 as int) =~= Seq::<char>::empty());
                }
                seg_start = i + 1;
            } else {
                proof {
                    assert(cur.push(text@[i as int]) =~= text@.subrange(
                        seg_start as int,
                        i + 1 as int,
                    ));
                }
            }
            i = i + 1;
        }
        let ghost cur = text@.subrange(seg_start as int, n as int);
        push_segment(text, seg_start, n, &mut out);
        proof {
            assert(split_rec(text@.subrange(n as int, n as int), cur) =~~= kept_segment(cur));
            assert(out.deep_view() =~~= split_text_spec(text@));
        }
        out
    }
}

} // verus!
