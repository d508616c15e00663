//! Tokenization of raw text into words.
//!
//! Text is split strictly on the space character; each segment is trimmed
//! of white-space at both ends, and segments with nothing left — from
//! consecutive spaces, or all white-space themselves — are dropped, so
//! every word is non-empty. No case or punctuation normalization happens.

use vstd::prelude::*;

verus! {

/// The white-space characters that trimming removes from the ends of a word
/// (the Unicode `White_Space` set).
pub open spec fn is_white(c: char) -> bool {
    c == ' ' || c == '\u{9}' || c == '\u{A}' || c == '\u{B}' || c == '\u{C}' || c == '\u{D}'
        || c == '\u{85}' || c == '\u{A0}' || c == '\u{1680}' || c == '\u{2000}' || c == '\u{2001}'
        || c == '\u{2002}' || c == '\u{2003}' || c == '\u{2004}' || c == '\u{2005}'
        || c == '\u{2006}' || c == '\u{2007}' || c == '\u{2008}' || c == '\u{2009}'
        || c == '\u{200A}' || c == '\u{2028}' || c == '\u{2029}' || c == '\u{202F}'
        || c == '\u{205F}' || c == '\u{3000}'
}

/// Runtime test for `is_white`.
pub fn white(c: char) -> (r: bool)
    ensures
        r == is_white(c),
{
    c == ' ' || c == '\u{9}' || c == '\u{A}' || c == '\u{B}' || c == '\u{C}' || c == '\u{D}'
        || c == '\u{85}' || c == '\u{A0}' || c == '\u{1680}' || c == '\u{2000}' || c == '\u{2001}'
        || c == '\u{2002}' || c == '\u{2003}' || c == '\u{2004}' || c == '\u{2005}'
        || c == '\u{2006}' || c == '\u{2007}' || c == '\u{2008}' || c == '\u{2009}'
        || c == '\u{200A}' || c == '\u{2028}' || c == '\u{2029}' || c == '\u{202F}'
        || c == '\u{205F}' || c == '\u{3000}'
}

/// `s` without its leading white-space.
pub open spec fn trim_front(s: Seq<char>) -> Seq<char>
    decreases s.len(),
{
    if s.len() > 0 && is_white(s[0]) {
        trim_front(s.drop_first())
    } else {
        s
    }
}

/// `s` without its trailing white-space.
pub open spec fn trim_back(s: Seq<char>) -> Seq<char>
    decreases s.len(),
{
    if s.len() > 0 && is_white(s.last()) {
        trim_back(s.drop_last())
    } else {
        s
    }
}

/// `s` without white-space at either end.
pub open spec fn trimmed(s: Seq<char>) -> Seq<char> {
    trim_back(trim_front(s))
}

/// A word whose ends carry no white-space trims to itself.
pub proof fn lemma_trim_stable(s: Seq<char>)
    requires
        s.len() > 0,
        !is_white(s[0]),
        !is_white(s.last()),
    ensures
        trimmed(s) == s,
{
}

/// The trimmed copy of the characters `text[start..end]`.
#[verifier::loop_isolation(false)]
fn trim_word(text: &str, start: usize, end: usize) -> (w: String)
    requires
        start <= end <= text@.len(),
    ensures
        w@ == trimmed(text@.subrange(start as int, end as int)),
{
    let mut a = start;
    while a < end && white(text.get_char(a))
        invariant
            start <= a <= end,
            trim_front(text@.subrange(start as int, end as int)) == trim_front(
                text@.subrange(a as int, end as int),
            ),
        decreases end - a,
    {
        proof {
            assert(text@.subrange(a as int, end as int).drop_first() =~= text@.subrange(
                a + 1,
                end as int,
            ));
        }
        a += 1;
    }
    assert(trim_front(text@.subrange(start as int, end as int)) == text@.subrange(
        a as int,
        end as int,
    ));
    let mut b = end;
    while b > a && white(text.get_char(b - 1))
        invariant
            a <= b <= end,
            trim_back(text@.subrange(a as int, end as int)) == trim_back(
                text@.subrange(a as int, b as int),
            ),
        decreases b,
    {
        proof {
            assert(text@.subrange(a as int, b as int).drop_last() =~= text@.subrange(
                a as int,
                b - 1,
            ));
        }
        b -= 1;
    }
    let s = text.substring_char(a, b);
    s.to_owned()
}

/// The words of `s` read left to right: `cur` holds the characters of the
/// segment read so far. A space ends the segment; a segment is trimmed and
/// kept only when something is left of it, so no word is ever empty.
pub open spec fn scan_words(s: Seq<char>, cur: Seq<char>) -> Seq<Seq<char>>
    decreases s.len(),
{
    if s.len() == 0 {
        if trimmed(cur).len() == 0 {
            Seq::empty()
        } else {
            seq![trimmed(cur)]
        }
    } else if s[0] == ' ' {
        if trimmed(cur).len() == 0 {
            scan_words(s.drop_first(), Seq::empty())
        } else {
            seq![trimmed(cur)] + scan_words(s.drop_first(), Seq::empty())
        }
    } else {
        scan_words(s.drop_first(), cur.push(s[0]))
    }
}

/// The word sequence that tokenizing `s` yields.
pub open spec fn tokens(s: Seq<char>) -> Seq<Seq<char>> {
    scan_words(s, Seq::empty())
}

/// Splits `text` on the space character, trims each segment of white-space
/// at both ends and drops every segment with nothing left.
#[verifier::loop_isolation(false)]
pub fn text_to_sv(text: &str) -> (r: Vec<String>)
    ensures
        r.deep_view() == tokens(text@),
{
    let n = text.unicode_len();
    let mut r: Vec<String> = Vec::new();
    let mut start: usize = 0;
    let mut i: usize = 0;
    proof {
        assert(text@.skip(0) =~= text@);
        assert(text@.subrange(0, 0) =~= Seq::<char>::empty());
        assert(r.deep_view() + tokens(text@) =~~= tokens(text@));
    }
    while i < n
        invariant
            start <= i <= n,
            tokens(text@) == r.deep_view() + scan_words(
                text@.skip(i as int),
                text@.subrange(start as int, i as int),
            ),
        decreases n - i,
    {
        let ghost rest = text@.skip(i as int);
        let ghost cur = text@.subrange(start as int, i as int);
        proof {
            assert(rest[0] == text@[i as int]);
            assert(rest.drop_first() =~= text@.skip(i + 1));
        }
        let c = text.get_char(i);
        if c == ' ' {
            if i > start {
                let w = trim_word(text, start, i);
                if !w.as_str().is_empty() {
                    proof {
                        let pushed = r.deep_view().push(w@);
                        assert(pushed =~~= r.deep_view() + seq![trimmed(cur)]);
                        assert(scan_words(rest, cur) == seq![trimmed(cur)] + scan_words(
                            rest.drop_first(),
                            Seq::empty(),
                        ));
                        assert(r.deep_view() + scan_words(rest, cur) =~~= pushed + scan_words(
                            text@.skip(i + 1),
                            Seq::empty(),
                        ));
                    }
                    r.push(w);
                }
            }
            start = i + 1;
            proof {
                assert(text@.subrange(start as int, i + 1) =~= Seq::<char>::empty());
            }
        } else {
            proof {
                assert(cur.push(text@[i as int]) =~= text@.subrange(start as int, i + 1));
            }
        }
        i += 1;
    }
    proof {
        assert(text@.skip(n as int) =~= Seq::<char>::empty());
    }
    if start < n {
        let w = trim_word(text, start, n);
        if !w.as_str().is_empty() {
            proof {
                let cur = text@.subrange(start as int, n as int);
                assert(scan_words(Seq::empty(), cur) == seq![trimmed(cur)]);
                assert(r.deep_view().push(w@) =~~= r.deep_view() + seq![trimmed(cur)]);
            }
            r.push(w);
        }
    }
    proof {
        assert(r.deep_view() + Seq::<Seq<char>>::empty() =~~= r.deep_view());
    }
    r
}

/// Whether the word holds a period anywhere: the (deliberately coarse)
/// sentence-boundary heuristic.
pub open spec fn has_period(w: Seq<char>) -> bool {
    exists|k: int| 0 <= k < w.len() && w[k] == '.'
}

/// Runtime test for `has_period`.
pub fn contains_period(w: &str) -> (r: bool)
    ensures
        r == has_period(w@),
{
    let n = w.unicode_len();
    let mut i: usize = 0;
    while i < n
        invariant
            i <= n,
            n == w@.len(),
            forall|k: int| 0 <= k < i ==> w@[k] != '.',
        decreases n - i,
    {
        if w.get_char(i) == '.' {
            return true;
        }
        i += 1;
    }
    false
}

/// The words of `ws` joined with a single space between neighbours.
pub open spec fn joined(ws: Seq<Seq<char>>) -> Seq<char>
    decreases ws.len(),
{
    if ws.len() == 0 {
        Seq::empty()
    } else if ws.len() == 1 {
        ws[0]
    } else {
        ws[0] + seq![' '] + joined(ws.drop_first())
    }
}

/// Joins the words with single spaces, as the persisted record stores them.
#[verifier::loop_isolation(false)]
pub fn join_words(words: &Vec<String>) -> (r: String)
    ensures
        r@ == joined(words.deep_view()),
{
    let ghost ws = words.deep_view();
    let mut out = String::new();
    let mut i: usize = 0;
    proof {
        assert(ws.skip(0) =~= ws);
        assert(out@ + joined(ws) =~= joined(ws));
    }
    while i < words.len()
        invariant
            i <= words.len(),
            joined(ws) == out@ + joined(ws.skip(i as int)),
        decreases words.len() - i,
    {
        let ghost rest = ws.skip(i as int);
        proof {
            assert(rest[0] == ws[i as int]);
            assert(rest.drop_first() =~= ws.skip(i + 1));
        }
        out.append(words[i].as_str());
        if i + 1 < words.len() {
            out.append(" ");
            proof {
                reveal_strlit(" ");
                assert(" "@ =~= seq![' ']);
            }
        }
        i += 1;
    }
    proof {
        assert(ws.skip(words.len() as int) =~= Seq::<Seq<char>>::empty());
        assert(out@ =~= joined(ws));
    }
    out
}

/// A word as the tokenizer emits it: non-empty, no space anywhere, no
/// white-space at either end.
pub open spec fn canonical_word(w: Seq<char>) -> bool {
    &&& w.len() > 0
    &&& !is_white(w[0])
    &&& !is_white(w.last())
    &&& forall|k: int| 0 <= k < w.len() ==> w[k] != ' '
}

/// A non-empty trim of a space-free sequence starts with a character that
/// is not white-space.
proof fn lemma_trim_front_props(s: Seq<char>)
    requires
        forall|k: int| 0 <= k < s.len() ==> s[k] != ' ',
    ensures
        trim_front(s).len() > 0 ==> !is_white(trim_front(s)[0]),
        forall|k: int| 0 <= k < trim_front(s).len() ==> trim_front(s)[k] != ' ',
    decreases s.len(),
{
    if s.len() > 0 && is_white(s[0]) {
        assert(forall|k: int| 0 <= k < s.drop_first().len() ==> s.drop_first()[k] == s[k + 1]);
        lemma_trim_front_props(s.drop_first());
    }
}

/// A non-empty trim of a space-free sequence ends with a character that is
/// not white-space, and keeps the first character.
proof fn lemma_trim_back_props(s: Seq<char>)
    requires
        forall|k: int| 0 <= k < s.len() ==> s[k] != ' ',
    ensures
        trim_back(s).len() > 0 ==> !is_white(trim_back(s).last()),
        trim_back(s).len() > 0 ==> trim_back(s)[0] == s[0],
        forall|k: int| 0 <= k < trim_back(s).len() ==> trim_back(s)[k] != ' ',
    decreases s.len(),
{
    if s.len() > 0 && is_white(s.last()) {
        assert(forall|k: int| 0 <= k < s.drop_last().len() ==> s.drop_last()[k] == s[k]);
        lemma_trim_back_props(s.drop_last());
    }
}

/// Whatever a space-free segment trims down to, if anything is left it is a
/// canonical word.
proof fn lemma_trimmed_canonical(s: Seq<char>)
    requires
        forall|k: int| 0 <= k < s.len() ==> s[k] != ' ',
        trimmed(s).len() > 0,
    ensures
        canonical_word(trimmed(s)),
{
    lemma_trim_front_props(s);
    lemma_trim_back_props(trim_front(s));
}

proof fn lemma_scan_words_canonical(s: Seq<char>, cur: Seq<char>)
    requires
        forall|k: int| 0 <= k < cur.len() ==> cur[k] != ' ',
    ensures
        forall|j: int| 0 <= j < scan_words(s, cur).len() ==> canonical_word(
            #[trigger] scan_words(s, cur)[j],
        ),
    decreases s.len(),
{
    let res = scan_words(s, cur);
    if s.len() == 0 {
        if trimmed(cur).len() > 0 {
            lemma_trimmed_canonical(cur);
        }
    } else if s[0] == ' ' {
        let rest = scan_words(s.drop_first(), Seq::empty());
        lemma_scan_words_canonical(s.drop_first(), Seq::empty());
        if trimmed(cur).len() > 0 {
            lemma_trimmed_canonical(cur);
            assert forall|j: int| 0 <= j < res.len() implies canonical_word(res[j]) by {
                if j > 0 {
                    assert(res[j] == rest[j - 1]);
                    assert(canonical_word(rest[j - 1]));
                }
            }
        }
    } else {
        assert(forall|k: int| 0 <= k < cur.push(s[0]).len() ==> cur.push(s[0])[k] != ' ');
        lemma_scan_words_canonical(s.drop_first(), cur.push(s[0]));
        let rest = scan_words(s.drop_first(), cur.push(s[0]));
        assert forall|j: int| 0 <= j < res.len() implies canonical_word(res[j]) by {
            assert(res[j] == rest[j]);
            assert(canonical_word(rest[j]));
        }
    }
}

/// Every word the tokenizer yields is canonical: non-empty, space-free,
/// with no white-space at either end. Joining such words and tokenizing
/// again therefore reproduces them (`lemma_tokens_joined`).
pub proof fn lemma_tokens_canonical(s: Seq<char>)
    ensures
        forall|j: int| 0 <= j < tokens(s).len() ==> canonical_word(#[trigger] tokens(s)[j]),
{
    lemma_scan_words_canonical(s, Seq::empty());
}

/// Scanning a space-free word moves it wholesale into the current segment.
proof fn lemma_scan_no_space(s: Seq<char>, w: Seq<char>, cur: Seq<char>)
    requires
        forall|k: int| 0 <= k < w.len() ==> w[k] != ' ',
    ensures
        scan_words(w + s, cur) == scan_words(s, cur + w),
    decreases w.len(),
{
    if w.len() == 0 {
        assert(w + s =~= s);
        assert(cur + w =~= cur);
    } else {
        assert((w + s)[0] == w[0]);
        assert((w + s).drop_first() =~= w.drop_first() + s);
        lemma_scan_no_space(s, w.drop_first(), cur.push(w[0]));
        assert(cur.push(w[0]) + w.drop_first() =~= cur + w);
    }
}

/// Round trip: joining canonical words with single spaces and tokenizing the
/// result gives the words back unchanged.
pub proof fn lemma_tokens_joined(ws: Seq<Seq<char>>)
    requires
        forall|j: int| 0 <= j < ws.len() ==> canonical_word(ws[j]),
    ensures
        tokens(joined(ws)) == ws,
    decreases ws.len(),
{
    if ws.len() == 0 {
        assert(tokens(joined(ws)) =~~= ws);
    } else if ws.len() == 1 {
        assert(joined(ws) == ws[0]);
        assert(ws[0] + Seq::<char>::empty() =~= ws[0]);
        lemma_scan_no_space(Seq::empty(), ws[0], Seq::empty());
        assert(Seq::<char>::empty() + ws[0] =~= ws[0]);
        lemma_trim_stable(ws[0]);
        assert(scan_words(Seq::<char>::empty(), ws[0]) == seq![ws[0]]);
        assert(tokens(joined(ws)) =~~= ws);
    } else {
        let rest = ws.drop_first();
        let tail = seq![' '] + joined(rest);
        assert(joined(ws) =~= ws[0] + tail);
        lemma_scan_no_space(tail, ws[0], Seq::empty());
        assert(Seq::<char>::empty() + ws[0] =~= ws[0]);
        assert(tail[0] == ' ');
        assert(tail.drop_first() =~= joined(rest));
        lemma_trim_stable(ws[0]);
        assert(scan_words(tail, ws[0]) == seq![trimmed(ws[0])] + tokens(joined(rest)));
        lemma_tokens_joined(rest);
        assert(seq![ws[0]] + rest =~~= ws);
    }
}

} // verus!
