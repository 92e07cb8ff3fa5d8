//! Deterministic text layout: greedy word-wrap of a string to a fixed
//! character-width budget, plus capping to a maximum line count with an
//! ellipsis marking the truncation.
//!
//! The wrap is modelled as two left folds: one over the characters, splitting
//! the text into whitespace-separated words, and one over the words, packing
//! them greedily into lines. A word never breaks mid-word; a word longer than
//! the width budget occupies a line of its own.

use vstd::prelude::*;

use crate::utils::push_char;

verus! {

/// Whitespace for the purposes of word splitting.
pub open spec fn is_space(c: char) -> bool {
    c == ' ' || c == '\t' || c == '\n' || c == '\r'
}

/// One step of the word-splitting fold: the accumulator holds the finished
/// words and the word currently being read.
pub open spec fn split_step(acc: (Seq<Seq<char>>, Seq<char>), c: char) -> (
    Seq<Seq<char>>,
    Seq<char>,
) {
    if is_space(c) {
        if acc.1.len() == 0 {
            acc
        } else {
            (acc.0.push(acc.1), Seq::empty())
        }
    } else {
        (acc.0, acc.1.push(c))
    }
}

/// The word-splitting fold over all characters of `s`.
pub open spec fn split_fold(s: Seq<char>) -> (Seq<Seq<char>>, Seq<char>)
    decreases s.len(),
{
    if s.len() == 0 {
        (Seq::empty(), Seq::empty())
    } else {
        split_step(split_fold(s.drop_last()), s.last())
    }
}

/// The whitespace-separated words of `s`, in order.
pub open spec fn words_of(s: Seq<char>) -> Seq<Seq<char>> {
    let acc = split_fold(s);
    if acc.1.len() == 0 {
        acc.0
    } else {
        acc.0.push(acc.1)
    }
}

/// One step of the line-packing fold: the accumulator holds the finished
/// lines and the line currently being filled. A word joins the current line
/// when it fits after a separating space; otherwise it opens a new line.
pub open spec fn wrap_step(acc: (Seq<Seq<char>>, Seq<char>), w: Seq<char>, width: int) -> (
    Seq<Seq<char>>,
    Seq<char>,
) {
    if acc.1.len() == 0 {
        (acc.0, w)
    } else if acc.1.len() + 1 + w.len() <= width {
        (acc.0, acc.1 + seq![' '] + w)
    } else {
        (acc.0.push(acc.1), w)
    }
}

/// The line-packing fold over all of `ws`.
pub open spec fn wrap_fold(ws: Seq<Seq<char>>, width: int) -> (Seq<Seq<char>>, Seq<char>)
    decreases ws.len(),
{
    if ws.len() == 0 {
        (Seq::empty(), Seq::empty())
    } else {
        wrap_step(wrap_fold(ws.drop_last(), width), ws.last(), width)
    }
}

/// The greedy wrap of `s` at `width`: its words packed into lines. An input
/// with no words yields a single empty line.
pub open spec fn wrap_lines(s: Seq<char>, width: int) -> Seq<Seq<char>> {
    let ws = words_of(s);
    if ws.len() == 0 {
        seq![Seq::<char>::empty()]
    } else {
        wrap_fold(ws, width).0.push(wrap_fold(ws, width).1)
    }
}

/// Caps `lines` at `max` lines; when lines are dropped, the last kept line is
/// marked with a trailing ellipsis character.
pub open spec fn ellipsize(lines: Seq<Seq<char>>, max: int) -> Seq<Seq<char>> {
    if lines.len() <= max {
        lines
    } else {
        lines.take(max).update(max - 1, lines[max - 1].push('…'))
    }
}

/// The views of a vector of strings.
pub open spec fn line_views(v: Seq<String>) -> Seq<Seq<char>> {
    v.map_values(|s: String| s@)
}

proof fn lemma_split_fold_take_step(s: Seq<char>, i: int)
    requires
        0 <= i < s.len(),
    ensures
        split_fold(s.take(i + 1)) == split_step(split_fold(s.take(i)), s[i]),
{
    let t = s.take(i + 1);
    assert(t.drop_last() =~= s.take(i));
    assert(t.last() == s[i]);
}

proof fn lemma_wrap_fold_take_step(ws: Seq<Seq<char>>, width: int, i: int)
    requires
        0 <= i < ws.len(),
    ensures
        wrap_fold(ws.take(i + 1), width) == wrap_step(wrap_fold(ws.take(i), width), ws[i], width),
{
    let t = ws.take(i + 1);
    assert(t.drop_last() =~= ws.take(i));
    assert(t.last() == ws[i]);
}

/// Splits `text` into its whitespace-separated words.
fn split_words(text: &str) -> (words: Vec<String>)
    ensures
        line_views(words@) == words_of(text@),
{
    let n = text.unicode_len();
    let mut words: Vec<String> = Vec::new();
    let mut cur: String = String::new();
    let mut i: usize = 0;
    while i < n
        invariant
            n == text@.len(),
            i <= n,
            line_views(words@) == split_fold(text@.take(i as int)).0,
            cur@ == split_fold(text@.take(i as int)).1,
        decreases n - i,
    {
        let c = text.get_char(i);
        proof {
            lemma_split_fold_take_step(text@, i as int);
        }
        if c == ' ' || c == '\t' || c == '\n' || c == '\r' {
            if !cur.as_str().is_empty() {
                let ghost old_words = words@;
                let ghost old_cur = cur@;
                words.push(cur);
                cur = String::new();
                proof {
                    assert(line_views(words@) =~= line_views(old_words).push(old_cur));
                }
            }
        } else {
            push_char(&mut cur, c);
        }
        i = i + 1;
    }
    proof {
        assert(text@.take(n as int) =~= text@);
    }
    if !cur.as_str().is_empty() {
        let ghost old_words = words@;
        let ghost old_cur = cur@;
        words.push(cur);
        proof {
            assert(line_views(words@) =~= line_views(old_words).push(old_cur));
        }
    }
    words
}

/// Greedy word-wrap of `text` at a budget of `width` characters. Breaks only
/// at word boundaries; a word longer than `width` occupies its own line
/// unbroken. An input with no words yields a single empty line.
pub fn wrap(text: &str, width: usize) -> (lines: Vec<String>)
    requires
        width >= 1,
    ensures
        line_views(lines@) == wrap_lines(text@, width as int),
{
    let words = split_words(text);
    let ghost ws = words_of(text@);
    let mut lines: Vec<String> = Vec::new();
    if words.len() == 0 {
        lines.push(String::new());
        proof {
            assert(line_views(lines@) =~~= wrap_lines(text@, width as int));
        }
        return lines;
    }
    let mut cur: String = String::new();
    let mut cur_len: usize = 0;
    let mut j: usize = 0;
    while j < words.len()
        invariant
            width >= 1,
            line_views(words@) == ws,
            j <= words.len(),
            cur_len == cur@.len(),
            line_views(lines@) == wrap_fold(ws.take(j as int), width as int).0,
            cur@ == wrap_fold(ws.take(j as int), width as int).1,
        decreases words.len() - j,
    {
        let w = &words[j];
        let wlen = w.as_str().unicode_len();
        proof {
            lemma_wrap_fold_take_step(ws, width as int, j as int);
            assert(ws[j as int] == w@);
        }
        if cur_len == 0 {
            cur = w.clone();
            cur_len = wlen;
        } else {
            let fits = if cur_len < width {
                wlen <= width - cur_len - 1
            } else {
                false
            };
            if fits {
                cur.append(" ");
                cur.append(w.as_str());
                cur_len = cur_len + 1 + wlen;
                proof {
                    reveal_strlit(" ");
                    assert(" "@ =~= seq![' ']);
                }
            } else {
                let ghost old_lines = lines@;
                let ghost old_cur = cur@;
                lines.push(cur);
                cur = w.clone();
                cur_len = wlen;
                proof {
                    assert(line_views(lines@) =~= line_views(old_lines).push(old_cur));
                }
            }
        }
        j = j + 1;
    }
    proof {
        assert(ws.take(words@.len() as int) =~~= ws);
    }
    let ghost old_lines = lines@;
    let ghost old_cur = cur@;
    lines.push(cur);
    proof {
        assert(line_views(lines@) =~= line_views(old_lines).push(old_cur));
    }
    lines
}

/// Greedy word-wrap capped at `max_lines` lines; when the wrap overflows, the
/// last kept line gets a trailing ellipsis character.
pub fn wrap_capped(text: &str, width: usize, max_lines: usize) -> (lines: Vec<String>)
    requires
        width >= 1,
        max_lines >= 1,
    ensures
        line_views(lines@) == ellipsize(wrap_lines(text@, width as int), max_lines as int),
{
    let mut lines = wrap(text, width);
    let ghost full = wrap_lines(text@, width as int);
    if lines.len() > max_lines {
        lines.truncate(max_lines);
        let last_opt = lines.pop();
        let mut last = match last_opt {
            Some(l) => l,
            None => String::new(),
        };
        let ghost old_last = last@;
        last.append("…");
        proof {
            reveal_strlit("…");
            assert(last@ =~= old_last.push('…'));
        }
        lines.push(last);
        proof {
            assert(line_views(lines@) =~~= ellipsize(full, max_lines as int));
        }
    }
    lines
}

/// Every word produced by the splitting fold is non-empty and free of
/// whitespace.
proof fn lemma_split_fold_words_wf(s: Seq<char>)
    ensures
        forall|i: int|
            0 <= i < split_fold(s).0.len() ==> word_wf(#[trigger] split_fold(s).0[i]),
        forall|j: int|
            0 <= j < split_fold(s).1.len() ==> !is_space(#[trigger] split_fold(s).1[j]),
    decreases s.len(),
{
    if s.len() > 0 {
        lemma_split_fold_words_wf(s.drop_last());
        let acc = split_fold(s.drop_last());
        let c = s.last();
        if is_space(c) {
            if acc.1.len() != 0 {
                assert(word_wf(acc.1));
                assert(split_fold(s).0 == acc.0.push(acc.1));
                assert(forall|i: int|
                    0 <= i < split_fold(s).0.len() ==> word_wf(#[trigger] split_fold(s).0[i]));
            }
        } else {
            assert(split_fold(s).1 == acc.1.push(c));
            assert(forall|j: int|
                0 <= j < split_fold(s).1.len() ==> !is_space(#[trigger] split_fold(s).1[j]));
        }
    }
}

/// A well-formed word: non-empty, no whitespace inside.
pub open spec fn word_wf(w: Seq<char>) -> bool {
    w.len() > 0 && forall|j: int| 0 <= j < w.len() ==> !is_space(#[trigger] w[j])
}

/// Every word of a string is non-empty and free of whitespace.
pub proof fn lemma_words_wf(s: Seq<char>)
    ensures
        forall|i: int| 0 <= i < words_of(s).len() ==> word_wf(#[trigger] words_of(s)[i]),
{
    lemma_split_fold_words_wf(s);
}

/// A line respects the width budget when measured in whole words: it is
/// within the budget, or it is a single unbroken word.
pub open spec fn line_fits(line: Seq<char>, width: int) -> bool {
    line.len() <= width || (forall|j: int| 0 <= j < line.len() ==> !is_space(#[trigger] line[j]))
}

proof fn lemma_wrap_fold_fits(ws: Seq<Seq<char>>, width: int)
    requires
        width >= 1,
        forall|i: int| 0 <= i < ws.len() ==> word_wf(#[trigger] ws[i]),
    ensures
        forall|i: int|
            0 <= i < wrap_fold(ws, width).0.len() ==> line_fits(
                #[trigger] wrap_fold(ws, width).0[i],
                width,
            ),
        line_fits(wrap_fold(ws, width).1, width),
    decreases ws.len(),
{
    if ws.len() > 0 {
        lemma_wrap_fold_fits(ws.drop_last(), width);
        let acc = wrap_fold(ws.drop_last(), width);
        let w = ws.last();
        assert(word_wf(w));
        if acc.1.len() != 0 && acc.1.len() + 1 + w.len() <= width {
            assert(line_fits(acc.1 + seq![' '] + w, width));
        }
    }
}

/// Wrap respects the width bound: every line of the greedy wrap is within
/// the width budget when measured in whole words (a longer line is a single
/// unbroken word), and the capped wrap never has more than `max` lines.
pub proof fn lemma_wrap_line_bounds(s: Seq<char>, width: int, max: int)
    requires
        width >= 1,
        max >= 1,
    ensures
        forall|i: int|
            0 <= i < wrap_lines(s, width).len() ==> line_fits(
                #[trigger] wrap_lines(s, width)[i],
                width,
            ),
        ellipsize(wrap_lines(s, width), max).len() <= max,
{
    lemma_words_wf(s);
    lemma_wrap_fold_fits(words_of(s), width);
}

/// Truncation marker: when a text wraps into more than `max` lines, the
/// capped result has exactly `max` lines, the lines before the last are the
/// first wrapped lines unchanged, and the last kept line is the wrapped line
/// at that position with a single ellipsis character appended.
pub proof fn lemma_truncation_marker(s: Seq<char>, width: int, max: int)
    requires
        width >= 1,
        max >= 1,
        wrap_lines(s, width).len() > max,
    ensures
        ellipsize(wrap_lines(s, width), max).len() == max,
        forall|i: int|
            0 <= i < max - 1 ==> #[trigger] ellipsize(wrap_lines(s, width), max)[i] == wrap_lines(
                s,
                width,
            )[i],
        ellipsize(wrap_lines(s, width), max)[max - 1] == wrap_lines(s, width)[max - 1].push('…'),
        ellipsize(wrap_lines(s, width), max)[max - 1].last() == '…',
{
}

} // verus!
