//! How many terminal rows a text takes when its words are wrapped at a given
//! width; the session's scroll range is sized from it.
use vstd::prelude::*;

use crate::transcript::{entries_view, ChatHistoryItem, EntryView};

verus! {

/// Unicode's White_Space property.
pub open spec fn is_space(c: char) -> bool {
    let u = c as u32;
    (0x9 <= u <= 0xD) || u == 0x20 || u == 0x85 || u == 0xA0 || u == 0x1680 || (0x2000 <= u
        <= 0x200A) || u == 0x2028 || u == 0x2029 || u == 0x202F || u == 0x205F || u == 0x3000
}

/// Relies on char::is_whitespace: true exactly for the White_Space property.
#[verifier::external_body]
pub(crate) fn is_whitespace(c: char) -> (r: bool)
    ensures
        r == is_space(c),
{
    c.is_whitespace()
}

/// Relies on str::chars: the characters of `s`, in order.
#[verifier::external_body]
pub(crate) fn chars_of(s: &str) -> (r: Vec<char>)
    ensures
        r@ == s@,
{
    s.chars().collect()
}

/// The maximal runs of non-space characters of `s`, in order.
pub open spec fn words_of(s: Seq<char>) -> Seq<Seq<char>>
    decreases s.len(),
{
    if s.len() == 0 {
        Seq::empty()
    } else {
        let w = words_of(s.drop_last());
        if is_space(s.last()) {
            w
        } else if s.len() >= 2 && !is_space(s[s.len() - 2]) {
            w.drop_last().push(w.last().push(s.last()))
        } else {
            w.push(seq![s.last()])
        }
    }
}

/// The pieces of `s` between line feeds; there is one more piece than there
/// are line feeds.
pub open spec fn pieces(s: Seq<char>) -> Seq<Seq<char>>
    decreases s.len(),
{
    if s.len() == 0 {
        seq![Seq::empty()]
    } else {
        let p = pieces(s.drop_last());
        if s.last() == '\n' {
            p.push(Seq::empty())
        } else {
            p.drop_last().push(p.last().push(s.last()))
        }
    }
}

/// The lines of `s`: its pieces, without an empty last one. An empty text has
/// no lines, and a final line feed starts none.
pub open spec fn text_lines(s: Seq<char>) -> Seq<Seq<char>> {
    let p = pieces(s);
    if p.last().len() == 0 {
        p.drop_last()
    } else {
        p
    }
}

/// Greedy wrapping of `words` at `width`: the number of line breaks, and the
/// width the last row has taken (each word counts one column more for the
/// space before it). A word that does not fit after the others starts a row.
pub open spec fn wrap_state(words: Seq<Seq<char>>, width: nat) -> (nat, nat)
    decreases words.len(),
{
    if words.len() == 0 {
        (0, 0)
    } else {
        let (b, cur) = wrap_state(words.drop_last(), width);
        let wl = words.last().len();
        if cur + wl + 1 > width {
            (b + 1, wl)
        } else {
            (b, cur + wl + 1)
        }
    }
}

/// Rows taken by one line.
pub open spec fn line_height(line: Seq<char>, width: nat) -> nat {
    wrap_state(words_of(line), width).0 + 1
}

/// Rows taken by `lines`, one after the other.
pub open spec fn lines_height(lines: Seq<Seq<char>>, width: nat) -> nat
    decreases lines.len(),
{
    if lines.len() == 0 {
        0
    } else {
        lines_height(lines.drop_last(), width) + line_height(lines.last(), width)
    }
}

/// Rows taken by a text.
pub open spec fn wrapped_height(text: Seq<char>, width: nat) -> nat {
    lines_height(text_lines(text), width)
}

/// `n`, or the largest `u16` where `n` is larger.
pub open spec fn capped(n: nat) -> nat {
    if n <= u16::MAX {
        n
    } else {
        u16::MAX as nat
    }
}

proof fn lemma_pieces_nonempty(s: Seq<char>)
    ensures
        pieces(s).len() >= 1,
    decreases s.len(),
{
    if s.len() > 0 {
        lemma_pieces_nonempty(s.drop_last());
    }
}

proof fn lemma_words_end(s: Seq<char>)
    requires
        s.len() > 0,
        !is_space(s.last()),
    ensures
        words_of(s).len() >= 1,
    decreases s.len(),
{
}

/// `a + b`, capped.
fn add_capped(a: u16, b: u16) -> (r: u16)
    ensures
        r as nat == capped((a + b) as nat),
{
    if a as u32 + b as u32 <= u16::MAX as u32 {
        a + b
    } else {
        u16::MAX
    }
}

/// Rows taken by `text` with its words wrapped at `width`, capped at the
/// largest `u16`.
pub fn count_wrapped_lines(text: &str, width: u16) -> (r: u16)
    ensures
        r as nat == capped(wrapped_height(text@, width as nat)),
{
    let cs = chars_of(text);
    let n = cs.len();
    let ghost s = cs@;
    let ghost w = width as nat;
    let wd = width as usize;
    let mut total: u16 = 0;
    let mut breaks: u16 = 0;
    let mut cur: usize = 0;
    let mut wlen: usize = 0;
    let mut ls: usize = 0;
    let mut i: usize = 0;
    let ghost mut tt: nat = 0;
    let ghost mut bb: nat = 0;
    proof {
        assert(s.take(0) =~= Seq::<char>::empty());
        assert(s.subrange(0, 0) =~= Seq::<char>::empty());
    }
    while i < n
        invariant
            n == s.len(),
            cs@ == s,
            wd == w,
            ls <= i <= n,
            pieces(s.take(i as int)).len() >= 1,
            pieces(s.take(i as int)).last() == s.subrange(ls as int, i as int),
            lines_height(pieces(s.take(i as int)).drop_last(), w) == tt,
            total as nat == capped(tt),
            breaks as nat == capped(bb),
            wlen <= i - ls,
            wlen > 0 <==> (i > ls && !is_space(s[i - 1])),
            wlen > 0 ==> words_of(s.subrange(ls as int, i as int)).len() >= 1
                && words_of(s.subrange(ls as int, i as int)).last().len() == wlen
                && wrap_state(words_of(s.subrange(ls as int, i as int)).drop_last(), w) == (bb, cur as nat),
            wlen == 0 ==> wrap_state(words_of(s.subrange(ls as int, i as int)), w) == (bb, cur as nat),
        decreases n - i,
    {
        let c = cs[i];
        let ghost cl = s.subrange(ls as int, i as int);
        let ghost cl2 = s.subrange(ls as int, i + 1);
        proof {
            assert(s.take(i + 1).drop_last() =~= s.take(i as int));
            assert(s.take(i + 1).last() == c);
            assert(cl2.drop_last() =~= cl);
            assert(cl2.last() == c);
            lemma_pieces_nonempty(s.take(i as int));
            if c != '\n' {
                let p = pieces(s.take(i as int));
                assert(pieces(s.take(i + 1)).drop_last() =~= p.drop_last());
                assert(pieces(s.take(i + 1)).last() =~= cl2);
            }
        }
        if c == '\n' || is_whitespace(c) {
            if wlen > 0 {
                proof {
                    assert(cl.len() > 0 && cl.last() == s[i - 1]);
                    lemma_words_end(cl);
                }
                if wlen >= wd || cur >= wd - wlen {
                    breaks = add_capped(breaks, 1);
                    proof {
                        bb = bb + 1;
                    }
                    cur = wlen;
                } else {
                    cur = cur + wlen + 1;
                }
                wlen = 0;
            }
            proof {
                assert(words_of(cl2) == words_of(cl));
            }
            if c == '\n' {
                let h = add_capped(breaks, 1);
                total = add_capped(total, h);
                proof {
                    assert(pieces(s.take(i + 1)) == pieces(s.take(i as int)).push(Seq::<char>::empty()));
                    assert(pieces(s.take(i + 1)).drop_last() =~= pieces(s.take(i as int)));
                    let pp = pieces(s.take(i as int));
                    assert(pp.last() == cl);
                    assert(wrap_state(words_of(cl), w).0 == bb);
                    assert(lines_height(pp, w) == lines_height(pp.drop_last(), w) + line_height(pp.last(), w));
                    tt = tt + bb + 1;
                    bb = 0;
                    assert(s.subrange(i + 1, i + 1) =~= Seq::<char>::empty());
                }
                breaks = 0;
                cur = 0;
                ls = i + 1;
            }
        } else {
            proof {
                if wlen > 0 {
                    assert(cl.len() >= 1 && cl.last() == s[i - 1]);
                    assert(cl2[cl2.len() - 2] == s[i - 1]);
                    assert(words_of(cl2).drop_last() =~= words_of(cl).drop_last());
                } else {
                    if cl2.len() >= 2 {
                        assert(cl2[cl2.len() - 2] == s[i - 1]);
                    }
                    assert(words_of(cl2).drop_last() =~= words_of(cl));
                }
            }
            wlen = wlen + 1;
        }
        i = i + 1;
    }
    proof {
        assert(s.take(n as int) =~= s);
        lemma_pieces_nonempty(s);
    }
    if ls < n {
        let ghost cl = s.subrange(ls as int, n as int);
        if wlen > 0 {
            proof {
                assert(cl.len() > 0 && cl.last() == s[n - 1]);
                lemma_words_end(cl);
            }
            if wlen >= wd || cur >= wd - wlen {
                breaks = add_capped(breaks, 1);
                proof {
                    bb = bb + 1;
                }
            }
        }
        let h = add_capped(breaks, 1);
        total = add_capped(total, h);
        proof {
            tt = tt + bb + 1;
            assert(pieces(s) =~= pieces(s).drop_last().push(pieces(s).last()));
        }
    }
    total
}

/// Rows taken by one transcript entry: a file entry takes three, a chat
/// entry its wrapped text and two rows of frame.
pub open spec fn entry_height(e: EntryView, width: nat) -> nat {
    match e {
        EntryView::FileUpload { .. } => 3,
        EntryView::Chat { text, .. } => wrapped_height(text, width) + 2,
    }
}

/// Rows taken by a transcript.
pub open spec fn total_height(entries: Seq<EntryView>, width: nat) -> nat
    decreases entries.len(),
{
    if entries.len() == 0 {
        0
    } else {
        total_height(entries.drop_last(), width) + entry_height(entries.last(), width)
    }
}

/// Rows taken by `history` at `width`, capped at the largest `u16`.
pub fn count_total_height(history: &Vec<ChatHistoryItem>, width: u16) -> (r: u16)
    ensures
        r as nat == capped(total_height(entries_view(history@), width as nat)),
{
    let ghost es = entries_view(history@);
    let mut total: u16 = 0;
    let mut i: usize = 0;
    while i < history.len()
        invariant
            i <= history@.len(),
            es == entries_view(history@),
            total as nat == capped(total_height(es.take(i as int), width as nat)),
        decreases history@.len() - i,
    {
        let h: u16 = match &history[i] {
            ChatHistoryItem::FileUpload(_) => 3,
            ChatHistoryItem::Chat(chat) => add_capped(count_wrapped_lines(chat.text.as_str(), width), 2),
        };
        total = add_capped(total, h);
        proof {
            assert(es.take(i + 1).drop_last() =~= es.take(i as int));
        }
        i = i + 1;
    }
    proof {
        assert(es.take(i as int) =~= es);
    }
    total
}

} // verus!
