//! Greedy word wrapping of host text into fixed-width display lines.
//!
//! Text is cut into paragraphs at every `'\n'`. A paragraph made only of
//! Unicode whitespace becomes one empty line; any other paragraph is split
//! into whitespace-separated words which are packed greedily: a word joins the
//! current line (after one space) unless that would make the line longer than
//! `width` bytes of UTF-8, in which case the line is finished first. A single
//! word longer than `width` stands alone on its line.

use vstd::prelude::*;

verus! {

broadcast use vstd::string::group_string_axioms;

/// Unicode `White_Space` (what `char::is_whitespace` tests).
pub open spec fn is_white(c: char) -> bool {
    let u = c as u32;
    (0x9 <= u && u <= 0xD) || u == 0x20 || u == 0x85 || u == 0xA0 || u == 0x1680 || (0x2000 <= u
        && u <= 0x200A) || u == 0x2028 || u == 0x2029 || u == 0x202F || u == 0x205F || u == 0x3000
}

/// Number of bytes of `c` in UTF-8.
pub open spec fn char_bytes(c: char) -> nat {
    let u = c as u32;
    if u < 0x80 {
        1
    } else if u < 0x800 {
        2
    } else if u < 0x10000 {
        3
    } else {
        4
    }
}

/// Number of bytes of `s` in UTF-8 (what `str::len` returns).
pub open spec fn byte_len(s: Seq<char>) -> nat
    decreases s.len(),
{
    if s.len() == 0 {
        0
    } else {
        byte_len(s.drop_last()) + char_bytes(s.last())
    }
}

/// The pieces of `s` between `'\n'` characters (what `str::split('\n')` yields).
pub open spec fn split_newlines(s: Seq<char>) -> Seq<Seq<char>>
    decreases s.len(),
{
    if s.len() == 0 {
        seq![Seq::<char>::empty()]
    } else {
        let p = split_newlines(s.drop_last());
        if s.last() == '\n' {
            p.push(Seq::<char>::empty())
        } else {
            p.update(p.len() - 1, p.last().push(s.last()))
        }
    }
}

/// Words finished so far and the word in progress after reading `s`.
pub open spec fn words_state(s: Seq<char>) -> (Seq<Seq<char>>, Seq<char>)
    decreases s.len(),
{
    if s.len() == 0 {
        (Seq::empty(), Seq::empty())
    } else {
        let (ws, cur) = words_state(s.drop_last());
        let c = s.last();
        if is_white(c) {
            if cur.len() > 0 {
                (ws.push(cur), Seq::empty())
            } else {
                (ws, cur)
            }
        } else {
            (ws, cur.push(c))
        }
    }
}

/// Maximal runs of non-whitespace characters (what `str::split_whitespace` yields).
pub open spec fn words(s: Seq<char>) -> Seq<Seq<char>> {
    let (ws, cur) = words_state(s);
    if cur.len() > 0 {
        ws.push(cur)
    } else {
        ws
    }
}

/// Lines finished so far and the line in progress after packing `ws`.
pub open spec fn wrap_state(ws: Seq<Seq<char>>, width: nat) -> (Seq<Seq<char>>, Seq<char>)
    decreases ws.len(),
{
    if ws.len() == 0 {
        (Seq::empty(), Seq::empty())
    } else {
        let (out, line) = wrap_state(ws.drop_last(), width);
        let w = ws.last();
        let next_len = byte_len(line) + byte_len(w) + (if line.len() > 0 {
            1nat
        } else {
            0nat
        });
        let flush = next_len > width && line.len() > 0;
        let out2 = if flush {
            out.push(line)
        } else {
            out
        };
        let line2: Seq<char> = if flush {
            Seq::empty()
        } else {
            line
        };
        let line3 = if line2.len() > 0 {
            line2.push(' ')
        } else {
            line2
        };
        (out2, line3 + w)
    }
}

pub open spec fn all_white(p: Seq<char>) -> bool {
    forall|i: int| 0 <= i < p.len() ==> is_white(#[trigger] p[i])
}

/// Display lines of one paragraph.
pub open spec fn paragraph_lines(p: Seq<char>, width: nat) -> Seq<Seq<char>> {
    if all_white(p) {
        seq![Seq::<char>::empty()]
    } else {
        let (out, line) = wrap_state(words(p), width);
        out.push(line)
    }
}

/// Display lines of a run of paragraphs, in order.
pub open spec fn lines_of(ps: Seq<Seq<char>>, width: nat) -> Seq<Seq<char>>
    decreases ps.len(),
{
    if ps.len() == 0 {
        Seq::empty()
    } else {
        lines_of(ps.drop_last(), width) + paragraph_lines(ps.last(), width)
    }
}

/// Display lines of `text` wrapped at `width` bytes.
pub open spec fn wrapped(text: Seq<char>, width: nat) -> Seq<Seq<char>> {
    lines_of(split_newlines(text), width)
}

/// Appends one character to a string by calling std's `String::push`.
/// Trusted contract: the string's characters afterwards are its characters
/// before followed by `c`, as the std documentation of `push` states.
#[verifier::external_body]
fn push_char(s: &mut String, c: char)
    ensures
        final(s)@ == old(s)@.push(c),
{
    s.push(c);
}

/// Whether `c` is Unicode whitespace.
pub fn is_whitespace(c: char) -> (b: bool)
    ensures
        b == is_white(c),
{
    let u = c as u32;
    (0x9 <= u && u <= 0xD) || u == 0x20 || u == 0x85 || u == 0xA0 || u == 0x1680 || (0x2000 <= u
        && u <= 0x200A) || u == 0x2028 || u == 0x2029 || u == 0x202F || u == 0x205F || u == 0x3000
}

fn utf8_len(c: char) -> (n: u128)
    ensures
        n == char_bytes(c),
{
    let u = c as u32;
    if u < 0x80 {
        1
    } else if u < 0x800 {
        2
    } else if u < 0x10000 {
        3
    } else {
        4
    }
}

/// UTF-8 size of `v`, saturated at `u128::MAX`.
fn byte_len_sat(v: &Vec<char>) -> (n: u128)
    ensures
        n == (if byte_len(v@) > u128::MAX {
            u128::MAX as nat
        } else {
            byte_len(v@)
        }),
{
    let mut n: u128 = 0;
    let mut i: usize = 0;
    while i < v.len()
        invariant
            i <= v.len(),
            n == (if byte_len(v@.take(i as int)) > u128::MAX {
                u128::MAX as nat
            } else {
                byte_len(v@.take(i as int))
            }),
        decreases v.len() - i,
    {
        assert(v@.take(i + 1).drop_last() =~= v@.take(i as int));
        n = n.saturating_add(utf8_len(v[i]));
        i = i + 1;
    }
    assert(v@.take(v.len() as int) =~= v@);
    n
}

fn chars_of(text: &str) -> (v: Vec<char>)
    ensures
        v@ == text@,
{
    let mut v: Vec<char> = Vec::new();
    let mut it = text.chars();
    loop
        invariant
            v@ + vstd::std_specs::iter::IteratorSpec::remaining(&it) == text@,
            vstd::std_specs::iter::IteratorSpec::obeys_prophetic_iter_laws(&it),
            vstd::std_specs::iter::IteratorSpec::decrease(&it) is Some,
        ensures
            v@ == text@,
        decreases vstd::std_specs::iter::IteratorSpec::decrease(&it)->0,
    {
        match it.next() {
            Some(c) => {
                v.push(c);
                assert(v@ + vstd::std_specs::iter::IteratorSpec::remaining(&it) =~= text@);
            },
            None => {
                assert(v@ =~= text@);
                break ;
            },
        }
    }
    v
}

fn string_of(v: &Vec<char>) -> (s: String)
    ensures
        s@ == v@,
{
    let mut s = String::new();
    let mut i: usize = 0;
    while i < v.len()
        invariant
            i <= v.len(),
            s@ == v@.take(i as int),
        decreases v.len() - i,
    {
        push_char(&mut s, v[i]);
        assert(s@ =~= v@.take(i + 1));
        i = i + 1;
    }
    assert(v@.take(v.len() as int) =~= v@);
    s
}


fn is_all_white(p: &Vec<char>) -> (b: bool)
    ensures
        b == all_white(p@),
{
    let mut i: usize = 0;
    while i < p.len()
        invariant
            i <= p.len(),
            forall|j: int| 0 <= j < i ==> is_white(#[trigger] p@[j]),
        decreases p.len() - i,
    {
        if !is_whitespace(p[i]) {
            return false;
        }
        i = i + 1;
    }
    true
}

fn split_words(p: &Vec<char>) -> (ws: Vec<Vec<char>>)
    ensures
        ws.deep_view() == words(p@),
{
    let mut ws: Vec<Vec<char>> = Vec::new();
    let mut cur: Vec<char> = Vec::new();
    let mut i: usize = 0;
    while i < p.len()
        invariant
            i <= p.len(),
            (ws.deep_view(), cur@) == words_state(p@.take(i as int)),
        decreases p.len() - i,
    {
        let c = p[i];
        assert(p@.take(i + 1).drop_last() =~= p@.take(i as int));
        assert(p@.take(i + 1).last() == c);
        let ghost old_ws = ws.deep_view();
        let ghost old_cur = cur@;
        assert(words_state(p@.take(i + 1).drop_last()) == (old_ws, old_cur));
        if is_whitespace(c) {
            if cur.len() > 0 {
                assert(cur.deep_view() =~= cur@);
                let w = cur;
                ws.push(w);
                cur = Vec::new();
                assert(ws.deep_view() =~= old_ws.push(old_cur));
            }
        } else {
            cur.push(c);
        }
        i = i + 1;
    }
    assert(p@.take(p.len() as int) =~= p@);
    let ghost old_ws = ws.deep_view();
    let ghost old_cur = cur@;
    if cur.len() > 0 {
        assert(cur.deep_view() =~= cur@);
        ws.push(cur);
        assert(ws.deep_view() =~= old_ws.push(old_cur));
    }
    ws
}

fn wrap_paragraph(p: &Vec<char>, width: usize) -> (lines: Vec<String>)
    ensures
        lines.deep_view() == paragraph_lines(p@, width as nat),
{
    if is_all_white(p) {
        let mut lines: Vec<String> = Vec::new();
        lines.push(String::new());
        assert(lines.deep_view() =~= seq![Seq::<char>::empty()]);
        return lines;
    }
    let ws = split_words(p);
    let mut out: Vec<String> = Vec::new();
    let mut line: Vec<char> = Vec::new();
    let mut line_bytes: u128 = 0;
    let mut j: usize = 0;
    while j < ws.len()
        invariant
            j <= ws.len(),
            ws.deep_view() == words(p@),
            (out.deep_view(), line@) == wrap_state(ws.deep_view().take(j as int), width as nat),
            line_bytes == (if byte_len(line@) > u128::MAX {
                u128::MAX as nat
            } else {
                byte_len(line@)
            }),
        decreases ws.len() - j,
    {
        let ghost before = ws.deep_view().take(j as int);
        assert(ws@[j as int].deep_view() =~= ws@[j as int]@);
        assert(ws.deep_view().take(j + 1).drop_last() =~= before);
        assert(ws.deep_view().take(j + 1).last() == ws@[j as int]@);
        let word_bytes = byte_len_sat(&ws[j]);
        let space: u128 = if line.len() > 0 { 1 } else { 0 };
        let next_len = line_bytes.saturating_add(word_bytes).saturating_add(space);
        if next_len > width as u128 && line.len() > 0 {
            out.push(string_of(&line));
            line = Vec::new();
            line_bytes = 0;
        }
        if line.len() > 0 {
            let ghost before_space = line@;
            line.push(' ');
            line_bytes = line_bytes.saturating_add(1);
            assert(line@.drop_last() =~= before_space);
        }
        let mut k: usize = 0;
        let ghost base = line@;
        while k < ws[j].len()
            invariant
                j < ws.len(),
                k <= ws@[j as int].len(),
                line@ == base + ws@[j as int]@.take(k as int),
                line_bytes == (if byte_len(line@) > u128::MAX {
                    u128::MAX as nat
                } else {
                    byte_len(line@)
                }),
            decreases ws@[j as int].len() - k,
        {
            line.push(ws[j][k]);
            line_bytes = line_bytes.saturating_add(utf8_len(ws[j][k]));
            assert(line@ =~= base + ws@[j as int]@.take(k + 1));
            assert(line@.drop_last() =~= base + ws@[j as int]@.take(k as int));
            k = k + 1;
        }
        assert(ws@[j as int]@.take(k as int) =~= ws@[j as int]@);
        assert(out.deep_view() =~= wrap_state(ws.deep_view().take(j + 1), width as nat).0);
        j = j + 1;
    }
    assert(ws.deep_view().take(ws.len() as int) =~= ws.deep_view());
    out.push(string_of(&line));
    assert(out.deep_view() =~= paragraph_lines(p@, width as nat));
    out
}

/// Wraps `text` into lines of at most `width` bytes (words longer than the
/// width get a line of their own); see the module documentation.
pub fn wrap_text(text: &str, width: usize) -> (lines: Vec<String>)
    ensures
        lines.deep_view() == wrapped(text@, width as nat),
{
    let chars = chars_of(text);
    let mut out: Vec<String> = Vec::new();
    let mut para: Vec<char> = Vec::new();
    let ghost mut done: Seq<Seq<char>> = Seq::empty();
    let mut i: usize = 0;
    while i < chars.len()
        invariant
            i <= chars.len(),
            split_newlines(chars@.take(i as int)) == done.push(para@),
            out.deep_view() == lines_of(done, width as nat),
        decreases chars.len() - i,
    {
        let c = chars[i];
        assert(chars@.take(i + 1).drop_last() =~= chars@.take(i as int));
        assert(chars@.take(i + 1).last() == c);
        if c == '\n' {
            let lines = wrap_paragraph(&para, width);
            let ghost prev = out.deep_view();
            out.append(&mut lines.clone());
            proof {
                assert(done.push(para@).drop_last() =~= done);
                done = done.push(para@);
            }
            assert(out.deep_view() =~= lines_of(done, width as nat));
            para = Vec::new();
            assert(split_newlines(chars@.take(i + 1)) =~= done.push(para@));
        } else {
            para.push(c);
            assert(split_newlines(chars@.take(i + 1)) =~= done.push(para@));
        }
        i = i + 1;
    }
    assert(chars@.take(chars.len() as int) =~= chars@);
    let lines = wrap_paragraph(&para, width);
    let mut rest = lines;
    out.append(&mut rest);
    assert(done.push(para@).drop_last() =~= done);
    assert(out.deep_view() =~= lines_of(done.push(para@), width as nat));
    out
}

} // verus!
