//! Text building blocks shared by every renderer: concatenation, decimal
//! numbers, repetition, padding, joining and line splitting, each stated over
//! sequences of characters.

use vstd::prelude::*;

verus! {

/// The characters of every string in `parts`, in order.
pub open spec fn texts(parts: Seq<String>) -> Seq<Seq<char>> {
    parts.map_values(|s: String| s@)
}

/// All of `parts` written one after another.
pub open spec fn concat(parts: Seq<Seq<char>>) -> Seq<char>
    decreases parts.len(),
{
    if parts.len() == 0 {
        Seq::empty()
    } else {
        concat(parts.drop_last()) + parts.last()
    }
}

/// `parts` written one after another with `sep` between neighbours.
pub open spec fn joined(parts: Seq<Seq<char>>, sep: Seq<char>) -> Seq<char>
    decreases parts.len(),
{
    if parts.len() == 0 {
        Seq::empty()
    } else if parts.len() == 1 {
        parts[0]
    } else {
        joined(parts.drop_last(), sep) + sep + parts.last()
    }
}

/// `unit` written `count` times.
pub open spec fn repeated(unit: Seq<char>, count: nat) -> Seq<char>
    decreases count,
{
    if count == 0 {
        Seq::empty()
    } else {
        repeated(unit, (count - 1) as nat) + unit
    }
}

/// The decimal digit for `d`, which is below ten.
pub open spec fn digit_char(d: nat) -> char {
    if d == 0 {
        '0'
    } else if d == 1 {
        '1'
    } else if d == 2 {
        '2'
    } else if d == 3 {
        '3'
    } else if d == 4 {
        '4'
    } else if d == 5 {
        '5'
    } else if d == 6 {
        '6'
    } else if d == 7 {
        '7'
    } else if d == 8 {
        '8'
    } else {
        '9'
    }
}

/// `n` in decimal, without sign or leading zeros.
pub open spec fn decimal_text(n: nat) -> Seq<char>
    decreases n,
{
    if n < 10 {
        seq![digit_char(n)]
    } else {
        decimal_text(n / 10).push(digit_char(n % 10))
    }
}

/// `text` right-aligned in a field of `width` characters, filled with spaces;
/// a longer text is left as it is.
pub open spec fn padded_left(text: Seq<char>, width: nat) -> Seq<char> {
    if text.len() >= width {
        text
    } else {
        repeated(seq![' '], (width - text.len()) as nat) + text
    }
}

/// The position of the first line feed in `s`, or the length of `s` if it has
/// none.
pub open spec fn line_end(s: Seq<char>) -> nat
    decreases s.len(),
{
    if s.len() == 0 {
        0
    } else if s[0] == '\n' {
        0
    } else {
        1 + line_end(s.skip(1))
    }
}

/// `line` without one trailing carriage return.
pub open spec fn without_carriage_return(line: Seq<char>) -> Seq<char> {
    if line.len() > 0 && line.last() == '\r' {
        line.drop_last()
    } else {
        line
    }
}

/// The lines of `s`. A line ends at a line feed, or at a carriage return
/// directly followed by one; neither belongs to the line. Text after the last
/// line feed is a line of its own when it is not empty, and keeps a trailing
/// carriage return.
pub open spec fn lines_of(s: Seq<char>) -> Seq<Seq<char>>
    decreases s.len(),
{
    if s.len() == 0 {
        Seq::empty()
    } else {
        let end = line_end(s);
        if end >= s.len() {
            seq![s]
        } else {
            seq![without_carriage_return(s.take(end as int))] + lines_of(s.skip(end as int + 1))
        }
    }
}

/// A prefix without line feed moves the first line feed by its length.
pub proof fn lemma_line_end_after_prefix(prefix: Seq<char>, rest: Seq<char>)
    requires
        forall|k: int| 0 <= k < prefix.len() ==> prefix[k] != '\n',
    ensures
        line_end(prefix + rest) == prefix.len() + line_end(rest),
    decreases prefix.len(),
{
    if prefix.len() == 0 {
    } else {
        let whole = prefix + rest;
        assert(whole.skip(1) =~= prefix.skip(1) + rest);
        lemma_line_end_after_prefix(prefix.skip(1), rest);
    }
}

/// The characters of one more string come after those of the others.
pub proof fn lemma_texts_push(parts: Seq<String>, last: String)
    ensures
        texts(parts.push(last)) == texts(parts).push(last@),
{
}

/// What `str::trim` returns for `s`: the text without the white space, as
/// Unicode defines it, before its first and after its last other character.
pub uninterp spec fn trimmed(s: Seq<char>) -> Seq<char>;

/// Removes white space at both ends. Wraps `str::trim`.
#[verifier::external_body]
pub(crate) fn trim_ends<'a>(s: &'a str) -> (short: &'a str)
    ensures
        short@ == trimmed(s@),
{
    s.trim()
}

/// Reads bytes as UTF-8. Wraps `std::str::from_utf8`, which accepts exactly
/// the valid encodings and then gives the characters they encode.
#[verifier::external_body]
pub(crate) fn utf8_text<'a>(bytes: &'a [u8]) -> (text: Option<&'a str>)
    ensures
        text is Some <==> vstd::utf8::valid_utf8(bytes@),
        text is Some ==> text->0@ == vstd::utf8::decode_utf8(bytes@),
{
    std::str::from_utf8(bytes).ok()
}

/// Appends one character. Wraps `String::push`, which adds the character at
/// the end and leaves the rest in place.
#[verifier::external_body]
pub(crate) fn push_char(s: &mut String, c: char)
    ensures
        final(s)@ == old(s)@.push(c),
{
    s.push(c)
}

/// Whether two strings hold the same characters.
pub fn str_eq(a: &str, b: &str) -> (same: bool)
    ensures
        same == (a@ == b@),
{
    broadcast use vstd::utf8::encode_utf8_decode_utf8;

    let x = a.as_bytes();
    let y = b.as_bytes();
    if x.len() != y.len() {
        return false;
    }
    let mut i: usize = 0;
    while i < x.len()
        invariant
            i <= x.len(),
            x.len() == y.len(),
            x@ == vstd::utf8::encode_utf8(a@),
            y@ == vstd::utf8::encode_utf8(b@),
            forall|j: int| 0 <= j < i ==> x@[j] == y@[j],
        decreases x.len() - i,
    {
        if x[i] != y[i] {
            return false;
        }
        i = i + 1;
    }
    assert(x@ =~= y@);
    assert(vstd::utf8::decode_utf8(vstd::utf8::encode_utf8(a@)) == a@);
    true
}

/// The decimal digit for `d` as a string.
fn digit_str(d: u128) -> (s: &'static str)
    requires
        d < 10,
    ensures
        s@ == seq![digit_char(d as nat)],
{
    proof {
        reveal_strlit("0");
        reveal_strlit("1");
        reveal_strlit("2");
        reveal_strlit("3");
        reveal_strlit("4");
        reveal_strlit("5");
        reveal_strlit("6");
        reveal_strlit("7");
        reveal_strlit("8");
        reveal_strlit("9");
    }
    let s: &'static str = if d == 0 {
        "0"
    } else if d == 1 {
        "1"
    } else if d == 2 {
        "2"
    } else if d == 3 {
        "3"
    } else if d == 4 {
        "4"
    } else if d == 5 {
        "5"
    } else if d == 6 {
        "6"
    } else if d == 7 {
        "7"
    } else if d == 8 {
        "8"
    } else {
        "9"
    };
    s
}

/// `n` written in decimal.
pub fn decimal(n: u128) -> (s: String)
    ensures
        s@ == decimal_text(n as nat),
    decreases n,
{
    if n < 10 {
        String::from_str(digit_str(n))
    } else {
        let mut s = decimal(n / 10);
        s.append(digit_str(n % 10));
        s
    }
}

/// `unit` written `count` times.
pub fn repeat(unit: &str, count: usize) -> (s: String)
    ensures
        s@ == repeated(unit@, count as nat),
{
    let mut s = String::new();
    let mut i: usize = 0;
    while i < count
        invariant
            i <= count,
            s@ == repeated(unit@, i as nat),
        decreases count - i,
    {
        s.append(unit);
        i = i + 1;
    }
    s
}

/// `text` right-aligned in a field of `width` characters.
pub fn pad_left(text: &str, width: usize) -> (s: String)
    ensures
        s@ == padded_left(text@, width as nat),
{
    proof {
        reveal_strlit(" ");
        assert(" "@ =~= seq![' ']);
    }
    let len = text.unicode_len();
    if len >= width {
        String::from_str(text)
    } else {
        let mut s = repeat(" ", width - len);
        s.append(text);
        s
    }
}

/// `parts` written one after another with `sep` between neighbours.
pub fn join(parts: &Vec<String>, sep: &str) -> (s: String)
    ensures
        s@ == joined(texts(parts@), sep@),
{
    let mut s = String::new();
    let mut i: usize = 0;
    while i < parts.len()
        invariant
            i <= parts.len(),
            s@ == joined(texts(parts@.take(i as int)), sep@),
        decreases parts.len() - i,
    {
        proof {
            let before = parts@.take(i as int);
            assert(parts@.take(i + 1) =~= before.push(parts@[i as int]));
            lemma_texts_push(before, parts@[i as int]);
            assert(texts(before).push(parts@[i as int]@).drop_last() =~= texts(before));
        }
        if i > 0 {
            s.append(sep);
        }
        s.append(parts[i].as_str());
        i = i + 1;
    }
    assert(parts@.take(parts.len() as int) =~= parts@);
    s
}

/// What a line holds so far: the characters kept in `cur`, and after them a
/// carriage return that was read and not yet written.
pub open spec fn with_pending(cur: Seq<char>, pending: bool) -> Seq<char> {
    if pending {
        cur.push('\r')
    } else {
        cur
    }
}

/// The lines of `s`, in order.
pub fn split_lines(s: &str) -> (lines: Vec<String>)
    ensures
        texts(lines@) == lines_of(s@),
{
    let mut lines: Vec<String> = Vec::new();
    let mut cur = String::new();
    let mut pending: bool = false;
    proof {
        assert(with_pending(cur@, pending) + s@.skip(0) =~= s@);
    }
    for c in it: s.chars()
        invariant
            it.seq() == s@,
            !pending ==> (cur@.len() == 0 || cur@.last() != '\r'),
            forall|k: int|
                0 <= k < with_pending(cur@, pending).len() ==> with_pending(cur@, pending)[k]
                    != '\n',
            lines_of(s@) == texts(lines@) + lines_of(
                with_pending(cur@, pending) + s@.skip(it.index() as int),
            ),
    {
        let ghost held = with_pending(cur@, pending);
        let ghost rest = s@.skip(it.index() as int);
        let ghost after = s@.skip(it.index() + 1);
        if c == '\n' {
            proof {
                let whole = held + rest;
                lemma_line_end_after_prefix(held, rest);
                assert(whole.take(held.len() as int) =~= held);
                assert(whole.skip(held.len() as int + 1) =~= after);
                assert(without_carriage_return(held) =~= cur@);
            }
            lines.push(cur);
            cur = String::new();
            pending = false;
        } else {
            if pending {
                push_char(&mut cur, '\r');
            }
            if c == '\r' {
                pending = true;
            } else {
                pending = false;
                push_char(&mut cur, c);
            }
            proof {
                assert(held.push(c) + after =~= held + rest);
            }
        }
    }
    let ghost held = with_pending(cur@, pending);
    proof {
        lemma_line_end_after_prefix(held, Seq::<char>::empty());
    }
    if pending {
        push_char(&mut cur, '\r');
    }
    if !cur.as_str().is_empty() {
        lines.push(cur);
    }
    lines
}

/// Valid UTF-8 holds no more characters than bytes.
pub proof fn lemma_decoded_len(bytes: Seq<u8>)
    requires
        vstd::utf8::valid_utf8(bytes),
    ensures
        vstd::utf8::decode_utf8(bytes).len() <= bytes.len(),
    decreases bytes.len(),
{
    if bytes.len() > 0 {
        let rest = vstd::utf8::pop_first_scalar(bytes);
        lemma_decoded_len(rest);
    }
}

} // verus!
