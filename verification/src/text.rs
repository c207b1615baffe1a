//! Text primitives: decimal and hexadecimal numbers, byte-wise padding, splitting.

use vstd::prelude::*;
use vstd::utf8::encode_utf8;

verus! {

/// The decimal digit `d` as a character.
pub open spec fn digit(d: nat) -> char
    recommends
        d < 10,
{
    (48 + d) as char
}

/// `n` in decimal, without leading zeros.
pub open spec fn dec(n: nat) -> Seq<char>
    decreases n,
{
    if n < 10 {
        seq![digit(n)]
    } else {
        dec(n / 10).push(digit(n % 10))
    }
}

/// A signed number in decimal.
pub open spec fn int_dec(n: int) -> Seq<char> {
    if n < 0 {
        seq!['-'] + dec((-n) as nat)
    } else {
        dec(n as nat)
    }
}

/// The lower-case hexadecimal digit `d` as a character.
pub open spec fn hex_digit(d: nat) -> char
    recommends
        d < 16,
{
    if d < 10 {
        (48 + d) as char
    } else {
        (87 + d) as char
    }
}

/// `n` in lower-case hexadecimal, without a prefix and without leading zeros.
pub open spec fn hex(n: nat) -> Seq<char>
    decreases n,
{
    if n < 16 {
        seq![hex_digit(n)]
    } else {
        hex(n / 16).push(hex_digit(n % 16))
    }
}

/// `n` copies of `c`.
pub open spec fn repeated(c: char, n: nat) -> Seq<char> {
    Seq::new(n, |i: int| c)
}

/// `s` filled up on the left with zeros to at least `width` characters.
pub open spec fn zero_filled(s: Seq<char>, width: nat) -> Seq<char> {
    if s.len() >= width {
        s
    } else {
        repeated('0', (width - s.len()) as nat) + s
    }
}

/// The number of bytes of `s` in UTF-8.
pub open spec fn byte_len(s: Seq<char>) -> nat {
    encode_utf8(s).len()
}

/// `s` right-aligned in `width` bytes: C's `%*s`.
pub open spec fn left_padded(s: Seq<char>, width: nat) -> Seq<char> {
    if byte_len(s) >= width {
        s
    } else {
        repeated(' ', (width - byte_len(s)) as nat) + s
    }
}

/// `s` left-aligned in `width` bytes: C's `%-*s`.
pub open spec fn right_padded(s: Seq<char>, width: nat) -> Seq<char> {
    if byte_len(s) >= width {
        s
    } else {
        s + repeated(' ', (width - byte_len(s)) as nat)
    }
}

/// Calls `String::push`, which appends one character to the text.
#[verifier::external_body]
pub(crate) fn push_char(out: &mut String, c: char)
    ensures
        final(out)@ == old(out)@.push(c),
{
    out.push(c)
}

/// Whether two texts are the same.
pub fn same_text(a: &str, b: &str) -> (r: bool)
    ensures
        r == (a@ == b@),
{
    a.to_owned() == b.to_owned()
}

/// Appends `n` in decimal.
pub fn push_dec(out: &mut String, n: u64)
    ensures
        final(out)@ == old(out)@ + dec(n as nat),
    decreases n,
{
    if n >= 10 {
        push_dec(out, n / 10);
    }
    let d: u8 = (n % 10) as u8;
    push_char(out, (48u8 + d) as char);
}

/// `n` in decimal.
pub fn dec_text(n: u64) -> (r: String)
    ensures
        r@ == dec(n as nat),
{
    let mut out = String::new();
    push_dec(&mut out, n);
    out
}

/// The sum of `a` and `b` in decimal.
pub fn dec_sum(a: u64, b: u32) -> (r: String)
    ensures
        r@ == dec((a + b) as nat),
{
    let n: u128 = a as u128 + b as u128;
    if n < 10 {
        return dec_text(n as u64);
    }
    let mut out = dec_text((n / 10) as u64);
    let d: u8 = (n % 10) as u8;
    push_char(&mut out, (48u8 + d) as char);
    out
}

/// A signed number in decimal.
pub fn int_text(n: i64) -> (r: String)
    ensures
        r@ == int_dec(n as int),
{
    let mut out = String::new();
    if n < 0 {
        push_char(&mut out, '-');
        let m: u64 = (-(n as i128)) as u64;
        push_dec(&mut out, m);
    } else {
        push_dec(&mut out, n as u64);
    }
    out
}

/// Appends `n` in lower-case hexadecimal.
pub fn push_hex(out: &mut String, n: u64)
    ensures
        final(out)@ == old(out)@ + hex(n as nat),
    decreases n,
{
    if n >= 16 {
        push_hex(out, n / 16);
    }
    let d: u8 = (n % 16) as u8;
    if d < 10 {
        push_char(out, (48u8 + d) as char);
    } else {
        push_char(out, (87u8 + d) as char);
    }
}

/// `n` in lower-case hexadecimal.
pub fn hex_text(n: u64) -> (r: String)
    ensures
        r@ == hex(n as nat),
{
    let mut out = String::new();
    push_hex(&mut out, n);
    out
}

/// Appends `n` copies of `c`.
pub fn push_repeated(out: &mut String, c: char, n: usize)
    ensures
        final(out)@ == old(out)@ + repeated(c, n as nat),
{
    let ghost before = out@;
    let mut i: usize = 0;
    while i < n
        invariant
            i <= n,
            out@ == before + repeated(c, i as nat),
        decreases n - i,
    {
        push_char(out, c);
        i = i + 1;
    }
}

/// `s` filled up on the left with zeros to `width` characters.
pub fn zero_fill(s: &str, width: usize) -> (r: String)
    ensures
        r@ == zero_filled(s@, width as nat),
{
    let n: usize = s.unicode_len();
    if n >= width {
        return s.to_owned();
    }
    let mut out = String::new();
    push_repeated(&mut out, '0', width - n);
    out.append(s);
    out
}

/// `n` in decimal with at least `width` digits.
pub open spec fn dec_filled(n: nat, width: nat) -> Seq<char> {
    zero_filled(dec(n), width)
}

/// `n` in decimal with at least `width` digits.
pub fn dec_fill(n: u64, width: usize) -> (r: String)
    ensures
        r@ == dec_filled(n as nat, width as nat),
{
    let s = dec_text(n);
    zero_fill(s.as_str(), width)
}

/// Right-aligns `s` in `width` bytes. Padding goes by bytes, not by characters, so a
/// multi-byte glyph takes the room of its bytes.
pub fn pad_left(s: &str, width: usize) -> (r: String)
    ensures
        r@ == left_padded(s@, width as nat),
{
    let n: usize = s.as_bytes().len();
    if n >= width {
        return s.to_owned();
    }
    let mut out = String::new();
    push_repeated(&mut out, ' ', width - n);
    out.append(s);
    out
}

/// Left-aligns `s` in `width` bytes.
pub fn pad_right(s: &str, width: usize) -> (r: String)
    ensures
        r@ == right_padded(s@, width as nat),
{
    let n: usize = s.as_bytes().len();
    let mut out = s.to_owned();
    if n < width {
        push_repeated(&mut out, ' ', width - n);
    }
    out
}

/// The character that stands for `c` in a comment: anything but printable ASCII is a dot.
pub open spec fn printable_char(c: char) -> char {
    if 0x20 <= c as u32 && c as u32 <= 0x7e {
        c
    } else {
        '.'
    }
}

/// A comment with everything that is not printable ASCII replaced by dots.
pub open spec fn printable_text(s: Seq<char>) -> Seq<char> {
    Seq::new(s.len(), |i: int| printable_char(s[i]))
}

/// Replaces what is not printable ASCII by dots.
pub fn sanitize(s: &str) -> (r: String)
    ensures
        r@ == printable_text(s@),
{
    let mut out = String::new();
    for c in iter: s.chars()
        invariant
            iter.seq() == s@,
            out@ == printable_text(s@.take(iter.index())),
    {
        let u: u32 = c as u32;
        assert(s@.take(iter.index() + 1) == s@.take(iter.index()).push(c));
        if 0x20 <= u && u <= 0x7e {
            push_char(&mut out, c);
        } else {
            push_char(&mut out, '.');
        }
        assert(out@ == printable_text(s@.take(iter.index() + 1)));
    }
    assert(s@.take(s@.len() as int) == s@);
    out
}

/// The texts of a list.
pub open spec fn texts(v: Seq<String>) -> Seq<Seq<char>> {
    Seq::new(v.len(), |i: int| v[i]@)
}

/// The parts of `s` between the separators. There is always one more part than separators.
pub open spec fn split(s: Seq<char>, sep: char) -> Seq<Seq<char>>
    decreases s.len(),
{
    if s.len() == 0 {
        seq![Seq::<char>::empty()]
    } else {
        let before = split(s.drop_last(), sep);
        if s.last() == sep {
            before.push(Seq::empty())
        } else {
            before.drop_last().push(before.last().push(s.last()))
        }
    }
}

/// A split text has at least one part.
pub proof fn lemma_split_nonempty(s: Seq<char>, sep: char)
    ensures
        split(s, sep).len() >= 1,
    decreases s.len(),
{
    if s.len() > 0 {
        lemma_split_nonempty(s.drop_last(), sep);
    }
}

/// The parts of `s` between the separators.
pub fn split_text(s: &str, sep: char) -> (r: Vec<String>)
    ensures
        texts(r@) == split(s@, sep),
        r@.len() >= 1,
{
    let mut done: Vec<String> = Vec::new();
    let mut part = String::new();
    proof {
        assert(s@.take(0) == Seq::<char>::empty());
        assert(texts(done@).push(part@) == split(s@.take(0), sep));
    }
    for c in iter: s.chars()
        invariant
            iter.seq() == s@,
            texts(done@).push(part@) == split(s@.take(iter.index()), sep),
    {
        let ghost i = iter.index();
        let ghost parts = texts(done@).push(part@);
        proof {
            assert(s@.take(i + 1).drop_last() == s@.take(i));
            assert(s@.take(i + 1).last() == c);
            assert(parts.drop_last() == texts(done@));
        }
        if c == sep {
            let ghost before = done@;
            let next = String::new();
            done.push(part);
            part = next;
            assert(texts(done@) == parts);
        } else {
            push_char(&mut part, c);
        }
        assert(texts(done@).push(part@) == split(s@.take(i + 1), sep));
    }
    proof {
        assert(s@.take(s@.len() as int) == s@);
    }
    let ghost parts = texts(done@).push(part@);
    done.push(part);
    assert(texts(done@) == parts);
    done
}

/// Where `c` first occurs in `s`; the length of `s` where it does not.
pub open spec fn find(s: Seq<char>, c: char) -> int
    decreases s.len(),
{
    if s.len() == 0 || s[0] == c {
        0
    } else {
        1 + find(s.drop_first(), c)
    }
}

/// Where `c` first occurs in `s`, in characters; the length of `s` where it does not.
pub fn find_char(s: &str, c: char) -> (r: usize)
    ensures
        r == find(s@, c),
        r <= s@.len(),
        r < s@.len() ==> s@[r as int] == c,
{
    let n: usize = s.unicode_len();
    let mut k: usize = 0;
    proof {
        assert(s@.skip(0) == s@);
    }
    while k < n
        invariant
            k <= n,
            n == s@.len(),
            find(s@, c) == k + find(s@.skip(k as int), c),
        decreases n - k,
    {
        proof {
            assert(s@.skip(k as int)[0] == s@[k as int]);
            assert(s@.skip(k as int).drop_first() == s@.skip(k + 1));
        }
        if s.get_char(k) == c {
            return k;
        }
        k = k + 1;
    }
    k
}

/// The characters of `s` from `from` on and before `to`.
pub fn cut(s: &str, from: usize, to: usize) -> (r: String)
    requires
        from <= to <= s@.len(),
    ensures
        r@ == s@.subrange(from as int, to as int),
{
    s.substring_char(from, to).to_owned()
}

}
