//! What holds of texts.

use vstd::prelude::*;

use crate::text::{
    dec, dec_filled, digit, find, hex, hex_digit, int_dec, left_padded, printable_text, repeated,
    right_padded, split,
};

verus! {

/// Whether a text does not hold a character.
pub open spec fn lacks(s: Seq<char>, c: char) -> bool {
    forall|i: int| 0 <= i < s.len() ==> #[trigger] s[i] != c
}

/// A text at the right end of `width` columns.
pub open spec fn aligned(s: Seq<char>, width: nat) -> Seq<char> {
    if s.len() >= width {
        s
    } else {
        Seq::new((width - s.len()) as nat, |i: int| ' ') + s
    }
}

/// Texts one after the other, a character between them.
pub open spec fn joined_by(parts: Seq<Seq<char>>, sep: char) -> Seq<char>
    decreases parts.len(),
{
    if parts.len() == 0 {
        Seq::empty()
    } else if parts.len() == 1 {
        parts[0]
    } else {
        joined_by(parts.drop_last(), sep).push(sep) + parts.last()
    }
}

/// The value of a decimal digit.
pub open spec fn digit_value(c: char) -> int {
    c as u32 - 48
}

/// The value of a number in decimal.
pub open spec fn decimal_value(s: Seq<char>) -> int
    decreases s.len(),
{
    if s.len() == 0 {
        0
    } else {
        10 * decimal_value(s.drop_last()) + digit_value(s.last())
    }
}

/// Whether a text is made of decimal digits.
pub open spec fn is_decimal(s: Seq<char>) -> bool {
    forall|i: int| 0 <= i < s.len() ==> 48 <= #[trigger] s[i] as u32 <= 57
}

/// The value of a hexadecimal digit.
pub open spec fn hex_digit_value(c: char) -> int {
    if c as u32 <= 57 {
        c as u32 - 48
    } else {
        c as u32 - 87
    }
}

/// The value of a number in hexadecimal.
pub open spec fn hexadecimal_value(s: Seq<char>) -> int
    decreases s.len(),
{
    if s.len() == 0 {
        0
    } else {
        16 * hexadecimal_value(s.drop_last()) + hex_digit_value(s.last())
    }
}

/// A number in decimal is made of digits, has its own value, and starts with 0 only if it is 0.
pub proof fn law_decimals_have_their_value(n: nat)
    ensures
        dec(n).len() > 0,
        is_decimal(dec(n)),
        decimal_value(dec(n)) == n,
        n > 0 ==> dec(n)[0] != '0',
    decreases n,
{
    reveal_with_fuel(decimal_value, 2);
    if n < 10 {
        assert(seq![digit(n)].drop_last() =~= Seq::<char>::empty());
    } else {
        law_decimals_have_their_value(n / 10);
        let s = dec(n / 10).push(digit(n % 10));
        assert(s.drop_last() =~= dec(n / 10));
        assert(s[0] == dec(n / 10)[0]);
    }
}

/// A number in decimal takes as many columns as bytes.
pub proof fn lemma_decimals_are_ascii(n: nat)
    ensures
        vstd::utf8::is_ascii_chars(dec(n)),
    decreases n,
{
    if n >= 10 {
        lemma_decimals_are_ascii(n / 10);
    }
}

/// A signed number in decimal has a sign only below 0, and the decimal of its amount behind it.
pub proof fn law_signed_decimals(n: int)
    ensures
        n >= 0 ==> int_dec(n) == dec(n as nat),
        n < 0 ==> int_dec(n).len() > 0 && int_dec(n)[0] == '-' && int_dec(n).drop_first() == dec(
            (-n) as nat,
        ),
{
    if n < 0 {
        assert(int_dec(n).drop_first() =~= dec((-n) as nat));
    }
}

/// A number in hexadecimal has its own value, and starts with 0 only if it is 0.
pub proof fn law_hexadecimals_have_their_value(n: nat)
    ensures
        hex(n).len() > 0,
        hexadecimal_value(hex(n)) == n,
        n > 0 ==> hex(n)[0] != '0',
        forall|i: int|
            0 <= i < hex(n).len() ==> (48 <= #[trigger] hex(n)[i] as u32 <= 57 || 97 <= hex(
                n,
            )[i] as u32 <= 102),
    decreases n,
{
    reveal_with_fuel(hexadecimal_value, 2);
    if n < 16 {
        assert(seq![hex_digit(n)].drop_last() =~= Seq::<char>::empty());
    } else {
        law_hexadecimals_have_their_value(n / 16);
        let before = hex(n / 16);
        let s = before.push(hex_digit(n % 16));
        assert(s.drop_last() =~= before);
        assert(s[0] == before[0]);
        assert forall|i: int| 0 <= i < s.len() implies (48 <= #[trigger] s[i] as u32 <= 57 || 97
            <= s[i] as u32 <= 102) by {
            if i < before.len() {
                assert(s[i] == before[i]);
            }
        }
    }
}

proof fn lemma_leading_zeros(s: Seq<char>, n: nat)
    ensures
        decimal_value(repeated('0', n) + s) == decimal_value(s),
    decreases s.len(), n,
{
    reveal_with_fuel(decimal_value, 2);
    if s.len() > 0 {
        lemma_leading_zeros(s.drop_last(), n);
        assert((repeated('0', n) + s).drop_last() =~= repeated('0', n) + s.drop_last());
    } else if n > 0 {
        lemma_leading_zeros(s, (n - 1) as nat);
        assert(repeated('0', n) + s =~= (repeated('0', (n - 1) as nat) + s).push('0'));
        assert((repeated('0', n) + s).drop_last() =~= repeated('0', (n - 1) as nat) + s);
    } else {
        assert(repeated('0', n) + s =~= s);
    }
}

/// A number that is filled up with zeros keeps its value and has at least as many digits as were
/// asked for; no more of them where the number itself has no more.
pub proof fn law_filled_numbers_keep_their_value(n: nat, width: nat)
    ensures
        decimal_value(dec_filled(n, width)) == n,
        is_decimal(dec_filled(n, width)),
        dec_filled(n, width).len() >= width,
        dec_filled(n, width).len() == width || dec_filled(n, width) == dec(n),
{
    law_decimals_have_their_value(n);
    if dec(n).len() < width {
        lemma_leading_zeros(dec(n), (width - dec(n).len()) as nat);
    }
}

/// A text that is set to the right keeps its characters at the end, with blanks before them, and
/// one that is set to the left keeps them at the start, with blanks behind them. Neither is cut
/// where it is too long.
pub proof fn law_padding_keeps_the_text(s: Seq<char>, width: nat)
    requires
        vstd::utf8::is_ascii_chars(s),
    ensures
        left_padded(s, width) == aligned(s, width),
        left_padded(s, width).len() == if s.len() >= width {
            s.len()
        } else {
            width
        },
        right_padded(s, width).len() == left_padded(s, width).len(),
        right_padded(s, width).take(s.len() as int) == s,
        forall|i: int|
            s.len() <= i < right_padded(s, width).len() ==> #[trigger] right_padded(s, width)[i]
                == ' ',
{
    vstd::utf8::is_ascii_chars_encode_utf8(s);
    assert(left_padded(s, width) =~= aligned(s, width));
    assert(right_padded(s, width).take(s.len() as int) =~= s);
}

pub proof fn lemma_find_none(s: Seq<char>, c: char)
    requires
        lacks(s, c),
    ensures
        find(s, c) == s.len(),
    decreases s.len(),
{
    if s.len() > 0 {
        assert(s[0] != c);
        assert forall|i: int| 0 <= i < s.drop_first().len() implies #[trigger] s.drop_first()[i]
            != c by {
            assert(s.drop_first()[i] == s[i + 1]);
        }
        lemma_find_none(s.drop_first(), c);
    }
}

/// Where a character first occurs in a text: behind what lacks it.
pub proof fn law_find_is_the_first_place(a: Seq<char>, c: char, b: Seq<char>)
    requires
        lacks(a, c),
    ensures
        find(a + seq![c] + b, c) == a.len(),
    decreases a.len(),
{
    let s = a + seq![c] + b;
    if a.len() == 0 {
        assert(s[0] == c);
    } else {
        assert(s[0] == a[0]);
        assert(s.drop_first() =~= a.drop_first() + seq![c] + b);
        assert forall|i: int| 0 <= i < a.drop_first().len() implies #[trigger] a.drop_first()[i]
            != c by {
            assert(a.drop_first()[i] == a[i + 1]);
        }
        law_find_is_the_first_place(a.drop_first(), c, b);
    }
}

proof fn lemma_split_last(a: Seq<char>, b: Seq<char>, sep: char)
    requires
        lacks(b, sep),
    ensures
        split(a + b, sep) == split(a, sep).drop_last().push(split(a, sep).last() + b),
    decreases b.len(),
{
    crate::text::lemma_split_nonempty(a, sep);
    if b.len() == 0 {
        assert(a + b =~= a);
        assert(split(a, sep).last() + b =~= split(a, sep).last());
        assert(split(a, sep) =~= split(a, sep).drop_last().push(split(a, sep).last()));
    } else {
        let c = b.drop_last();
        assert forall|i: int| 0 <= i < c.len() implies #[trigger] c[i] != sep by {
            assert(c[i] == b[i]);
        }
        lemma_split_last(a, c, sep);
        assert((a + b).drop_last() =~= a + c);
        assert(b.last() == b[b.len() - 1]);
        let before = split(a + c, sep);
        assert(before.drop_last() =~= split(a, sep).drop_last());
        assert((split(a, sep).last() + c).push(b.last()) =~= split(a, sep).last() + b);
    }
}

/// Splitting undoes joining: texts that lack a character, joined by it, are the parts of what
/// they were joined to.
pub proof fn law_splitting_undoes_joining(parts: Seq<Seq<char>>, sep: char)
    requires
        parts.len() > 0,
        forall|i: int| 0 <= i < parts.len() ==> lacks(#[trigger] parts[i], sep),
    ensures
        split(joined_by(parts, sep), sep) == parts,
    decreases parts.len(),
{
    let none = Seq::<char>::empty();
    if parts.len() == 1 {
        lemma_split_last(none, parts[0], sep);
        assert(none + parts[0] =~= parts[0]);
        assert(split(none, sep).drop_last() =~= Seq::<Seq<char>>::empty());
        assert(split(parts[0], sep) =~= parts);
    } else {
        law_splitting_undoes_joining(parts.drop_last(), sep);
        let lead = joined_by(parts.drop_last(), sep).push(sep);
        assert(lead.drop_last() =~= joined_by(parts.drop_last(), sep));
        let ahead = split(lead, sep);
        assert(ahead == parts.drop_last().push(none));
        lemma_split_last(lead, parts.last(), sep);
        assert(ahead.drop_last() =~= parts.drop_last());
        assert(none + parts.last() =~= parts.last());
        assert(parts =~= parts.drop_last().push(parts.last()));
    }
}

pub proof fn lemma_joined_lacks(parts: Seq<Seq<char>>, sep: char, c: char)
    requires
        c != sep,
        forall|i: int| 0 <= i < parts.len() ==> lacks(#[trigger] parts[i], c),
    ensures
        lacks(joined_by(parts, sep), c),
    decreases parts.len(),
{
    if parts.len() > 1 {
        lemma_joined_lacks(parts.drop_last(), sep, c);
        assert(lacks(parts[parts.len() - 1], c));
    }
}

/// A comment keeps its length and its printable characters, and holds no others.
pub proof fn law_comments_are_printable(s: Seq<char>)
    ensures
        printable_text(s).len() == s.len(),
        forall|i: int|
            0 <= i < s.len() ==> {
                &&& 0x20 <= #[trigger] printable_text(s)[i] as u32 <= 0x7e
                &&& 0x20 <= s[i] as u32 <= 0x7e ==> printable_text(s)[i] == s[i]
            },
{
}

}
