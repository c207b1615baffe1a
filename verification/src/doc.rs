//! Documents: text with room for numbers.
//!
//! A displayed value is an IEEE-754 double. The library decides where it stands, in how many
//! columns and in which form, and carries it as its bit pattern; whoever prints the document
//! writes the digits.

use vstd::prelude::*;

verus! {

/// The unit that a value is scaled from when a report is made for human readers.
#[derive(Clone, Copy, PartialEq, Eq, Structural, Debug)]
pub enum SarUnit {
    /// The column has no unit.
    Plain,
    /// Bytes.
    Byte,
    /// Kilobytes.
    Kilobyte,
}

impl SarUnit {
    /// The position of the unit's letter in `sBkMGTP?`.
    pub open spec fn letter_index(self) -> nat {
        match self {
            SarUnit::Plain => 0,
            SarUnit::Byte => 1,
            SarUnit::Kilobyte => 2,
        }
    }

    /// The position of the unit's letter in `sBkMGTP?`.
    pub fn index(self) -> (r: usize)
        ensures
            r == self.letter_index(),
    {
        match self {
            SarUnit::Plain => 0,
            SarUnit::Byte => 1,
            SarUnit::Kilobyte => 2,
        }
    }
}

/// How a number is written.
#[derive(Clone, Copy, PartialEq, Eq, Structural, Debug)]
pub enum Form {
    /// The value divided by `divisor`, with a fixed number of decimals, and with a sign in
    /// any case where `sign` is set.
    Fixed { decimals: u8, divisor: u32, sign: bool },
    /// The value divided by `divisor`, without its fraction; 0 for what is not positive, the
    /// largest number of 64 bits for what is larger.
    Whole { divisor: u32 },
    /// The value without its fraction in the same way, in lower-case hexadecimal.
    Hex,
    /// The value without its fraction; 0 for what is not positive or not finite.
    Count,
    /// The same, in lower-case hexadecimal.
    CountHex,
    /// The value with a fixed number of decimals, `nan` and `inf` as C writes them.
    CFixed { decimals: u8 },
    /// The value divided by 1024 until it is below 1024, then the letter of the unit reached.
    Scaled { unit: SarUnit, decimals: u8 },
}

/// Room for one number: its bit pattern, its form, and the bytes it is right-aligned in.
#[derive(Clone, Copy, PartialEq, Eq, Structural, Debug)]
pub struct Slot {
    pub bits: u64,
    pub form: Form,
    pub width: usize,
}

/// A mean: doubles, as bit patterns, that are added up one after the other, and the number that
/// their sum is divided by. That number need not be how many they are.
#[derive(Clone, Debug)]
pub struct Mean {
    pub summands: Vec<u64>,
    pub count: u64,
}

/// What a [`Mean`] holds.
#[verifier::ext_equal]
pub struct MeanModel {
    pub summands: Seq<u64>,
    pub count: u64,
}

impl Mean {
    pub open spec fn model(self) -> MeanModel {
        MeanModel { summands: self.summands@, count: self.count }
    }

    /// A copy.
    pub fn copy(&self) -> (r: Mean)
        ensures
            r.model() == self.model(),
    {
        let mut summands: Vec<u64> = Vec::new();
        let mut i: usize = 0;
        while i < self.summands.len()
            invariant
                i <= self.summands.len(),
                summands@ == self.summands@.take(i as int),
            decreases self.summands.len() - i,
        {
            summands.push(self.summands[i]);
            i = i + 1;
            assert(summands@ =~= self.summands@.take(i as int));
        }
        assert(self.summands@.take(self.summands@.len() as int) =~= self.summands@);
        Mean { summands, count: self.count }
    }
}

/// A part of a document.
#[derive(Clone, Debug)]
pub enum Piece {
    Text(String),
    /// Bytes that are not known to be text.
    Bytes(Vec<u8>),
    Number(Slot),
    /// Room for a mean.
    Average(Mean, Form, usize),
}

/// One position of a document: a character, a byte, or a number or a mean as a whole.
pub enum Glyph {
    Ch(char),
    Byte(u8),
    Num(Slot),
    Avg(MeanModel, Form, usize),
}

/// A character as a glyph.
pub open spec fn glyph_of(c: char) -> Glyph {
    Glyph::Ch(c)
}

/// A text as glyphs.
pub open spec fn chars(s: Seq<char>) -> Seq<Glyph> {
    Seq::new(s.len(), |i: int| glyph_of(s[i]))
}

/// A byte as a glyph.
pub open spec fn byte_glyph(b: u8) -> Glyph {
    Glyph::Byte(b)
}

/// Bytes as glyphs.
pub open spec fn bytes(s: Seq<u8>) -> Seq<Glyph> {
    Seq::new(s.len(), |i: int| byte_glyph(s[i]))
}

/// A number as glyphs.
pub open spec fn number(n: Slot) -> Seq<Glyph> {
    seq![Glyph::Num(n)]
}

/// A piece as glyphs.
pub open spec fn piece_glyphs(p: Piece) -> Seq<Glyph> {
    match p {
        Piece::Text(s) => chars(s@),
        Piece::Bytes(b) => bytes(b@),
        Piece::Number(n) => number(n),
        Piece::Average(m, form, width) => seq![Glyph::Avg(m.model(), form, width)],
    }
}

/// A glyph with the mean `m` in the place of a number.
pub open spec fn glyph_averaged(g: Glyph, m: MeanModel) -> Glyph {
    match g {
        Glyph::Num(n) => Glyph::Avg(m, n.form, n.width),
        _ => g,
    }
}

/// Glyphs with the mean `m` in the place of each number.
pub open spec fn averaged(g: Seq<Glyph>, m: MeanModel) -> Seq<Glyph> {
    Seq::new(g.len(), |i: int| glyph_averaged(g[i], m))
}

/// Pieces as glyphs, one after the other.
pub open spec fn glyphs(ps: Seq<Piece>) -> Seq<Glyph>
    decreases ps.len(),
{
    if ps.len() == 0 {
        Seq::empty()
    } else {
        glyphs(ps.drop_last()) + piece_glyphs(ps.last())
    }
}

/// A document.
#[derive(Clone, Debug)]
pub struct Doc {
    pub pieces: Vec<Piece>,
}

impl View for Doc {
    type V = Seq<Glyph>;

    open spec fn view(&self) -> Seq<Glyph> {
        glyphs(self.pieces@)
    }
}

/// The glyphs of two texts one after the other are those of the joined text.
pub broadcast proof fn lemma_chars_concat(a: Seq<char>, b: Seq<char>)
    ensures
        #[trigger] chars(a + b) == chars(a) + chars(b),
{
    assert(chars(a + b) =~= chars(a) + chars(b));
}

proof fn lemma_glyphs_push(ps: Seq<Piece>, p: Piece)
    ensures
        glyphs(ps.push(p)) == glyphs(ps) + piece_glyphs(p),
{
    assert(ps.push(p).drop_last() =~= ps);
}

proof fn lemma_glyphs_concat(a: Seq<Piece>, b: Seq<Piece>)
    ensures
        glyphs(a + b) == glyphs(a) + glyphs(b),
    decreases b.len(),
{
    if b.len() == 0 {
        assert(a + b =~= a);
        assert(glyphs(a) + glyphs(b) =~= glyphs(a));
    } else {
        lemma_glyphs_concat(a, b.drop_last());
        assert((a + b).drop_last() =~= a + b.drop_last());
        assert(glyphs(a + b) =~= glyphs(a) + glyphs(b));
    }
}

impl Doc {
    /// The empty document.
    pub fn new() -> (r: Self)
        ensures
            r@ == Seq::<Glyph>::empty(),
    {
        Doc { pieces: Vec::new() }
    }

    /// Appends text.
    pub fn put(&mut self, s: &str)
        ensures
            final(self)@ == old(self)@ + chars(s@),
    {
        proof {
            assert forall|t: String| t@ == s@ implies #[trigger] glyphs(
                self.pieces@.push(Piece::Text(t)),
            ) == self@ + chars(s@) by {
                lemma_glyphs_push(self.pieces@, Piece::Text(t));
            }
        }
        self.pieces.push(Piece::Text(s.to_owned()));
    }

    /// Appends bytes.
    pub fn put_bytes(&mut self, b: &Vec<u8>)
        ensures
            final(self)@ == old(self)@ + bytes(b@),
    {
        let mut copy: Vec<u8> = Vec::new();
        let mut i: usize = 0;
        while i < b.len()
            invariant
                i <= b.len(),
                copy@ == b@.take(i as int),
            decreases b.len() - i,
        {
            copy.push(b[i]);
            i = i + 1;
            assert(copy@ =~= b@.take(i as int));
        }
        proof {
            assert(b@.take(b@.len() as int) =~= b@);
            lemma_glyphs_push(self.pieces@, Piece::Bytes(copy));
        }
        self.pieces.push(Piece::Bytes(copy));
    }

    /// Appends room for a number.
    pub fn put_number(&mut self, n: Slot)
        ensures
            final(self)@ == old(self)@ + number(n),
    {
        proof {
            lemma_glyphs_push(self.pieces@, Piece::Number(n));
        }
        self.pieces.push(Piece::Number(n));
    }

    /// Appends another document.
    pub fn join(&mut self, other: Doc)
        ensures
            final(self)@ == old(self)@ + other@,
    {
        proof {
            lemma_glyphs_concat(self.pieces@, other.pieces@);
        }
        let mut rest = other.pieces;
        self.pieces.append(&mut rest);
    }

    /// The document with the mean `m` in the place of each number.
    pub fn with_mean(self, m: &Mean) -> (r: Self)
        ensures
            r@ == averaged(self@, m.model()),
    {
        let ghost all = self.pieces@;
        let mut rest = self.pieces;
        let mut out: Vec<Piece> = Vec::new();
        assert(all.skip(0) =~= all);
        assert(all.take(0) =~= Seq::<Piece>::empty());
        assert(glyphs(out@) =~= averaged(glyphs(all.take(0)), m.model()));
        while rest.len() > 0
            invariant
                out@.len() + rest@.len() == all.len(),
                rest@ == all.skip(out@.len() as int),
                glyphs(out@) == averaged(glyphs(all.take(out@.len() as int)), m.model()),
            decreases rest.len(),
        {
            let ghost k = out@.len() as int;
            let ghost had = out@;
            let p = rest.remove(0);
            assert(p == all[k]);
            let q = match p {
                Piece::Number(n) => Piece::Average(m.copy(), n.form, n.width),
                other => other,
            };
            out.push(q);
            proof {
                assert(rest@ =~= all.skip(k + 1));
                assert(all.take(k + 1) =~= all.take(k).push(all[k]));
                lemma_glyphs_push(all.take(k), all[k]);
                lemma_glyphs_push(had, q);
                assert(piece_glyphs(q) =~= averaged(piece_glyphs(all[k]), m.model()));
                assert(averaged(glyphs(all.take(k)) + piece_glyphs(all[k]), m.model()) =~= averaged(
                    glyphs(all.take(k)),
                    m.model(),
                ) + averaged(piece_glyphs(all[k]), m.model()));
            }
        }
        assert(all.take(all.len() as int) =~= all);
        Doc { pieces: out }
    }

    /// A document that holds text only.
    pub fn of(s: &str) -> (r: Self)
        ensures
            r@ == chars(s@),
    {
        let mut d = Doc::new();
        d.put(s);
        assert(d@ =~= chars(s@));
        d
    }
}

/// What a list of documents holds.
pub open spec fn doc_views(list: Seq<Doc>) -> Seq<Seq<Glyph>> {
    Seq::new(list.len(), |i: int| list[i]@)
}

/// Documents one after the other, `sep` between them.
pub open spec fn joined(parts: Seq<Seq<Glyph>>, sep: Seq<char>) -> Seq<Glyph>
    decreases parts.len(),
{
    if parts.len() == 0 {
        Seq::empty()
    } else if parts.len() == 1 {
        parts[0]
    } else {
        joined(parts.drop_last(), sep) + chars(sep) + parts.last()
    }
}

/// Documents one after the other, `sep` between them.
pub fn join_docs(parts: Vec<Doc>, sep: &str) -> (r: Doc)
    ensures
        r@ == joined(doc_views(parts@), sep@),
{
    let ghost all = doc_views(parts@);
    let mut rest = parts;
    let mut out = Doc::new();
    let n: usize = rest.len();
    let mut i: usize = 0;
    assert(out@ =~= joined(all.take(0), sep@));
    assert(doc_views(rest@) =~= all.skip(0));
    while i < n
        invariant
            i <= n,
            n == all.len(),
            rest@.len() == n - i,
            doc_views(rest@) == all.skip(i as int),
            out@ == joined(all.take(i as int), sep@),
        decreases n - i,
    {
        let ghost here = rest@;
        let ghost had = out@;
        let x = rest.remove(0);
        proof {
            assert(doc_views(here)[0] == x@);
            assert(all.skip(i as int)[0] == all[i as int]);
            assert forall|k: int| 0 <= k < rest@.len() implies #[trigger] doc_views(rest@)[k]
                == all.skip(i + 1)[k] by {
                assert(rest@[k] == here[k + 1]);
                assert(doc_views(here)[k + 1] == all.skip(i as int)[k + 1]);
            }
            assert(doc_views(rest@) =~= all.skip(i + 1));
            assert(all.take(i + 1).drop_last() =~= all.take(i as int));
            assert(all.take(i + 1).last() == all[i as int]);
        }
        if i > 0 {
            out.put(sep);
        }
        out.join(x);
        proof {
            if i == 0 {
                assert(had =~= Seq::empty());
                assert(out@ =~= x@);
            } else {
                assert(out@ =~= had + chars(sep@) + x@);
            }
        }
        i = i + 1;
    }
    assert(all.take(n as int) =~= all);
    out
}

}
