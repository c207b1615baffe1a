//! Values as they are shown.

use vstd::prelude::*;

use crate::doc::{chars, number, Doc, Form, Glyph, Slot};
use crate::model::{ComputeIssue, Computed, Discontinuity, ZERO_BITS};
use crate::sadf::table::Fmt;
use crate::text::{dec, dec_sum, dec_text};

verus! {

/// Why there is no value.
#[derive(Clone, Copy, PartialEq, Eq, Structural, Debug)]
pub struct Unavailable(pub ComputeIssue);

impl Unavailable {
    /// A word for the reason.
    pub open spec fn word(self) -> Seq<char> {
        match self.0 {
            ComputeIssue::UnsupportedBySource => "unsupported_by_source"@,
            ComputeIssue::MissingInSample => "missing_in_sample"@,
            ComputeIssue::Discontinuous(Discontinuity::Restart) => "restart"@,
            ComputeIssue::Discontinuous(Discontinuity::ItemReplaced) => "item_replaced"@,
            ComputeIssue::NotNumeric => "not_numeric"@,
            ComputeIssue::NeedsItemGroup => "needs_item_group"@,
            ComputeIssue::NotImplemented => "not_implemented"@,
        }
    }

    /// A word for the reason.
    pub fn label(self) -> (r: &'static str)
        ensures
            r@ == self.word(),
    {
        match self.0 {
            ComputeIssue::UnsupportedBySource => "unsupported_by_source",
            ComputeIssue::MissingInSample => "missing_in_sample",
            ComputeIssue::Discontinuous(Discontinuity::Restart) => "restart",
            ComputeIssue::Discontinuous(Discontinuity::ItemReplaced) => "item_replaced",
            ComputeIssue::NotNumeric => "not_numeric",
            ComputeIssue::NeedsItemGroup => "needs_item_group",
            ComputeIssue::NotImplemented => "not_implemented",
        }
    }
}

/// What the flat formats and the raw format show in place of a value.
pub const ABSENT_TEXT: &'static str = "";

/// What JSON shows in place of a value.
pub const ABSENT_JSON: &'static str = "null";

/// What XML shows in place of a value.
pub const ABSENT_XML: &'static str = "";

/// How a number is written; `None` for what is no number.
pub open spec fn number_form(fmt: Fmt) -> Option<Form> {
    match fmt {
        Fmt::R2 => Some(Form::Fixed { decimals: 2, divisor: 1, sign: false }),
        Fmt::R0 => Some(Form::Fixed { decimals: 0, divisor: 1, sign: false }),
        Fmt::Int => Some(Form::Count),
        Fmt::Hex => Some(Form::CountHex),
        _ => None,
    }
}

fn form_of(fmt: Fmt) -> (r: Option<Form>)
    ensures
        r == number_form(fmt),
{
    match fmt {
        Fmt::R2 => Some(Form::Fixed { decimals: 2, divisor: 1, sign: false }),
        Fmt::R0 => Some(Form::Fixed { decimals: 0, divisor: 1, sign: false }),
        Fmt::Int => Some(Form::Count),
        Fmt::Hex => Some(Form::CountHex),
        _ => None,
    }
}

/// A value as it is shown.
#[derive(Debug)]
pub enum Shown {
    Text(String),
    Number(Slot),
}

/// A value as it is shown.
#[verifier::ext_equal]
pub enum ShownModel {
    Text(Seq<char>),
    Number(Slot),
}

impl ShownModel {
    /// What is shown, as glyphs.
    pub open spec fn glyphs(self) -> Seq<Glyph> {
        match self {
            ShownModel::Text(s) => chars(s),
            ShownModel::Number(n) => number(n),
        }
    }
}

impl Shown {
    pub open spec fn model(self) -> ShownModel {
        match self {
            Shown::Text(s) => ShownModel::Text(s@),
            Shown::Number(n) => ShownModel::Number(n),
        }
    }

    /// Appends the value.
    pub fn put(&self, out: &mut Doc)
        ensures
            final(out)@ == old(out)@ + self.model().glyphs(),
    {
        match self {
            Shown::Text(s) => out.put(s.as_str()),
            Shown::Number(n) => out.put_number(*n),
        }
    }
}

/// A double as it is shown; nothing in a form that is none of numbers.
pub open spec fn number_shown(bits: u64, fmt: Fmt) -> ShownModel {
    match number_form(fmt) {
        Some(form) => ShownModel::Number(Slot { bits, form, width: 0 }),
        None => ShownModel::Text(Seq::empty()),
    }
}

/// A value as it is shown. What the file's generation has no field for counts as 0; any other
/// value that is not there is shown as `absent`.
pub open spec fn value_shown(v: Computed, fmt: Fmt, absent: Seq<char>) -> ShownModel {
    match v {
        Ok(bits) => number_shown(bits, fmt),
        Err(ComputeIssue::UnsupportedBySource) => number_shown(ZERO_BITS, fmt),
        Err(_) => ShownModel::Text(absent),
    }
}

/// A value that was not observed is never shown as a number, whatever the reason, unless the
/// generation of the file has no such field.
pub proof fn law_missing_value_is_no_number(issue: ComputeIssue, fmt: Fmt, absent: Seq<char>)
    requires
        issue != ComputeIssue::UnsupportedBySource,
    ensures
        value_shown(Err(issue), fmt, absent) == ShownModel::Text(absent),
{
}

fn show_number(bits: u64, fmt: Fmt) -> (r: Shown)
    ensures
        r.model() == number_shown(bits, fmt),
{
    match form_of(fmt) {
        Some(form) => Shown::Number(Slot { bits, form, width: 0 }),
        None => {
            let r = Shown::Text(String::new());
            assert(r.model() =~= number_shown(bits, fmt));
            r
        },
    }
}

/// A value as it is shown.
pub fn show_value(v: Computed, fmt: Fmt, absent: &str) -> (r: Shown)
    ensures
        r.model() == value_shown(v, fmt, absent@),
{
    match v {
        Ok(bits) => show_number(bits, fmt),
        Err(ComputeIssue::UnsupportedBySource) => show_number(ZERO_BITS, fmt),
        Err(_) => Shown::Text(absent.to_owned()),
    }
}

/// Appends a value.
pub fn write_value(out: &mut Doc, v: Computed, fmt: Fmt, absent: &str)
    ensures
        final(out)@ == old(out)@ + value_shown(v, fmt, absent@).glyphs(),
{
    show_value(v, fmt, absent).put(out);
}

/// What tells an item from others, in each format.
#[derive(Debug)]
pub struct ItemLabel {
    pub ppc: String,
    pub db: String,
    pub jx: String,
}

/// What tells an item from others, in each format.
#[verifier::ext_equal]
pub struct LabelModel {
    pub ppc: Seq<char>,
    pub db: Seq<char>,
    pub jx: Seq<char>,
}

/// The label of an activity without items.
pub open spec fn no_label() -> LabelModel {
    LabelModel { ppc: "-"@, db: Seq::empty(), jx: Seq::empty() }
}

/// The label of a CPU; the first item stands for all of them.
pub open spec fn cpu_label(index: int) -> LabelModel {
    if index == 0 {
        LabelModel { ppc: "all"@, db: "-1"@, jx: "all"@ }
    } else {
        let n = dec((index - 1) as nat);
        LabelModel { ppc: "cpu"@ + n, db: n, jx: n }
    }
}

/// The label of an item with a name.
pub open spec fn name_label(name: Seq<char>) -> LabelModel {
    LabelModel { ppc: name, db: name, jx: name }
}

/// The label of an item with a number.
pub open spec fn number_label(prefix: Seq<char>, n: nat) -> LabelModel {
    LabelModel { ppc: prefix + dec(n), db: dec(n), jx: dec(n) }
}

impl ItemLabel {
    pub open spec fn model(self) -> LabelModel {
        LabelModel { ppc: self.ppc@, db: self.db@, jx: self.jx@ }
    }

    /// The label of an activity without items.
    pub fn none() -> (r: Self)
        ensures
            r.model() == no_label(),
    {
        let r = ItemLabel { ppc: "-".to_owned(), db: String::new(), jx: String::new() };
        assert(r.model() =~= no_label());
        r
    }

    /// The label of a CPU; the first item stands for all of them.
    pub fn cpu(index: usize) -> (r: Self)
        ensures
            r.model() == cpu_label(index as int),
    {
        if index == 0 {
            ItemLabel { ppc: "all".to_owned(), db: "-1".to_owned(), jx: "all".to_owned() }
        } else {
            let n = dec_text(index as u64 - 1);
            let mut ppc = "cpu".to_owned();
            ppc.append(n.as_str());
            ItemLabel { ppc, db: n.as_str().to_owned(), jx: n }
        }
    }

    /// The label of an item with a name.
    pub fn named(name: &str) -> (r: Self)
        ensures
            r.model() == name_label(name@),
    {
        ItemLabel { ppc: name.to_owned(), db: name.to_owned(), jx: name.to_owned() }
    }

    /// The label of an item with a number.
    pub fn numbered(prefix: &str, n: u64) -> (r: Self)
        ensures
            r.model() == number_label(prefix@, n as nat),
    {
        let d = dec_text(n);
        let mut ppc = prefix.to_owned();
        ppc.append(d.as_str());
        ItemLabel { ppc, db: d.as_str().to_owned(), jx: d }
    }

    /// The label of an item with a number, counted from `base`.
    pub fn counted(prefix: &str, index: u64, base: u32) -> (r: Self)
        ensures
            r.model() == number_label(prefix@, (index + base) as nat),
    {
        let d = dec_sum(index, base);
        let mut ppc = prefix.to_owned();
        ppc.append(d.as_str());
        ItemLabel { ppc, db: d.as_str().to_owned(), jx: d }
    }
}

}
