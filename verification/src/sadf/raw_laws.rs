//! What the raw format shows of the values of an item.

use vstd::prelude::*;

use crate::doc::Form;
use crate::model::{ActivityId, Availability};
use crate::sadf::access::{column_position, sum_of, ColumnMeta, ItemModel};
use crate::sadf::raw::{field_tokens, word};
use crate::sadf::render::text_of;
use crate::sadf::table::{RawField, RawStyle};
use crate::sadf::value::ShownModel;
use crate::text::{dec, hex};

verus! {

/// Whether the values of an item hold a number in the column of a name: the first column of that
/// name is one of the file's, and the item has a value there.
#[verifier::opaque]
pub open spec fn holds(
    item: ItemModel,
    values: Seq<Availability>,
    name: Seq<char>,
    v: u64,
) -> bool {
    exists|c: int|
        {
            &&& 0 <= c < item.def.columns@.len()
            &&& (#[trigger] item.def.columns@[c]).public_name@ == name
            &&& forall|j: int|
                0 <= j < c ==> (#[trigger] item.def.columns@[j]).public_name@ != name
            &&& c < item.plan.column_fields@.len()
            &&& item.plan.column_fields@[c] matches Some(f)
            &&& f < values.len()
            &&& values[f as int] == Availability::Present(v)
        }
}

/// Whether the item holds a number now.
pub open spec fn holds_now(item: ItemModel, name: Seq<char>, v: u64) -> bool {
    holds(item, item.curr.values@, name, v)
}

/// Whether the item that this one is compared with held a number.
pub open spec fn held_before(item: ItemModel, name: Seq<char>, v: u64) -> bool {
    item.ctx.has_prev && (item.prev matches Some(p) && holds(item, p.values@, name, v))
}

/// A number as an unsigned one of 64 bits.
pub open spec fn wrapped(n: int) -> int {
    n % 0x1_0000_0000_0000_0000
}

/// The tokens of a counter that was `before` and is `now`. Where the file is looked into, a name
/// is marked if the counter went down.
pub open spec fn grown(name: Seq<char>, marks: bool, before: int, now: int) -> Seq<ShownModel> {
    seq![
        word(
            if marks && now < before {
                name + " [DEC]"@
            } else {
                name
            },
        ),
        word(dec(before as nat)),
        word(dec(now as nat)),
    ]
}

proof fn lemma_position(columns: Seq<ColumnMeta>, name: Seq<char>, c: int, n: int)
    requires
        0 <= c < columns.len(),
        columns[c].public_name@ == name,
        forall|j: int| 0 <= j < c ==> (#[trigger] columns[j]).public_name@ != name,
        0 <= n <= columns.len(),
    ensures
        column_position(columns, name, n) == (if c < n {
            Some(c)
        } else {
            None
        }),
    decreases n,
{
    if n > 0 {
        lemma_position(columns, name, c, n - 1);
    }
}

proof fn lemma_held(item: ItemModel, name: Seq<char>, v: u64)
    ensures
        holds_now(item, name, v) ==> item.raw_by_name(name, false) == Availability::Present(v),
        held_before(item, name, v) ==> item.raw_by_name(name, true) == Availability::Present(v),
{
    reveal(holds);
    let columns = item.def.columns@;
    if holds_now(item, name, v) {
        let values = item.curr.values@;
        let c = choose|c: int|
            {
                &&& 0 <= c < columns.len()
                &&& (#[trigger] columns[c]).public_name@ == name
                &&& forall|j: int| 0 <= j < c ==> (#[trigger] columns[j]).public_name@ != name
                &&& c < item.plan.column_fields@.len()
                &&& item.plan.column_fields@[c] matches Some(f)
                &&& f < values.len()
                &&& values[f as int] == Availability::Present(v)
            };
        lemma_position(columns, name, c, columns.len() as int);
    }
    if held_before(item, name, v) {
        let values = item.prev->0.values@;
        let c = choose|c: int|
            {
                &&& 0 <= c < columns.len()
                &&& (#[trigger] columns[c]).public_name@ == name
                &&& forall|j: int| 0 <= j < c ==> (#[trigger] columns[j]).public_name@ != name
                &&& c < item.plan.column_fields@.len()
                &&& item.plan.column_fields@[c] matches Some(f)
                &&& f < values.len()
                &&& values[f as int] == Availability::Present(v)
            };
        lemma_position(columns, name, c, columns.len() as int);
    }
}

proof fn lemma_sum_of_three(x: u64, y: u64, z: u64)
    ensures
        sum_of(
            seq![Availability::Present(x), Availability::Present(y), Availability::Present(z)],
        ) == Availability::Present(wrapped(x + y + z) as u64),
{
    let s = seq![Availability::Present(x), Availability::Present(y), Availability::Present(z)];
    assert(s.drop_last() =~= seq![Availability::Present(x), Availability::Present(y)]);
    assert(s.drop_last().drop_last() =~= seq![Availability::Present(x)]);
    assert(s.drop_last().drop_last().drop_last() =~= Seq::<Availability>::empty());
    reveal_with_fuel(sum_of, 4);
    assert(wrapped(wrapped(x + y) + z) == wrapped(x + y + z));
}

/// A counter is shown with its name, with what the item held in its column before and with what
/// it holds there now, in this order. One that is never marked as a decrease is shown so too.
pub proof fn law_a_counter_is_shown_before_and_now(
    id: ActivityId,
    item: ItemModel,
    f: RawField,
    debug: bool,
    before: u64,
    now: u64,
)
    requires
        f.style is Pval || f.style is Pair,
        held_before(item, f.col@, before),
        holds_now(item, f.col@, now),
    ensures
        field_tokens(id, item, f, debug) == grown(
            f.name@,
            debug && f.style is Pval,
            before as int,
            now as int,
        ),
{
    lemma_held(item, f.col@, before);
    lemma_held(item, f.col@, now);
}

/// A field that adds up three columns is shown with its name, with the sum of what the item held
/// in all three of them before, and with the sum of what it holds in all three now. The sums are
/// unsigned numbers of 64 bits.
pub proof fn law_a_sum_is_of_all_three_columns(
    id: ActivityId,
    item: ItemModel,
    f: RawField,
    debug: bool,
    before: (u64, u64, u64),
    now: (u64, u64, u64),
)
    requires
        f.style matches RawStyle::PvalSum(a, b, c) && {
            &&& held_before(item, a@, before.0)
            &&& held_before(item, b@, before.1)
            &&& held_before(item, c@, before.2)
            &&& holds_now(item, a@, now.0)
            &&& holds_now(item, b@, now.1)
            &&& holds_now(item, c@, now.2)
        },
    ensures
        field_tokens(id, item, f, debug) == grown(
            f.name@,
            debug,
            wrapped(before.0 + before.1 + before.2),
            wrapped(now.0 + now.1 + now.2),
        ),
{
    if let RawStyle::PvalSum(a, b, c) = f.style {
        lemma_held(item, a@, before.0);
        lemma_held(item, b@, before.1);
        lemma_held(item, c@, before.2);
        lemma_held(item, a@, now.0);
        lemma_held(item, b@, now.1);
        lemma_held(item, c@, now.2);
        let names = seq![a, b, c];
        assert(Seq::new(names.len(), |i: int| item.raw_by_name(names[i]@, true)) =~= seq![
            Availability::Present(before.0),
            Availability::Present(before.1),
            Availability::Present(before.2),
        ]);
        assert(Seq::new(names.len(), |i: int| item.raw_by_name(names[i]@, false)) =~= seq![
            Availability::Present(now.0),
            Availability::Present(now.1),
            Availability::Present(now.2),
        ]);
        lemma_sum_of_three(before.0, before.1, before.2);
        lemma_sum_of_three(now.0, now.1, now.2);
    }
}

/// A field that takes one column from another is shown with its name, with what the item held in
/// the first beyond what it held in the second before, and with the same of now. The differences
/// are unsigned numbers of 64 bits.
pub proof fn law_a_difference_takes_the_second_column_away(
    id: ActivityId,
    item: ItemModel,
    f: RawField,
    debug: bool,
    before: (u64, u64),
    now: (u64, u64),
)
    requires
        f.style matches RawStyle::PvalDiff(a, b) && {
            &&& held_before(item, a@, before.0)
            &&& held_before(item, b@, before.1)
            &&& holds_now(item, a@, now.0)
            &&& holds_now(item, b@, now.1)
        },
    ensures
        field_tokens(id, item, f, debug) == grown(
            f.name@,
            debug,
            wrapped(before.0 - before.1),
            wrapped(now.0 - now.1),
        ),
{
    if let RawStyle::PvalDiff(a, b) = f.style {
        lemma_held(item, a@, before.0);
        lemma_held(item, b@, before.1);
        lemma_held(item, a@, now.0);
        lemma_held(item, b@, now.1);
    }
}

/// A field that is no counter is shown with its name and with what the item holds in its column
/// now: in decimal, in hexadecimal, or as the double that it is, with six decimals. What the
/// item held before does not count. The state of a battery has its name behind it where the file
/// is looked into.
pub proof fn law_other_fields_are_shown_now(
    id: ActivityId,
    item: ItemModel,
    f: RawField,
    debug: bool,
    now: u64,
)
    requires
        holds_now(item, f.col@, now),
        !(debug && id == ActivityId::PWR_BAT && f.col@ == "status"@),
    ensures
        f.style is Int ==> field_tokens(id, item, f, debug) == seq![
            word(f.name@),
            word(dec(now as nat)),
        ],
        f.style is Hex ==> field_tokens(id, item, f, debug) == seq![
            word(f.name@),
            word(hex(now as nat)),
        ],
        f.style is Sensor ==> {
            &&& field_tokens(id, item, f, debug).len() == 2
            &&& field_tokens(id, item, f, debug)[0] == word(f.name@)
            &&& field_tokens(id, item, f, debug)[1] matches ShownModel::Number(n)
            &&& n.bits == now
            &&& n.form == Form::Fixed { decimals: 6, divisor: 1, sign: false }
        },
{
    lemma_held(item, f.col@, now);
}

/// A text is shown behind its name as the item holds it, in quotes where it may hold blanks.
pub proof fn law_texts_are_shown_as_they_are(
    id: ActivityId,
    item: ItemModel,
    f: RawField,
    debug: bool,
    text: Seq<char>,
)
    requires
        text_of(id, item, f.col@) == Some(text),
    ensures
        f.style is Text ==> field_tokens(id, item, f, debug) == seq![word(f.name@), word(text)],
        f.style is QuotedText ==> field_tokens(id, item, f, debug) == seq![
            word(f.name@),
            word("\""@ + text + "\""@),
        ],
{
}

}
