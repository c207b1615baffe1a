//! What holds of the course of the formats.

use vstd::prelude::*;

use crate::model::{listed, ActivityId};
use crate::sadf::config::SadfConfig;
use crate::sadf::dbppc::flat_passes;
use crate::sadf::file::{
    chosen, passes_of, present, section_passes, selection, FileActivityEntry, SaFile,
};
use crate::sadf::logic1::{
    block_after, block_upto, cpu_nr_upto, entries_from, first_sample, restarts_upto, Entry,
    RestartEntry,
};
use crate::sadf::logic2::{
    after_read, after_restart, comment_actions, header_actions, pass_after, pass_result, pass_upto,
    read_actions, restart_actions, run_passes, sample_action, script_from, seek, skip_rest, Action,
    Memory, Pass, PassRun, PassSetup, RunSetup,
};
use crate::sadf::raw::raw_passes;
use crate::sadf::records::{cpu_nr_after, restart_from, Rec, RecKind, RecordIndex};
use crate::sadf::table::{
    active, law_table_is_of_its_activity, table, SectionConfig, SectionModel,
};

verus! {

/// The restarts among parts of the output.
pub open spec fn restarts_in(actions: Seq<Action>) -> Seq<RestartEntry>
    decreases actions.len(),
{
    if actions.len() == 0 {
        Seq::empty()
    } else {
        let before = restarts_in(actions.drop_last());
        match actions.last() {
            Action::Restart { rec, cpu_nr } => before.push(RestartEntry { rec, cpu_nr }),
            _ => before,
        }
    }
}

/// The samples among parts of the output: each with the sample that it is compared with.
pub open spec fn samples_in(actions: Seq<Action>) -> Seq<(usize, usize)>
    decreases actions.len(),
{
    if actions.len() == 0 {
        Seq::empty()
    } else {
        let before = samples_in(actions.drop_last());
        match actions.last() {
            Action::Sample { rec, prev, .. } => before.push((rec, prev)),
            _ => before,
        }
    }
}

/// The samples that are shown among the entries of a stretch.
pub open spec fn shown_in(entries: Seq<Entry>) -> Seq<(usize, usize)>
    decreases entries.len(),
{
    if entries.len() == 0 {
        Seq::empty()
    } else {
        let before = shown_in(entries.drop_last());
        match entries.last() {
            Entry::Shown { rec, prev } => before.push((rec, prev)),
            Entry::Hidden { .. } => before,
        }
    }
}

proof fn lemma_restarts_concat(a: Seq<Action>, b: Seq<Action>)
    ensures
        restarts_in(a + b) == restarts_in(a) + restarts_in(b),
    decreases b.len(),
{
    if b.len() == 0 {
        assert(a + b =~= a);
        assert(restarts_in(a) + restarts_in(b) =~= restarts_in(a));
    } else {
        lemma_restarts_concat(a, b.drop_last());
        assert((a + b).drop_last() =~= a + b.drop_last());
        assert(restarts_in(a + b) =~= restarts_in(a) + restarts_in(b));
    }
}

proof fn lemma_samples_concat(a: Seq<Action>, b: Seq<Action>)
    ensures
        samples_in(a + b) == samples_in(a) + samples_in(b),
    decreases b.len(),
{
    if b.len() == 0 {
        assert(a + b =~= a);
        assert(samples_in(a) + samples_in(b) =~= samples_in(a));
    } else {
        lemma_samples_concat(a, b.drop_last());
        assert((a + b).drop_last() =~= a + b.drop_last());
        assert(samples_in(a + b) =~= samples_in(a) + samples_in(b));
    }
}

proof fn lemma_headers_hold_nothing(start: int, end: int, n: int)
    requires
        0 <= n <= header_actions(start, end).len(),
    ensures
        restarts_in(header_actions(start, end).take(n)) == Seq::<RestartEntry>::empty(),
        samples_in(header_actions(start, end).take(n)) == Seq::<(usize, usize)>::empty(),
    decreases n,
{
    let h = header_actions(start, end);
    if n > 0 {
        lemma_headers_hold_nothing(start, end, n - 1);
        assert(h.take(n).drop_last() =~= h.take(n - 1));
    }
}

proof fn lemma_read_holds_nothing(index: RecordIndex, at: int)
    ensures
        restarts_in(read_actions(index, at)) == Seq::<RestartEntry>::empty(),
        samples_in(read_actions(index, at)) == Seq::<(usize, usize)>::empty(),
{
    let h = read_actions(index, at);
    let (start, end) = crate::sadf::records::header_range(index, at);
    lemma_headers_hold_nothing(start, end, h.len() as int);
    assert(h.take(h.len() as int) =~= h);
}

proof fn lemma_restarts_push(a: Seq<Action>, x: Action)
    ensures
        restarts_in(a.push(x)) == (match x {
            Action::Restart { rec, cpu_nr } => restarts_in(a).push(RestartEntry { rec, cpu_nr }),
            _ => restarts_in(a),
        }),
        samples_in(a.push(x)) == (match x {
            Action::Sample { rec, prev, .. } => samples_in(a).push((rec, prev)),
            _ => samples_in(a),
        }),
{
    assert(a.push(x).drop_last() =~= a);
}

proof fn lemma_one_step(c: PassSetup<'_>, run: PassRun, k: usize)
    requires
        k < c.index.recs@.len(),
    ensures
        restarts_in(pass_after(c, run, k).actions) == restarts_in(run.actions),
        pass_after(c, run, k).memory.cpu == run.memory.cpu,
        pass_after(c, run, k).state.stopped is Some && run.state.stopped is None ==> pass_after(
            c,
            run,
            k,
        ).state.stopped == Some(k),
{
    let read = read_actions(*c.index, k as int);
    let rec = c.index.recs@[k as int];
    let m = after_read(*c.index, run.memory, k as int);
    lemma_restarts_concat(run.actions, read);
    lemma_read_holds_nothing(*c.index, k as int);
    assert(restarts_in(run.actions) + Seq::<RestartEntry>::empty() =~= restarts_in(run.actions));
    lemma_restarts_push(run.actions + read, Action::Comment { rec: k });
    lemma_restarts_push(run.actions + read, sample_action(m, c.pass, k, run.state.prev));
}

/// A pass shows no restart, keeps the number of CPUs, and stops within its stretch.
proof fn lemma_pass_upto(c: PassSetup<'_>, m: Memory, n: int)
    requires
        n <= c.index.recs@.len() <= usize::MAX,
    ensures
        restarts_in(pass_upto(c, m, n).actions) == Seq::<RestartEntry>::empty(),
        pass_upto(c, m, n).memory.cpu == m.cpu,
        pass_upto(c, m, n).state.stopped matches Some(k) ==> c.reference < k < n,
    decreases n,
{
    if n > c.reference + 1 {
        lemma_pass_upto(c, m, n - 1);
        let run = pass_upto(c, m, n - 1);
        if run.state.stopped is None {
            lemma_one_step(c, run, (n - 1) as usize);
            assert(pass_upto(c, m, n) == pass_after(c, run, (n - 1) as usize));
        }
    }
}

pub(crate) proof fn lemma_restart_bounds(recs: Seq<Rec>, from: int)
    requires
        0 <= from,
    ensures
        restart_from(recs, from) <= recs.len(),
        from <= recs.len() ==> from <= restart_from(recs, from),
        restart_from(recs, from) < recs.len() ==> recs[restart_from(recs, from)].kind
            == RecKind::Restart,
        forall|i: int|
            from <= i < restart_from(recs, from) ==> (#[trigger] recs[i]).kind != RecKind::Restart,
    decreases recs.len() - from,
{
    if from < recs.len() && recs[from].kind != RecKind::Restart {
        lemma_restart_bounds(recs, from + 1);
    }
}

/// The number of CPUs in force after the records from `a` on and before `b`.
pub open spec fn cpu_between(recs: Seq<Rec>, cpu: Option<u32>, a: int, b: int) -> Option<u32>
    decreases b - a,
{
    if a >= b {
        cpu
    } else if recs[a].kind == RecKind::Restart {
        cpu_between(recs, cpu_nr_after(cpu, recs[a].cpu_count), a + 1, b)
    } else {
        cpu_between(recs, cpu, a + 1, b)
    }
}

/// The restarts in the time range among the records from `a` on and before `b`.
pub open spec fn restarts_between(recs: Seq<Rec>, cpu: Option<u32>, a: int, b: int) -> Seq<RestartEntry>
    decreases b - a,
{
    if a >= b {
        Seq::empty()
    } else if recs[a].kind == RecKind::Restart {
        let now = cpu_nr_after(cpu, recs[a].cpu_count);
        let own = if recs[a].in_range {
            seq![RestartEntry { rec: a as usize, cpu_nr: now }]
        } else {
            Seq::empty()
        };
        own + restarts_between(recs, now, a + 1, b)
    } else {
        restarts_between(recs, cpu, a + 1, b)
    }
}

proof fn lemma_between_splits(recs: Seq<Rec>, cpu: Option<u32>, a: int, b: int, c: int)
    requires
        a <= b <= c,
    ensures
        cpu_between(recs, cpu, a, c) == cpu_between(recs, cpu_between(recs, cpu, a, b), b, c),
        restarts_between(recs, cpu, a, c) == restarts_between(recs, cpu, a, b) + restarts_between(
            recs,
            cpu_between(recs, cpu, a, b),
            b,
            c,
        ),
    decreases b - a,
{
    if a == b {
        assert(Seq::<RestartEntry>::empty() + restarts_between(recs, cpu, b, c)
            =~= restarts_between(recs, cpu, b, c));
    } else if recs[a].kind == RecKind::Restart {
        let now = cpu_nr_after(cpu, recs[a].cpu_count);
        lemma_between_splits(recs, now, a + 1, b, c);
        assert(restarts_between(recs, cpu, a, c) =~= restarts_between(recs, cpu, a, b)
            + restarts_between(recs, cpu_between(recs, cpu, a, b), b, c));
    } else {
        lemma_between_splits(recs, cpu, a + 1, b, c);
    }
}

proof fn lemma_no_restart_between(recs: Seq<Rec>, cpu: Option<u32>, a: int, b: int)
    requires
        forall|i: int| a <= i < b ==> (#[trigger] recs[i]).kind != RecKind::Restart,
    ensures
        cpu_between(recs, cpu, a, b) == cpu,
        restarts_between(recs, cpu, a, b) == Seq::<RestartEntry>::empty(),
    decreases b - a,
{
    if a < b {
        lemma_no_restart_between(recs, cpu, a + 1, b);
    }
}

/// The restarts of a file, counted from the start or from the end, are the same.
proof fn lemma_restarts_upto(recs: Seq<Rec>, cpu: Option<u32>, n: int)
    requires
        0 <= n,
    ensures
        restarts_between(recs, cpu, 0, n) == restarts_upto(recs, cpu, n),
        cpu_between(recs, cpu, 0, n) == cpu_nr_upto(recs, cpu, n),
    decreases n,
{
    if n > 0 {
        lemma_restarts_upto(recs, cpu, n - 1);
        lemma_between_splits(recs, cpu, 0, n - 1, n);
        let before = cpu_between(recs, cpu, 0, n - 1);
        let now = cpu_nr_after(before, recs[n - 1].cpu_count);
        assert(restarts_between(recs, now, n, n) =~= Seq::empty());
        assert(restarts_between(recs, before, n, n) =~= Seq::empty());
        assert(cpu_between(recs, now, n, n) == now);
        assert(cpu_between(recs, before, n, n) == before);
        if recs[n - 1].kind == RecKind::Restart {
            if recs[n - 1].in_range {
                let own = seq![RestartEntry { rec: (n - 1) as usize, cpu_nr: now }];
                assert(restarts_between(recs, before, n - 1, n) =~= own);
                assert(restarts_between(recs, cpu, 0, n) =~= restarts_upto(recs, cpu, n));
            } else {
                assert(restarts_between(recs, before, n - 1, n) =~= Seq::empty());
                assert(restarts_between(recs, cpu, 0, n) =~= restarts_upto(recs, cpu, n));
            }
        } else {
            assert(restarts_between(recs, before, n - 1, n) =~= Seq::empty());
            assert(restarts_between(recs, cpu, 0, n) =~= restarts_upto(recs, cpu, n));
        }
    }
}

proof fn lemma_seek(c: RunSetup<'_>, m: Memory, pos: int)
    requires
        0 <= pos <= c.index.recs@.len(),
    ensures
        ({
            let recs = c.index.recs@;
            let (found, left, made) = seek(c, m, pos);
            let end = match found {
                Some(p) => p,
                None => recs.len() as int,
            };
            &&& found matches Some(p) ==> pos <= p < recs.len() && recs[p].kind == RecKind::Stats
            &&& left.cpu == cpu_between(recs, m.cpu, pos, end)
            &&& restarts_in(made) == restarts_between(recs, m.cpu, pos, end)
        }),
    decreases c.index.recs@.len() - pos,
{
    let recs = c.index.recs@;
    if pos < recs.len() {
        let rec = recs[pos];
        let read = read_actions(*c.index, pos);
        let m1 = after_read(*c.index, m, pos);
        lemma_read_holds_nothing(*c.index, pos);
        match rec.kind {
            RecKind::Restart => {
                let m2 = after_restart(m1, rec);
                lemma_seek(c, m2, pos + 1);
                let own = restart_actions(rec, pos, m2.cpu);
                let rest = seek(c, m2, pos + 1).2;
                lemma_restarts_concat(read, own);
                lemma_restarts_concat(read + own, rest);
                lemma_restarts_push(
                    Seq::empty(),
                    Action::Restart { rec: pos as usize, cpu_nr: m2.cpu },
                );
                if rec.in_range {
                    assert(own =~= Seq::empty().push(
                        Action::Restart { rec: pos as usize, cpu_nr: m2.cpu },
                    ));
                    assert(restarts_in(own) =~= seq![
                        RestartEntry { rec: pos as usize, cpu_nr: m2.cpu },
                    ]);
                }
                assert(restarts_in(read + own + rest) =~= restarts_in(own) + restarts_in(rest));
            },
            RecKind::Comment => {
                lemma_seek(c, m1, pos + 1);
                let own = comment_actions(c.comments, rec, pos);
                let rest = seek(c, m1, pos + 1).2;
                lemma_restarts_concat(read, own);
                lemma_restarts_concat(read + own, rest);
                lemma_restarts_push(Seq::empty(), Action::Comment { rec: pos as usize });
                assert(own =~= Seq::empty() || own =~= Seq::empty().push(
                    Action::Comment { rec: pos as usize },
                ));
                assert(restarts_in(own) =~= Seq::empty());
                assert(restarts_in(read + own + rest) =~= restarts_in(rest));
            },
            RecKind::Stats => if !rec.in_range {
                lemma_seek(c, m1, pos + 1);
                let rest = seek(c, m1, pos + 1).2;
                lemma_restarts_concat(read, rest);
                assert(restarts_in(read + rest) =~= restarts_in(rest));
            },
        }
    }
}

proof fn lemma_skip(c: RunSetup<'_>, m: Memory, pos: int)
    requires
        0 <= pos <= c.index.recs@.len(),
    ensures
        ({
            let recs = c.index.recs@;
            let (found, left, made) = skip_rest(c, m, pos);
            &&& left.cpu == m.cpu
            &&& restarts_in(made) == Seq::<RestartEntry>::empty()
            &&& found == (if restart_from(recs, pos) < recs.len() {
                Some(restart_from(recs, pos))
            } else {
                None
            })
        }),
    decreases c.index.recs@.len() - pos,
{
    let recs = c.index.recs@;
    lemma_read_holds_nothing(*c.index, recs.len() as int);
    if pos < recs.len() {
        let rec = recs[pos];
        let read = read_actions(*c.index, pos);
        let m1 = after_read(*c.index, m, pos);
        lemma_read_holds_nothing(*c.index, pos);
        match rec.kind {
            RecKind::Restart => {},
            RecKind::Comment => {
                lemma_skip(c, m1, pos + 1);
                let own = comment_actions(c.comments, rec, pos);
                let rest = skip_rest(c, m1, pos + 1).2;
                lemma_restarts_concat(read, own);
                lemma_restarts_concat(read + own, rest);
                lemma_restarts_push(Seq::empty(), Action::Comment { rec: pos as usize });
                assert(own =~= Seq::empty() || own =~= Seq::empty().push(
                    Action::Comment { rec: pos as usize },
                ));
                assert(restarts_in(own) =~= Seq::empty());
                assert(restarts_in(read + own + rest) =~= Seq::empty());
            },
            RecKind::Stats => {
                lemma_skip(c, m1, pos + 1);
                let rest = skip_rest(c, m1, pos + 1).2;
                lemma_restarts_concat(read, rest);
                assert(restarts_in(read + rest) =~= Seq::empty());
            },
        }
    }
}

/// What the passes of a stretch leave: no restart is shown, the number of CPUs is kept, and the
/// next record is the restart that ends the stretch or lies before it.
proof fn lemma_passes(c: RunSetup<'_>, m: Memory, reference: usize, n: int)
    requires
        reference < c.index.recs@.len() <= usize::MAX,
        0 <= n <= c.passes@.len(),
    ensures
        ({
            let recs = c.index.recs@;
            let stop = restart_from(recs, reference + 1);
            let (end, left, made) = run_passes(c, m, reference, n);
            &&& left.cpu == m.cpu
            &&& restarts_in(made) == Seq::<RestartEntry>::empty()
            &&& n > 0 ==> {
                &&& end.eosaf ==> stop == recs.len()
                &&& !end.eosaf && end.cnt_zero ==> reference < end.next <= stop
                &&& !end.eosaf && !end.cnt_zero ==> end.next == stop && stop < recs.len()
            }
        }),
    decreases n,
{
    if n > 0 {
        let recs = c.index.recs@;
        lemma_passes(c, m, reference, n - 1);
        let (_, m1, before) = run_passes(c, m, reference, n - 1);
        let pass = c.passes@[n - 1];
        let p = PassSetup {
            index: c.index,
            comments: c.comments,
            select: c.select,
            pass,
            reference,
        };
        let stop = restart_from(recs, reference + 1);
        lemma_restart_bounds(recs, reference + 1);
        lemma_pass_upto(p, m1, stop);
        let run = pass_upto(p, m1, stop);
        lemma_read_holds_nothing(*c.index, stop);
        lemma_read_holds_nothing(*c.index, recs.len() as int);
        lemma_restarts_concat(run.actions, read_actions(*c.index, stop));
        lemma_restarts_concat(run.actions, read_actions(*c.index, recs.len() as int));
        let (end, m2, more) = pass_result(p, m1);
        assert(restarts_in(more) =~= Seq::empty());
        lemma_restarts_push(before, Action::BeginPass { pass });
        lemma_restarts_concat(before.push(Action::BeginPass { pass }), more);
        assert(restarts_in(before.push(Action::BeginPass { pass }) + more) =~= Seq::empty());
    }
}

proof fn lemma_script(c: RunSetup<'_>, m: Memory, pos: int)
    requires
        c.passes@.len() > 0,
        0 <= pos <= c.index.recs@.len(),
        c.index.recs@.len() <= usize::MAX,
    ensures
        restarts_in(script_from(c, m, pos)) == restarts_between(
            c.index.recs@,
            m.cpu,
            pos,
            c.index.recs@.len() as int,
        ),
    decreases c.index.recs@.len() - pos,
{
    let recs = c.index.recs@;
    let n = recs.len() as int;
    let (found, m1, lead) = seek(c, m, pos);
    lemma_seek(c, m, pos);
    match found {
        None => {
            lemma_read_holds_nothing(*c.index, n);
            lemma_restarts_concat(lead, read_actions(*c.index, n));
            assert(restarts_in(lead + read_actions(*c.index, n)) =~= restarts_in(lead));
        },
        Some(p) => {
            let reference = p as usize;
            let stop = restart_from(recs, reference + 1);
            let (end, m2, body) = run_passes(c, m1, reference, c.passes@.len() as int);
            lemma_passes(c, m1, reference, c.passes@.len() as int);
            lemma_restart_bounds(recs, reference + 1);
            lemma_between_splits(recs, m.cpu, pos, p, n);
            lemma_between_splits(recs, m1.cpu, p, stop, n);
            lemma_no_restart_between(recs, m1.cpu, p, stop);
            let (closing, m3, rest) = if end.eosaf {
                (None, m2, Seq::empty())
            } else if end.cnt_zero {
                skip_rest(c, m2, end.next as int)
            } else {
                (Some(end.next as int), m2, Seq::empty())
            };
            if !end.eosaf && end.cnt_zero {
                lemma_skip(c, m2, end.next as int);
                lemma_restart_bounds(recs, end.next as int);
                lemma_same_restart(recs, reference + 1, end.next as int);
            }
            lemma_restarts_concat(lead, body);
            lemma_restarts_concat(lead + body, rest);
            assert(restarts_in(rest) =~= Seq::empty());
            assert(restarts_in(lead + body + rest) =~= restarts_in(lead));
            match closing {
                None => {
                    assert(stop == n);
                    assert(restarts_between(recs, m1.cpu, n, n) =~= Seq::empty());
                    assert(restarts_between(recs, m1.cpu, p, n) =~= Seq::empty());
                    assert(restarts_in(lead) + Seq::<RestartEntry>::empty() =~= restarts_in(lead));
                },
                Some(q) => {
                    assert(q == stop && stop < n);
                    let m4 = after_restart(m3, recs[q]);
                    let own = restart_actions(recs[q], q, m4.cpu);
                    lemma_restarts_push(
                        Seq::empty(),
                        Action::Restart { rec: q as usize, cpu_nr: m4.cpu },
                    );
                    if recs[q].in_range {
                        assert(own =~= Seq::empty().push(
                            Action::Restart { rec: q as usize, cpu_nr: m4.cpu },
                        ));
                        assert(restarts_in(own) =~= seq![
                            RestartEntry { rec: q as usize, cpu_nr: m4.cpu },
                        ]);
                    } else {
                        assert(restarts_in(own) =~= Seq::empty());
                    }
                    lemma_restarts_concat(lead + body + rest, own);
                    let made = lead + body + rest + own;
                    lemma_script(c, m4, q + 1);
                    lemma_restarts_concat(made, script_from(c, m4, q + 1));
                    assert(restarts_in(made + script_from(c, m4, q + 1)) =~= restarts_between(
                        recs,
                        m.cpu,
                        pos,
                        n,
                    ));
                },
            }
        },
    }
}

proof fn lemma_same_restart(recs: Seq<Rec>, a: int, b: int)
    requires
        0 <= a <= b <= restart_from(recs, a),
    ensures
        restart_from(recs, b) == restart_from(recs, a),
    decreases b - a,
{
    if a < b {
        lemma_restart_bounds(recs, a);
        lemma_same_restart(recs, a + 1, b);
    }
}

/// Every restart in the time range is shown once, in the order of the file, with the number of
/// CPUs in force after it: the formats that go activity by activity show the restarts that the
/// others list at their end.
pub proof fn law_each_restart_is_shown_once(c: RunSetup<'_>, m: Memory)
    requires
        c.passes@.len() > 0,
        c.index.recs@.len() <= usize::MAX,
    ensures
        restarts_in(script_from(c, m, 0)) == restarts_upto(
            c.index.recs@,
            m.cpu,
            c.index.recs@.len() as int,
        ),
{
    lemma_script(c, m, 0);
    lemma_restarts_upto(c.index.recs@, m.cpu, c.index.recs@.len() as int);
}

proof fn lemma_same_samples(c: PassSetup<'_>, m: Memory, n: int)
    requires
        n <= c.index.recs@.len() <= usize::MAX,
    ensures
        ({
            let recs = c.index.recs@;
            let run = pass_upto(c, m, n);
            let (s, entries) = block_upto(recs, c.select, c.reference, n);
            &&& samples_in(run.actions) == shown_in(entries)
            &&& run.state.slicer == s.slicer
            &&& run.state.prev == s.prev
            &&& run.state.remaining == s.remaining
            &&& run.state.stopped is Some == s.stopped
        }),
    decreases n,
{
    if n > c.reference + 1 {
        lemma_same_samples(c, m, n - 1);
        let recs = c.index.recs@;
        let run = pass_upto(c, m, n - 1);
        let (s, entries) = block_upto(recs, c.select, c.reference, n - 1);
        if !s.stopped {
            let k = (n - 1) as usize;
            let m1 = after_read(*c.index, run.memory, k as int);
            let read = read_actions(*c.index, k as int);
            lemma_samples_concat(run.actions, read);
            lemma_read_holds_nothing(*c.index, k as int);
            assert(samples_in(run.actions + read) =~= samples_in(run.actions));
            lemma_restarts_push(run.actions + read, Action::Comment { rec: k });
            lemma_restarts_push(
                run.actions + read,
                sample_action(m1, c.pass, k, run.state.prev),
            );
            let (t, e) = block_after(recs, s, k);
            if let Some(x) = e {
                assert(entries.push(x).drop_last() =~= entries);
            }
        }
    }
}

/// A pass shows the samples of its stretch that the formats in the order of time show, each
/// compared with the same earlier one.
pub proof fn law_pass_shows_the_samples_of_its_stretch(c: PassSetup<'_>, m: Memory)
    requires
        c.reference < c.index.recs@.len() <= usize::MAX,
    ensures
        samples_in(pass_result(c, m).2) == shown_in(
            block_upto(
                c.index.recs@,
                c.select,
                c.reference,
                restart_from(c.index.recs@, c.reference + 1),
            ).1,
        ),
{
    let recs = c.index.recs@;
    let end = restart_from(recs, c.reference + 1);
    lemma_restart_bounds(recs, c.reference + 1);
    lemma_same_samples(c, m, end);
    let run = pass_upto(c, m, end);
    lemma_read_holds_nothing(*c.index, end);
    lemma_read_holds_nothing(*c.index, recs.len() as int);
    lemma_samples_concat(run.actions, read_actions(*c.index, end));
    lemma_samples_concat(run.actions, read_actions(*c.index, recs.len() as int));
    assert(samples_in(run.actions) + Seq::<(usize, usize)>::empty() =~= samples_in(run.actions));
}

/// The samples that one pass has among parts of the output.
pub open spec fn samples_of(actions: Seq<Action>, q: Pass) -> Seq<(usize, usize)>
    decreases actions.len(),
{
    if actions.len() == 0 {
        Seq::empty()
    } else {
        let before = samples_of(actions.drop_last(), q);
        match actions.last() {
            Action::Sample { pass, rec, prev, .. } => if pass == q {
                before.push((rec, prev))
            } else {
                before
            },
            _ => before,
        }
    }
}

proof fn lemma_samples_of_concat(a: Seq<Action>, b: Seq<Action>, q: Pass)
    ensures
        samples_of(a + b, q) == samples_of(a, q) + samples_of(b, q),
    decreases b.len(),
{
    if b.len() == 0 {
        assert(a + b =~= a);
        assert(samples_of(a, q) + samples_of(b, q) =~= samples_of(a, q));
    } else {
        lemma_samples_of_concat(a, b.drop_last(), q);
        assert((a + b).drop_last() =~= a + b.drop_last());
        assert(samples_of(a + b, q) =~= samples_of(a, q) + samples_of(b, q));
    }
}

/// Parts of the output without samples have none of any pass.
proof fn lemma_no_samples(a: Seq<Action>, q: Pass)
    requires
        forall|i: int| 0 <= i < a.len() ==> !(#[trigger] a[i] is Sample),
    ensures
        samples_of(a, q) == Seq::<(usize, usize)>::empty(),
    decreases a.len(),
{
    if a.len() > 0 {
        assert(a.last() == a[a.len() - 1]);
        assert forall|i: int| 0 <= i < a.drop_last().len() implies !(
        #[trigger] a.drop_last()[i] is Sample) by {
            assert(a.drop_last()[i] == a[i]);
        }
        lemma_no_samples(a.drop_last(), q);
    }
}

/// All samples of a pass are its own.
proof fn lemma_own_samples(c: PassSetup<'_>, m: Memory, n: int, q: Pass)
    requires
        n <= c.index.recs@.len() <= usize::MAX,
    ensures
        samples_of(pass_upto(c, m, n).actions, q) == if q == c.pass {
            samples_in(pass_upto(c, m, n).actions)
        } else {
            Seq::empty()
        },
    decreases n,
{
    if n > c.reference + 1 {
        lemma_own_samples(c, m, n - 1, q);
        let run = pass_upto(c, m, n - 1);
        if run.state.stopped is None {
            let k = (n - 1) as usize;
            let m1 = after_read(*c.index, run.memory, k as int);
            let read = read_actions(*c.index, k as int);
            lemma_samples_of_concat(run.actions, read, q);
            lemma_no_samples(read, q);
            lemma_samples_concat(run.actions, read);
            lemma_read_holds_nothing(*c.index, k as int);
            let had = run.actions + read;
            assert(samples_of(had, q) =~= samples_of(run.actions, q));
            assert(samples_in(had) =~= samples_in(run.actions));
            assert(had.push(Action::Comment { rec: k }).drop_last() =~= had);
            assert(had.push(sample_action(m1, c.pass, k, run.state.prev)).drop_last() =~= had);
        }
    }
}

proof fn lemma_seek_shows_nothing(c: RunSetup<'_>, m: Memory, pos: int)
    requires
        0 <= pos,
    ensures
        seek(c, m, pos).0 == first_sample(c.index.recs@, pos),
        forall|i: int| 0 <= i < seek(c, m, pos).2.len() ==> !(#[trigger] seek(c, m, pos).2[i] is Sample),
    decreases c.index.recs@.len() - pos,
{
    let recs = c.index.recs@;
    if pos < recs.len() {
        let m1 = after_read(*c.index, m, pos);
        match recs[pos].kind {
            RecKind::Restart => lemma_seek_shows_nothing(c, after_restart(m1, recs[pos]), pos + 1),
            _ => lemma_seek_shows_nothing(c, m1, pos + 1),
        }
    }
}

proof fn lemma_skip_shows_nothing(c: RunSetup<'_>, m: Memory, pos: int)
    requires
        0 <= pos,
    ensures
        forall|i: int|
            0 <= i < skip_rest(c, m, pos).2.len() ==> !(#[trigger] skip_rest(c, m, pos).2[i] is Sample),
    decreases c.index.recs@.len() - pos,
{
    let recs = c.index.recs@;
    if pos < recs.len() && recs[pos].kind != RecKind::Restart {
        lemma_skip_shows_nothing(c, after_read(*c.index, m, pos), pos + 1);
    }
}

/// Whether no two passes of a list are the same.
pub open spec fn all_different(passes: Seq<Pass>) -> bool {
    forall|i: int, j: int| 0 <= i < j < passes.len() ==> passes[i] != passes[j]
}

/// Each pass of a stretch has the samples of the stretch, and they are all that it has.
proof fn lemma_passes_show(c: RunSetup<'_>, m: Memory, reference: usize, n: int, q: int)
    requires
        reference < c.index.recs@.len() <= usize::MAX,
        0 <= n <= c.passes@.len(),
        0 <= q < c.passes@.len(),
        all_different(c.passes@),
    ensures
        samples_of(run_passes(c, m, reference, n).2, c.passes@[q]) == if q < n {
            shown_in(
                block_upto(
                    c.index.recs@,
                    c.select,
                    reference,
                    restart_from(c.index.recs@, reference + 1),
                ).1,
            )
        } else {
            Seq::empty()
        },
    decreases n,
{
    if n > 0 {
        let recs = c.index.recs@;
        let wanted = c.passes@[q];
        lemma_passes_show(c, m, reference, n - 1, q);
        let (_, m1, before) = run_passes(c, m, reference, n - 1);
        let pass = c.passes@[n - 1];
        let p = PassSetup {
            index: c.index,
            comments: c.comments,
            select: c.select,
            pass,
            reference,
        };
        let stop = restart_from(recs, reference + 1);
        lemma_restart_bounds(recs, reference + 1);
        law_pass_shows_the_samples_of_its_stretch(p, m1);
        lemma_own_samples(p, m1, stop, wanted);
        let run = pass_upto(p, m1, stop);
        let tail = read_actions(*c.index, stop);
        let last = read_actions(*c.index, recs.len() as int);
        lemma_no_samples(tail, wanted);
        lemma_no_samples(last, wanted);
        lemma_samples_of_concat(run.actions, tail, wanted);
        lemma_samples_of_concat(run.actions, last, wanted);
        lemma_samples_concat(run.actions, tail);
        lemma_samples_concat(run.actions, last);
        lemma_read_holds_nothing(*c.index, stop);
        lemma_read_holds_nothing(*c.index, recs.len() as int);
        let more = pass_result(p, m1).2;
        assert(samples_of(run.actions, wanted) + Seq::<(usize, usize)>::empty() =~= samples_of(
            run.actions,
            wanted,
        ));
        assert(samples_in(run.actions) + Seq::<(usize, usize)>::empty() =~= samples_in(run.actions));
        assert(samples_of(more, wanted) == if wanted == pass {
            samples_in(more)
        } else {
            Seq::empty()
        });
        let begun = before.push(Action::BeginPass { pass });
        assert(begun.drop_last() =~= before);
        lemma_samples_of_concat(begun, more, wanted);
        assert(samples_of(begun + more, wanted) =~= samples_of(before, wanted) + samples_of(
            more,
            wanted,
        ));
        if q < n - 1 {
            assert(c.passes@[q] != c.passes@[n - 1]);
            assert(samples_of(begun + more, wanted) =~= samples_of(before, wanted));
        } else if q == n - 1 {
            assert(samples_of(begun + more, wanted) =~= samples_in(more));
        } else {
            assert(c.passes@[n - 1] != c.passes@[q]);
        }
    }
}

proof fn lemma_shown_concat(a: Seq<Entry>, b: Seq<Entry>)
    ensures
        shown_in(a + b) == shown_in(a) + shown_in(b),
    decreases b.len(),
{
    if b.len() == 0 {
        assert(a + b =~= a);
        assert(shown_in(a) + shown_in(b) =~= shown_in(a));
    } else {
        lemma_shown_concat(a, b.drop_last());
        assert((a + b).drop_last() =~= a + b.drop_last());
        assert(shown_in(a + b) =~= shown_in(a) + shown_in(b));
    }
}

proof fn lemma_script_shows(c: RunSetup<'_>, m: Memory, pos: int, q: int)
    requires
        0 <= q < c.passes@.len(),
        all_different(c.passes@),
        0 <= pos <= c.index.recs@.len(),
        c.index.recs@.len() <= usize::MAX,
    ensures
        samples_of(script_from(c, m, pos), c.passes@[q]) == shown_in(
            entries_from(c.index.recs@, c.select, pos),
        ),
    decreases c.index.recs@.len() - pos,
{
    let recs = c.index.recs@;
    let n = recs.len() as int;
    let wanted = c.passes@[q];
    let nothing = Seq::<(usize, usize)>::empty();
    let (found, m1, lead) = seek(c, m, pos);
    lemma_seek(c, m, pos);
    lemma_seek_shows_nothing(c, m, pos);
    lemma_no_samples(lead, wanted);
    match found {
        None => {
            let last = read_actions(*c.index, n);
            lemma_no_samples(last, wanted);
            lemma_samples_of_concat(lead, last, wanted);
            assert(samples_of(lead + last, wanted) =~= nothing);
        },
        Some(p) => {
            let reference = p as usize;
            let stop = restart_from(recs, reference + 1);
            let (end, m2, body) = run_passes(c, m1, reference, c.passes@.len() as int);
            lemma_passes(c, m1, reference, c.passes@.len() as int);
            lemma_passes_show(c, m1, reference, c.passes@.len() as int, q);
            lemma_restart_bounds(recs, reference + 1);
            let here = block_upto(recs, c.select, reference, stop).1;
            let (closing, m3, rest) = if end.eosaf {
                (None, m2, Seq::empty())
            } else if end.cnt_zero {
                skip_rest(c, m2, end.next as int)
            } else {
                (Some(end.next as int), m2, Seq::empty())
            };
            if !end.eosaf && end.cnt_zero {
                lemma_skip(c, m2, end.next as int);
                lemma_restart_bounds(recs, end.next as int);
                lemma_same_restart(recs, reference + 1, end.next as int);
                lemma_skip_shows_nothing(c, m2, end.next as int);
            }
            lemma_no_samples(rest, wanted);
            lemma_samples_of_concat(lead, body, wanted);
            lemma_samples_of_concat(lead + body, rest, wanted);
            assert(samples_of(lead + body + rest, wanted) =~= shown_in(here));
            match closing {
                None => {
                    assert(stop == n);
                },
                Some(r) => {
                    assert(r == stop && stop < n);
                    let m4 = after_restart(m3, recs[r]);
                    let own = restart_actions(recs[r], r, m4.cpu);
                    lemma_no_samples(own, wanted);
                    lemma_samples_of_concat(lead + body + rest, own, wanted);
                    let made = lead + body + rest + own;
                    assert(samples_of(made, wanted) =~= shown_in(here));
                    lemma_script_shows(c, m4, r + 1, q);
                    lemma_samples_of_concat(made, script_from(c, m4, r + 1), wanted);
                    lemma_shown_concat(here, entries_from(recs, c.select, r + 1));
                },
            }
        },
    }
}

/// All formats show the same samples of a file, each compared with the same earlier one: what a
/// pass shows over all stretches is what the formats in the order of time show.
pub proof fn law_formats_show_the_same_samples(c: RunSetup<'_>, m: Memory, q: int)
    requires
        0 <= q < c.passes@.len(),
        all_different(c.passes@),
        c.index.recs@.len() <= usize::MAX,
    ensures
        samples_of(script_from(c, m, 0), c.passes@[q]) == shown_in(
            entries_from(c.index.recs@, c.select, 0),
        ),
{
    lemma_script_shows(c, m, 0, q);
}

/// Whether no two activities of a list are the same.
pub open spec fn no_repeats(ids: Seq<ActivityId>) -> bool {
    forall|i: int, j: int| 0 <= i < j < ids.len() ==> ids[i] != ids[j]
}

proof fn lemma_present_once(entries: Seq<FileActivityEntry>, n: int)
    ensures
        no_repeats(present(entries, n)),
    decreases n,
{
    if n > 0 {
        lemma_present_once(entries, n - 1);
    }
}

proof fn lemma_chosen_once(cfg: SadfConfig, ids: Seq<ActivityId>)
    requires
        no_repeats(ids),
    ensures
        no_repeats(chosen(cfg, ids)),
        forall|i: int| 0 <= i < chosen(cfg, ids).len() ==> listed(ids, #[trigger] chosen(cfg, ids)[i]),
    decreases ids.len(),
{
    if ids.len() > 0 {
        let before = ids.drop_last();
        lemma_chosen_once(cfg, before);
        assert forall|i: int| 0 <= i < chosen(cfg, ids).len() implies listed(
            ids,
            #[trigger] chosen(cfg, ids)[i],
        ) by {
            if i < chosen(cfg, before).len() {
                assert(listed(before, chosen(cfg, before)[i]));
                let k = choose|k: int| 0 <= k < before.len() && before[k] == chosen(cfg, before)[i];
                assert(ids[k] == chosen(cfg, ids)[i]);
            } else {
                assert(ids[ids.len() - 1] == chosen(cfg, ids)[i]);
            }
        }
        assert forall|i: int, j: int| 0 <= i < j < chosen(cfg, ids).len() implies chosen(cfg, ids)[i]
            != chosen(cfg, ids)[j] by {
            if j == chosen(cfg, before).len() {
                assert(listed(before, chosen(cfg, before)[i]));
                let k = choose|k: int| 0 <= k < before.len() && before[k] == chosen(cfg, before)[i];
                assert(ids[k] == chosen(cfg, ids)[i]);
            }
        }
    }
}

proof fn lemma_active_rises(sections: Seq<SectionModel>, cfg: SectionConfig, n: int)
    ensures
        forall|i: int|
            0 <= i < active(sections, cfg, n).len() ==> 0 <= #[trigger] active(sections, cfg, n)[i]
                < n,
        forall|i: int, j: int|
            0 <= i < j < active(sections, cfg, n).len() ==> active(sections, cfg, n)[i] < active(
                sections,
                cfg,
                n,
            )[j],
    decreases n,
{
    if n > 0 {
        lemma_active_rises(sections, cfg, n - 1);
        let before = active(sections, cfg, n - 1);
        let all = active(sections, cfg, n);
        assert forall|i: int| 0 <= i < all.len() implies 0 <= #[trigger] all[i] < n by {
            if i < before.len() {
                assert(all[i] == before[i]);
            }
        }
        assert forall|i: int, j: int| 0 <= i < j < all.len() implies all[i] < all[j] by {
            assert(all[i] == before[i]);
            if j < before.len() {
                assert(all[j] == before[j]);
            }
        }
    }
}

proof fn lemma_passes_differ(ids: Seq<ActivityId>, cfg: SadfConfig, n: int)
    requires
        no_repeats(ids),
        0 <= n <= ids.len(),
    ensures
        all_different(passes_of(ids, cfg, n)),
        forall|i: int|
            0 <= i < passes_of(ids, cfg, n).len() ==> (#[trigger] passes_of(ids, cfg, n)[i] matches
                Pass::Activity { id, .. } && listed(ids.take(n), id)),
    decreases n,
{
    if n > 0 {
        lemma_passes_differ(ids, cfg, n - 1);
        let id = ids[n - 1];
        let before = passes_of(ids, cfg, n - 1);
        let all = passes_of(ids, cfg, n);
        assert forall|x: ActivityId| listed(ids.take(n - 1), x) implies listed(ids.take(n), x) && x
            != id by {
            let first = ids.take(n - 1);
            let k = choose|k: int| 0 <= k < first.len() && first[k] == x;
            assert(ids.take(n)[k] == x);
            assert(ids[k] != ids[n - 1]);
        }
        assert(ids.take(n)[n - 1] == id);
        match table(id) {
            None => {},
            Some(m) => {
                law_table_is_of_its_activity(id);
                lemma_active_rises(m.sections, cfg.section, m.sections.len() as int);
                let at = m.active(cfg.section);
                assert(all == before + section_passes(id, at));
                assert forall|i: int, j: int| 0 <= i < j < all.len() implies all[i] != all[j] by {
                    if j >= before.len() && i < before.len() {
                        assert(before[i] == all[i]);
                    }
                }
            },
        }
    }
}

/// Each section of an activity that is shown has one pass, so that the passes over a file are
/// all different.
pub proof fn law_passes_of_a_file_are_different(file: SaFile, cfg: SadfConfig, isdb: bool)
    ensures
        all_different(raw_passes(file, cfg)),
        all_different(flat_passes(file, cfg, isdb)),
{
    lemma_present_once(file.activities@, file.activities@.len() as int);
    lemma_chosen_once(cfg, present(file.activities@, file.activities@.len() as int));
    let ids = selection(file, cfg);
    lemma_passes_differ(ids, cfg, ids.len() as int);
}

/// The comments among parts of the output.
pub open spec fn comments_in(actions: Seq<Action>) -> Seq<usize>
    decreases actions.len(),
{
    if actions.len() == 0 {
        Seq::empty()
    } else {
        let before = comments_in(actions.drop_last());
        match actions.last() {
            Action::Comment { rec } => before.push(rec),
            _ => before,
        }
    }
}

/// The comments in the time range among the records from `a` on and before `b`.
pub open spec fn comments_between(recs: Seq<Rec>, a: int, b: int) -> Seq<usize>
    decreases b - a,
{
    if a >= b {
        Seq::empty()
    } else {
        let before = comments_between(recs, a, b - 1);
        if recs[b - 1].kind == RecKind::Comment && recs[b - 1].in_range {
            before.push((b - 1) as usize)
        } else {
            before
        }
    }
}

proof fn lemma_comments_concat(a: Seq<Action>, b: Seq<Action>)
    ensures
        comments_in(a + b) == comments_in(a) + comments_in(b),
    decreases b.len(),
{
    if b.len() == 0 {
        assert(a + b =~= a);
        assert(comments_in(a) + comments_in(b) =~= comments_in(a));
    } else {
        lemma_comments_concat(a, b.drop_last());
        assert((a + b).drop_last() =~= a + b.drop_last());
        assert(comments_in(a + b) =~= comments_in(a) + comments_in(b));
    }
}

proof fn lemma_no_comments(a: Seq<Action>)
    requires
        forall|i: int| 0 <= i < a.len() ==> !(#[trigger] a[i] is Comment),
    ensures
        comments_in(a) == Seq::<usize>::empty(),
    decreases a.len(),
{
    if a.len() > 0 {
        assert(a.last() == a[a.len() - 1]);
        assert forall|i: int| 0 <= i < a.drop_last().len() implies !(
        #[trigger] a.drop_last()[i] is Comment) by {
            assert(a.drop_last()[i] == a[i]);
        }
        lemma_no_comments(a.drop_last());
    }
}

proof fn lemma_pass_comments(c: PassSetup<'_>, m: Memory, n: int)
    requires
        c.reference + 1 <= n <= c.index.recs@.len() <= usize::MAX,
    ensures
        ({
            let run = pass_upto(c, m, n);
            let upto = match run.state.stopped {
                Some(k) => k + 1,
                None => n,
            };
            &&& c.reference < upto <= n
            &&& comments_in(run.actions) == if c.comments {
                comments_between(c.index.recs@, c.reference + 1, upto)
            } else {
                Seq::empty()
            }
        }),
    decreases n,
{
    if n > c.reference + 1 {
        lemma_pass_comments(c, m, n - 1);
        let run = pass_upto(c, m, n - 1);
        if run.state.stopped is None {
            let k = (n - 1) as usize;
            let m1 = after_read(*c.index, run.memory, k as int);
            let read = read_actions(*c.index, k as int);
            lemma_no_comments(read);
            lemma_comments_concat(run.actions, read);
            let had = run.actions + read;
            assert(comments_in(had) =~= comments_in(run.actions));
            assert(had.push(Action::Comment { rec: k }).drop_last() =~= had);
            assert(had.push(sample_action(m1, c.pass, k, run.state.prev)).drop_last() =~= had);
        }
    }
}

/// Each pass of a stretch shows every comment in the time range after the reference, once and in
/// the order of the file, up to the record at which the pass stops or the restart that ends the
/// stretch. Without the option that shows comments there are none.
pub proof fn law_each_pass_shows_the_comments(c: PassSetup<'_>, m: Memory)
    requires
        c.reference < c.index.recs@.len() <= usize::MAX,
    ensures
        comments_in(pass_result(c, m).2) == if c.comments {
            comments_between(c.index.recs@, c.reference + 1, pass_result(c, m).0.next as int)
        } else {
            Seq::empty()
        },
{
    let recs = c.index.recs@;
    let end = restart_from(recs, c.reference + 1);
    lemma_restart_bounds(recs, c.reference + 1);
    lemma_pass_comments(c, m, end);
    let run = pass_upto(c, m, end);
    lemma_no_comments(read_actions(*c.index, end));
    lemma_no_comments(read_actions(*c.index, recs.len() as int));
    lemma_comments_concat(run.actions, read_actions(*c.index, end));
    lemma_comments_concat(run.actions, read_actions(*c.index, recs.len() as int));
    assert(comments_in(run.actions) + Seq::<usize>::empty() =~= comments_in(run.actions));
}

proof fn lemma_comments_split(recs: Seq<Rec>, a: int, b: int)
    requires
        a < b,
    ensures
        comments_between(recs, a, b) == comments_between(recs, a, a + 1) + comments_between(
            recs,
            a + 1,
            b,
        ),
    decreases b - a,
{
    if a + 1 < b {
        lemma_comments_split(recs, a, b - 1);
        assert(comments_between(recs, a, b) =~= comments_between(recs, a, a + 1)
            + comments_between(recs, a + 1, b));
    } else {
        assert(comments_between(recs, a + 1, b) =~= Seq::empty());
        assert(comments_between(recs, a, b) =~= comments_between(recs, a, a + 1)
            + comments_between(recs, a + 1, b));
    }
}

/// What comes before the reference of a stretch is shown once: every comment in the time range
/// between the start of the stretch and its reference, in the order of the file.
pub proof fn law_comments_before_the_reference(c: RunSetup<'_>, m: Memory, pos: int)
    requires
        0 <= pos <= c.index.recs@.len() <= usize::MAX,
    ensures
        comments_in(seek(c, m, pos).2) == if c.comments {
            comments_between(
                c.index.recs@,
                pos,
                match seek(c, m, pos).0 {
                    Some(reference) => reference,
                    None => c.index.recs@.len() as int,
                },
            )
        } else {
            Seq::empty()
        },
    decreases c.index.recs@.len() - pos,
{
    let recs = c.index.recs@;
    lemma_seek(c, m, pos);
    let upto = match seek(c, m, pos).0 {
        Some(reference) => reference,
        None => recs.len() as int,
    };
    if pos < recs.len() {
        let rec = recs[pos];
        let read = read_actions(*c.index, pos);
        let m1 = after_read(*c.index, m, pos);
        lemma_no_comments(read);
        match rec.kind {
            RecKind::Restart => {
                let m2 = after_restart(m1, rec);
                law_comments_before_the_reference(c, m2, pos + 1);
                lemma_seek(c, m2, pos + 1);
                let own = restart_actions(rec, pos, m2.cpu);
                let rest = seek(c, m2, pos + 1).2;
                lemma_no_comments(own);
                lemma_comments_concat(read, own);
                lemma_comments_concat(read + own, rest);
                lemma_comments_split(recs, pos, upto);
                assert(comments_between(recs, pos, pos) =~= Seq::empty());
                assert(comments_between(recs, pos, pos + 1) =~= Seq::empty());
                assert(comments_in(read + own + rest) =~= comments_in(rest));
                assert(comments_between(recs, pos, upto) =~= comments_between(recs, pos + 1, upto));
            },
            RecKind::Comment => {
                law_comments_before_the_reference(c, m1, pos + 1);
                lemma_seek(c, m1, pos + 1);
                let own = comment_actions(c.comments, rec, pos);
                let rest = seek(c, m1, pos + 1).2;
                lemma_comments_concat(read, own);
                lemma_comments_concat(read + own, rest);
                lemma_comments_split(recs, pos, upto);
                assert(comments_between(recs, pos, pos) =~= Seq::empty());
                let single = Seq::empty().push(Action::Comment { rec: pos as usize });
                assert(single.drop_last() =~= Seq::empty());
                assert(comments_in(Seq::<Action>::empty()) =~= Seq::empty());
                if c.comments && rec.in_range {
                    assert(own =~= single);
                    assert(comments_in(own) =~= seq![pos as usize]);
                    assert(comments_between(recs, pos, pos + 1) =~= seq![pos as usize]);
                } else {
                    assert(own =~= Seq::empty());
                    assert(comments_in(own) =~= Seq::empty());
                }
                assert(comments_in(read + own + rest) =~= comments_in(own) + comments_in(rest));
                if c.comments && !rec.in_range {
                    assert(comments_between(recs, pos, pos + 1) =~= Seq::empty());
                }
                if !c.comments {
                    assert(comments_in(read + own + rest) =~= Seq::empty());
                }
            },
            RecKind::Stats => if !rec.in_range {
                law_comments_before_the_reference(c, m1, pos + 1);
                lemma_seek(c, m1, pos + 1);
                let rest = seek(c, m1, pos + 1).2;
                lemma_comments_concat(read, rest);
                lemma_comments_split(recs, pos, upto);
                assert(comments_between(recs, pos, pos) =~= Seq::empty());
                assert(comments_between(recs, pos, pos + 1) =~= Seq::empty());
                assert(comments_in(read + rest) =~= comments_in(rest));
                assert(comments_between(recs, pos, upto) =~= comments_between(recs, pos + 1, upto));
            } else {
                assert(comments_between(recs, pos, pos) =~= Seq::empty());
            },
        }
    } else {
        assert(comments_between(recs, pos, upto) =~= Seq::empty());
    }
}

/// Whether the samples of a stretch are a chain: each comes after the one that it is compared
/// with, which is the one shown before it or the reference.
pub open spec fn is_chain(samples: Seq<(usize, usize)>, reference: usize) -> bool {
    &&& forall|i: int| 0 <= i < samples.len() ==> (#[trigger] samples[i]).1 < samples[i].0
    &&& forall|i: int|
        0 <= i < samples.len() ==> (#[trigger] samples[i]).1 == if i == 0 {
            reference
        } else {
            samples[i - 1].0
        }
}

proof fn lemma_chain(recs: Seq<Rec>, select: crate::sadf::select::RecordSelect, reference: usize, n: int)
    requires
        n <= recs.len(),
        recs.len() <= usize::MAX,
    ensures
        ({
            let (s, entries) = block_upto(recs, select, reference, n);
            let samples = shown_in(entries);
            &&& is_chain(samples, reference)
            &&& forall|i: int|
                0 <= i < samples.len() ==> reference < (#[trigger] samples[i]).0 < n
            &&& s.prev == if samples.len() == 0 {
                reference
            } else {
                samples.last().0
            }
            &&& select.count matches Some(c) ==> {
                &&& s.remaining matches Some(left)
                &&& left == (if samples.len() < c {
                    c - samples.len()
                } else {
                    0
                })
                &&& samples.len() > 0 && samples.len() >= c ==> s.stopped
                &&& samples.len() <= c || samples.len() <= 1
            }
        }),
    decreases n,
{
    if n > reference + 1 {
        lemma_chain(recs, select, reference, n - 1);
        let (s, entries) = block_upto(recs, select, reference, n - 1);
        if !s.stopped {
            let k = (n - 1) as usize;
            let (t, e) = block_after(recs, s, k);
            if let Some(x) = e {
                assert(entries.push(x).drop_last() =~= entries);
            }
        }
    }
}

/// The samples of a stretch are a chain within it, so no sample is compared with one from before
/// a restart; and no more of them are shown than were asked for. One is shown where none was.
pub proof fn law_samples_of_a_stretch(
    recs: Seq<Rec>,
    select: crate::sadf::select::RecordSelect,
    reference: usize,
)
    requires
        reference < recs.len() <= usize::MAX,
    ensures
        ({
            let end = restart_from(recs, reference + 1);
            let samples = shown_in(block_upto(recs, select, reference, end).1);
            &&& is_chain(samples, reference)
            &&& forall|i: int, j: int|
                0 <= i < samples.len() && (#[trigger] samples[i]).1 < j <= samples[i].0
                    ==> (#[trigger] recs[j]).kind != RecKind::Restart
            &&& select.count matches Some(c) ==> samples.len() <= c || samples.len() <= 1
        }),
{
    let end = restart_from(recs, reference + 1);
    lemma_restart_bounds(recs, reference + 1);
    lemma_chain(recs, select, reference, end);
    let samples = shown_in(block_upto(recs, select, reference, end).1);
    assert forall|i: int, j: int|
        0 <= i < samples.len() && (#[trigger] samples[i]).1 < j <= samples[i].0 implies (
    #[trigger] recs[j]).kind != RecKind::Restart by {
        if i > 0 {
            assert(reference < samples[i - 1].0);
        }
    }
}

}
