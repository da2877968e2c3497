//! Task-name suggestions while typing a task's name.
use vstd::prelude::*;
use crate::models::{KnownTask, Preset};
use crate::text::{lowercased, to_lowercase, chars_of, occurs_at, starts_with};

verus! {

/// The characters of each text.
pub open spec fn views(v: Seq<String>) -> Seq<Seq<char>> {
    v.map_values(|s: String| s@)
}

/// The names of the tasks of the presets, preset by preset.
pub open spec fn preset_task_names(ps: Seq<Preset>) -> Seq<Seq<char>>
    decreases ps.len(),
{
    if ps.len() == 0 {
        Seq::empty()
    } else {
        preset_task_names(ps.drop_last()) + ps.last().tasks@.map_values(|t: crate::models::TaskTemplate| t.name@)
    }
}

/// Every name that can be suggested: the known tasks first, then the tasks
/// of each preset.
pub open spec fn candidate_names(known: Seq<KnownTask>, presets: Seq<Preset>) -> Seq<Seq<char>> {
    known.map_values(|k: KnownTask| k.name@) + preset_task_names(presets)
}

/// The lower-case form of each text.
pub open spec fn lowered(r: Seq<Seq<char>>) -> Seq<Seq<char>> {
    r.map_values(|x: Seq<char>| lowercased(x))
}

/// The names, in order, whose lower-case form starts with `q`, keeping
/// only the first of names that are equal up to case.
pub open spec fn picked(names: Seq<Seq<char>>, q: Seq<char>) -> Seq<Seq<char>>
    decreases names.len(),
{
    if names.len() == 0 {
        Seq::empty()
    } else {
        let r = picked(names.drop_last(), q);
        let n = names.last();
        if occurs_at(lowercased(n), q, 0) && !lowered(r).contains(lowercased(n)) {
            r.push(n)
        } else {
            r
        }
    }
}

/// The suggestions for `input`: none for an empty input, else the first
/// eight picked names.
pub open spec fn suggestions_spec(known: Seq<KnownTask>, presets: Seq<Preset>, input: Seq<char>) -> Seq<Seq<char>> {
    if input.len() == 0 {
        Seq::empty()
    } else {
        let p = picked(candidate_names(known, presets), lowercased(input));
        if p.len() <= 8 { p } else { p.take(8) }
    }
}

fn same_chars(a: &[char], b: &[char]) -> (r: bool)
    ensures
        r == (a@ == b@),
{
    if a.len() != b.len() {
        return false;
    }
    let mut i: usize = 0;
    while i < a.len()
        invariant
            a@.len() == b@.len(),
            i <= a@.len(),
            forall|j: int| 0 <= j < i ==> a@[j] == b@[j],
        decreases a@.len() - i,
    {
        if a[i] != b[i] {
            return false;
        }
        i = i + 1;
    }
    assert(a@ =~= b@);
    true
}

/// Every candidate name, known tasks first.
fn collect_names(known_tasks: &[KnownTask], presets: &[Preset]) -> (r: Vec<String>)
    ensures
        views(r@) == candidate_names(known_tasks@, presets@),
{
    let mut names: Vec<String> = Vec::new();
    let mut i: usize = 0;
    while i < known_tasks.len()
        invariant
            i <= known_tasks@.len(),
            views(names@) == known_tasks@.take(i as int).map_values(|k: KnownTask| k.name@),
        decreases known_tasks@.len() - i,
    {
        let ghost before = names@;
        names.push(known_tasks[i].name.clone());
        assert(views(names@) =~= views(before).push(known_tasks@[i as int].name@));
        assert(known_tasks@.take(i + 1).map_values(|k: KnownTask| k.name@)
            =~= known_tasks@.take(i as int).map_values(|k: KnownTask| k.name@).push(known_tasks@[i as int].name@));
        i = i + 1;
    }
    assert(known_tasks@.take(known_tasks@.len() as int) =~= known_tasks@);
    let ghost known_names = views(names@);
    let mut p: usize = 0;
    assert(presets@.take(0) =~= Seq::<Preset>::empty());
    while p < presets.len()
        invariant
            p <= presets@.len(),
            known_names == known_tasks@.map_values(|k: KnownTask| k.name@),
            views(names@) == known_names + preset_task_names(presets@.take(p as int)),
        decreases presets@.len() - p,
    {
        let tasks = &presets[p].tasks;
        let ghost base = views(names@);
        let mut t: usize = 0;
        while t < tasks.len()
            invariant
                t <= tasks@.len(),
                p < presets@.len(),
                *tasks == presets@[p as int].tasks,
                views(names@) == base + tasks@.take(t as int).map_values(|x: crate::models::TaskTemplate| x.name@),
            decreases tasks@.len() - t,
        {
            let ghost before = names@;
            names.push(tasks[t].name.clone());
            assert(views(names@) =~= views(before).push(tasks@[t as int].name@));
            assert(tasks@.take(t + 1).map_values(|x: crate::models::TaskTemplate| x.name@)
                =~= tasks@.take(t as int).map_values(|x: crate::models::TaskTemplate| x.name@).push(tasks@[t as int].name@));
            t = t + 1;
        }
        assert(tasks@.take(tasks@.len() as int) =~= tasks@);
        assert(presets@.take(p + 1).drop_last() =~= presets@.take(p as int));
        assert(views(names@) =~= known_names + preset_task_names(presets@.take(p + 1)));
        p = p + 1;
    }
    assert(presets@.take(presets@.len() as int) =~= presets@);
    names
}

/// Suggests task names for what has been typed: the known tasks' names and
/// then the presets' task names that start with the input, ignoring case,
/// each name only once up to case, at most eight.
pub fn task_name_suggestions(known_tasks: &[KnownTask], presets: &[Preset], input: &str) -> (r: Vec<String>)
    ensures
        views(r@) == suggestions_spec(known_tasks@, presets@, input@),
{
    if input.is_empty() {
        let e: Vec<String> = Vec::new();
        assert(views(e@) =~= Seq::<Seq<char>>::empty());
        return e;
    }
    let lowered_input = to_lowercase(input);
    let q = chars_of(lowered_input.as_str());
    let names = collect_names(known_tasks, presets);
    let ghost all = views(names@);
    let mut out: Vec<String> = Vec::new();
    let mut seen: Vec<Vec<char>> = Vec::new();
    let mut i: usize = 0;
    while i < names.len()
        invariant
            i <= names@.len(),
            all == views(names@),
            q@ == lowercased(input@),
            views(out@) == picked(all.take(i as int), q@),
            seen@.len() == out@.len(),
            forall|k: int| 0 <= k < seen@.len() ==> #[trigger] seen@[k]@ == lowercased(out@[k]@),
        decreases names@.len() - i,
    {
        let name = &names[i];
        let lower_string = to_lowercase(name.as_str());
        let lower = chars_of(lower_string.as_str());
        let ghost prev = picked(all.take(i as int), q@);
        assert(all.take(i + 1).drop_last() =~= all.take(i as int));
        assert(all.take(i + 1).last() == name@);
        let mut keep = starts_with(lower.as_slice(), q.as_slice());
        if keep {
            let mut k: usize = 0;
            while k < seen.len()
                invariant
                    k <= seen@.len(),
                    seen@.len() == out@.len(),
                    forall|j: int| 0 <= j < seen@.len() ==> #[trigger] seen@[j]@ == lowercased(out@[j]@),
                    views(out@) == prev,
                    lower@ == lowercased(name@),
                    keep ==> forall|j: int| 0 <= j < k ==> seen@[j]@ != lower@,
                    !keep ==> lowered(prev).contains(lowercased(name@)),
                decreases seen@.len() - k,
            {
                if keep && same_chars(seen[k].as_slice(), lower.as_slice()) {
                    keep = false;
                    assert(lowered(prev)[k as int] == lowercased(name@));
                }
                k = k + 1;
            }
            if keep {
                assert forall|j: int| 0 <= j < prev.len() implies
                    #[trigger] lowered(prev)[j] != lowercased(name@) by {
                    assert(views(out@)[j] == out@[j]@);
                    assert(prev[j] == out@[j]@);
                    assert(seen@[j]@ == lowercased(out@[j]@));
                    assert(seen@[j]@ != lower@);
                }
            }
        }
        if keep {
            out.push(name.clone());
            seen.push(lower);
            assert(views(out@) =~= prev.push(name@));
        }
        i = i + 1;
    }
    assert(all.take(all.len() as int) =~= all);
    if out.len() > 8 {
        out.truncate(8);
        assert(views(out@) =~= picked(all, q@).take(8));
    }
    out
}

proof fn lemma_picked(names: Seq<Seq<char>>, q: Seq<char>)
    ensures
        forall|i: int| 0 <= i < picked(names, q).len() ==> occurs_at(lowercased(#[trigger] picked(names, q)[i]), q, 0),
        forall|i: int| 0 <= i < picked(names, q).len() ==> names.contains(#[trigger] picked(names, q)[i]),
        forall|i: int, j: int| 0 <= i < j < picked(names, q).len() ==>
            lowercased(#[trigger] picked(names, q)[i]) != lowercased(#[trigger] picked(names, q)[j]),
    decreases names.len(),
{
    if names.len() > 0 {
        let init = names.drop_last();
        lemma_picked(init, q);
        let r = picked(init, q);
        let n = names.last();
        assert forall|i: int| 0 <= i < r.len() implies names.contains(#[trigger] r[i]) by {
            let k = choose|k: int| 0 <= k < init.len() && init[k] == r[i];
            assert(names[k] == r[i]);
        }
        if occurs_at(lowercased(n), q, 0) && !lowered(r).contains(lowercased(n)) {
            let p = r.push(n);
            assert(names[names.len() - 1] == n);
            assert forall|i: int, j: int| 0 <= i < j < p.len() implies
                lowercased(#[trigger] p[i]) != lowercased(#[trigger] p[j]) by {
                if j == r.len() {
                    assert(lowered(r)[i] == lowercased(r[i]));
                }
            }
        }
    }
}

/// The suggestions are at most eight names of known tasks or of preset
/// tasks, each starting with the typed text when case is ignored, and no
/// two of them equal when case is ignored.
pub proof fn lemma_suggestions_match_input(known: Seq<KnownTask>, presets: Seq<Preset>, input: Seq<char>)
    ensures
        suggestions_spec(known, presets, input).len() <= 8,
        forall|i: int| 0 <= i < suggestions_spec(known, presets, input).len() ==>
            occurs_at(lowercased(#[trigger] suggestions_spec(known, presets, input)[i]), lowercased(input), 0),
        forall|i: int| 0 <= i < suggestions_spec(known, presets, input).len() ==>
            candidate_names(known, presets).contains(#[trigger] suggestions_spec(known, presets, input)[i]),
        forall|i: int, j: int| 0 <= i < j < suggestions_spec(known, presets, input).len() ==>
            lowercased(#[trigger] suggestions_spec(known, presets, input)[i])
                != lowercased(#[trigger] suggestions_spec(known, presets, input)[j]),
{
    if input.len() > 0 {
        let names = candidate_names(known, presets);
        let q = lowercased(input);
        lemma_picked(names, q);
        let p = picked(names, q);
        let s = suggestions_spec(known, presets, input);
        assert forall|i: int| 0 <= i < s.len() implies s[i] == p[i] by {}
    }
}

proof fn lemma_picked_len(names: Seq<Seq<char>>, q: Seq<char>)
    ensures
        picked(names, q).len() <= names.len(),
    decreases names.len(),
{
    if names.len() > 0 {
        lemma_picked_len(names.drop_last(), q);
    }
}

proof fn lemma_picked_prefix(names: Seq<Seq<char>>, q: Seq<char>, m: int)
    requires
        0 <= m <= names.len(),
    ensures
        picked(names.take(m), q).len() <= picked(names, q).len(),
        picked(names, q).subrange(0, picked(names.take(m), q).len() as int) == picked(names.take(m), q),
    decreases names.len(),
{
    if m == names.len() {
        assert(names.take(m) =~= names);
        assert(picked(names, q).subrange(0, picked(names, q).len() as int) =~= picked(names, q));
    } else {
        let init = names.drop_last();
        assert(init.take(m) =~= names.take(m));
        lemma_picked_prefix(init, q, m);
        let a = picked(init, q);
        let b = picked(names.take(m), q);
        if occurs_at(lowercased(names.last()), q, 0) && !lowered(a).contains(lowercased(names.last())) {
            assert(a.push(names.last()).subrange(0, b.len() as int) =~= a.subrange(0, b.len() as int));
        }
    }
}

proof fn lemma_picked_takes_new_name(names: Seq<Seq<char>>, q: Seq<char>, k: int)
    requires
        0 <= k < names.len(),
        occurs_at(lowercased(names[k]), q, 0),
        forall|j: int| 0 <= j < k ==> lowercased(#[trigger] names[j]) != lowercased(names[k]),
    ensures
        picked(names.take(k + 1), q) == picked(names.take(k), q).push(names[k]),
{
    let pre = names.take(k);
    lemma_picked(pre, q);
    let r = picked(pre, q);
    assert(names.take(k + 1).drop_last() =~= pre);
    assert(names.take(k + 1).last() == names[k]);
    if lowered(r).contains(lowercased(names[k])) {
        let i = choose|i: int| 0 <= i < lowered(r).len() && lowered(r)[i] == lowercased(names[k]);
        assert(pre.contains(r[i]));
        let j = choose|j: int| 0 <= j < pre.len() && pre[j] == r[i];
        assert(names[j] == r[i]);
        assert(false);
    }
}

/// Nothing that fits is left out: a candidate name whose lower-case form
/// starts with the lower-cased input, and that no earlier candidate equals
/// up to case, is suggested, provided fewer than eight names were picked
/// before it; in particular every such name among the first eight
/// candidates is suggested.
pub proof fn lemma_suggestions_complete(known: Seq<KnownTask>, presets: Seq<Preset>, input: Seq<char>, k: int)
    requires
        input.len() > 0,
        0 <= k < candidate_names(known, presets).len(),
        occurs_at(lowercased(candidate_names(known, presets)[k]), lowercased(input), 0),
        forall|j: int| 0 <= j < k ==> lowercased(#[trigger] candidate_names(known, presets)[j])
            != lowercased(candidate_names(known, presets)[k]),
    ensures
        picked(candidate_names(known, presets).take(k), lowercased(input)).len() < 8 ==>
            suggestions_spec(known, presets, input).contains(candidate_names(known, presets)[k]),
        k < 8 ==> suggestions_spec(known, presets, input).contains(candidate_names(known, presets)[k]),
{
    let names = candidate_names(known, presets);
    let q = lowercased(input);
    lemma_picked_len(names.take(k), q);
    lemma_picked_takes_new_name(names, q, k);
    lemma_picked_prefix(names, q, k + 1);
    let before = picked(names.take(k), q);
    let with = picked(names.take(k + 1), q);
    let all = picked(names, q);
    assert(with.len() == before.len() + 1);
    assert(all.subrange(0, with.len() as int) == with);
    assert(all[before.len() as int] == with[before.len() as int]);
    assert(all[before.len() as int] == names[k]);
    if before.len() < 8 {
        let sug = suggestions_spec(known, presets, input);
        assert(sug[before.len() as int] == names[k]);
    }
}

} // verus!
