//! A line-based diff between two texts, used to highlight what changed in the
//! generated configuration.
use crate::text::{chars_eq, chars_of, lines_exec, lines_of, string_of};
use vstd::prelude::*;

verus! {

/// How a line of the diff relates the two texts.
#[derive(PartialEq, Eq, Structural, Clone, Copy, Debug)]
pub enum DiffType {
    Unchanged,
    Added,
    Removed,
}

pub type DiffSeq = Seq<(Seq<char>, DiffType)>;

/// The first `k` in `from..to` with `xs[k] == target`.
pub open spec fn find_in(xs: Seq<Seq<char>>, target: Seq<char>, from: int, to: int) -> Option<int>
    decreases to - from,
{
    if from >= to {
        None
    } else if xs[from] == target {
        Some(from)
    } else {
        find_in(xs, target, from + 1, to)
    }
}

pub open spec fn min(a: int, b: int) -> int {
    if a < b {
        a
    } else {
        b
    }
}

/// `xs[from..to]`, each marked with `t`.
pub open spec fn run(xs: Seq<Seq<char>>, from: int, to: int, t: DiffType) -> DiffSeq {
    Seq::new((to - from) as nat, |k: int| (xs[from + k], t))
}

/// The diff of `old[i..]` against `new[j..]`: equal lines are kept; on a
/// mismatch the next four lines of `new` are searched for the old line (the
/// lines before it were added), then the next four lines of `old` for the new
/// line (the lines before it were removed); failing both, the old line is
/// removed and the new one added.
pub open spec fn diff_from(old: Seq<Seq<char>>, new: Seq<Seq<char>>, i: int, j: int) -> DiffSeq
    decreases old.len() - i + new.len() - j,
{
    if i < 0 || j < 0 || i > old.len() || j > new.len() || (i == old.len() && j == new.len()) {
        Seq::empty()
    } else if i == old.len() {
        seq![(new[j], DiffType::Added)] + diff_from(old, new, i, j + 1)
    } else if j == new.len() {
        seq![(old[i], DiffType::Removed)] + diff_from(old, new, i + 1, j)
    } else if old[i] == new[j] {
        seq![(new[j], DiffType::Unchanged)] + diff_from(old, new, i + 1, j + 1)
    } else {
        match find_in(new, old[i], j + 1, min(j + 5, new.len() as int)) {
            Some(k) => if j < k <= new.len() {
                run(new, j, k, DiffType::Added) + diff_from(old, new, i, k)
            } else {
                Seq::empty()
            },
            None => match find_in(old, new[j], i + 1, min(i + 5, old.len() as int)) {
                Some(k) => if i < k <= old.len() {
                    run(old, i, k, DiffType::Removed) + diff_from(old, new, k, j)
                } else {
                    Seq::empty()
                },
                None => seq![(old[i], DiffType::Removed), (new[j], DiffType::Added)] + diff_from(
                    old,
                    new,
                    i + 1,
                    j + 1,
                ),
            },
        }
    }
}

/// The diff of two texts, line by line.
pub open spec fn diff_spec(old: Seq<char>, new: Seq<char>) -> DiffSeq {
    diff_from(lines_of(old), lines_of(new), 0, 0)
}

/// The lines of the diff that belong to the old text.
pub open spec fn old_side(d: DiffSeq) -> Seq<Seq<char>>
    decreases d.len(),
{
    if d.len() == 0 {
        Seq::empty()
    } else if d[0].1 != DiffType::Added {
        seq![d[0].0] + old_side(d.drop_first())
    } else {
        old_side(d.drop_first())
    }
}

/// The lines of the diff that belong to the new text.
pub open spec fn new_side(d: DiffSeq) -> Seq<Seq<char>>
    decreases d.len(),
{
    if d.len() == 0 {
        Seq::empty()
    } else if d[0].1 != DiffType::Removed {
        seq![d[0].0] + new_side(d.drop_first())
    } else {
        new_side(d.drop_first())
    }
}

pub proof fn lemma_find_in(xs: Seq<Seq<char>>, target: Seq<char>, from: int, to: int)
    ensures
        match find_in(xs, target, from, to) {
            Some(k) => from <= k < to && xs[k] == target,
            None => true,
        },
    decreases to - from,
{
    if from < to && xs[from] != target {
        lemma_find_in(xs, target, from + 1, to);
    }
}

pub proof fn lemma_sides_append(a: DiffSeq, b: DiffSeq)
    ensures
        old_side(a + b) == old_side(a) + old_side(b),
        new_side(a + b) == new_side(a) + new_side(b),
    decreases a.len(),
{
    if a.len() == 0 {
        assert(a + b =~= b);
    } else {
        assert((a + b).drop_first() =~= a.drop_first() + b);
        lemma_sides_append(a.drop_first(), b);
    }
}

pub proof fn lemma_sides_run(xs: Seq<Seq<char>>, from: int, to: int, t: DiffType)
    requires
        0 <= from <= to <= xs.len(),
    ensures
        t == DiffType::Added ==> old_side(run(xs, from, to, t)) == Seq::<Seq<char>>::empty(),
        t == DiffType::Added ==> new_side(run(xs, from, to, t)) == xs.subrange(from, to),
        t == DiffType::Removed ==> old_side(run(xs, from, to, t)) == xs.subrange(from, to),
        t == DiffType::Removed ==> new_side(run(xs, from, to, t)) == Seq::<Seq<char>>::empty(),
    decreases to - from,
{
    if from < to {
        assert(run(xs, from, to, t).drop_first() =~= run(xs, from + 1, to, t));
        lemma_sides_run(xs, from + 1, to, t);
        assert(xs.subrange(from, to) =~= seq![xs[from]] + xs.subrange(from + 1, to));
    } else {
        assert(xs.subrange(from, to) =~= Seq::<Seq<char>>::empty());
    }
}

/// The old side of `diff_from(old, new, i, j)` is `old[i..]` and the new side
/// is `new[j..]`.
pub proof fn lemma_diff_sides(old: Seq<Seq<char>>, new: Seq<Seq<char>>, i: int, j: int)
    requires
        0 <= i <= old.len(),
        0 <= j <= new.len(),
    ensures
        old_side(diff_from(old, new, i, j)) == old.subrange(i, old.len() as int),
        new_side(diff_from(old, new, i, j)) == new.subrange(j, new.len() as int),
    decreases old.len() - i + new.len() - j,
{
    let d = diff_from(old, new, i, j);
    if i == old.len() && j == new.len() {
        assert(old.subrange(i, old.len() as int) =~= Seq::<Seq<char>>::empty());
        assert(new.subrange(j, new.len() as int) =~= Seq::<Seq<char>>::empty());
    } else if i == old.len() {
        let h = seq![(new[j], DiffType::Added)];
        lemma_diff_sides(old, new, i, j + 1);
        lemma_sides_append(h, diff_from(old, new, i, j + 1));
        assert(old_side(h.drop_first()) == Seq::<Seq<char>>::empty());
        assert(new_side(h.drop_first()) == Seq::<Seq<char>>::empty());
        assert(new.subrange(j, new.len() as int) =~= seq![new[j]] + new.subrange(
            j + 1,
            new.len() as int,
        ));
        assert(old.subrange(i, old.len() as int) =~= Seq::<Seq<char>>::empty());
    } else if j == new.len() {
        let h = seq![(old[i], DiffType::Removed)];
        lemma_diff_sides(old, new, i + 1, j);
        lemma_sides_append(h, diff_from(old, new, i + 1, j));
        assert(old_side(h.drop_first()) == Seq::<Seq<char>>::empty());
        assert(new_side(h.drop_first()) == Seq::<Seq<char>>::empty());
        assert(old.subrange(i, old.len() as int) =~= seq![old[i]] + old.subrange(
            i + 1,
            old.len() as int,
        ));
        assert(new.subrange(j, new.len() as int) =~= Seq::<Seq<char>>::empty());
    } else if old[i] == new[j] {
        let h = seq![(new[j], DiffType::Unchanged)];
        lemma_diff_sides(old, new, i + 1, j + 1);
        lemma_sides_append(h, diff_from(old, new, i + 1, j + 1));
        assert(old_side(h.drop_first()) == Seq::<Seq<char>>::empty());
        assert(new_side(h.drop_first()) == Seq::<Seq<char>>::empty());
        assert(old.subrange(i, old.len() as int) =~= seq![old[i]] + old.subrange(
            i + 1,
            old.len() as int,
        ));
        assert(new.subrange(j, new.len() as int) =~= seq![new[j]] + new.subrange(
            j + 1,
            new.len() as int,
        ));
    } else {
        lemma_find_in(new, old[i], j + 1, min(j + 5, new.len() as int));
        lemma_find_in(old, new[j], i + 1, min(i + 5, old.len() as int));
        match find_in(new, old[i], j + 1, min(j + 5, new.len() as int)) {
            Some(k) => {
                let h = run(new, j, k, DiffType::Added);
                lemma_diff_sides(old, new, i, k);
                lemma_sides_run(new, j, k, DiffType::Added);
                lemma_sides_append(h, diff_from(old, new, i, k));
                assert(old_side(h) + old.subrange(i, old.len() as int) =~= old.subrange(
                    i,
                    old.len() as int,
                ));
                assert(new.subrange(j, new.len() as int) =~= new.subrange(j, k) + new.subrange(
                    k,
                    new.len() as int,
                ));
            },
            None => match find_in(old, new[j], i + 1, min(i + 5, old.len() as int)) {
                Some(k) => {
                    let h = run(old, i, k, DiffType::Removed);
                    lemma_diff_sides(old, new, k, j);
                    lemma_sides_run(old, i, k, DiffType::Removed);
                    lemma_sides_append(h, diff_from(old, new, k, j));
                    assert(new_side(h) + new.subrange(j, new.len() as int) =~= new.subrange(
                        j,
                        new.len() as int,
                    ));
                    assert(old.subrange(i, old.len() as int) =~= old.subrange(i, k)
                        + old.subrange(k, old.len() as int));
                },
                None => {
                    let h = seq![(old[i], DiffType::Removed), (new[j], DiffType::Added)];
                    lemma_diff_sides(old, new, i + 1, j + 1);
                    lemma_sides_append(h, diff_from(old, new, i + 1, j + 1));
                    let t = seq![(new[j], DiffType::Added)];
                    assert(h.drop_first() =~= t);
                    assert(t.drop_first() =~= DiffSeq::empty());
                    assert(old_side(t) == old_side(t.drop_first()));
                    assert(new_side(t) =~= seq![new[j]] + new_side(t.drop_first()));
                    assert(old.subrange(i, old.len() as int) =~= seq![old[i]] + old.subrange(
                        i + 1,
                        old.len() as int,
                    ));
                    assert(new.subrange(j, new.len() as int) =~= seq![new[j]] + new.subrange(
                        j + 1,
                        new.len() as int,
                    ));
                },
            },
        }
    }
}

/// The diff loses no line: keeping its unchanged and removed lines gives the
/// old text's lines, keeping its unchanged and added lines gives the new text's.
pub proof fn law_diff_reconstructs(old: Seq<char>, new: Seq<char>)
    ensures
        old_side(diff_spec(old, new)) == lines_of(old),
        new_side(diff_spec(old, new)) == lines_of(new),
{
    let o = lines_of(old);
    let n = lines_of(new);
    lemma_diff_sides(o, n, 0, 0);
    assert(o.subrange(0, o.len() as int) =~= o);
    assert(n.subrange(0, n.len() as int) =~= n);
}

/// Two equal texts differ nowhere.
pub proof fn law_diff_identical(text: Seq<char>)
    ensures
        forall|k: int|
            0 <= k < diff_spec(text, text).len() ==> (#[trigger] diff_spec(text, text)[k]).1
                == DiffType::Unchanged,
{
    let ls = lines_of(text);
    lemma_diff_identical(ls, 0);
}

pub proof fn lemma_diff_identical(ls: Seq<Seq<char>>, i: int)
    requires
        0 <= i <= ls.len(),
    ensures
        forall|k: int|
            0 <= k < diff_from(ls, ls, i, i).len() ==> (#[trigger] diff_from(ls, ls, i, i)[k]).1
                == DiffType::Unchanged,
    decreases ls.len() - i,
{
    if i < ls.len() {
        lemma_diff_identical(ls, i + 1);
        let d = diff_from(ls, ls, i, i);
        assert forall|k: int| 0 <= k < d.len() implies (#[trigger] d[k]).1 == DiffType::Unchanged by {
            if k > 0 {
                assert(d[k] == diff_from(ls, ls, i + 1, i + 1)[k - 1]);
            }
        }
    }
}

pub open spec fn diff_view(v: Seq<(String, DiffType)>) -> DiffSeq {
    v.map_values(|p: (String, DiffType)| (p.0@, p.1))
}

fn push_line(out: &mut Vec<(String, DiffType)>, line: &Vec<char>, t: DiffType)
    ensures
        diff_view(final(out)@) == diff_view(old(out)@).push((line@, t)),
{
    let s = string_of(line.as_slice());
    out.push((s, t));
    assert(diff_view(out@) =~= diff_view(old(out)@).push((line@, t)));
}

/// Compute a simple line-based diff between old and new text.
pub fn compute_diff(old: &str, new: &str) -> (r: Vec<(String, DiffType)>)
    ensures
        diff_view(r@) == diff_spec(old@, new@),
{
    let oc = chars_of(old);
    let nc = chars_of(new);
    let old_lines = lines_exec(oc.as_slice());
    let new_lines = lines_exec(nc.as_slice());
    let ghost ol = lines_of(old@);
    let ghost nl = lines_of(new@);
    let mut result: Vec<(String, DiffType)> = Vec::new();
    let mut old_idx: usize = 0;
    let mut new_idx: usize = 0;
    while old_idx < old_lines.len() || new_idx < new_lines.len()
        invariant
            old_lines@.len() == ol.len(),
            new_lines@.len() == nl.len(),
            forall|k: int| 0 <= k < ol.len() ==> #[trigger] old_lines@[k]@ == ol[k],
            forall|k: int| 0 <= k < nl.len() ==> #[trigger] new_lines@[k]@ == nl[k],
            ol == lines_of(old@),
            nl == lines_of(new@),
            0 <= old_idx <= ol.len(),
            0 <= new_idx <= nl.len(),
            diff_view(result@) + diff_from(ol, nl, old_idx as int, new_idx as int) == diff_from(
                ol,
                nl,
                0,
                0,
            ),
        decreases ol.len() - old_idx + nl.len() - new_idx,
    {
        let ghost i = old_idx as int;
        let ghost j = new_idx as int;
        let ghost before = diff_view(result@);
        if old_idx >= old_lines.len() {
            push_line(&mut result, &new_lines[new_idx], DiffType::Added);
            new_idx = new_idx + 1;
            assert(diff_view(result@) + diff_from(ol, nl, old_idx as int, new_idx as int) =~= before
                + diff_from(ol, nl, i, j));
        } else if new_idx >= new_lines.len() {
            push_line(&mut result, &old_lines[old_idx], DiffType::Removed);
            old_idx = old_idx + 1;
            assert(diff_view(result@) + diff_from(ol, nl, old_idx as int, new_idx as int) =~= before
                + diff_from(ol, nl, i, j));
        } else if chars_eq(old_lines[old_idx].as_slice(), new_lines[new_idx].as_slice()) {
            push_line(&mut result, &new_lines[new_idx], DiffType::Unchanged);
            old_idx = old_idx + 1;
            new_idx = new_idx + 1;
            assert(diff_view(result@) + diff_from(ol, nl, old_idx as int, new_idx as int) =~= before
                + diff_from(ol, nl, i, j));
        } else {
            let new_end = if new_lines.len() - new_idx > 5 {
                new_idx + 5
            } else {
                new_lines.len()
            };
            let mut k: usize = new_idx + 1;
            while k < new_end && !chars_eq(
                old_lines[old_idx].as_slice(),
                new_lines[k].as_slice(),
            )
                invariant
                    new_idx + 1 <= k <= new_end,
                    new_end == min(j + 5, nl.len() as int),
                    i == old_idx,
                    j == new_idx,
                    old_idx < ol.len(),
                    new_idx < nl.len(),
                    old_lines@.len() == ol.len(),
                    new_lines@.len() == nl.len(),
                    forall|q: int| 0 <= q < ol.len() ==> #[trigger] old_lines@[q]@ == ol[q],
                    forall|q: int| 0 <= q < nl.len() ==> #[trigger] new_lines@[q]@ == nl[q],
                    find_in(nl, ol[i], j + 1, new_end as int) == find_in(
                        nl,
                        ol[i],
                        k as int,
                        new_end as int,
                    ),
                decreases new_end - k,
            {
                k = k + 1;
            }
            if k < new_end {
                // The old line comes later in the new text: the lines before it were added.
                let ghost head = run(nl, j, k as int, DiffType::Added);
                while new_idx < k
                    invariant
                        j <= new_idx <= k,
                        k < new_end <= nl.len(),
                        new_lines@.len() == nl.len(),
                        forall|q: int| 0 <= q < nl.len() ==> #[trigger] new_lines@[q]@ == nl[q],
                        diff_view(result@) == before + run(nl, j, new_idx as int, DiffType::Added),
                    decreases k - new_idx,
                {
                    push_line(&mut result, &new_lines[new_idx], DiffType::Added);
                    assert(run(nl, j, new_idx + 1, DiffType::Added) =~= run(
                        nl,
                        j,
                        new_idx as int,
                        DiffType::Added,
                    ).push((nl[new_idx as int], DiffType::Added)));
                    new_idx = new_idx + 1;
                }
                assert(diff_view(result@) + diff_from(ol, nl, old_idx as int, new_idx as int)
                    =~= before + diff_from(ol, nl, i, j));
            } else {
                let old_end = if old_lines.len() - old_idx > 5 {
                    old_idx + 5
                } else {
                    old_lines.len()
                };
                let mut m: usize = old_idx + 1;
                while m < old_end && !chars_eq(
                    old_lines[m].as_slice(),
                    new_lines[new_idx].as_slice(),
                )
                    invariant
                        old_idx + 1 <= m <= old_end,
                        old_end == min(i + 5, ol.len() as int),
                        i == old_idx,
                        j == new_idx,
                        old_idx < ol.len(),
                        new_idx < nl.len(),
                        old_lines@.len() == ol.len(),
                        new_lines@.len() == nl.len(),
                        forall|q: int| 0 <= q < ol.len() ==> #[trigger] old_lines@[q]@ == ol[q],
                        forall|q: int| 0 <= q < nl.len() ==> #[trigger] new_lines@[q]@ == nl[q],
                        find_in(ol, nl[j], i + 1, old_end as int) == find_in(
                            ol,
                            nl[j],
                            m as int,
                            old_end as int,
                        ),
                    decreases old_end - m,
                {
                    m = m + 1;
                }
                if m < old_end {
                    // The new line comes later in the old text: the lines before it were removed.
                    while old_idx < m
                        invariant
                            i <= old_idx <= m,
                            m < old_end <= ol.len(),
                            old_lines@.len() == ol.len(),
                            forall|q: int| 0 <= q < ol.len() ==> #[trigger] old_lines@[q]@ == ol[q],
                            diff_view(result@) == before + run(
                                ol,
                                i,
                                old_idx as int,
                                DiffType::Removed,
                            ),
                        decreases m - old_idx,
                    {
                        push_line(&mut result, &old_lines[old_idx], DiffType::Removed);
                        assert(run(ol, i, old_idx + 1, DiffType::Removed) =~= run(
                            ol,
                            i,
                            old_idx as int,
                            DiffType::Removed,
                        ).push((ol[old_idx as int], DiffType::Removed)));
                        old_idx = old_idx + 1;
                    }
                    assert(diff_view(result@) + diff_from(ol, nl, old_idx as int, new_idx as int)
                        =~= before + diff_from(ol, nl, i, j));
                } else {
                    // No match nearby: the line changed.
                    push_line(&mut result, &old_lines[old_idx], DiffType::Removed);
                    push_line(&mut result, &new_lines[new_idx], DiffType::Added);
                    old_idx = old_idx + 1;
                    new_idx = new_idx + 1;
                    assert(diff_view(result@) + diff_from(ol, nl, old_idx as int, new_idx as int)
                        =~= before + diff_from(ol, nl, i, j));
                }
            }
        }
    }
    assert(diff_view(result@) =~= diff_view(result@) + diff_from(
        ol,
        nl,
        old_idx as int,
        new_idx as int,
    ));
    result
}

} // verus!
