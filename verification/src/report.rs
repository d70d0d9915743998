//! Flattening, ordering and aggregation of outcomes: one run's outcomes are
//! ordered by unit name, stripped of the outcomes that do not apply, and
//! reduced to a binary verdict.

use vstd::prelude::*;
use vstd::relations::sorted_by;
use vstd::seq_lib::group_to_multiset_ensures;

use crate::inputs::Inputs;
use crate::outcome::{CheckResult, OutcomeModel};
use crate::outcome::markdown_line;
use crate::text::{lemma_lex_le_refl, lemma_lex_le_total, lemma_lex_le_trans, lex_le, str_lex_le};

verus! {

/// The verdict of one whole run.
#[derive(Clone, Copy, PartialEq, Eq, Structural, Debug)]
pub enum Verdict {
    Success,
    Failure,
}

/// What one check unit produced: the unit's stable name, and its outcomes
/// in the order the unit yielded them.
pub struct UnitOutcomes {
    pub name: String,
    pub outcomes: Vec<CheckResult>,
}

/// Mathematical model of a `UnitOutcomes`.
pub struct UnitModel {
    pub name: Seq<char>,
    pub outcomes: Seq<OutcomeModel>,
}

impl View for UnitOutcomes {
    type V = UnitModel;

    open spec fn view(&self) -> UnitModel {
        UnitModel {
            name: self.name@,
            outcomes: self.outcomes@.map_values(|o: CheckResult| o@),
        }
    }
}

/// The models of a whole run's unit results.
pub open spec fn units_model(units: Seq<UnitOutcomes>) -> Seq<UnitModel> {
    units.map_values(|u: UnitOutcomes| u@)
}

/// The order of two unit results: by unit name.
pub open spec fn unit_le(a: UnitOutcomes, b: UnitOutcomes) -> bool {
    lex_le(a.name@, b.name@)
}

/// The unit order as a relation, for use with `sorted_by`.
pub open spec fn unit_order() -> spec_fn(UnitOutcomes, UnitOutcomes) -> bool {
    |a: UnitOutcomes, b: UnitOutcomes| unit_le(a, b)
}

/// Inserting a fitting element into a sorted sequence keeps it sorted.
proof fn lemma_sorted_insert(s: Seq<UnitOutcomes>, x: UnitOutcomes, j: int)
    requires
        sorted_by(s, unit_order()),
        0 <= j <= s.len(),
        forall|k: int| 0 <= k < j ==> unit_le(#[trigger] s[k], x),
        forall|k: int| j <= k < s.len() ==> unit_le(x, #[trigger] s[k]),
    ensures
        sorted_by(s.insert(j, x), unit_order()),
{
    let t = s.insert(j, x);
    assert forall|p: int, q: int| 0 <= p < q < t.len() implies #[trigger] unit_order()(
        t[p],
        t[q],
    ) by {
        if p < j && q < j {
            assert(t[p] == s[p] && t[q] == s[q]);
        } else if p < j && q == j {
            assert(t[p] == s[p] && t[q] == x);
        } else if p < j && q > j {
            assert(t[p] == s[p] && t[q] == s[q - 1]);
        } else if p == j {
            assert(t[p] == x && t[q] == s[q - 1]);
        } else {
            assert(t[p] == s[p - 1] && t[q] == s[q - 1]);
        }
    }
}

/// Sorts one run's unit results by unit name, so that a report is the same
/// however the units' completions interleaved.
pub fn sort_units(units: Vec<UnitOutcomes>) -> (r: Vec<UnitOutcomes>)
    ensures
        r@.to_multiset() == units@.to_multiset(),
        sorted_by(r@, unit_order()),
        r@.len() == units@.len(),
{
    broadcast use group_to_multiset_ensures;

    let mut v = units;
    let ghost orig = v@;
    let n = v.len();
    if n == 0 {
        return v;
    }
    let mut i: usize = 1;
    while i < n
        invariant
            1 <= i <= n,
            n == v@.len(),
            v@.to_multiset() == orig.to_multiset(),
            sorted_by(v@.take(i as int), unit_order()),
        decreases n - i,
    {
        let ghost before = v@;
        let x = v.remove(i);
        let ghost removed = v@;
        proof {
            assert(x == before[i as int]);
            assert(removed == before.remove(i as int));
            vstd::seq_lib::to_multiset_remove(before, i as int);
        }
        let mut j: usize = 0;
        loop
            invariant
                0 <= j <= i,
                i < n,
                n == before.len(),
                v@ == removed,
                removed.len() == n - 1,
                forall|k: int| 0 <= k < i ==> removed[k] == before[k],
                forall|k: int| 0 <= k < j ==> unit_le(#[trigger] removed[k], x),
            ensures
                0 <= j <= i,
                v@ == removed,
                forall|k: int| 0 <= k < j ==> unit_le(#[trigger] removed[k], x),
                j < i ==> !unit_le(removed[j as int], x),
            decreases i - j,
        {
            if j == i {
                break ;
            }
            if !str_lex_le(v[j].name.as_str(), x.name.as_str()) {
                break ;
            }
            j = j + 1;
        }
        proof {
            // everything at and past the insertion point goes after `x`
            let pre = before.take(i as int);
            assert forall|k: int| j <= k < i implies unit_le(x, #[trigger] removed[k]) by {
                lemma_lex_le_total(removed[j as int].name@, x.name@);
                if k > j {
                    assert(pre[j as int] == removed[j as int]);
                    assert(pre[k] == removed[k]);
                    assert(unit_order()(pre[j as int], pre[k]));
                    lemma_lex_le_trans(x.name@, removed[j as int].name@, removed[k].name@);
                }
            }
            assert(removed.take(i as int) =~= before.take(i as int));
            assert(sorted_by(removed.take(i as int), unit_order()));
        }
        let ghost prefix = v@.take(i as int);
        v.insert(j, x);
        proof {
            broadcast use vstd::multiset::group_multiset_axioms;

            assert(v@ == removed.insert(j as int, x));
            vstd::seq_lib::to_multiset_insert(removed, j as int, x);
            assert(before.to_multiset().count(x) > 0) by {
                assert(before[i as int] == x);
                assert(before.contains(x));
                vstd::seq_lib::to_multiset_contains(before, x);
            }
            assert(v@.to_multiset() =~= before.to_multiset());
            // the new prefix of length i + 1 is the old sorted prefix with
            // `x` inserted at position j
            assert(v@.take(i as int + 1) =~= prefix.insert(j as int, x));
            assert forall|k: int| 0 <= k < j implies unit_le(#[trigger] prefix[k], x) by {
                assert(prefix[k] == removed[k]);
            }
            assert forall|k: int| j <= k < prefix.len() implies unit_le(
                x,
                #[trigger] prefix[k],
            ) by {
                assert(prefix[k] == removed[k]);
            }
            lemma_sorted_insert(prefix, x, j as int);
            assert(sorted_by(v@.take(i as int + 1), unit_order()));
        }
        i = i + 1;
    }
    proof {
        assert(v@.take(n as int) =~= v@);
    }
    v
}

/// The model of one rendered pair: the unit name and the outcome.
pub open spec fn pair_model() -> spec_fn((String, CheckResult)) -> (Seq<char>, OutcomeModel) {
    |p: (String, CheckResult)| (p.0@, p.1@)
}

/// The order of two rendered pairs: by unit name.
pub open spec fn name_order() -> spec_fn(
    (Seq<char>, OutcomeModel),
    (Seq<char>, OutcomeModel),
) -> bool {
    |p: (Seq<char>, OutcomeModel), q: (Seq<char>, OutcomeModel)| lex_le(p.0, q.0)
}

/// One unit's outcomes, each tagged with the unit's name.
pub open spec fn tag_outcomes(name: Seq<char>, outs: Seq<OutcomeModel>) -> Seq<
    (Seq<char>, OutcomeModel),
>
    decreases outs.len(),
{
    if outs.len() == 0 {
        Seq::empty()
    } else {
        tag_outcomes(name, outs.drop_last()).push((name, outs.last()))
    }
}

/// The flattened outcomes of a run: each unit's outcomes in the unit's own
/// order, tagged with the unit's name, concatenated in the units' order.
pub open spec fn flatten_units(units: Seq<UnitModel>) -> Seq<(Seq<char>, OutcomeModel)>
    decreases units.len(),
{
    if units.len() == 0 {
        Seq::empty()
    } else {
        flatten_units(units.drop_last()) + tag_outcomes(
            units.last().name,
            units.last().outcomes,
        )
    }
}

/// An outcome renders exactly when it applies.
pub open spec fn renderable_pred() -> spec_fn((Seq<char>, OutcomeModel)) -> bool {
    |p: (Seq<char>, OutcomeModel)| !(p.1 is Ignore)
}

/// The rendered part of a flattened run: everything but the outcomes that
/// do not apply, order kept.
pub open spec fn renderable_of(flat: Seq<(Seq<char>, OutcomeModel)>) -> Seq<
    (Seq<char>, OutcomeModel),
> {
    flat.filter(renderable_pred())
}

/// Whether a flattened run holds at least one failure.
pub open spec fn flat_has_failure(flat: Seq<(Seq<char>, OutcomeModel)>) -> bool {
    exists|i: int| 0 <= i < flat.len() && (#[trigger] flat[i]).1 is Failure
}

/// The verdict of a flattened run: failure exactly when some outcome is a
/// failure; outcomes that do not apply never count.
pub open spec fn verdict_of(flat: Seq<(Seq<char>, OutcomeModel)>) -> Verdict {
    if flat_has_failure(flat) {
        Verdict::Failure
    } else {
        Verdict::Success
    }
}

/// One unit holds a failure among its outcomes.
pub open spec fn unit_has_failure(u: UnitModel) -> bool {
    exists|j: int| 0 <= j < u.outcomes.len() && (#[trigger] u.outcomes[j]) is Failure
}

/// Some unit of a run holds a failure.
pub open spec fn units_have_failure(us: Seq<UnitModel>) -> bool {
    exists|i: int| 0 <= i < us.len() && unit_has_failure(#[trigger] us[i])
}

/// A run's report: the outcomes that render, each with its unit's name, in
/// unit-name order, and the verdict of the whole run.
pub struct Report {
    pub renderable: Vec<(String, CheckResult)>,
    pub verdict: Verdict,
}

/// Mathematical model of a `Report`.
pub struct ReportModel {
    pub renderable: Seq<(Seq<char>, OutcomeModel)>,
    pub verdict: Verdict,
}

impl View for Report {
    type V = ReportModel;

    open spec fn view(&self) -> ReportModel {
        ReportModel { renderable: self.renderable@.map_values(pair_model()), verdict: self.verdict }
    }
}

/// Pushing one more outcome onto a flattened run extends the failure test
/// by that outcome.
proof fn lemma_flat_failure_push(flat: Seq<(Seq<char>, OutcomeModel)>, p: (Seq<char>, OutcomeModel))
    ensures
        flat_has_failure(flat.push(p)) == (flat_has_failure(flat) || p.1 is Failure),
{
    if flat_has_failure(flat) {
        let k = choose|k: int| 0 <= k < flat.len() && (#[trigger] flat[k]).1 is Failure;
        assert(flat.push(p)[k].1 is Failure);
    }
    if p.1 is Failure {
        assert(flat.push(p)[flat.len() as int].1 is Failure);
    }
    if flat_has_failure(flat.push(p)) && !(p.1 is Failure) {
        let k = choose|k: int|
            0 <= k < flat.push(p).len() && (#[trigger] flat.push(p)[k]).1 is Failure;
        assert(k < flat.len());
        assert(flat[k].1 is Failure);
    }
}

/// Tagging one more outcome extends the tagged sequence at its end.
proof fn lemma_tag_snoc(name: Seq<char>, outs: Seq<OutcomeModel>, j: int)
    requires
        0 <= j < outs.len(),
    ensures
        tag_outcomes(name, outs.take(j + 1)) == tag_outcomes(name, outs.take(j)).push(
            (name, outs[j]),
        ),
{
    assert(outs.take(j + 1).drop_last() =~= outs.take(j));
    assert(outs.take(j + 1).last() == outs[j]);
}

/// Flattening one more unit extends the flattened run by that unit's
/// tagged outcomes.
proof fn lemma_flatten_snoc(us: Seq<UnitModel>, i: int)
    requires
        0 <= i < us.len(),
    ensures
        flatten_units(us.take(i + 1)) == flatten_units(us.take(i)) + tag_outcomes(
            us[i].name,
            us[i].outcomes,
        ),
{
    assert(us.take(i + 1).drop_last() =~= us.take(i));
    assert(us.take(i + 1).last() == us[i]);
}

/// The tagged outcomes of a unit: one pair per outcome, in order, all under
/// the unit's name.
proof fn lemma_tag_props(name: Seq<char>, outs: Seq<OutcomeModel>)
    ensures
        tag_outcomes(name, outs).len() == outs.len(),
        forall|k: int| 0 <= k < outs.len() ==> #[trigger] tag_outcomes(name, outs)[k] == (
        name,
        outs[k],
        ),
    decreases outs.len(),
{
    if outs.len() > 0 {
        lemma_tag_props(name, outs.drop_last());
    }
}

/// A flattened run holds a failure exactly when some unit's outcome is a
/// failure.
proof fn lemma_flat_failure_iff(us: Seq<UnitModel>)
    ensures
        flat_has_failure(flatten_units(us)) == units_have_failure(us),
    decreases us.len(),
{
    if us.len() == 0 {
    } else {
        let pre = us.drop_last();
        let u = us.last();
        lemma_flat_failure_iff(pre);
        lemma_tag_props(u.name, u.outcomes);
        let flat = flatten_units(us);
        let fpre = flatten_units(pre);
        let tagged = tag_outcomes(u.name, u.outcomes);
        assert(flat == fpre + tagged);
        if flat_has_failure(flat) {
            let k = choose|k: int| 0 <= k < flat.len() && (#[trigger] flat[k]).1 is Failure;
            if k < fpre.len() {
                assert(fpre[k].1 is Failure);
                assert(units_have_failure(pre));
                let i = choose|i: int| 0 <= i < pre.len() && unit_has_failure(#[trigger] pre[i]);
                assert(us[i] == pre[i]);
                assert(units_have_failure(us));
            } else {
                let j = k - fpre.len();
                assert(tagged[j].1 is Failure);
                assert(u.outcomes[j] is Failure);
                assert(unit_has_failure(u));
                assert(us[us.len() - 1] == u);
                assert(units_have_failure(us));
            }
        }
        if units_have_failure(us) {
            let i = choose|i: int| 0 <= i < us.len() && unit_has_failure(#[trigger] us[i]);
            let j = choose|j: int|
                0 <= j < us[i].outcomes.len() && (#[trigger] us[i].outcomes[j]) is Failure;
            if i < us.len() - 1 {
                assert(pre[i] == us[i]);
                assert(unit_has_failure(pre[i]));
                assert(units_have_failure(pre));
                let k = choose|k: int| 0 <= k < fpre.len() && (#[trigger] fpre[k]).1 is Failure;
                assert(flat[k].1 is Failure);
                assert(flat_has_failure(flat));
            } else {
                assert(us[i] == u);
                assert(tagged[j] == (u.name, u.outcomes[j]));
                assert(flat[fpre.len() + j].1 is Failure);
                assert(flat_has_failure(flat));
            }
        }
    }
}

/// Two runs whose unit results are the same multiset agree on whether some
/// unit failed.
proof fn lemma_failure_permutation(a: Seq<UnitOutcomes>, b: Seq<UnitOutcomes>)
    requires
        a.to_multiset() == b.to_multiset(),
    ensures
        units_have_failure(units_model(a)) == units_have_failure(units_model(b)),
{
    broadcast use group_to_multiset_ensures;

    assert(units_model(a).len() == a.len());
    assert(units_model(b).len() == b.len());
    if units_have_failure(units_model(a)) {
        let i = choose|i: int|
            0 <= i < units_model(a).len() && unit_has_failure(#[trigger] units_model(a)[i]);
        let u = a[i];
        assert(a.contains(u));
        vstd::seq_lib::to_multiset_contains(a, u);
        vstd::seq_lib::to_multiset_contains(b, u);
        assert(b.contains(u));
        let k = choose|k: int| 0 <= k < b.len() && b[k] == u;
        assert(units_model(b)[k] == u@);
        assert(unit_has_failure(units_model(b)[k]));
    }
    if units_have_failure(units_model(b)) {
        let i = choose|i: int|
            0 <= i < units_model(b).len() && unit_has_failure(#[trigger] units_model(b)[i]);
        let u = b[i];
        assert(b.contains(u));
        vstd::seq_lib::to_multiset_contains(b, u);
        vstd::seq_lib::to_multiset_contains(a, u);
        assert(a.contains(u));
        let k = choose|k: int| 0 <= k < a.len() && a[k] == u;
        assert(units_model(a)[k] == u@);
        assert(unit_has_failure(units_model(a)[k]));
    }
}

/// Builds the report of a run whose unit results are already in unit-name
/// order: the flattened outcomes keep that order, the outcomes that do not
/// apply are left out, and the verdict is failure exactly when some
/// outcome failed.
fn report_of_ordered(units: &Vec<UnitOutcomes>) -> (r: Report)
    requires
        sorted_by(units@, unit_order()),
    ensures
        r@.renderable == renderable_of(flatten_units(units_model(units@))),
        r@.verdict == verdict_of(flatten_units(units_model(units@))),
        sorted_by(r@.renderable, name_order()),
{
    let ghost gunits = units_model(units@);
    let mut rend: Vec<(String, CheckResult)> = Vec::new();
    let mut failed = false;
    let n = units.len();
    proof {
        reveal(Seq::filter);
        assert(gunits.take(0) =~= Seq::<UnitModel>::empty());
        assert(flatten_units(gunits.take(0)) == Seq::<(Seq<char>, OutcomeModel)>::empty());
        assert(rend@.map_values(pair_model()) =~= Seq::<(Seq<char>, OutcomeModel)>::empty());
        assert(renderable_of(Seq::<(Seq<char>, OutcomeModel)>::empty()) == Seq::<
            (Seq<char>, OutcomeModel),
        >::empty());
    }
    let mut i: usize = 0;
    while i < n
        invariant
            i <= n,
            n == units@.len(),
            gunits == units_model(units@),
            gunits.len() == n,
            sorted_by(units@, unit_order()),
            rend@.map_values(pair_model()) == renderable_of(flatten_units(gunits.take(i as int))),
            failed == flat_has_failure(flatten_units(gunits.take(i as int))),
            forall|k: int, m: int|
                0 <= k < rend@.len() && i <= m < n ==> #[trigger] lex_le(
                    rend@[k].0@,
                    units@[m]@.name,
                ),
            forall|k1: int, k2: int|
                0 <= k1 < k2 < rend@.len() ==> #[trigger] lex_le(rend@[k1].0@, rend@[k2].0@),
        decreases n - i,
    {
        let m = units[i].outcomes.len();
        let ghost gname = gunits[i as int].name;
        let ghost gouts = gunits[i as int].outcomes;
        proof {
            assert(gouts.take(0) =~= Seq::<OutcomeModel>::empty());
            assert(tag_outcomes(gname, gouts.take(0)) == Seq::<(Seq<char>, OutcomeModel)>::empty());
            assert(flatten_units(gunits.take(i as int)) + tag_outcomes(gname, gouts.take(0))
                =~= flatten_units(gunits.take(i as int)));
        }
        let mut j: usize = 0;
        while j < m
            invariant
                i < n,
                j <= m,
                n == units@.len(),
                gunits == units_model(units@),
                gunits.len() == n,
                gname == gunits[i as int].name,
                gouts == gunits[i as int].outcomes,
                m == gouts.len(),
                m == units@[i as int].outcomes@.len(),
                sorted_by(units@, unit_order()),
                rend@.map_values(pair_model()) == renderable_of(
                    flatten_units(gunits.take(i as int)) + tag_outcomes(
                        gname,
                        gouts.take(j as int),
                    ),
                ),
                failed == flat_has_failure(
                    flatten_units(gunits.take(i as int)) + tag_outcomes(
                        gname,
                        gouts.take(j as int),
                    ),
                ),
                forall|k: int, m2: int|
                    0 <= k < rend@.len() && i <= m2 < n ==> #[trigger] lex_le(
                        rend@[k].0@,
                        units@[m2]@.name,
                    ),
                forall|k1: int, k2: int|
                    0 <= k1 < k2 < rend@.len() ==> #[trigger] lex_le(rend@[k1].0@, rend@[k2].0@),
            decreases m - j,
        {
            let ghost gflat = flatten_units(gunits.take(i as int)) + tag_outcomes(
                gname,
                gouts.take(j as int),
            );
            let o = &units[i].outcomes[j];
            let ghost p = (gname, gouts[j as int]);
            proof {
                assert(o@ == gouts[j as int]);
                lemma_tag_snoc(gname, gouts, j as int);
                assert(gflat.push(p) =~= flatten_units(gunits.take(i as int)) + tag_outcomes(
                    gname,
                    gouts.take(j as int + 1),
                ));
                lemma_flat_failure_push(gflat, p);
                assert(gflat.push(p).drop_last() =~= gflat);
            }
            let is_failure = match o {
                CheckResult::Failure(_) => true,
                _ => false,
            };
            let is_ignore = match o {
                CheckResult::Ignore => true,
                _ => false,
            };
            if is_failure {
                failed = true;
            }
            if !is_ignore {
                let ghost rend_old = rend@;
                let name_c = units[i].name.clone();
                let o_c = o.clone();
                rend.push((name_c, o_c));
                proof {
                    reveal(Seq::filter);
                    assert(renderable_pred()(p));
                    assert(renderable_of(gflat.push(p)) == renderable_of(gflat).push(p));
                    assert(pair_model()(rend@[rend@.len() - 1]) == p);
                    assert(rend@.map_values(pair_model()) =~= rend_old.map_values(
                        pair_model(),
                    ).push(p));
                    // every name recorded so far precedes every unit still to come
                    assert forall|k: int, m2: int|
                        0 <= k < rend@.len() && i <= m2 < n implies #[trigger] lex_le(
                        rend@[k].0@,
                        units@[m2]@.name,
                    ) by {
                        if k < rend_old.len() {
                            assert(rend@[k] == rend_old[k]);
                        } else {
                            assert(rend@[k].0@ == gname);
                            if m2 == i {
                                lemma_lex_le_refl(gname);
                            } else {
                                assert(unit_order()(units@[i as int], units@[m2]));
                            }
                        }
                    }
                    assert forall|k1: int, k2: int|
                        0 <= k1 < k2 < rend@.len() implies #[trigger] lex_le(
                        rend@[k1].0@,
                        rend@[k2].0@,
                    ) by {
                        if k2 < rend_old.len() {
                            assert(rend@[k1] == rend_old[k1] && rend@[k2] == rend_old[k2]);
                            assert(lex_le(rend_old[k1].0@, rend_old[k2].0@));
                        } else {
                            assert(k2 == rend_old.len());
                            assert(0 <= k1 < rend_old.len());
                            assert(rend@[k1] == rend_old[k1]);
                            assert(rend@[k2].0@ == gname);
                            assert(lex_le(rend_old[k1].0@, units@[i as int]@.name));
                            assert(units@[i as int]@.name == gname);
                        }
                    }
                }
            } else {
                proof {
                    reveal(Seq::filter);
                    assert(!renderable_pred()(p));
                    assert(renderable_of(gflat.push(p)) == renderable_of(gflat));
                }
            }
            j = j + 1;
        }
        proof {
            assert(gouts.take(m as int) =~= gouts);
            lemma_flatten_snoc(gunits, i as int);
        }
        i = i + 1;
    }
    proof {
        assert(gunits.take(n as int) =~= gunits);
        assert forall|p2: int, q2: int|
            0 <= p2 < q2 < rend@.map_values(pair_model()).len() implies #[trigger] name_order()(
            rend@.map_values(pair_model())[p2],
            rend@.map_values(pair_model())[q2],
        ) by {
            assert(lex_le(rend@[p2].0@, rend@[q2].0@));
        }
    }
    Report { renderable: rend, verdict: if failed { Verdict::Failure } else { Verdict::Success } }
}

/// Builds one run's report from its unit results, in whatever order the
/// units finished: the outcomes appear ordered by unit name, outcomes that
/// do not apply are left out, and the verdict is failure exactly when some
/// unit produced a failure. A run with no units yields a success with
/// nothing to render.
pub fn build_report(units: Vec<UnitOutcomes>) -> (r: Report)
    ensures
        exists|s: Seq<UnitOutcomes>|
            {
                &&& (#[trigger] s.to_multiset()) == units@.to_multiset()
                &&& sorted_by(s, unit_order())
                &&& r@.renderable == renderable_of(flatten_units(units_model(s)))
                &&& r@.verdict == verdict_of(flatten_units(units_model(s)))
            },
        sorted_by(r@.renderable, name_order()),
        forall|k: int|
            0 <= k < r@.renderable.len() ==> !((#[trigger] r@.renderable[k]).1 is Ignore),
        (r@.verdict == Verdict::Failure) <==> units_have_failure(units_model(units@)),
        units@.len() == 0 ==> r@.renderable.len() == 0 && r@.verdict == Verdict::Success,
{
    let ghost input = units@;
    let sorted = sort_units(units);
    let r = report_of_ordered(&sorted);
    proof {
        let s = sorted@;
        assert({
            &&& s.to_multiset() == input.to_multiset()
            &&& sorted_by(s, unit_order())
            &&& r@.renderable == renderable_of(flatten_units(units_model(s)))
            &&& r@.verdict == verdict_of(flatten_units(units_model(s)))
        });
        // rendered outcomes all apply
        let flat = flatten_units(units_model(s));
        assert forall|k: int|
            0 <= k < r@.renderable.len() implies !((#[trigger] r@.renderable[k]).1 is Ignore) by {
            flat.lemma_filter_pred(renderable_pred(), k);
        }
        // the verdict reflects the unit results as given
        lemma_flat_failure_iff(units_model(s));
        lemma_failure_permutation(s, input);
        // a run with no units renders nothing and succeeds
        if input.len() == 0 {
            assert(s.len() == 0);
            assert(units_model(s).len() == 0);
            assert(flat == Seq::<(Seq<char>, OutcomeModel)>::empty());
            reveal(Seq::filter);
            assert(r@.renderable.len() == 0);
            assert(!flat_has_failure(flat));
        }
    }
    r
}

/// The aggregation law, over the multiset of a run's flattened outcomes:
/// the verdict is failure exactly when the multiset holds at least one
/// failure, and a multiset of passes and inapplicable outcomes alone — the
/// empty one included — yields success.
pub proof fn lemma_verdict_multiset(flat: Seq<(Seq<char>, OutcomeModel)>)
    ensures
        (verdict_of(flat) == Verdict::Failure) <==> exists|p: (Seq<char>, OutcomeModel)|
            (#[trigger] flat.to_multiset().count(p)) > 0 && p.1 is Failure,
        (forall|p: (Seq<char>, OutcomeModel)|
            (#[trigger] flat.to_multiset().count(p)) > 0 ==> !(p.1 is Failure)) ==> verdict_of(
            flat,
        ) == Verdict::Success,
{
    if flat_has_failure(flat) {
        let k = choose|k: int| 0 <= k < flat.len() && (#[trigger] flat[k]).1 is Failure;
        assert(flat.contains(flat[k]));
        vstd::seq_lib::to_multiset_contains(flat, flat[k]);
        assert(flat.to_multiset().count(flat[k]) > 0 && flat[k].1 is Failure);
    }
    if exists|p: (Seq<char>, OutcomeModel)|
        (#[trigger] flat.to_multiset().count(p)) > 0 && p.1 is Failure {
        let p = choose|p: (Seq<char>, OutcomeModel)|
            (#[trigger] flat.to_multiset().count(p)) > 0 && p.1 is Failure;
        vstd::seq_lib::to_multiset_contains(flat, p);
        assert(flat.contains(p));
        let k = choose|k: int| 0 <= k < flat.len() && flat[k] == p;
        assert(flat_has_failure(flat));
    }
}

/// The Markdown text of one rendered outcome; an outcome that does not
/// apply renders as nothing.
pub open spec fn line_of(o: OutcomeModel) -> Seq<char> {
    match markdown_line(o) {
        Option::Some(l) => l,
        Option::None => Seq::empty(),
    }
}

/// The Markdown lines of a rendered outcome list, in order.
pub open spec fn render_lines(flat: Seq<(Seq<char>, OutcomeModel)>) -> Seq<char>
    decreases flat.len(),
{
    if flat.len() == 0 {
        Seq::empty()
    } else {
        render_lines(flat.drop_last()) + line_of(flat.last().1)
    }
}

/// The closing Markdown line that writes the verdict out.
pub open spec fn verdict_line(v: Verdict) -> Seq<char> {
    match v {
        Verdict::Failure => "\n**RESULT: FAILURE**\n"@,
        Verdict::Success => "\n**RESULT: SUCCESS**\n"@,
    }
}

/// Renders a report as Markdown: one line per rendered outcome, then the
/// verdict line.
pub fn render_report(report: &Report) -> (s: String)
    ensures
        s@ == render_lines(report@.renderable) + verdict_line(report.verdict),
{
    let mut s = String::new();
    let n = report.renderable.len();
    proof {
        assert(report@.renderable.take(0) =~= Seq::<(Seq<char>, OutcomeModel)>::empty());
        assert(s@ =~= render_lines(report@.renderable.take(0)));
    }
    let mut i: usize = 0;
    while i < n
        invariant
            i <= n,
            n == report.renderable@.len(),
            report@.renderable.len() == n,
            report@.renderable == report.renderable@.map_values(pair_model()),
            s@ == render_lines(report@.renderable.take(i as int)),
        decreases n - i,
    {
        let line = report.renderable[i].1.into_markdown();
        match line {
            Option::Some(l) => {
                s.append(l.as_str());
            },
            Option::None => {},
        }
        proof {
            let gr = report@.renderable;
            assert(gr[i as int] == pair_model()(report.renderable@[i as int]));
            assert(gr.take(i as int + 1).drop_last() =~= gr.take(i as int));
            assert(gr.take(i as int + 1).last() == gr[i as int]);
            assert(render_lines(gr.take(i as int + 1)) == render_lines(gr.take(i as int))
                + line_of(gr[i as int].1));
        }
        i = i + 1;
    }
    proof {
        assert(report@.renderable.take(n as int) =~= report@.renderable);
    }
    match report.verdict {
        Verdict::Failure => {
            s.append("\n**RESULT: FAILURE**\n");
        },
        Verdict::Success => {
            s.append("\n**RESULT: SUCCESS**\n");
        },
    }
    s
}


/// One of the run's check units.
#[derive(Clone, Copy, PartialEq, Eq, Structural, Debug)]
pub enum UnitKind {
    Dependabot,
    YellrWebhook,
    CopilotIgnore,
    RailsProjects,
    BranchProtection,
}

/// The stable name that keys a unit's outcomes in the report.
pub open spec fn spec_unit_name(k: UnitKind) -> Seq<char> {
    match k {
        UnitKind::Dependabot => "dependabot"@,
        UnitKind::YellrWebhook => "yellr_webhook"@,
        UnitKind::CopilotIgnore => "copilot_ignore"@,
        UnitKind::RailsProjects => "rails_projects"@,
        UnitKind::BranchProtection => "branch_protection"@,
    }
}

/// The stable name that keys a unit's outcomes in the report.
pub fn unit_name(k: UnitKind) -> (r: String)
    ensures
        r@ == spec_unit_name(k),
{
    match k {
        UnitKind::Dependabot => "dependabot".to_owned(),
        UnitKind::YellrWebhook => "yellr_webhook".to_owned(),
        UnitKind::CopilotIgnore => "copilot_ignore".to_owned(),
        UnitKind::RailsProjects => "rails_projects".to_owned(),
        UnitKind::BranchProtection => "branch_protection".to_owned(),
    }
}

/// The units a configuration enables, in starting order: the dependency
/// rules and the update-reporting and branch-protection rules only when
/// their flags ask for them, the assistant-exclusion and audit rules
/// always.
pub open spec fn spec_enabled_units(
    check_dependabot: bool,
    check_yellr: bool,
    check_default_branch_protected: bool,
) -> Seq<UnitKind> {
    (if check_dependabot {
        seq![UnitKind::Dependabot]
    } else {
        Seq::empty()
    }) + (if check_yellr {
        seq![UnitKind::YellrWebhook]
    } else {
        Seq::empty()
    }) + seq![UnitKind::CopilotIgnore, UnitKind::RailsProjects] + (
    if check_default_branch_protected {
        seq![UnitKind::BranchProtection]
    } else {
        Seq::empty()
    })
}

/// Lists the units the configuration enables, in starting order.
pub fn enabled_units(inputs: &Inputs) -> (us: Vec<UnitKind>)
    ensures
        us@ == spec_enabled_units(
            inputs.check_dependabot,
            inputs.check_yellr,
            inputs.check_default_branch_protected,
        ),
{
    let mut us: Vec<UnitKind> = Vec::new();
    if inputs.check_dependabot {
        us.push(UnitKind::Dependabot);
    }
    if inputs.check_yellr {
        us.push(UnitKind::YellrWebhook);
    }
    us.push(UnitKind::CopilotIgnore);
    us.push(UnitKind::RailsProjects);
    if inputs.check_default_branch_protected {
        us.push(UnitKind::BranchProtection);
    }
    proof {
        assert(us@ =~= spec_enabled_units(
            inputs.check_dependabot,
            inputs.check_yellr,
            inputs.check_default_branch_protected,
        ));
    }
    us
}

} // verus!
