use vstd::prelude::*;
use crate::currency::Currency;
use crate::instrument::{inst_type_of, underlying_ids_of, Id, InstType, Instrument};
use crate::table::{table_get, vec_contains, vec_equal};

verus! {

/// A filter that selects instruments for one calculation group. A filter
/// that is not set lets every instrument through.
#[derive(Debug)]
pub struct InstrumentCategory {
    /// Instrument families admitted.
    pub type_names: Option<Vec<InstType>>,
    /// Currencies admitted.
    pub currency: Option<Vec<Currency>>,
    /// The exact list of underlying assets admitted (not a subset); an
    /// instrument with no underlying asset passes this filter.
    pub underlying_ids: Option<Vec<Id>>,
}

/// Whether `cat` admits `inst`.
pub open spec fn category_admits(cat: InstrumentCategory, inst: Instrument) -> bool {
    &&& cat.type_names matches Some(v) ==> v@.contains(inst_type_of(inst.terms))
    &&& cat.currency matches Some(v) ==> v@.contains(inst.info.currency)
    &&& cat.underlying_ids matches Some(v) ==> (underlying_ids_of(inst.terms).len() == 0
        || v@ == underlying_ids_of(inst.terms))
}

impl InstrumentCategory {
    pub fn new(
        type_names: Option<Vec<InstType>>,
        currency: Option<Vec<Currency>>,
        underlying_ids: Option<Vec<Id>>,
    ) -> (r: InstrumentCategory)
        ensures
            r == (InstrumentCategory { type_names, currency, underlying_ids }),
    {
        InstrumentCategory { type_names, currency, underlying_ids }
    }

    pub fn contains(&self, instrument: &Instrument) -> (r: bool)
        ensures
            r == category_admits(*self, *instrument),
    {
        if let Some(type_names) = &self.type_names {
            if !vec_contains(type_names, &instrument.get_type()) {
                return false;
            }
        }
        if let Some(currency) = &self.currency {
            if !vec_contains(currency, &instrument.info.currency) {
                return false;
            }
        }
        if let Some(underlying_ids) = &self.underlying_ids {
            let ids = instrument.get_underlying_ids();
            if ids.len() != 0 && !vec_equal(underlying_ids, &ids) {
                return false;
            }
        }
        true
    }
}

/// Category `c` is the first of `cats` that admits `inst`.
pub open spec fn owns(cats: Seq<InstrumentCategory>, inst: Instrument, c: int) -> bool {
    &&& 0 <= c < cats.len()
    &&& category_admits(cats[c], inst)
    &&& forall|d: int| 0 <= d < c ==> !category_admits(#[trigger] cats[d], inst)
}

/// Some category among the first `n` of `cats` admits `inst`.
pub open spec fn admitted_before(cats: Seq<InstrumentCategory>, inst: Instrument, n: int) -> bool {
    exists|d: int| 0 <= d < n && category_admits(#[trigger] cats[d], inst)
}

pub open spec fn covered(cats: Seq<InstrumentCategory>, inst: Instrument) -> bool {
    admitted_before(cats, inst, cats.len() as int)
}

/// The positions `0..n`, in order.
pub open spec fn positions(n: int) -> Seq<usize> {
    Seq::new(n as nat, |i: int| i as usize)
}

/// Position `i` holds an instrument that category `c` owns.
pub open spec fn claim_pred(insts: Seq<Instrument>, cats: Seq<InstrumentCategory>, c: int) -> spec_fn(usize) -> bool {
    |i: usize| owns(cats, insts[i as int], c)
}

/// The positions of the instruments that category `c` claims, in order.
pub open spec fn claimed_by(insts: Seq<Instrument>, cats: Seq<InstrumentCategory>, c: int) -> Seq<usize> {
    positions(insts.len() as int).filter(claim_pred(insts, cats, c))
}

/// The positions of the instruments that no category admits, in order.
pub open spec fn uncovered(insts: Seq<Instrument>, cats: Seq<InstrumentCategory>) -> Seq<usize> {
    positions(insts.len() as int).filter(|i: usize| !covered(cats, insts[i as int]))
}

/// `groups` is the distribution of `insts` over `cats`: one group, never
/// empty, for each category that claims some instrument, in the categories' order, each
/// holding the positions of the instruments it claims.
pub open spec fn is_distribution(
    insts: Seq<Instrument>,
    cats: Seq<InstrumentCategory>,
    groups: Seq<Seq<usize>>,
) -> bool {
    exists|owner: Seq<int>| is_distribution_by(insts, cats, groups, owner)
}

/// As `is_distribution`, with `owner[g]` the category of group `g`.
pub open spec fn is_distribution_by(
    insts: Seq<Instrument>,
    cats: Seq<InstrumentCategory>,
    groups: Seq<Seq<usize>>,
    owner: Seq<int>,
) -> bool {
    &&& owner.len() == groups.len()
    &&& forall|g: int| 0 <= g < groups.len() ==> 0 <= #[trigger] owner[g] < cats.len()
    &&& forall|g: int, h: int| 0 <= g < h < groups.len() ==> owner[g] < owner[h]
    &&& forall|g: int| 0 <= g < groups.len() ==> #[trigger] groups[g] == claimed_by(insts, cats, owner[g])
    &&& forall|g: int| 0 <= g < groups.len() ==> (#[trigger] groups[g]).len() > 0
    &&& forall|c: int| 0 <= c < cats.len() && #[trigger] claimed_by(insts, cats, c).len() > 0
        ==> owner.contains(c)
}

/// Assigns each instrument to the first category that admits it, or names
/// every instrument that none admits.
pub fn distribute_instruments(
    instruments: &Vec<Instrument>,
    categories: &Vec<InstrumentCategory>,
) -> (r: Result<Vec<Vec<usize>>, Vec<usize>>)
    ensures
        r is Ok <==> forall|i: int| 0 <= i < instruments@.len() ==> covered(categories@, #[trigger] instruments@[i]),
        r matches Ok(groups) ==> is_distribution(instruments@, categories@, groups@.map_values(|g: Vec<usize>| g@)),
        r matches Err(missing) ==> missing@ == uncovered(instruments@, categories@),
{
    let n = instruments.len();
    let ghost insts = instruments@;
    let ghost cats = categories@;
    let mut distributed: Vec<bool> = Vec::new();
    let mut k: usize = 0;
    while k < n
        invariant
            k <= n,
            n == insts.len(),
            distributed@.len() == k,
            forall|i: int| 0 <= i < k ==> !distributed@[i],
        decreases n - k,
    {
        distributed.push(false);
        k = k + 1;
    }
    let mut groups: Vec<Vec<usize>> = Vec::new();
    let ghost mut owner: Seq<int> = Seq::empty();
    let mut c: usize = 0;
    while c < categories.len()
        invariant
            insts == instruments@,
            cats == categories@,
            n == insts.len(),
            c <= cats.len(),
            distributed@.len() == n,
            forall|i: int| 0 <= i < n ==> distributed@[i] == admitted_before(cats, #[trigger] insts[i], c as int),
            owner.len() == groups@.len(),
            forall|g: int| 0 <= g < groups@.len() ==> 0 <= #[trigger] owner[g] < c,
            forall|g: int, h: int| 0 <= g < h < groups@.len() ==> owner[g] < owner[h],
            forall|g: int| 0 <= g < groups@.len() ==> #[trigger] groups@[g]@ == claimed_by(insts, cats, owner[g]),
            forall|g: int| 0 <= g < groups@.len() ==> (#[trigger] groups@[g])@.len() > 0,
            forall|d: int| 0 <= d < c && #[trigger] claimed_by(insts, cats, d).len() > 0 ==> owner.contains(d),
        decreases cats.len() - c,
    {
        let ghost pred = claim_pred(insts, cats, c as int);
        let ghost before = distributed@;
        let mut group: Vec<usize> = Vec::new();
        let mut j: usize = 0;
        while j < n
            invariant
                insts == instruments@,
                cats == categories@,
                n == insts.len(),
                c < cats.len(),
                j <= n,
                before.len() == n,
                distributed@.len() == n,
                pred == claim_pred(insts, cats, c as int),
                forall|i: int| 0 <= i < n ==> before[i] == admitted_before(cats, #[trigger] insts[i], c as int),
                forall|i: int| 0 <= i < n ==> distributed@[i] == (if i < j {
                    admitted_before(cats, insts[i], c as int + 1)
                } else {
                    before[i]
                }),
                group@ == positions(j as int).filter(pred),
            decreases n - j,
        {
            let ghost old_group = group@;
            proof {
                assert(positions(j as int + 1) == positions(j as int).push(j));
                positions(j as int).lemma_filter_push(j, pred);
            }
            if !distributed[j] && categories[c].contains(&instruments[j]) {
                group.push(j);
                distributed.set(j, true);
                proof {
                    assert(pred(j));
                    assert(admitted_before(cats, insts[j as int], c as int + 1));
                }
            } else {
                proof {
                    if before[j as int] {
                        let d = choose|d: int| 0 <= d < c && category_admits(#[trigger] cats[d], insts[j as int]);
                        assert(!owns(cats, insts[j as int], c as int));
                        assert(admitted_before(cats, insts[j as int], c as int + 1));
                    } else {
                        assert(!owns(cats, insts[j as int], c as int));
                        assert(!admitted_before(cats, insts[j as int], c as int + 1));
                    }
                }
            }
            j = j + 1;
        }
        proof {
            assert(positions(n as int).filter(pred) == claimed_by(insts, cats, c as int));
        }
        let ghost old_owner = owner;
        if group.len() > 0 {
            groups.push(group);
            proof {
                owner = owner.push(c as int);
            }
        }
        proof {
            assert forall|d: int| 0 <= d < c + 1 && #[trigger] claimed_by(insts, cats, d).len() > 0 implies owner.contains(d) by {
                if d == c {
                    assert(owner[owner.len() - 1] == c as int);
                } else {
                    assert(old_owner.contains(d));
                    let g = choose|g: int| 0 <= g < old_owner.len() && old_owner[g] == d;
                    assert(owner[g] == d);
                }
            }
        }
        c = c + 1;
    }
    let mut missing: Vec<usize> = Vec::new();
    let ghost notcov = |i: usize| !covered(cats, insts[i as int]);
    let mut j: usize = 0;
    while j < n
        invariant
            insts == instruments@,
            cats == categories@,
            n == insts.len(),
            j <= n,
            distributed@.len() == n,
            forall|i: int| 0 <= i < n ==> distributed@[i] == covered(cats, #[trigger] insts[i]),
            notcov == (|i: usize| !covered(cats, insts[i as int])),
            missing@ == positions(j as int).filter(notcov),
            missing@.len() == 0 <==> forall|i: int| 0 <= i < j ==> covered(cats, #[trigger] insts[i]),
        decreases n - j,
    {
        proof {
            assert(positions(j as int + 1) == positions(j as int).push(j));
            positions(j as int).lemma_filter_push(j, notcov);
        }
        if !distributed[j] {
            missing.push(j);
        }
        j = j + 1;
    }
    proof {
        assert(positions(n as int).filter(notcov) == uncovered(insts, cats));
    }
    if missing.len() > 0 {
        return Err(missing);
    }
    proof {
        assert(is_distribution_by(insts, cats, groups@.map_values(|g: Vec<usize>| g@), owner));
    }
    Ok(groups)
}

/// Partitions instruments into groups that are priced independently, first
/// category first.
#[derive(Debug)]
pub struct EngineGenerator {
    instruments: Vec<Instrument>,
    instrument_categories: Vec<InstrumentCategory>,
    instrument_group_vec: Vec<Vec<usize>>,
}

impl EngineGenerator {
    pub closed spec fn instruments(&self) -> Seq<Instrument> {
        self.instruments@
    }

    pub closed spec fn categories(&self) -> Seq<InstrumentCategory> {
        self.instrument_categories@
    }

    /// The groups, as positions in `instruments()`.
    pub closed spec fn groups(&self) -> Seq<Seq<usize>> {
        self.instrument_group_vec@.map_values(|g: Vec<usize>| g@)
    }

    /// Every group names instruments that are there.
    pub open spec fn wf(&self) -> bool {
        forall|g: int, k: int| 0 <= g < self.groups().len() && 0 <= k < self.groups()[g].len()
            ==> #[trigger] self.groups()[g][k] < self.instruments().len()
    }

    pub fn builder() -> (r: EngineGenerator)
        ensures
            r.wf(),
            r.instruments().len() == 0,
            r.categories().len() == 0,
            r.groups().len() == 0,
    {
        EngineGenerator { instruments: Vec::new(), instrument_categories: Vec::new(), instrument_group_vec: Vec::new() }
    }

    /// Sets the instruments; groups made before are dropped.
    pub fn with_instruments(self, instruments: Vec<Instrument>) -> (r: EngineGenerator)
        ensures
            r.wf(),
            r.instruments() == instruments@,
            r.categories() == self.categories(),
            r.groups().len() == 0,
    {
        EngineGenerator { instruments, instrument_categories: self.instrument_categories, instrument_group_vec: Vec::new() }
    }

    /// Sets the categories, in priority order; groups made before are dropped.
    pub fn with_instrument_categories(self, instrument_categories: Vec<InstrumentCategory>) -> (r: EngineGenerator)
        ensures
            r.wf(),
            r.instruments() == self.instruments(),
            r.categories() == instrument_categories@,
            r.groups().len() == 0,
    {
        EngineGenerator { instruments: self.instruments, instrument_categories, instrument_group_vec: Vec::new() }
    }

    /// Assigns every instrument to the first category that admits it. When
    /// some instrument is admitted by none, nothing changes and the positions
    /// of all such instruments are returned.
    pub fn distribute_instruments(&mut self) -> (r: Result<(), Vec<usize>>)
        requires
            old(self).wf(),
        ensures
            final(self).wf(),
            final(self).instruments() == old(self).instruments(),
            final(self).categories() == old(self).categories(),
            r is Ok <==> forall|i: int| 0 <= i < old(self).instruments().len()
                ==> covered(old(self).categories(), #[trigger] old(self).instruments()[i]),
            r is Ok ==> is_distribution(old(self).instruments(), old(self).categories(), final(self).groups()),
            r matches Err(missing) ==> missing@ == uncovered(old(self).instruments(), old(self).categories())
                && final(self).groups() == old(self).groups(),
    {
        match distribute_instruments(&self.instruments, &self.instrument_categories) {
            Ok(groups) => {
                self.instrument_group_vec = groups;
                proof {
                    lemma_distribution_in_range(self.instruments(), self.categories(), self.groups());
                }
                Ok(())
            },
            Err(missing) => Err(missing),
        }
    }

    pub fn get_instruments(&self) -> (r: &Vec<Instrument>)
        ensures
            r@ == self.instruments(),
    {
        &self.instruments
    }

    pub fn get_instrument_groups(&self) -> (r: &Vec<Vec<usize>>)
        ensures
            r@.map_values(|g: Vec<usize>| g@) == self.groups(),
    {
        &self.instrument_group_vec
    }

    /// The instruments of group `g`, in order.
    pub fn group_instruments(&self, g: usize) -> (r: Vec<Instrument>)
        requires
            self.wf(),
            g < self.groups().len(),
        ensures
            r@ == self.groups()[g as int].map_values(|i: usize| self.instruments()[i as int]),
    {
        let group = &self.instrument_group_vec[g];
        assert(group@ == self.groups()[g as int]);
        assert forall|j: int| 0 <= j < group@.len() implies #[trigger] group@[j] < self.instruments@.len() by {
            assert(self.groups()[g as int][j] < self.instruments().len());
        }
        let mut res: Vec<Instrument> = Vec::new();
        let mut k: usize = 0;
        while k < group.len()
            invariant
                k <= group@.len(),
                group@ == self.groups()[g as int],
                forall|j: int| 0 <= j < group@.len() ==> #[trigger] group@[j] < self.instruments@.len(),
                res@ == group@.take(k as int).map_values(|i: usize| self.instruments@[i as int]),
            decreases group@.len() - k,
        {
            res.push(self.instruments[group[k]]);
            proof {
                assert(group@.take(k as int + 1) == group@.take(k as int).push(group@[k as int]));
            }
            k = k + 1;
        }
        proof {
            assert(group@.take(group@.len() as int) == group@);
        }
        res
    }
}

/// Adds one group's per-instrument results to the merged results.
pub fn merge_group_results<V>(results: &mut Vec<(Id, V)>, group: Vec<(Id, V)>)
    ensures
        final(results)@ == old(results)@ + group@,
{
    let mut group = group;
    results.append(&mut group);
}

/// No key of `a` is a key of `b`.
pub open spec fn disjoint_keys<V>(a: Seq<(Id, V)>, b: Seq<(Id, V)>) -> bool {
    forall|i: int, j: int| 0 <= i < a.len() && 0 <= j < b.len() ==> #[trigger] a[i].0 != #[trigger] b[j].0
}

/// Looking a key up in two lists laid end to end looks in the first, then the second.
proof fn lemma_table_get_append<V>(a: Seq<(Id, V)>, b: Seq<(Id, V)>, k: Id)
    ensures
        table_get(a + b, k) == (match table_get(a, k) {
            Some(v) => Some(v),
            None => table_get(b, k),
        }),
    decreases a.len(),
{
    if a.len() > 0 {
        assert((a + b).drop_first() == a.drop_first() + b);
        assert((a + b)[0] == a[0]);
        lemma_table_get_append(a.drop_first(), b, k);
    } else {
        assert(a + b == b);
    }
}

/// A key that `table_get` finds is the key of some entry.
proof fn lemma_table_get_found<V>(a: Seq<(Id, V)>, k: Id)
    requires
        table_get(a, k) is Some,
    ensures
        exists|i: int| 0 <= i < a.len() && a[i].0 == k,
    decreases a.len(),
{
    if a[0].0 != k {
        lemma_table_get_found(a.drop_first(), k);
        let i = choose|i: int| 0 <= i < a.drop_first().len() && a.drop_first()[i].0 == k;
        assert(a[i + 1].0 == k);
    }
}

/// Groups hold different instruments, so the order in which their results
/// are merged does not change what the merged results give for any
/// instrument: merging `a` then `b` equals merging `b` then `a`.
pub proof fn lemma_merge_order_independent<V>(acc: Seq<(Id, V)>, a: Seq<(Id, V)>, b: Seq<(Id, V)>, k: Id)
    requires
        disjoint_keys(a, b),
    ensures
        table_get(acc + a + b, k) == table_get(acc + b + a, k),
{
    assert(acc + a + b == acc + (a + b));
    assert(acc + b + a == acc + (b + a));
    lemma_table_get_append(acc, a + b, k);
    lemma_table_get_append(acc, b + a, k);
    lemma_table_get_append(a, b, k);
    lemma_table_get_append(b, a, k);
    if table_get(a, k) is Some && table_get(b, k) is Some {
        lemma_table_get_found(a, k);
        lemma_table_get_found(b, k);
        let i = choose|i: int| 0 <= i < a.len() && a[i].0 == k;
        let j = choose|j: int| 0 <= j < b.len() && b[j].0 == k;
        assert(a[i].0 != b[j].0);
    }
}

/// The results of `groups` merged one group after the other, in order.
pub open spec fn merged_results<V>(groups: Seq<Seq<(Id, V)>>) -> Seq<(Id, V)>
    decreases groups.len(),
{
    if groups.len() == 0 {
        Seq::empty()
    } else {
        merged_results(groups.drop_last()) + groups.last()
    }
}

/// No two groups share an instrument.
pub open spec fn pairwise_disjoint<V>(groups: Seq<Seq<(Id, V)>>) -> bool {
    forall|g: int, h: int| 0 <= g < groups.len() && 0 <= h < groups.len() && g != h
        ==> disjoint_keys(#[trigger] groups[g], #[trigger] groups[h])
}

/// When no two groups share an instrument, the merged results give for each
/// instrument what the one group holding it gives, and nothing for an
/// instrument no group holds. This does not mention the order of the groups,
/// so merging them in any order (as parallel workers finish) gives the same
/// results as merging them one after the other.
pub proof fn lemma_merged_results<V>(groups: Seq<Seq<(Id, V)>>, k: Id)
    requires
        pairwise_disjoint(groups),
    ensures
        forall|g: int| 0 <= g < groups.len() && (#[trigger] table_get(groups[g], k)) is Some
            ==> table_get(merged_results(groups), k) == table_get(groups[g], k),
        (forall|g: int| 0 <= g < groups.len() ==> (#[trigger] table_get(groups[g], k)) is None)
            ==> table_get(merged_results(groups), k) is None,
    decreases groups.len(),
{
    if groups.len() > 0 {
        let init = groups.drop_last();
        let n = groups.len() - 1;
        assert forall|g: int, h: int| 0 <= g < init.len() && 0 <= h < init.len() && g != h
            implies disjoint_keys(#[trigger] init[g], #[trigger] init[h]) by {
            assert(init[g] == groups[g] && init[h] == groups[h]);
        }
        lemma_merged_results(init, k);
        lemma_table_get_append(merged_results(init), groups[n], k);
        if table_get(groups[n], k) is Some {
            lemma_table_get_found(groups[n], k);
            let j = choose|j: int| 0 <= j < groups[n].len() && groups[n][j].0 == k;
            assert forall|g: int| 0 <= g < init.len() implies (#[trigger] table_get(init[g], k)) is None by {
                assert(init[g] == groups[g]);
                if table_get(groups[g], k) is Some {
                    lemma_table_get_found(groups[g], k);
                    let i = choose|i: int| 0 <= i < groups[g].len() && groups[g][i].0 == k;
                    assert(disjoint_keys(groups[g], groups[n]));
                    assert(groups[g][i].0 != groups[n][j].0);
                }
            }
        }
        assert forall|g: int| 0 <= g < groups.len() && (#[trigger] table_get(groups[g], k)) is Some
            implies table_get(merged_results(groups), k) == table_get(groups[g], k) by {
            if g < n {
                assert(init[g] == groups[g]);
            }
        }
        if forall|g: int| 0 <= g < groups.len() ==> (#[trigger] table_get(groups[g], k)) is None {
            assert forall|g: int| 0 <= g < init.len() implies (#[trigger] table_get(init[g], k)) is None by {
                assert(init[g] == groups[g]);
            }
        }
    }
}

/// A distribution names only positions of instruments that are there.
proof fn lemma_distribution_in_range(insts: Seq<Instrument>, cats: Seq<InstrumentCategory>, groups: Seq<Seq<usize>>)
    requires
        is_distribution(insts, cats, groups),
    ensures
        forall|g: int, k: int| 0 <= g < groups.len() && 0 <= k < groups[g].len() ==> #[trigger] groups[g][k] < insts.len(),
{
    let owner = choose|owner: Seq<int>| is_distribution_by(insts, cats, groups, owner);
    assert forall|g: int, k: int| 0 <= g < groups.len() && 0 <= k < groups[g].len() implies #[trigger] groups[g][k] < insts.len() by {
        let ps = positions(insts.len() as int);
        let pred = claim_pred(insts, cats, owner[g]);
        assert(groups[g] == ps.filter(pred));
        assert(ps.filter(pred).contains(groups[g][k]));
        ps.lemma_filter_contains_rev(pred, groups[g][k]);
        let i = choose|i: int| 0 <= i < ps.len() && ps[i] == groups[g][k];
    }
}

/// An admitted instrument has a first category that admits it.
proof fn lemma_first_owner(cats: Seq<InstrumentCategory>, inst: Instrument, n: int) -> (c: int)
    requires
        0 <= n <= cats.len(),
        admitted_before(cats, inst, n),
    ensures
        owns(cats, inst, c),
        c < n,
    decreases n,
{
    if admitted_before(cats, inst, n - 1) {
        lemma_first_owner(cats, inst, n - 1)
    } else {
        let d = choose|d: int| 0 <= d < n && category_admits(#[trigger] cats[d], inst);
        assert(d == n - 1);
        d
    }
}

/// Only one category owns an instrument.
proof fn lemma_owner_unique(cats: Seq<InstrumentCategory>, inst: Instrument, c: int, d: int)
    requires
        owns(cats, inst, c),
        owns(cats, inst, d),
    ensures
        c == d,
{
    if c < d {
        assert(!category_admits(cats[c], inst));
    } else if d < c {
        assert(!category_admits(cats[d], inst));
    }
}

/// Position `i` is claimed by category `c` exactly when `c` owns instrument `i`.
proof fn lemma_claimed_iff(insts: Seq<Instrument>, cats: Seq<InstrumentCategory>, c: int, i: int)
    requires
        0 <= i < insts.len() <= usize::MAX,
    ensures
        claimed_by(insts, cats, c).contains(i as usize) <==> owns(cats, insts[i], c),
{
    let pred = claim_pred(insts, cats, c);
    let ps = positions(insts.len() as int);
    assert(ps[i] == i as usize);
    if owns(cats, insts[i], c) {
        ps.lemma_filter_contains(pred, i);
    }
    if claimed_by(insts, cats, c).contains(i as usize) {
        let f = ps.filter(pred);
        let k = choose|k: int| 0 <= k < f.len() && f[k] == i as usize;
        ps.lemma_filter_pred(pred, k);
    }
}

/// When every instrument is admitted by some category, the distribution puts
/// each instrument in exactly one group: first match wins, and every
/// instrument is calculated once.
pub proof fn lemma_distribution_is_partition(
    insts: Seq<Instrument>,
    cats: Seq<InstrumentCategory>,
    groups: Seq<Seq<usize>>,
    i: int,
)
    requires
        is_distribution(insts, cats, groups),
        0 <= i < insts.len() <= usize::MAX,
        covered(cats, insts[i]),
    ensures
        exists|g: int| 0 <= g < groups.len() && groups[g].contains(i as usize),
        forall|g: int, h: int|
            0 <= g < groups.len() && 0 <= h < groups.len() && groups[g].contains(i as usize)
                && groups[h].contains(i as usize) ==> g == h,
{
    let owner = choose|owner: Seq<int>| is_distribution_by(insts, cats, groups, owner);
    let c0 = lemma_first_owner(cats, insts[i], cats.len() as int);
    lemma_claimed_iff(insts, cats, c0, i);
    assert(claimed_by(insts, cats, c0).len() > 0);
    assert(owner.contains(c0));
    let g0 = choose|g: int| 0 <= g < owner.len() && owner[g] == c0;
    assert(groups[g0] == claimed_by(insts, cats, owner[g0]));
    assert(groups[g0].contains(i as usize));
    assert forall|g: int, h: int|
        0 <= g < groups.len() && 0 <= h < groups.len() && groups[g].contains(i as usize)
            && groups[h].contains(i as usize) implies g == h by {
        assert(groups[g] == claimed_by(insts, cats, owner[g]));
        assert(groups[h] == claimed_by(insts, cats, owner[h]));
        lemma_claimed_iff(insts, cats, owner[g], i);
        lemma_claimed_iff(insts, cats, owner[h], i);
        lemma_owner_unique(cats, insts[i], owner[g], owner[h]);
        if g < h {
            assert(owner[g] < owner[h]);
        } else if h < g {
            assert(owner[h] < owner[g]);
        }
    }
}

} // verus!
