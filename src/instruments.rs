use vstd::prelude::*;
use crate::currency::{Currency, FxCode};
use crate::datetime::DateTime;
use crate::instrument::{
    fxcodes_for_pricing_of, inst_type_of, no_id, underlying_ids_of, underlying_ids_requiring_volatility_of, Id,
    InstType, Instrument, Terms,
};
use crate::match_parameter::{curve_roles, MatchParameter, ResolveError};
use crate::table::{vec_contains, QuantoKey, TableKey};

verus! {

/// `acc` with `x` added at the end unless it is there already.
pub open spec fn push_unique<K>(acc: Seq<K>, x: K) -> Seq<K> {
    if acc.contains(x) { acc } else { acc.push(x) }
}

/// `acc` with each of `xs` added in turn, skipping those already present.
pub open spec fn push_all_unique<K>(acc: Seq<K>, xs: Seq<K>) -> Seq<K>
    decreases xs.len(),
{
    if xs.len() == 0 {
        acc
    } else {
        push_unique(push_all_unique(acc, xs.drop_last()), xs.last())
    }
}

/// Every underlying asset of `insts`, once each, in order of first appearance.
pub open spec fn all_underlying_ids(insts: Seq<Instrument>) -> Seq<Id>
    decreases insts.len(),
{
    if insts.len() == 0 {
        Seq::empty()
    } else {
        push_all_unique(all_underlying_ids(insts.drop_last()), underlying_ids_of(insts.last().terms))
    }
}

/// Every family of `insts`, once each, in order of first appearance.
pub open spec fn all_types(insts: Seq<Instrument>) -> Seq<InstType>
    decreases insts.len(),
{
    if insts.len() == 0 {
        Seq::empty()
    } else {
        push_unique(all_types(insts.drop_last()), inst_type_of(insts.last().terms))
    }
}

/// The currencies an instrument's value depends on: its own, then its
/// underlying's for (FX) futures, or its floating leg's for a swap.
pub open spec fn currencies_of(inst: Instrument) -> Seq<Currency> {
    match inst.terms {
        Terms::Futures { underlying_currency, .. } => seq![inst.info.currency, underlying_currency],
        Terms::FxFutures { underlying_currency } => seq![inst.info.currency, underlying_currency],
        Terms::PlainSwap { floating_leg_currency, .. } => seq![inst.info.currency, floating_leg_currency],
        _ => seq![inst.info.currency],
    }
}

/// Every currency of `insts`, once each, in order of first appearance.
pub open spec fn all_currencies(insts: Seq<Instrument>) -> Seq<Currency>
    decreases insts.len(),
{
    if insts.len() == 0 {
        Seq::empty()
    } else {
        push_all_unique(all_currencies(insts.drop_last()), currencies_of(insts.last()))
    }
}

/// Every FX pair pricing reads, once each, in order of first appearance.
pub open spec fn all_fxcodes(insts: Seq<Instrument>) -> Seq<FxCode>
    decreases insts.len(),
{
    if insts.len() == 0 {
        Seq::empty()
    } else {
        push_all_unique(all_fxcodes(insts.drop_last()), fxcodes_for_pricing_of(insts.last()))
    }
}

/// The quanto correlation an instrument needs: a quanto option's underlying
/// and its underlying-to-payoff pair.
pub open spec fn quanto_pairs_of(inst: Instrument) -> Seq<QuantoKey> {
    match inst.terms {
        Terms::VanillaOption { underlying_id, underlying_currency, .. } => if underlying_currency == inst.info.currency {
            Seq::empty()
        } else {
            seq![QuantoKey { underlying_id, fx_code: FxCode { currency1: underlying_currency, currency2: inst.info.currency } }]
        },
        _ => Seq::empty(),
    }
}

/// Every quanto correlation needed, once each, in order of first appearance.
pub open spec fn all_quanto_pairs(insts: Seq<Instrument>) -> Seq<QuantoKey>
    decreases insts.len(),
{
    if insts.len() == 0 {
        Seq::empty()
    } else {
        push_all_unique(all_quanto_pairs(insts.drop_last()), quanto_pairs_of(insts.last()))
    }
}

/// Every underlying asset whose volatility is needed, once each.
pub open spec fn all_volatility_ids(insts: Seq<Instrument>) -> Seq<Id>
    decreases insts.len(),
{
    if insts.len() == 0 {
        Seq::empty()
    } else {
        push_all_unique(all_volatility_ids(insts.drop_last()), underlying_ids_requiring_volatility_of(insts.last().terms))
    }
}

pub open spec fn with_underlying_pred(und: Id, exclude: Seq<InstType>) -> spec_fn(Instrument) -> bool {
    |i: Instrument| underlying_ids_of(i.terms).contains(und) && !exclude.contains(inst_type_of(i.terms))
}

pub open spec fn with_currency_pred(c: Currency) -> spec_fn(Instrument) -> bool {
    |i: Instrument| i.info.currency == c
}

pub open spec fn with_types_pred(types: Seq<InstType>) -> spec_fn(Instrument) -> bool {
    |i: Instrument| types.contains(inst_type_of(i.terms))
}

/// Matures no later than `m`; an instrument without maturity never does.
pub open spec fn upto_pred(m: DateTime, exclude: Seq<InstType>) -> spec_fn(Instrument) -> bool {
    |i: Instrument| !exclude.contains(inst_type_of(i.terms)) && (match i.info.maturity { Some(x) => x.instant() <= m.instant(), None => false })
}

/// Matures after `m`; an instrument without maturity always does.
pub open spec fn over_pred(m: DateTime, exclude: Seq<InstType>) -> spec_fn(Instrument) -> bool {
    |i: Instrument| !exclude.contains(inst_type_of(i.terms)) && (match i.info.maturity { Some(x) => m.instant() < x.instant(), None => true })
}

/// Every maturity in `insts` is a valid date.
pub open spec fn maturities_wf(insts: Seq<Instrument>) -> bool {
    forall|i: int| 0 <= i < insts.len() ==> ((#[trigger] insts[i]).info.maturity matches Some(m) ==> m.wf())
}

/// The earliest maturity among the first instruments that have one; the
/// first of equal ones.
pub open spec fn shortest_maturity(insts: Seq<Instrument>) -> Option<DateTime>
    decreases insts.len(),
{
    if insts.len() == 0 {
        None
    } else {
        let rest = shortest_maturity(insts.drop_last());
        match insts.last().info.maturity {
            None => rest,
            Some(m) => match rest {
                None => Some(m),
                Some(s) => if m.instant() < s.instant() { Some(m) } else { Some(s) },
            },
        }
    }
}

/// The latest maturity; `None` if some instrument has no maturity (it lives
/// for ever) or there is no instrument.
pub open spec fn longest_maturity(insts: Seq<Instrument>) -> Option<DateTime>
    decreases insts.len(),
{
    if insts.len() == 0 {
        None
    } else if exists|k: int| 0 <= k < insts.len() && (#[trigger] insts[k]).info.maturity is None {
        None
    } else {
        let m = insts.last().info.maturity->Some_0;
        match longest_maturity(insts.drop_last()) {
            None => Some(m),
            Some(s) => if s.instant() < m.instant() { Some(m) } else { Some(s) },
        }
    }
}

/// `inst` once for each role in which it uses `curve` (the collateral role
/// counts once however many underlyings use the curve).
pub open spec fn uses_of(inst: Instrument, t: (Id, Seq<Id>, Id, Id, Id), curve: Id) -> Seq<Instrument> {
    (if t.0 == curve { seq![inst] } else { Seq::empty() })
        + (if t.1.contains(curve) { seq![inst] } else { Seq::empty() })
        + (if t.2 == curve { seq![inst] } else { Seq::empty() })
        + (if t.3 == curve { seq![inst] } else { Seq::empty() })
        + (if t.4 == curve { seq![inst] } else { Seq::empty() })
}

/// The instruments, outside the excluded families, that use `curve` in some
/// role, each once per role; or the first resolution error met.
pub open spec fn curve_users(mp: MatchParameter, insts: Seq<Instrument>, curve: Id, exclude: Seq<InstType>) -> Result<Seq<Instrument>, ResolveError>
    decreases insts.len(),
{
    if insts.len() == 0 {
        Ok(Seq::empty())
    } else {
        match curve_users(mp, insts.drop_last(), curve, exclude) {
            Err(e) => Err(e),
            Ok(s) => if exclude.contains(inst_type_of(insts.last().terms)) {
                Ok(s)
            } else {
                match curve_roles(mp, insts.last()) {
                    Err(e) => Err(e),
                    Ok(t) => Ok(s + uses_of(insts.last(), t, curve)),
                }
            },
        }
    }
}

/// `acc` with curve `id` added, unless it is the "none" identifier or present.
pub open spec fn push_curve(acc: Seq<Id>, id: Id) -> Seq<Id> {
    if id == no_id() { acc } else { push_unique(acc, id) }
}

pub open spec fn push_curves(acc: Seq<Id>, ids: Seq<Id>) -> Seq<Id>
    decreases ids.len(),
{
    if ids.len() == 0 {
        acc
    } else {
        push_curve(push_curves(acc, ids.drop_last()), ids.last())
    }
}

pub open spec fn push_roles(acc: Seq<Id>, t: (Id, Seq<Id>, Id, Id, Id)) -> Seq<Id> {
    push_curve(push_curve(push_curve(push_curves(push_curve(acc, t.0), t.1), t.2), t.3), t.4)
}

/// Every curve the instruments use, once each, in order of first use; or
/// the first resolution error met.
pub open spec fn all_curve_ids(mp: MatchParameter, insts: Seq<Instrument>) -> Result<Seq<Id>, ResolveError>
    decreases insts.len(),
{
    if insts.len() == 0 {
        Ok(Seq::empty())
    } else {
        match all_curve_ids(mp, insts.drop_last()) {
            Err(e) => Err(e),
            Ok(s) => match curve_roles(mp, insts.last()) {
                Err(e) => Err(e),
                Ok(t) => Ok(push_roles(s, t)),
            },
        }
    }
}

proof fn lemma_curve_users_error_persists(mp: MatchParameter, insts: Seq<Instrument>, curve: Id, exclude: Seq<InstType>, k: int)
    requires
        0 <= k <= insts.len(),
        curve_users(mp, insts.take(k), curve, exclude) is Err,
    ensures
        curve_users(mp, insts, curve, exclude) == curve_users(mp, insts.take(k), curve, exclude),
    decreases insts.len() - k,
{
    if k < insts.len() {
        assert(insts.take(k + 1).drop_last() == insts.take(k));
        lemma_curve_users_error_persists(mp, insts, curve, exclude, k + 1);
    } else {
        assert(insts.take(k) == insts);
    }
}

proof fn lemma_curve_ids_error_persists(mp: MatchParameter, insts: Seq<Instrument>, k: int)
    requires
        0 <= k <= insts.len(),
        all_curve_ids(mp, insts.take(k)) is Err,
    ensures
        all_curve_ids(mp, insts) == all_curve_ids(mp, insts.take(k)),
    decreases insts.len() - k,
{
    if k < insts.len() {
        assert(insts.take(k + 1).drop_last() == insts.take(k));
        lemma_curve_ids_error_persists(mp, insts, k + 1);
    } else {
        assert(insts.take(k) == insts);
    }
}

fn uses_exec(inst: Instrument, d: Id, c: &Vec<Id>, r: Id, x: Id, y: Id, curve: Id) -> (out: Vec<Instrument>)
    ensures
        out@ == uses_of(inst, (d, c@, r, x, y), curve),
{
    let mut out: Vec<Instrument> = Vec::new();
    if d == curve {
        out.push(inst);
    }
    let ghost s1 = out@;
    if vec_contains(c, &curve) {
        out.push(inst);
    }
    let ghost s2 = out@;
    if r == curve {
        out.push(inst);
    }
    let ghost s3 = out@;
    if x == curve {
        out.push(inst);
    }
    let ghost s4 = out@;
    if y == curve {
        out.push(inst);
    }
    proof {
        let e: Seq<Instrument> = Seq::empty();
        let one = seq![inst];
        assert(s1 == (if d == curve { one } else { e }));
        assert(s2 == s1 + (if c@.contains(curve) { one } else { e }));
        assert(s3 == s2 + (if r == curve { one } else { e }));
        assert(s4 == s3 + (if x == curve { one } else { e }));
        assert(out@ == s4 + (if y == curve { one } else { e }));
    }
    out
}

fn push_curve_exec(acc: &mut Vec<Id>, id: Id)
    ensures
        final(acc)@ == push_curve(old(acc)@, id),
{
    if !id.is_none() {
        push_unique_exec(acc, id);
    }
}

fn push_unique_exec<K: TableKey>(acc: &mut Vec<K>, x: K)
    ensures
        final(acc)@ == push_unique(old(acc)@, x),
{
    if !vec_contains(acc, &x) {
        acc.push(x);
    }
}

fn push_all_unique_exec<K: TableKey>(acc: &mut Vec<K>, xs: &Vec<K>)
    ensures
        final(acc)@ == push_all_unique(old(acc)@, xs@),
{
    let ghost start = acc@;
    let mut j: usize = 0;
    while j < xs.len()
        invariant
            j <= xs@.len(),
            acc@ == push_all_unique(start, xs@.take(j as int)),
        decreases xs@.len() - j,
    {
        proof {
            assert(xs@.take(j as int + 1).drop_last() == xs@.take(j as int));
        }
        push_unique_exec(acc, xs[j]);
        j = j + 1;
    }
    proof {
        assert(xs@.take(xs@.len() as int) == xs@);
    }
}

/// The instruments of `insts` that `keep` admits, in order.
fn select(insts: &Vec<Instrument>, Ghost(keep): Ghost<spec_fn(Instrument) -> bool>, flags: &Vec<bool>) -> (r: Vec<Instrument>)
    requires
        flags@.len() == insts@.len(),
        forall|i: int| 0 <= i < insts@.len() ==> flags@[i] == keep(#[trigger] insts@[i]),
    ensures
        r@ == insts@.filter(keep),
{
    let mut res: Vec<Instrument> = Vec::new();
    let mut i: usize = 0;
    while i < insts.len()
        invariant
            i <= insts@.len(),
            flags@.len() == insts@.len(),
            forall|k: int| 0 <= k < insts@.len() ==> flags@[k] == keep(#[trigger] insts@[k]),
            res@ == insts@.take(i as int).filter(keep),
        decreases insts@.len() - i,
    {
        proof {
            assert(insts@.take(i as int + 1) == insts@.take(i as int).push(insts@[i as int]));
            insts@.take(i as int).lemma_filter_push(insts@[i as int], keep);
        }
        if flags[i] {
            res.push(insts[i]);
        }
        i = i + 1;
    }
    proof {
        assert(insts@.take(insts@.len() as int) == insts@);
    }
    res
}

/// A collection of instruments with the queries that the engine needs.
#[derive(Debug)]
pub struct Instruments {
    instruments: Vec<Instrument>,
}

impl Instruments {
    pub closed spec fn view(&self) -> Seq<Instrument> {
        self.instruments@
    }

    pub fn new(instruments: Vec<Instrument>) -> (r: Instruments)
        ensures
            r.view() == instruments@,
    {
        Instruments { instruments }
    }

    pub fn len(&self) -> (r: usize)
        ensures
            r == self.view().len(),
    {
        self.instruments.len()
    }

    pub fn is_empty(&self) -> (r: bool)
        ensures
            r == (self.view().len() == 0),
    {
        self.instruments.len() == 0
    }

    pub fn get(&self, i: usize) -> (r: Instrument)
        requires
            i < self.view().len(),
        ensures
            r == self.view()[i as int],
    {
        self.instruments[i]
    }

    pub fn get_instruments_clone(&self) -> (r: Vec<Instrument>)
        ensures
            r@ == self.view(),
    {
        let mut res: Vec<Instrument> = Vec::new();
        let mut i: usize = 0;
        while i < self.instruments.len()
            invariant
                i <= self.instruments@.len(),
                res@ == self.instruments@.take(i as int),
            decreases self.instruments@.len() - i,
        {
            res.push(self.instruments[i]);
            proof {
                assert(self.instruments@.take(i as int + 1) == self.instruments@.take(i as int).push(self.instruments@[i as int]));
            }
            i = i + 1;
        }
        proof {
            assert(self.instruments@.take(self.instruments@.len() as int) == self.instruments@);
        }
        res
    }

    /// Every underlying asset, once each, in order of first appearance.
    pub fn get_all_underlying_ids(&self) -> (r: Vec<Id>)
        ensures
            r@ == all_underlying_ids(self.view()),
    {
        let mut res: Vec<Id> = Vec::new();
        let mut i: usize = 0;
        while i < self.instruments.len()
            invariant
                i <= self.instruments@.len(),
                res@ == all_underlying_ids(self.instruments@.take(i as int)),
            decreases self.instruments@.len() - i,
        {
            proof {
                assert(self.instruments@.take(i as int + 1).drop_last() == self.instruments@.take(i as int));
            }
            let ids = self.instruments[i].get_underlying_ids();
            push_all_unique_exec(&mut res, &ids);
            i = i + 1;
        }
        proof {
            assert(self.instruments@.take(self.instruments@.len() as int) == self.instruments@);
        }
        res
    }

    /// Every FX pair that pricing the instruments reads, once each.
    pub fn get_all_fxcodes_for_pricing(&self) -> (r: Vec<FxCode>)
        ensures
            r@ == all_fxcodes(self.view()),
    {
        let mut res: Vec<FxCode> = Vec::new();
        let mut i: usize = 0;
        while i < self.instruments.len()
            invariant
                i <= self.instruments@.len(),
                res@ == all_fxcodes(self.instruments@.take(i as int)),
            decreases self.instruments@.len() - i,
        {
            proof {
                assert(self.instruments@.take(i as int + 1).drop_last() == self.instruments@.take(i as int));
            }
            let codes = self.instruments[i].get_all_fxcodes_for_pricing();
            push_all_unique_exec(&mut res, &codes);
            i = i + 1;
        }
        proof {
            assert(self.instruments@.take(self.instruments@.len() as int) == self.instruments@);
        }
        res
    }

    /// Every quanto correlation the instruments need, once each.
    pub fn get_all_quanto_fxcode_und_pairs(&self) -> (r: Vec<QuantoKey>)
        ensures
            r@ == all_quanto_pairs(self.view()),
    {
        let mut res: Vec<QuantoKey> = Vec::new();
        let mut i: usize = 0;
        while i < self.instruments.len()
            invariant
                i <= self.instruments@.len(),
                res@ == all_quanto_pairs(self.instruments@.take(i as int)),
            decreases self.instruments@.len() - i,
        {
            proof {
                assert(self.instruments@.take(i as int + 1).drop_last() == self.instruments@.take(i as int));
            }
            let inst = self.instruments[i];
            let pairs = match inst.terms {
                Terms::VanillaOption { underlying_id, underlying_currency, .. } => {
                    if underlying_currency == inst.info.currency {
                        Vec::new()
                    } else {
                        vec![QuantoKey { underlying_id, fx_code: FxCode::new(underlying_currency, inst.info.currency) }]
                    }
                },
                _ => Vec::new(),
            };
            assert(pairs@ == quanto_pairs_of(inst));
            push_all_unique_exec(&mut res, &pairs);
            i = i + 1;
        }
        proof {
            assert(self.instruments@.take(self.instruments@.len() as int) == self.instruments@);
        }
        res
    }

    /// Every underlying asset whose volatility pricing needs (of
    /// `instruments`, or else of the whole collection), once each.
    pub fn get_all_unerlying_ids_requiring_volatility(&self, instruments: Option<&Vec<Instrument>>) -> (r: Vec<Id>)
        ensures
            r@ == all_volatility_ids(match instruments { Some(v) => v@, None => self.view() }),
    {
        let list = match instruments {
            Some(v) => v,
            None => &self.instruments,
        };
        let mut res: Vec<Id> = Vec::new();
        let mut i: usize = 0;
        while i < list.len()
            invariant
                i <= list@.len(),
                res@ == all_volatility_ids(list@.take(i as int)),
            decreases list@.len() - i,
        {
            proof {
                assert(list@.take(i as int + 1).drop_last() == list@.take(i as int));
            }
            let ids = list[i].get_underlying_ids_requiring_volatility();
            push_all_unique_exec(&mut res, &ids);
            i = i + 1;
        }
        proof {
            assert(list@.take(list@.len() as int) == list@);
        }
        res
    }

    /// Every instrument family present, once each, in order of first appearance.
    pub fn get_all_type_names(&self) -> (r: Vec<InstType>)
        ensures
            r@ == all_types(self.view()),
    {
        let mut res: Vec<InstType> = Vec::new();
        let mut i: usize = 0;
        while i < self.instruments.len()
            invariant
                i <= self.instruments@.len(),
                res@ == all_types(self.instruments@.take(i as int)),
            decreases self.instruments@.len() - i,
        {
            proof {
                assert(self.instruments@.take(i as int + 1).drop_last() == self.instruments@.take(i as int));
            }
            push_unique_exec(&mut res, self.instruments[i].get_type());
            i = i + 1;
        }
        proof {
            assert(self.instruments@.take(self.instruments@.len() as int) == self.instruments@);
        }
        res
    }

    /// Every currency the instruments' values depend on, once each.
    pub fn get_all_currencies(&self) -> (r: Vec<Currency>)
        ensures
            r@ == all_currencies(self.view()),
    {
        let mut res: Vec<Currency> = Vec::new();
        let mut i: usize = 0;
        while i < self.instruments.len()
            invariant
                i <= self.instruments@.len(),
                res@ == all_currencies(self.instruments@.take(i as int)),
            decreases self.instruments@.len() - i,
        {
            proof {
                assert(self.instruments@.take(i as int + 1).drop_last() == self.instruments@.take(i as int));
            }
            let inst = self.instruments[i];
            let cs = match inst.terms {
                Terms::Futures { underlying_currency, .. } => vec![inst.info.currency, underlying_currency],
                Terms::FxFutures { underlying_currency } => vec![inst.info.currency, underlying_currency],
                Terms::PlainSwap { floating_leg_currency, .. } => vec![inst.info.currency, floating_leg_currency],
                _ => vec![inst.info.currency],
            };
            assert(cs@ == currencies_of(inst));
            push_all_unique_exec(&mut res, &cs);
            i = i + 1;
        }
        proof {
            assert(self.instruments@.take(self.instruments@.len() as int) == self.instruments@);
        }
        res
    }

    /// The instruments written on `und_id`, except those of the excluded families.
    pub fn instruments_with_underlying(&self, und_id: Id, exclude_type: Option<Vec<InstType>>) -> (r: Vec<Instrument>)
        ensures
            r@ == self.view().filter(with_underlying_pred(und_id, match exclude_type {
                Some(v) => v@,
                None => Seq::empty(),
            })),
    {
        let exclude = match exclude_type {
            Some(v) => v,
            None => Vec::new(),
        };
        let mut flags: Vec<bool> = Vec::new();
        let mut i: usize = 0;
        while i < self.instruments.len()
            invariant
                i <= self.instruments@.len(),
                flags@.len() == i,
                forall|k: int| 0 <= k < i ==> flags@[k] == with_underlying_pred(und_id, exclude@)(#[trigger] self.instruments@[k]),
            decreases self.instruments@.len() - i,
        {
            let ids = self.instruments[i].get_underlying_ids();
            let keep = vec_contains(&ids, &und_id) && !vec_contains(&exclude, &self.instruments[i].get_type());
            flags.push(keep);
            i = i + 1;
        }
        select(&self.instruments, Ghost(with_underlying_pred(und_id, exclude@)), &flags)
    }

    /// The instruments in `currency`.
    pub fn instruments_with_currency(&self, currency: Currency) -> (r: Vec<Instrument>)
        ensures
            r@ == self.view().filter(with_currency_pred(currency)),
    {
        let mut flags: Vec<bool> = Vec::new();
        let mut i: usize = 0;
        while i < self.instruments.len()
            invariant
                i <= self.instruments@.len(),
                flags@.len() == i,
                forall|k: int| 0 <= k < i ==> flags@[k] == with_currency_pred(currency)(#[trigger] self.instruments@[k]),
            decreases self.instruments@.len() - i,
        {
            flags.push(self.instruments[i].info.currency == currency);
            i = i + 1;
        }
        select(&self.instruments, Ghost(with_currency_pred(currency)), &flags)
    }

    /// The instruments of the given families.
    pub fn instruments_with_types(&self, type_names: Vec<InstType>) -> (r: Vec<Instrument>)
        ensures
            r@ == self.view().filter(with_types_pred(type_names@)),
    {
        let mut flags: Vec<bool> = Vec::new();
        let mut i: usize = 0;
        while i < self.instruments.len()
            invariant
                i <= self.instruments@.len(),
                flags@.len() == i,
                forall|k: int| 0 <= k < i ==> flags@[k] == with_types_pred(type_names@)(#[trigger] self.instruments@[k]),
            decreases self.instruments@.len() - i,
        {
            flags.push(vec_contains(&type_names, &self.instruments[i].get_type()));
            i = i + 1;
        }
        select(&self.instruments, Ghost(with_types_pred(type_names@)), &flags)
    }

    /// The instruments (of `instruments`, or else of the whole collection)
    /// maturing no later than `maturity`, except those of the excluded families.
    pub fn instruments_with_maturity_upto(
        &self,
        instruments: Option<&Vec<Instrument>>,
        maturity: &DateTime,
        exclude_type: Option<Vec<InstType>>,
    ) -> (r: Vec<Instrument>)
        requires
            maturity.wf(),
            maturities_wf(match instruments { Some(v) => v@, None => self.view() }),
        ensures
            r@ == (match instruments { Some(v) => v@, None => self.view() }).filter(upto_pred(*maturity, match exclude_type {
                Some(v) => v@,
                None => Seq::empty(),
            })),
    {
        let list = match instruments {
            Some(v) => v,
            None => &self.instruments,
        };
        let exclude = match exclude_type {
            Some(v) => v,
            None => Vec::new(),
        };
        let mut flags: Vec<bool> = Vec::new();
        let mut i: usize = 0;
        while i < list.len()
            invariant
                i <= list@.len(),
                maturity.wf(),
                maturities_wf(list@),
                flags@.len() == i,
                forall|k: int| 0 <= k < i ==> flags@[k] == upto_pred(*maturity, exclude@)(#[trigger] list@[k]),
            decreases list@.len() - i,
        {
            let inst = list[i];
            assert(maturities_wf(list@) && list@[i as int] == inst);
            let keep = !vec_contains(&exclude, &inst.get_type()) && match inst.info.maturity {
                Some(m) => !maturity.precedes(&m),
                None => false,
            };
            flags.push(keep);
            i = i + 1;
        }
        select(list, Ghost(upto_pred(*maturity, exclude@)), &flags)
    }

    /// The instruments (of `instruments`, or else of the whole collection)
    /// maturing after `maturity` or never, except those of the excluded families.
    pub fn instruments_with_maturity_over(
        &self,
        instruments: Option<&Vec<Instrument>>,
        maturity: &DateTime,
        exclude_type: Option<Vec<InstType>>,
    ) -> (r: Vec<Instrument>)
        requires
            maturity.wf(),
            maturities_wf(match instruments { Some(v) => v@, None => self.view() }),
        ensures
            r@ == (match instruments { Some(v) => v@, None => self.view() }).filter(over_pred(*maturity, match exclude_type {
                Some(v) => v@,
                None => Seq::empty(),
            })),
    {
        let list = match instruments {
            Some(v) => v,
            None => &self.instruments,
        };
        let exclude = match exclude_type {
            Some(v) => v,
            None => Vec::new(),
        };
        let mut flags: Vec<bool> = Vec::new();
        let mut i: usize = 0;
        while i < list.len()
            invariant
                i <= list@.len(),
                maturity.wf(),
                maturities_wf(list@),
                flags@.len() == i,
                forall|k: int| 0 <= k < i ==> flags@[k] == over_pred(*maturity, exclude@)(#[trigger] list@[k]),
            decreases list@.len() - i,
        {
            let inst = list[i];
            assert(maturities_wf(list@) && list@[i as int] == inst);
            let keep = !vec_contains(&exclude, &inst.get_type()) && match inst.info.maturity {
                Some(m) => maturity.precedes(&m),
                None => true,
            };
            flags.push(keep);
            i = i + 1;
        }
        select(list, Ghost(over_pred(*maturity, exclude@)), &flags)
    }

    /// The earliest maturity (of `instruments`, or else of the whole
    /// collection); instruments without maturity are passed over.
    pub fn get_shortest_maturity(&self, instruments: Option<&Vec<Instrument>>) -> (r: Option<DateTime>)
        requires
            maturities_wf(match instruments { Some(v) => v@, None => self.view() }),
        ensures
            r == shortest_maturity(match instruments { Some(v) => v@, None => self.view() }),
    {
        let list = match instruments {
            Some(v) => v,
            None => &self.instruments,
        };
        let mut shortest: Option<DateTime> = None;
        let mut i: usize = 0;
        while i < list.len()
            invariant
                i <= list@.len(),
                maturities_wf(list@),
                shortest == shortest_maturity(list@.take(i as int)),
                shortest matches Some(s) ==> s.wf(),
            decreases list@.len() - i,
        {
            proof {
                assert(list@.take(i as int + 1).drop_last() == list@.take(i as int));
            }
            let inst = list[i];
            assert(maturities_wf(list@) && list@[i as int] == inst);
            if let Some(m) = inst.info.maturity {
                shortest = match shortest {
                    None => Some(m),
                    Some(s) => if m.precedes(&s) { Some(m) } else { Some(s) },
                };
            }
            i = i + 1;
        }
        proof {
            assert(list@.take(list@.len() as int) == list@);
        }
        shortest
    }

    /// The latest maturity (of `instruments`, or else of the whole
    /// collection); `None` when some instrument has no maturity.
    pub fn get_longest_maturity(&self, instruments: Option<&Vec<Instrument>>) -> (r: Option<DateTime>)
        requires
            maturities_wf(match instruments { Some(v) => v@, None => self.view() }),
        ensures
            r == longest_maturity(match instruments { Some(v) => v@, None => self.view() }),
    {
        let list = match instruments {
            Some(v) => v,
            None => &self.instruments,
        };
        let mut k: usize = 0;
        while k < list.len()
            invariant
                k <= list@.len(),
                list@ == (match instruments { Some(v) => v@, None => self.view() }),
                forall|j: int| 0 <= j < k ==> (#[trigger] list@[j]).info.maturity is Some,
            decreases list@.len() - k,
        {
            if list[k].info.maturity.is_none() {
                proof {
                    assert(list@[k as int].info.maturity is None);
                    assert(exists|j: int| 0 <= j < list@.len() && (#[trigger] list@[j]).info.maturity is None);
                    assert(longest_maturity(list@) is None);
                }
                return None;
            }
            k = k + 1;
        }
        let mut longest: Option<DateTime> = None;
        let mut i: usize = 0;
        while i < list.len()
            invariant
                i <= list@.len(),
                maturities_wf(list@),
                forall|j: int| 0 <= j < list@.len() ==> (#[trigger] list@[j]).info.maturity is Some,
                longest == longest_maturity(list@.take(i as int)),
                i > 0 ==> longest is Some,
                longest matches Some(s) ==> s.wf(),
            decreases list@.len() - i,
        {
            let ghost next = list@.take(i as int + 1);
            proof {
                assert(next.drop_last() == list@.take(i as int));
                assert(next.last() == list@[i as int]);
                assert forall|j: int| 0 <= j < next.len() implies (#[trigger] next[j]).info.maturity is Some by {
                    assert(next[j] == list@[j]);
                }
            }
            let inst = list[i];
            assert(maturities_wf(list@) && list@[i as int] == inst);
            if let Some(m) = inst.info.maturity {
                longest = match longest {
                    None => Some(m),
                    Some(s) => if s.precedes(&m) { Some(m) } else { Some(s) },
                };
            }
            i = i + 1;
        }
        proof {
            assert(list@.take(list@.len() as int) == list@);
        }
        longest
    }

    /// The instruments, outside the excluded families, that use `curve_id`
    /// as discount, collateral, forward, cross-currency or floating
    /// cross-currency curve; an instrument appears once per such role.
    pub fn instruments_using_curve(
        &self,
        curve_id: Id,
        match_parameter: &MatchParameter,
        exclude_type: Option<Vec<InstType>>,
    ) -> (r: Result<Vec<Instrument>, ResolveError>)
        ensures
            curve_users(*match_parameter, self.view(), curve_id, match exclude_type {
                Some(v) => v@,
                None => Seq::empty(),
            }) == (match r {
                Ok(v) => Ok(v@),
                Err(e) => Err(e),
            }),
    {
        let ghost ex = match &exclude_type {
            Some(v) => v@,
            None => Seq::empty(),
        };
        let exclude = match exclude_type {
            Some(v) => v,
            None => Vec::new(),
        };
        let ghost insts = self.instruments@;
        let mut res: Vec<Instrument> = Vec::new();
        let mut i: usize = 0;
        while i < self.instruments.len()
            invariant
                insts == self.instruments@,
                insts == self.view(),
                exclude@ == ex,
                ex == (match exclude_type {
                    Some(v) => v@,
                    None => Seq::<InstType>::empty(),
                }),
                i <= insts.len(),
                curve_users(*match_parameter, insts.take(i as int), curve_id, exclude@) == Ok::<Seq<Instrument>, ResolveError>(res@),
            decreases insts.len() - i,
        {
            let inst = self.instruments[i];
            proof {
                assert(insts.take(i as int + 1).drop_last() == insts.take(i as int));
                assert(insts.take(i as int + 1).last() == inst);
            }
            if !vec_contains(&exclude, &inst.get_type()) {
                match match_parameter.get_curve_roles(&inst) {
                    Err(e) => {
                        proof {
                            lemma_curve_users_error_persists(*match_parameter, insts, curve_id, exclude@, i as int + 1);
                        }
                        return Err(e);
                    },
                    Ok((d, c, r, x, y)) => {
                        let mut uses = uses_exec(inst, d, &c, r, x, y, curve_id);
                        res.append(&mut uses);
                    },
                }
            }
            i = i + 1;
        }
        proof {
            assert(insts.take(insts.len() as int) == insts);
        }
        Ok(res)
    }

    /// Every curve the instruments use in some role, once each, in order of
    /// first use; the "none" identifier is left out.
    pub fn get_all_curve_ids(&self, match_parameter: &MatchParameter) -> (r: Result<Vec<Id>, ResolveError>)
        ensures
            all_curve_ids(*match_parameter, self.view()) == (match r {
                Ok(v) => Ok(v@),
                Err(e) => Err(e),
            }),
    {
        let ghost insts = self.instruments@;
        let mut res: Vec<Id> = Vec::new();
        let mut i: usize = 0;
        while i < self.instruments.len()
            invariant
                insts == self.instruments@,
                insts == self.view(),
                i <= insts.len(),
                all_curve_ids(*match_parameter, insts.take(i as int)) == Ok::<Seq<Id>, ResolveError>(res@),
            decreases insts.len() - i,
        {
            let inst = self.instruments[i];
            proof {
                assert(insts.take(i as int + 1).drop_last() == insts.take(i as int));
                assert(insts.take(i as int + 1).last() == inst);
            }
            match match_parameter.get_curve_roles(&inst) {
                Err(e) => {
                    proof {
                        lemma_curve_ids_error_persists(*match_parameter, insts, i as int + 1);
                    }
                    return Err(e);
                },
                Ok((d, c, r, x, y)) => {
                    push_curve_exec(&mut res, d);
                    let ghost start = res@;
                    let mut j: usize = 0;
                    while j < c.len()
                        invariant
                            j <= c@.len(),
                            res@ == push_curves(start, c@.take(j as int)),
                        decreases c@.len() - j,
                    {
                        proof {
                            assert(c@.take(j as int + 1).drop_last() == c@.take(j as int));
                        }
                        push_curve_exec(&mut res, c[j]);
                        j = j + 1;
                    }
                    proof {
                        assert(c@.take(c@.len() as int) == c@);
                    }
                    push_curve_exec(&mut res, r);
                    push_curve_exec(&mut res, x);
                    push_curve_exec(&mut res, y);
                },
            }
            i = i + 1;
        }
        proof {
            assert(insts.take(insts.len() as int) == insts);
        }
        Ok(res)
    }

    /// The identifiers of the instruments (of `instruments`, or else of the
    /// whole collection), in order.
    pub fn get_all_inst_id(&self, instruments: Option<&Vec<Instrument>>) -> (r: Vec<Id>)
        ensures
            r@ == (match instruments { Some(v) => v@, None => self.view() }).map_values(|i: Instrument| i.info.id),
    {
        let list = match instruments {
            Some(v) => v,
            None => &self.instruments,
        };
        let mut res: Vec<Id> = Vec::new();
        let mut i: usize = 0;
        while i < list.len()
            invariant
                i <= list@.len(),
                res@ == list@.take(i as int).map_values(|x: Instrument| x.info.id),
            decreases list@.len() - i,
        {
            res.push(list[i].info.id);
            proof {
                assert(list@.take(i as int + 1) == list@.take(i as int).push(list@[i as int]));
            }
            i = i + 1;
        }
        proof {
            assert(list@.take(list@.len() as int) == list@);
        }
        res
    }
}

} // verus!
