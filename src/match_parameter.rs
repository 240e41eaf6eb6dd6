use vstd::prelude::*;
use crate::currency::{Currency, FxCode};
use crate::instrument::{
    borrowing_ids_of, inst_type_of, no_id, InstType, underlying_ids_of, Id, Instrument, OptionDailySettlementType,
    PlainSwapType, Terms,
};
use crate::table::{table_get, BondCurveKey, QuantoKey, Table};

verus! {

/// The purpose a market object serves for one instrument.
#[derive(Debug, Clone, Copy, PartialEq, Eq, Structural)]
pub enum MarketRole {
    DiscountCurve,
    CollateralCurve,
    BorrowingCurve,
    ForwardCurve,
    CrsCurve,
    FloatingCrsCurve,
    FundingCurve,
    Equity,
    Fx,
    Volatility,
    Quanto,
    PastFixing,
}

/// The key that was looked up and not found.
#[derive(Debug, Clone, Copy, PartialEq, Eq, Structural)]
pub enum LookupKey {
    /// An underlying asset, a rate index or a curve, by identifier.
    Id(Id),
    Currency(Currency),
    Fx(FxCode),
    Quanto(QuantoKey),
}

/// A configuration error: `instrument` needs a market object in `role`, and
/// nothing is configured under `key`.
#[derive(Debug, Clone, Copy, PartialEq, Eq, Structural)]
pub struct ResolveError {
    pub instrument: Id,
    pub role: MarketRole,
    pub key: LookupKey,
}

pub open spec fn missing(inst: Instrument, role: MarketRole, key: LookupKey) -> ResolveError {
    ResolveError { instrument: inst.info.id, role, key }
}

/// The static tables that decide which curve serves which role.
#[derive(Debug)]
pub struct MatchParameter {
    /// Underlying asset to collateral curve.
    pub collateral_curve_map: Table<Id, Id>,
    /// Underlying asset (or a bond futures contract's borrowing id) to borrowing curve.
    pub borrowing_curve_map: Table<Id, Id>,
    /// Issuer, issuer type, rating and currency to bond discount curve.
    pub bond_discount_curve_map: Table<BondCurveKey, Id>,
    /// Floating rate index to forward curve.
    pub rate_index_forward_curve_map: Table<Id, Id>,
    /// Currency to cross-currency curve.
    pub crs_curve_map: Table<Currency, Id>,
    /// Currency to funding curve.
    pub funding_cost_map: Table<Currency, Id>,
}

/// Every identifier in `ids` maps to a curve in `t`.
pub open spec fn all_mapped(t: Seq<(Id, Id)>, ids: Seq<Id>) -> bool {
    forall|j: int| 0 <= j < ids.len() ==> (#[trigger] table_get(t, ids[j])) is Some
}

/// The curves of `ids`, one for each, in order.
pub open spec fn mapped_ids(t: Seq<(Id, Id)>, ids: Seq<Id>) -> Seq<Id> {
    Seq::new(ids.len(), |j: int| table_get(t, ids[j])->Some_0)
}

/// `k` is the position of the first identifier of `ids` that `t` does not map.
pub open spec fn first_unmapped(t: Seq<(Id, Id)>, ids: Seq<Id>, k: int) -> bool {
    &&& 0 <= k < ids.len()
    &&& table_get(t, ids[k]) is None
    &&& all_mapped(t, ids.take(k))
}

/// The outcome of mapping every identifier of `ids` through `t`: the curves,
/// or an error naming the first identifier without one.
pub open spec fn map_all_ok(
    t: Seq<(Id, Id)>,
    ids: Seq<Id>,
    inst: Instrument,
    role: MarketRole,
    r: Result<Vec<Id>, ResolveError>,
) -> bool {
    &&& r is Ok <==> all_mapped(t, ids)
    &&& r matches Ok(v) ==> v@ == mapped_ids(t, ids)
    &&& r matches Err(e) ==> exists|k: int| first_unmapped(t, ids, k)
        && e == missing(inst, role, LookupKey::Id(ids[k]))
}

/// Looks `ids` up one by one in `t`.
fn map_all(
    t: &Table<Id, Id>,
    ids: &Vec<Id>,
    inst: &Instrument,
    role: MarketRole,
) -> (r: Result<Vec<Id>, ResolveError>)
    ensures
        map_all_ok(t.entries@, ids@, *inst, role, r),
{
    let mut res: Vec<Id> = Vec::new();
    let mut i: usize = 0;
    while i < ids.len()
        invariant
            i <= ids@.len(),
            all_mapped(t.entries@, ids@.take(i as int)),
            res@ == mapped_ids(t.entries@, ids@.take(i as int)),
        decreases ids@.len() - i,
    {
        match t.get(&ids[i]) {
            Some(c) => {
                res.push(c);
                proof {
                    let next = ids@.take(i as int + 1);
                    assert(next.take(i as int) == ids@.take(i as int));
                    assert forall|j: int| 0 <= j < next.len() implies (#[trigger] table_get(t.entries@, next[j])) is Some by {
                        if j < i {
                            assert(next[j] == ids@.take(i as int)[j]);
                        }
                    }
                    assert(res@ == mapped_ids(t.entries@, next));
                }
                i = i + 1;
            },
            None => {
                let e = ResolveError { instrument: inst.info.id, role, key: LookupKey::Id(ids[i]) };
                proof {
                    assert(first_unmapped(t.entries@, ids@, i as int));
                    assert(!all_mapped(t.entries@, ids@));
                }
                return Err(e);
            },
        }
    }
    proof {
        assert(ids@.take(i as int) == ids@);
    }
    Ok(res)
}

/// The outcome of mapping `ids` through `t`, as a value.
pub open spec fn map_all_result(t: Seq<(Id, Id)>, ids: Seq<Id>, inst: Instrument, role: MarketRole) -> Result<Seq<Id>, ResolveError> {
    if all_mapped(t, ids) {
        Ok(mapped_ids(t, ids))
    } else {
        Err(missing(inst, role, LookupKey::Id(ids[first_unmapped_index(t, ids)])))
    }
}

pub open spec fn first_unmapped_index(t: Seq<(Id, Id)>, ids: Seq<Id>) -> int {
    choose|k: int| first_unmapped(t, ids, k)
}

/// Only one position is the first unmapped one.
pub proof fn lemma_first_unmapped_unique(t: Seq<(Id, Id)>, ids: Seq<Id>, k: int, l: int)
    requires
        first_unmapped(t, ids, k),
        first_unmapped(t, ids, l),
    ensures
        k == l,
{
    if k < l {
        assert(ids.take(l)[k] == ids[k]);
        assert(table_get(t, ids.take(l)[k]) is Some);
    } else if l < k {
        assert(ids.take(k)[l] == ids[l]);
        assert(table_get(t, ids.take(k)[l]) is Some);
    }
}

/// What `map_all_ok` describes is `map_all_result`.
pub proof fn lemma_map_all_result(t: Seq<(Id, Id)>, ids: Seq<Id>, inst: Instrument, role: MarketRole, r: Result<Vec<Id>, ResolveError>)
    requires
        map_all_ok(t, ids, inst, role, r),
    ensures
        map_all_result(t, ids, inst, role) == (match r {
            Ok(v) => Ok(v@),
            Err(e) => Err(e),
        }),
{
    if let Err(e) = r {
        let k = choose|k: int| first_unmapped(t, ids, k) && e == missing(inst, role, LookupKey::Id(ids[k]));
        lemma_first_unmapped_unique(t, ids, k, first_unmapped_index(t, ids));
    }
}

/// The curves an instrument uses, role by role: discount, collateral (one per
/// underlying), forward, cross-currency and floating cross-currency; or the
/// first resolution error in that order.
pub open spec fn curve_roles(mp: MatchParameter, inst: Instrument) -> Result<(Id, Seq<Id>, Id, Id, Id), ResolveError> {
    match discount_curve_spec(mp, inst) {
        Err(e) => Err(e),
        Ok(d) => match map_all_result(mp.collateral_curve_map.entries@, underlying_ids_of(inst.terms), inst, MarketRole::CollateralCurve) {
            Err(e) => Err(e),
            Ok(c) => match rate_index_curve_spec(mp, inst) {
                Err(e) => Err(e),
                Ok(r) => match crs_curve_spec(mp, inst) {
                    Err(e) => Err(e),
                    Ok(x) => match floating_crs_curve_spec(mp, inst) {
                        Err(e) => Err(e),
                        Ok(y) => Ok((d, c, r, x, y)),
                    },
                },
            },
        },
    }
}

/// The cross-currency curve of an instrument's fixed (or only) leg.
pub open spec fn crs_curve_spec(mp: MatchParameter, inst: Instrument) -> Result<Id, ResolveError> {
    match inst.terms {
        Terms::PlainSwap { swap_type, fixed_leg_currency, .. } => if swap_type == PlainSwapType::IRS {
            Ok(no_id())
        } else {
            match mp.crs_curve_map.spec_get(fixed_leg_currency) {
                Some(c) => Ok(c),
                None => Err(missing(inst, MarketRole::CrsCurve, LookupKey::Currency(fixed_leg_currency))),
            }
        },
        Terms::FxFutures { .. } => match mp.crs_curve_map.spec_get(inst.info.currency) {
            Some(c) => Ok(c),
            None => Err(missing(inst, MarketRole::CrsCurve, LookupKey::Currency(inst.info.currency))),
        },
        _ => Ok(no_id()),
    }
}

/// The cross-currency curve of an instrument's floating (or underlying) leg.
pub open spec fn floating_crs_curve_spec(mp: MatchParameter, inst: Instrument) -> Result<Id, ResolveError> {
    match inst.terms {
        Terms::PlainSwap { swap_type, floating_leg_currency, .. } => if swap_type == PlainSwapType::IRS {
            Ok(no_id())
        } else {
            match mp.crs_curve_map.spec_get(floating_leg_currency) {
                Some(c) => Ok(c),
                None => Err(missing(inst, MarketRole::FloatingCrsCurve, LookupKey::Currency(floating_leg_currency))),
            }
        },
        Terms::FxFutures { underlying_currency } => match mp.crs_curve_map.spec_get(underlying_currency) {
            Some(c) => Ok(c),
            None => Err(missing(inst, MarketRole::FloatingCrsCurve, LookupKey::Currency(underlying_currency))),
        },
        _ => Ok(no_id()),
    }
}

/// The forward curve of an optional rate index.
pub open spec fn forward_curve_of(
    mp: MatchParameter,
    inst: Instrument,
    role: MarketRole,
    rate_index: Option<Id>,
) -> Result<Id, ResolveError> {
    match rate_index {
        None => Ok(no_id()),
        Some(ri) => match mp.rate_index_forward_curve_map.spec_get(ri) {
            Some(c) => Ok(c),
            None => Err(missing(inst, role, LookupKey::Id(ri))),
        },
    }
}

/// The curve an instrument's cash flows are discounted on; `no_id()` where the
/// model discounts none.
pub open spec fn discount_curve_spec(mp: MatchParameter, inst: Instrument) -> Result<Id, ResolveError> {
    match inst.terms {
        Terms::Bond { issuer_id, issuer_type, credit_rating, .. } => {
            let key = BondCurveKey { issuer_id, issuer_type, credit_rating, currency: inst.info.currency };
            match mp.bond_discount_curve_map.spec_get(key) {
                Some(c) => Ok(c),
                None => Ok(no_id()),
            }
        },
        Terms::PlainSwap { rate_index, .. } => forward_curve_of(mp, inst, MarketRole::DiscountCurve, rate_index),
        Terms::VanillaOption { settlement, .. } => if settlement == OptionDailySettlementType::Settled {
            Ok(no_id())
        } else {
            match mp.funding_cost_map.spec_get(inst.info.currency) {
                Some(c) => Ok(c),
                None => Err(missing(inst, MarketRole::FundingCurve, LookupKey::Currency(inst.info.currency))),
            }
        },
        _ => Ok(no_id()),
    }
}

/// The forward curve of a floating rate index, for bonds and swaps.
pub open spec fn rate_index_curve_spec(mp: MatchParameter, inst: Instrument) -> Result<Id, ResolveError> {
    match inst.terms {
        Terms::Bond { rate_index, .. } => forward_curve_of(mp, inst, MarketRole::ForwardCurve, rate_index),
        Terms::PlainSwap { rate_index, .. } => forward_curve_of(mp, inst, MarketRole::ForwardCurve, rate_index),
        _ => Ok(no_id()),
    }
}

/// What the borrowing table is asked for: the underlying assets, then a bond
/// futures contract's borrowing identifiers.
pub open spec fn borrowing_keys(inst: Instrument) -> Seq<Id> {
    underlying_ids_of(inst.terms) + borrowing_ids_of(inst.terms)
}

/// Futures, bond futures, KTBF, FX futures, stock and cash are not discounted:
/// their discount curve is the "none" identifier, whatever the tables hold.
pub proof fn lemma_undiscounted_families(mp: MatchParameter, inst: Instrument)
    requires
        inst_type_of(inst.terms) == InstType::Futures || inst_type_of(inst.terms) == InstType::BondFutures
            || inst_type_of(inst.terms) == InstType::KTBF || inst_type_of(inst.terms) == InstType::FxFutures
            || inst_type_of(inst.terms) == InstType::Stock || inst_type_of(inst.terms) == InstType::Cash,
    ensures
        discount_curve_spec(mp, inst) == Ok::<Id, ResolveError>(no_id()),
{
}

/// Bonds, swaps with a rate index and options that are not settled daily take
/// their discount curve from the tables: a bond from the bond table, a swap
/// from its index's forward curve, an option from its currency's funding
/// curve; a swap or an option whose key is missing is an error naming it.
pub proof fn lemma_discounted_families(mp: MatchParameter, inst: Instrument)
    ensures
        inst.terms matches Terms::Bond { issuer_id, issuer_type, credit_rating, .. } ==> {
            let key = BondCurveKey { issuer_id, issuer_type, credit_rating, currency: inst.info.currency };
            mp.bond_discount_curve_map.spec_get(key) matches Some(c) ==> discount_curve_spec(mp, inst) == Ok::<Id, ResolveError>(c)
        },
        inst.terms matches Terms::PlainSwap { rate_index: Some(ri), .. } ==> discount_curve_spec(mp, inst) == (
            match mp.rate_index_forward_curve_map.spec_get(ri) {
                Some(c) => Ok(c),
                None => Err(missing(inst, MarketRole::DiscountCurve, LookupKey::Id(ri))),
            }),
        inst.terms matches Terms::VanillaOption { settlement: OptionDailySettlementType::NotSettled, .. }
            ==> discount_curve_spec(mp, inst) == (match mp.funding_cost_map.spec_get(inst.info.currency) {
                Some(c) => Ok(c),
                None => Err(missing(inst, MarketRole::FundingCurve, LookupKey::Currency(inst.info.currency))),
            }),
{
}

impl Default for MatchParameter {
    /// Tables with no entries.
    fn default() -> (r: MatchParameter)
        ensures
            r.collateral_curve_map.entries@.len() == 0,
            r.borrowing_curve_map.entries@.len() == 0,
            r.bond_discount_curve_map.entries@.len() == 0,
            r.rate_index_forward_curve_map.entries@.len() == 0,
            r.crs_curve_map.entries@.len() == 0,
            r.funding_cost_map.entries@.len() == 0,
    {
        MatchParameter {
            collateral_curve_map: Table::empty(),
            borrowing_curve_map: Table::empty(),
            bond_discount_curve_map: Table::empty(),
            rate_index_forward_curve_map: Table::empty(),
            crs_curve_map: Table::empty(),
            funding_cost_map: Table::empty(),
        }
    }
}

impl MatchParameter {
    pub fn new(
        collateral_curve_map: Table<Id, Id>,
        borrowing_curve_map: Table<Id, Id>,
        bond_discount_curve_map: Table<BondCurveKey, Id>,
        crs_curve_map: Table<Currency, Id>,
        rate_index_forward_curve_map: Table<Id, Id>,
        funding_cost_map: Table<Currency, Id>,
    ) -> (r: MatchParameter)
        ensures
            r == (MatchParameter {
                collateral_curve_map,
                borrowing_curve_map,
                bond_discount_curve_map,
                rate_index_forward_curve_map,
                crs_curve_map,
                funding_cost_map,
            }),
    {
        MatchParameter {
            collateral_curve_map,
            borrowing_curve_map,
            bond_discount_curve_map,
            rate_index_forward_curve_map,
            crs_curve_map,
            funding_cost_map,
        }
    }

    /// For cross-currency swaps and FX futures, the curve of the fixed leg's
    /// (or the contract's) currency; other instruments need none.
    pub fn get_crs_curve_id(&self, instrument: &Instrument) -> (r: Result<Id, ResolveError>)
        ensures
            r == crs_curve_spec(*self, *instrument),
    {
        match &instrument.terms {
            Terms::PlainSwap { swap_type, fixed_leg_currency, .. } => {
                if *swap_type == PlainSwapType::IRS {
                    return Ok(Id::none());
                }
                match self.crs_curve_map.get(fixed_leg_currency) {
                    Some(c) => Ok(c),
                    None => Err(ResolveError {
                        instrument: instrument.info.id,
                        role: MarketRole::CrsCurve,
                        key: LookupKey::Currency(*fixed_leg_currency),
                    }),
                }
            },
            Terms::FxFutures { .. } => {
                let currency = instrument.info.currency;
                match self.crs_curve_map.get(&currency) {
                    Some(c) => Ok(c),
                    None => Err(ResolveError {
                        instrument: instrument.info.id,
                        role: MarketRole::CrsCurve,
                        key: LookupKey::Currency(currency),
                    }),
                }
            },
            _ => Ok(Id::none()),
        }
    }

    /// For cross-currency swaps and FX futures, the curve of the floating
    /// leg's (or the underlying) currency; other instruments need none.
    pub fn get_floating_crs_curve_id(&self, instrument: &Instrument) -> (r: Result<Id, ResolveError>)
        ensures
            r == floating_crs_curve_spec(*self, *instrument),
    {
        match &instrument.terms {
            Terms::PlainSwap { swap_type, floating_leg_currency, .. } => {
                if *swap_type == PlainSwapType::IRS {
                    return Ok(Id::none());
                }
                match self.crs_curve_map.get(floating_leg_currency) {
                    Some(c) => Ok(c),
                    None => Err(ResolveError {
                        instrument: instrument.info.id,
                        role: MarketRole::FloatingCrsCurve,
                        key: LookupKey::Currency(*floating_leg_currency),
                    }),
                }
            },
            Terms::FxFutures { underlying_currency } => {
                match self.crs_curve_map.get(underlying_currency) {
                    Some(c) => Ok(c),
                    None => Err(ResolveError {
                        instrument: instrument.info.id,
                        role: MarketRole::FloatingCrsCurve,
                        key: LookupKey::Currency(*underlying_currency),
                    }),
                }
            },
            _ => Ok(Id::none()),
        }
    }

    fn forward_curve(&self, instrument: &Instrument, role: MarketRole, rate_index: Option<Id>) -> (r: Result<Id, ResolveError>)
        ensures
            r == forward_curve_of(*self, *instrument, role, rate_index),
    {
        match rate_index {
            None => Ok(Id::none()),
            Some(ri) => match self.rate_index_forward_curve_map.get(&ri) {
                Some(c) => Ok(c),
                None => Err(ResolveError { instrument: instrument.info.id, role, key: LookupKey::Id(ri) }),
            },
        }
    }

    /// The discount curve: by issuer, issuer type, rating and currency for a
    /// bond (none where the table has no entry); the rate index's forward curve
    /// for a swap; the funding curve of its currency for an option that is not
    /// settled daily; none for every other instrument.
    pub fn get_discount_curve_id(&self, instrument: &Instrument) -> (r: Result<Id, ResolveError>)
        ensures
            r == discount_curve_spec(*self, *instrument),
    {
        match &instrument.terms {
            Terms::Bond { issuer_id, issuer_type, credit_rating, .. } => {
                let key = BondCurveKey {
                    issuer_id: *issuer_id,
                    issuer_type: *issuer_type,
                    credit_rating: *credit_rating,
                    currency: instrument.info.currency,
                };
                match self.bond_discount_curve_map.get(&key) {
                    Some(c) => Ok(c),
                    None => Ok(Id::none()),
                }
            },
            Terms::PlainSwap { rate_index, .. } => self.forward_curve(instrument, MarketRole::DiscountCurve, *rate_index),
            Terms::VanillaOption { settlement, .. } => {
                if *settlement == OptionDailySettlementType::Settled {
                    return Ok(Id::none());
                }
                let currency = instrument.info.currency;
                match self.funding_cost_map.get(&currency) {
                    Some(c) => Ok(c),
                    None => Err(ResolveError {
                        instrument: instrument.info.id,
                        role: MarketRole::FundingCurve,
                        key: LookupKey::Currency(currency),
                    }),
                }
            },
            _ => Ok(Id::none()),
        }
    }

    /// The collateral curve of each underlying asset, in order.
    pub fn get_collateral_curve_ids(&self, instrument: &Instrument) -> (r: Result<Vec<Id>, ResolveError>)
        ensures
            map_all_ok(
                self.collateral_curve_map.entries@,
                underlying_ids_of(instrument.terms),
                *instrument,
                MarketRole::CollateralCurve,
                r,
            ),
    {
        let ids = instrument.get_underlying_ids();
        map_all(&self.collateral_curve_map, &ids, instrument, MarketRole::CollateralCurve)
    }

    /// The collateral curve of one underlying asset.
    pub fn get_collateral_curve_id(&self, instrument: &Instrument, und_id: Id) -> (r: Result<Id, ResolveError>)
        ensures
            r == (match self.collateral_curve_map.spec_get(und_id) {
                Some(c) => Ok(c),
                None => Err(missing(*instrument, MarketRole::CollateralCurve, LookupKey::Id(und_id))),
            }),
    {
        match self.collateral_curve_map.get(&und_id) {
            Some(c) => Ok(c),
            None => Err(ResolveError {
                instrument: instrument.info.id,
                role: MarketRole::CollateralCurve,
                key: LookupKey::Id(und_id),
            }),
        }
    }

    /// The borrowing curve of each underlying asset, then of each of a bond
    /// futures contract's borrowing identifiers, in order.
    pub fn get_borrowing_curve_ids(&self, instrument: &Instrument) -> (r: Result<Vec<Id>, ResolveError>)
        ensures
            map_all_ok(
                self.borrowing_curve_map.entries@,
                borrowing_keys(*instrument),
                *instrument,
                MarketRole::BorrowingCurve,
                r,
            ),
    {
        let mut ids = instrument.get_underlying_ids();
        let mut extra = instrument.get_bond_futures_borrowing_curve_ids();
        ids.append(&mut extra);
        map_all(&self.borrowing_curve_map, &ids, instrument, MarketRole::BorrowingCurve)
    }

    /// The forward curve of a bond's or a swap's floating rate index; none
    /// where there is no index or for other instruments.
    pub fn get_rate_index_curve_id(&self, instrument: &Instrument) -> (r: Result<Id, ResolveError>)
        ensures
            r == rate_index_curve_spec(*self, *instrument),
    {
        match &instrument.terms {
            Terms::Bond { rate_index, .. } => self.forward_curve(instrument, MarketRole::ForwardCurve, *rate_index),
            Terms::PlainSwap { rate_index, .. } => self.forward_curve(instrument, MarketRole::ForwardCurve, *rate_index),
            _ => Ok(Id::none()),
        }
    }

    /// The curves `instrument` uses, role by role (see `curve_roles`).
    pub fn get_curve_roles(&self, instrument: &Instrument) -> (r: Result<(Id, Vec<Id>, Id, Id, Id), ResolveError>)
        ensures
            curve_roles(*self, *instrument) == (match r {
                Ok(t) => Ok((t.0, t.1@, t.2, t.3, t.4)),
                Err(e) => Err(e),
            }),
    {
        let d = match self.get_discount_curve_id(instrument) {
            Ok(d) => d,
            Err(e) => return Err(e),
        };
        let cr = self.get_collateral_curve_ids(instrument);
        proof {
            lemma_map_all_result(self.collateral_curve_map.entries@, underlying_ids_of(instrument.terms), *instrument, MarketRole::CollateralCurve, cr);
        }
        let c = match cr {
            Ok(c) => c,
            Err(e) => return Err(e),
        };
        let r = match self.get_rate_index_curve_id(instrument) {
            Ok(r) => r,
            Err(e) => return Err(e),
        };
        let x = match self.get_crs_curve_id(instrument) {
            Ok(x) => x,
            Err(e) => return Err(e),
        };
        let y = match self.get_floating_crs_curve_id(instrument) {
            Ok(y) => y,
            Err(e) => return Err(e),
        };
        Ok((d, c, r, x, y))
    }

    pub fn get_collateral_curve_map(&self) -> (r: &Table<Id, Id>)
        ensures
            *r == self.collateral_curve_map,
    {
        &self.collateral_curve_map
    }

    pub fn get_borrowing_curve_map(&self) -> (r: &Table<Id, Id>)
        ensures
            *r == self.borrowing_curve_map,
    {
        &self.borrowing_curve_map
    }
}

} // verus!
