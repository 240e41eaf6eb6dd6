use vstd::prelude::*;
use crate::currency::FxCode;
use crate::instrument::{
    floating_to_fixed_of, underlying_currency_of, underlying_ids_of, Id, Instrument, Terms,
};
use crate::match_parameter::{
    crs_curve_spec, discount_curve_spec, floating_crs_curve_spec, map_all_ok, missing,
    rate_index_curve_spec, borrowing_keys, LookupKey, MarketRole, MatchParameter, ResolveError,
};
use crate::table::{vec_contains, QuantoKey};

verus! {

/// How vanilla options are to be valued.
#[derive(Debug, Clone, Copy, PartialEq, Eq, Structural)]
pub enum VanillaOptionCalculationMethod {
    Analytic,
    MonteCarlo,
    FiniteDifference,
}

/// A pricing strategy for one instrument, with the keys of the market objects
/// it is bound to.
#[derive(Debug, Clone, Copy, PartialEq, Eq, Structural)]
pub enum Pricer {
    BondPricer { discount_curve: Id, forward_curve: Option<Id>, past_fixing: Option<Id> },
    FuturesPricer { equity: Id, collateral_curve: Id, borrowing_curve: Id },
    OptionAnalyticPricer {
        equity: Id,
        volatility: Id,
        discount_curve: Id,
        collateral_curve: Id,
        borrowing_curve: Id,
        quanto: Option<QuantoKey>,
    },
    KtbfPricer { discount_curve: Id, collateral_curve: Id },
    FxFuturesPricer { fx: FxCode, underlying_currency_curve: Id, futures_currency_curve: Id },
    PlainSwapPricer {
        fixed_leg_discount_curve: Id,
        floating_leg_discount_curve: Id,
        forward_curve: Option<Id>,
        past_fixing: Option<Id>,
        floating_to_fixed_fx: Option<FxCode>,
    },
    /// A stock is worth its own price.
    IdentityPricer { equity: Id },
    /// Cash is worth one unit.
    UnitPricer,
}

/// Why no pricer could be built.
#[derive(Debug, Clone, Copy, PartialEq, Eq, Structural)]
pub enum PricerError {
    /// A market object the instrument needs is not configured or not supplied.
    Missing(ResolveError),
    /// Options are to be valued by a method that has no pricer.
    UnsupportedMethod { instrument: Id },
    /// The instrument's family has no pricer.
    NoPricer { instrument: Id },
}

/// Builds pricers from the market data at hand: which curves, prices,
/// volatilities, quanto correlations and fixings exist, by key.
#[derive(Debug)]
pub struct PricerFactory {
    pub fxs: Vec<FxCode>,
    pub equities: Vec<Id>,
    pub zero_curves: Vec<Id>,
    pub underlying_volatilities: Vec<Id>,
    pub quantos: Vec<QuantoKey>,
    pub past_close_data: Vec<Id>,
    pub match_parameter: MatchParameter,
    pub option_method: VanillaOptionCalculationMethod,
    /// The government curve that Korea treasury bond futures are discounted on.
    pub ktbf_discount_curve: Id,
}

pub open spec fn lift<T>(r: Result<T, ResolveError>) -> Result<T, PricerError> {
    match r {
        Ok(v) => Ok(v),
        Err(e) => Err(PricerError::Missing(e)),
    }
}

/// `k` if `keys` holds it, else the error that names it.
pub open spec fn present(keys: Seq<Id>, inst: Instrument, role: MarketRole, k: Id) -> Result<Id, PricerError> {
    if keys.contains(k) {
        Ok(k)
    } else {
        Err(PricerError::Missing(missing(inst, role, LookupKey::Id(k))))
    }
}

/// The first curve a table gives for `ids`, or the error of the lookup.
pub open spec fn first_curve(t: Seq<(Id, Id)>, ids: Seq<Id>, inst: Instrument, role: MarketRole) -> Result<Id, PricerError> {
    if !crate::match_parameter::all_mapped(t, ids) {
        Err(PricerError::Missing(choose|e: ResolveError| map_all_ok(t, ids, inst, role, Err::<Vec<Id>, ResolveError>(e))))
    } else {
        Ok(crate::match_parameter::mapped_ids(t, ids)[0])
    }
}

pub open spec fn optional_curve(f: PricerFactory, inst: Instrument, rate_index: Option<Id>) -> Result<Option<Id>, PricerError> {
    match rate_index {
        None => Ok(None),
        Some(_) => match lift(rate_index_curve_spec(f.match_parameter, inst)) {
            Ok(id) => match present(f.zero_curves@, inst, MarketRole::ForwardCurve, id) {
                Ok(c) => Ok(Some(c)),
                Err(e) => Err(e),
            },
            Err(e) => Err(e),
        },
    }
}

pub open spec fn optional_fixing(f: PricerFactory, inst: Instrument, rate_index: Option<Id>) -> Result<Option<Id>, PricerError> {
    match rate_index {
        None => Ok(None),
        Some(ri) => match present(f.past_close_data@, inst, MarketRole::PastFixing, ri) {
            Ok(c) => Ok(Some(c)),
            Err(e) => Err(e),
        },
    }
}

pub open spec fn bond_pricer_spec(f: PricerFactory, inst: Instrument, rate_index: Option<Id>) -> Result<Pricer, PricerError> {
    match lift(discount_curve_spec(f.match_parameter, inst)) {
        Err(e) => Err(e),
        Ok(d) => match present(f.zero_curves@, inst, MarketRole::DiscountCurve, d) {
            Err(e) => Err(e),
            Ok(discount_curve) => match optional_curve(f, inst, rate_index) {
                Err(e) => Err(e),
                Ok(forward_curve) => match optional_fixing(f, inst, rate_index) {
                    Err(e) => Err(e),
                    Ok(past_fixing) => Ok(Pricer::BondPricer { discount_curve, forward_curve, past_fixing }),
                },
            },
        },
    }
}

pub open spec fn futures_pricer_spec(f: PricerFactory, inst: Instrument, und: Id) -> Result<Pricer, PricerError> {
    match present(f.equities@, inst, MarketRole::Equity, und) {
        Err(e) => Err(e),
        Ok(equity) => match first_curve(f.match_parameter.collateral_curve_map.entries@, underlying_ids_of(inst.terms), inst, MarketRole::CollateralCurve) {
            Err(e) => Err(e),
            Ok(c) => match first_curve(f.match_parameter.borrowing_curve_map.entries@, borrowing_keys(inst), inst, MarketRole::BorrowingCurve) {
                Err(e) => Err(e),
                Ok(b) => match present(f.zero_curves@, inst, MarketRole::CollateralCurve, c) {
                    Err(e) => Err(e),
                    Ok(collateral_curve) => match present(f.zero_curves@, inst, MarketRole::BorrowingCurve, b) {
                        Err(e) => Err(e),
                        Ok(borrowing_curve) => Ok(Pricer::FuturesPricer { equity, collateral_curve, borrowing_curve }),
                    },
                },
            },
        },
    }
}

pub open spec fn quanto_spec(f: PricerFactory, inst: Instrument, und: Id) -> Result<Option<QuantoKey>, PricerError> {
    let und_ccy = underlying_currency_of(inst.terms)->Some_0;
    if und_ccy == inst.info.currency {
        Ok(None)
    } else {
        let key = QuantoKey { underlying_id: und, fx_code: FxCode { currency1: und_ccy, currency2: inst.info.currency } };
        if f.quantos@.contains(key) {
            Ok(Some(key))
        } else {
            Err(PricerError::Missing(missing(inst, MarketRole::Quanto, LookupKey::Quanto(key))))
        }
    }
}

pub open spec fn option_pricer_spec(f: PricerFactory, inst: Instrument, und: Id) -> Result<Pricer, PricerError> {
    match present(f.equities@, inst, MarketRole::Equity, und) {
        Err(e) => Err(e),
        Ok(equity) => match present(f.underlying_volatilities@, inst, MarketRole::Volatility, und) {
            Err(e) => Err(e),
            Ok(volatility) => match lift(discount_curve_spec(f.match_parameter, inst)) {
                Err(e) => Err(e),
                Ok(d) => match present(f.zero_curves@, inst, MarketRole::DiscountCurve, d) {
                    Err(e) => Err(e),
                    Ok(discount_curve) => match first_curve(f.match_parameter.collateral_curve_map.entries@, underlying_ids_of(inst.terms), inst, MarketRole::CollateralCurve) {
                        Err(e) => Err(e),
                        Ok(c) => match present(f.zero_curves@, inst, MarketRole::CollateralCurve, c) {
                            Err(e) => Err(e),
                            Ok(collateral_curve) => match first_curve(f.match_parameter.borrowing_curve_map.entries@, borrowing_keys(inst), inst, MarketRole::BorrowingCurve) {
                                Err(e) => Err(e),
                                Ok(b) => match present(f.zero_curves@, inst, MarketRole::BorrowingCurve, b) {
                                    Err(e) => Err(e),
                                    Ok(borrowing_curve) => match quanto_spec(f, inst, und) {
                                        Err(e) => Err(e),
                                        Ok(quanto) => if f.option_method == VanillaOptionCalculationMethod::Analytic {
                                            Ok(Pricer::OptionAnalyticPricer { equity, volatility, discount_curve, collateral_curve, borrowing_curve, quanto })
                                        } else {
                                            Err(PricerError::UnsupportedMethod { instrument: inst.info.id })
                                        },
                                    },
                                },
                            },
                        },
                    },
                },
            },
        },
    }
}

pub open spec fn ktbf_pricer_spec(f: PricerFactory, inst: Instrument) -> Result<Pricer, PricerError> {
    match present(f.zero_curves@, inst, MarketRole::DiscountCurve, f.ktbf_discount_curve) {
        Err(e) => Err(e),
        Ok(discount_curve) => match first_curve(f.match_parameter.collateral_curve_map.entries@, underlying_ids_of(inst.terms), inst, MarketRole::CollateralCurve) {
            Err(e) => Err(e),
            Ok(c) => match present(f.zero_curves@, inst, MarketRole::CollateralCurve, c) {
                Err(e) => Err(e),
                Ok(collateral_curve) => Ok(Pricer::KtbfPricer { discount_curve, collateral_curve }),
            },
        },
    }
}

pub open spec fn fx_futures_pricer_spec(f: PricerFactory, inst: Instrument, fx: FxCode) -> Result<Pricer, PricerError> {
    if !f.fxs@.contains(fx) {
        Err(PricerError::Missing(missing(inst, MarketRole::Fx, LookupKey::Fx(fx))))
    } else {
        match lift(floating_crs_curve_spec(f.match_parameter, inst)) {
            Err(e) => Err(e),
            Ok(u) => match present(f.zero_curves@, inst, MarketRole::FloatingCrsCurve, u) {
                Err(e) => Err(e),
                Ok(underlying_currency_curve) => match lift(crs_curve_spec(f.match_parameter, inst)) {
                    Err(e) => Err(e),
                    Ok(c) => match present(f.zero_curves@, inst, MarketRole::CrsCurve, c) {
                        Err(e) => Err(e),
                        Ok(futures_currency_curve) => Ok(Pricer::FxFuturesPricer { fx, underlying_currency_curve, futures_currency_curve }),
                    },
                },
            },
        }
    }
}

pub open spec fn swap_fx_spec(f: PricerFactory, inst: Instrument) -> Result<Option<FxCode>, PricerError> {
    match floating_to_fixed_of(inst.terms) {
        None => Ok(None),
        Some(fx) => if f.fxs@.contains(fx) {
            Ok(Some(fx))
        } else {
            Err(PricerError::Missing(missing(inst, MarketRole::Fx, LookupKey::Fx(fx))))
        },
    }
}

pub open spec fn swap_pricer_spec(f: PricerFactory, inst: Instrument, rate_index: Option<Id>) -> Result<Pricer, PricerError> {
    match lift(crs_curve_spec(f.match_parameter, inst)) {
        Err(e) => Err(e),
        Ok(x) => match present(f.zero_curves@, inst, MarketRole::CrsCurve, x) {
            Err(e) => Err(e),
            Ok(fixed_leg_discount_curve) => match lift(floating_crs_curve_spec(f.match_parameter, inst)) {
                Err(e) => Err(e),
                Ok(y) => match present(f.zero_curves@, inst, MarketRole::FloatingCrsCurve, y) {
                    Err(e) => Err(e),
                    Ok(floating_leg_discount_curve) => match optional_curve(f, inst, rate_index) {
                        Err(e) => Err(e),
                        Ok(forward_curve) => match optional_fixing(f, inst, rate_index) {
                            Err(e) => Err(e),
                            Ok(past_fixing) => match swap_fx_spec(f, inst) {
                                Err(e) => Err(e),
                                Ok(floating_to_fixed_fx) => Ok(Pricer::PlainSwapPricer {
                                    fixed_leg_discount_curve,
                                    floating_leg_discount_curve,
                                    forward_curve,
                                    past_fixing,
                                    floating_to_fixed_fx,
                                }),
                            },
                        },
                    },
                },
            },
        },
    }
}

/// The pricer `f` builds for `inst`.
pub open spec fn pricer_spec(f: PricerFactory, inst: Instrument) -> Result<Pricer, PricerError> {
    match inst.terms {
        Terms::Futures { underlying_id, .. } => futures_pricer_spec(f, inst, underlying_id),
        Terms::VanillaOption { underlying_id, .. } => option_pricer_spec(f, inst, underlying_id),
        Terms::Bond { rate_index, .. } => bond_pricer_spec(f, inst, rate_index),
        Terms::KTBF { .. } => ktbf_pricer_spec(f, inst),
        Terms::FxFutures { underlying_currency } => fx_futures_pricer_spec(
            f,
            inst,
            FxCode { currency1: underlying_currency, currency2: inst.info.currency },
        ),
        Terms::PlainSwap { rate_index, .. } => swap_pricer_spec(f, inst, rate_index),
        Terms::Stock => match present(f.equities@, inst, MarketRole::Equity, inst.info.id) {
            Ok(equity) => Ok(Pricer::IdentityPricer { equity }),
            Err(e) => Err(e),
        },
        Terms::Cash => Ok(Pricer::UnitPricer),
        Terms::BondFutures { .. } => Err(PricerError::NoPricer { instrument: inst.info.id }),
    }
}

fn present_exec(keys: &Vec<Id>, inst: &Instrument, role: MarketRole, k: Id) -> (r: Result<Id, PricerError>)
    ensures
        r == present(keys@, *inst, role, k),
{
    if vec_contains(keys, &k) {
        Ok(k)
    } else {
        Err(PricerError::Missing(ResolveError { instrument: inst.info.id, role, key: LookupKey::Id(k) }))
    }
}

fn lift_exec<T>(r: Result<T, ResolveError>) -> (out: Result<T, PricerError>)
    ensures
        out == lift(r),
{
    match r {
        Ok(v) => Ok(v),
        Err(e) => Err(PricerError::Missing(e)),
    }
}

fn first_curve_exec(r: Result<Vec<Id>, ResolveError>, Ghost(t): Ghost<Seq<(Id, Id)>>, Ghost(ids): Ghost<Seq<Id>>, inst: &Instrument, role: MarketRole) -> (out: Result<Id, PricerError>)
    requires
        map_all_ok(t, ids, *inst, role, r),
        ids.len() > 0,
    ensures
        out == first_curve(t, ids, *inst, role),
{
    match r {
        Ok(v) => {
            assert(v@.len() == ids.len());
            Ok(v[0])
        },
        Err(e) => {
            proof {
                let e2 = choose|e2: ResolveError| map_all_ok(t, ids, *inst, role, Err::<Vec<Id>, ResolveError>(e2));
                let k = choose|k: int| crate::match_parameter::first_unmapped(t, ids, k)
                    && e == missing(*inst, role, LookupKey::Id(ids[k]));
                let l = choose|l: int| crate::match_parameter::first_unmapped(t, ids, l)
                    && e2 == missing(*inst, role, LookupKey::Id(ids[l]));
                crate::match_parameter::lemma_first_unmapped_unique(t, ids, k, l);
            }
            Err(PricerError::Missing(e))
        },
    }
}

impl PricerFactory {
    pub fn new(
        fxs: Vec<FxCode>,
        equities: Vec<Id>,
        zero_curves: Vec<Id>,
        underlying_volatilities: Vec<Id>,
        quantos: Vec<QuantoKey>,
        past_close_data: Vec<Id>,
        match_parameter: MatchParameter,
        option_method: VanillaOptionCalculationMethod,
        ktbf_discount_curve: Id,
    ) -> (r: PricerFactory)
        ensures
            r == (PricerFactory {
                fxs,
                equities,
                zero_curves,
                underlying_volatilities,
                quantos,
                past_close_data,
                match_parameter,
                option_method,
                ktbf_discount_curve,
            }),
    {
        PricerFactory {
            fxs,
            equities,
            zero_curves,
            underlying_volatilities,
            quantos,
            past_close_data,
            match_parameter,
            option_method,
            ktbf_discount_curve,
        }
    }

    fn optional_curve_exec(&self, inst: &Instrument, rate_index: Option<Id>) -> (r: Result<Option<Id>, PricerError>)
        ensures
            r == optional_curve(*self, *inst, rate_index),
    {
        match rate_index {
            None => Ok(None),
            Some(_) => match lift_exec(self.match_parameter.get_rate_index_curve_id(inst)) {
                Ok(id) => match present_exec(&self.zero_curves, inst, MarketRole::ForwardCurve, id) {
                    Ok(c) => Ok(Some(c)),
                    Err(e) => Err(e),
                },
                Err(e) => Err(e),
            },
        }
    }

    fn optional_fixing_exec(&self, inst: &Instrument, rate_index: Option<Id>) -> (r: Result<Option<Id>, PricerError>)
        ensures
            r == optional_fixing(*self, *inst, rate_index),
    {
        match rate_index {
            None => Ok(None),
            Some(ri) => match present_exec(&self.past_close_data, inst, MarketRole::PastFixing, ri) {
                Ok(c) => Ok(Some(c)),
                Err(e) => Err(e),
            },
        }
    }

    fn collateral_exec(&self, inst: &Instrument) -> (r: Result<Id, PricerError>)
        requires
            underlying_ids_of(inst.terms).len() > 0,
        ensures
            r == first_curve(self.match_parameter.collateral_curve_map.entries@, underlying_ids_of(inst.terms), *inst, MarketRole::CollateralCurve),
    {
        let ids = self.match_parameter.get_collateral_curve_ids(inst);
        first_curve_exec(ids, Ghost(self.match_parameter.collateral_curve_map.entries@), Ghost(underlying_ids_of(inst.terms)), inst, MarketRole::CollateralCurve)
    }

    fn borrowing_exec(&self, inst: &Instrument) -> (r: Result<Id, PricerError>)
        requires
            borrowing_keys(*inst).len() > 0,
        ensures
            r == first_curve(self.match_parameter.borrowing_curve_map.entries@, borrowing_keys(*inst), *inst, MarketRole::BorrowingCurve),
    {
        let ids = self.match_parameter.get_borrowing_curve_ids(inst);
        first_curve_exec(ids, Ghost(self.match_parameter.borrowing_curve_map.entries@), Ghost(borrowing_keys(*inst)), inst, MarketRole::BorrowingCurve)
    }

    fn get_bond_pricer(&self, inst: &Instrument, rate_index: Option<Id>) -> (r: Result<Pricer, PricerError>)
        ensures
            r == bond_pricer_spec(*self, *inst, rate_index),
    {
        let d = match lift_exec(self.match_parameter.get_discount_curve_id(inst)) {
            Ok(d) => d,
            Err(e) => return Err(e),
        };
        let discount_curve = match present_exec(&self.zero_curves, inst, MarketRole::DiscountCurve, d) {
            Ok(c) => c,
            Err(e) => return Err(e),
        };
        let forward_curve = match self.optional_curve_exec(inst, rate_index) {
            Ok(c) => c,
            Err(e) => return Err(e),
        };
        let past_fixing = match self.optional_fixing_exec(inst, rate_index) {
            Ok(c) => c,
            Err(e) => return Err(e),
        };
        Ok(Pricer::BondPricer { discount_curve, forward_curve, past_fixing })
    }

    fn get_futures_pricer(&self, inst: &Instrument, und: Id) -> (r: Result<Pricer, PricerError>)
        requires
            underlying_ids_of(inst.terms) == seq![und],
        ensures
            r == futures_pricer_spec(*self, *inst, und),
    {
        let equity = match present_exec(&self.equities, inst, MarketRole::Equity, und) {
            Ok(c) => c,
            Err(e) => return Err(e),
        };
        let c = match self.collateral_exec(inst) {
            Ok(c) => c,
            Err(e) => return Err(e),
        };
        let b = match self.borrowing_exec(inst) {
            Ok(c) => c,
            Err(e) => return Err(e),
        };
        let collateral_curve = match present_exec(&self.zero_curves, inst, MarketRole::CollateralCurve, c) {
            Ok(c) => c,
            Err(e) => return Err(e),
        };
        let borrowing_curve = match present_exec(&self.zero_curves, inst, MarketRole::BorrowingCurve, b) {
            Ok(c) => c,
            Err(e) => return Err(e),
        };
        Ok(Pricer::FuturesPricer { equity, collateral_curve, borrowing_curve })
    }

    fn get_quanto(&self, inst: &Instrument, und: Id) -> (r: Result<Option<QuantoKey>, PricerError>)
        requires
            underlying_currency_of(inst.terms) is Some,
        ensures
            r == quanto_spec(*self, *inst, und),
    {
        let und_ccy = match inst.get_underlying_currency() {
            Ok(c) => c,
            Err(_) => return Ok(None),
        };
        let ccy = inst.info.currency;
        if und_ccy == ccy {
            return Ok(None);
        }
        let key = QuantoKey { underlying_id: und, fx_code: FxCode::new(und_ccy, ccy) };
        if vec_contains(&self.quantos, &key) {
            Ok(Some(key))
        } else {
            Err(PricerError::Missing(ResolveError { instrument: inst.info.id, role: MarketRole::Quanto, key: LookupKey::Quanto(key) }))
        }
    }

    fn get_vanilla_option_pricer(&self, inst: &Instrument, und: Id) -> (r: Result<Pricer, PricerError>)
        requires
            underlying_ids_of(inst.terms) == seq![und],
            underlying_currency_of(inst.terms) is Some,
        ensures
            r == option_pricer_spec(*self, *inst, und),
    {
        let equity = match present_exec(&self.equities, inst, MarketRole::Equity, und) {
            Ok(c) => c,
            Err(e) => return Err(e),
        };
        let volatility = match present_exec(&self.underlying_volatilities, inst, MarketRole::Volatility, und) {
            Ok(c) => c,
            Err(e) => return Err(e),
        };
        let d = match lift_exec(self.match_parameter.get_discount_curve_id(inst)) {
            Ok(d) => d,
            Err(e) => return Err(e),
        };
        let discount_curve = match present_exec(&self.zero_curves, inst, MarketRole::DiscountCurve, d) {
            Ok(c) => c,
            Err(e) => return Err(e),
        };
        let c = match self.collateral_exec(inst) {
            Ok(c) => c,
            Err(e) => return Err(e),
        };
        let collateral_curve = match present_exec(&self.zero_curves, inst, MarketRole::CollateralCurve, c) {
            Ok(c) => c,
            Err(e) => return Err(e),
        };
        let b = match self.borrowing_exec(inst) {
            Ok(c) => c,
            Err(e) => return Err(e),
        };
        let borrowing_curve = match present_exec(&self.zero_curves, inst, MarketRole::BorrowingCurve, b) {
            Ok(c) => c,
            Err(e) => return Err(e),
        };
        let quanto = match self.get_quanto(inst, und) {
            Ok(q) => q,
            Err(e) => return Err(e),
        };
        match self.option_method {
            VanillaOptionCalculationMethod::Analytic => Ok(Pricer::OptionAnalyticPricer {
                equity,
                volatility,
                discount_curve,
                collateral_curve,
                borrowing_curve,
                quanto,
            }),
            _ => Err(PricerError::UnsupportedMethod { instrument: inst.info.id }),
        }
    }

    fn get_ktbf_pricer(&self, inst: &Instrument) -> (r: Result<Pricer, PricerError>)
        requires
            underlying_ids_of(inst.terms).len() > 0,
        ensures
            r == ktbf_pricer_spec(*self, *inst),
    {
        let discount_curve = match present_exec(&self.zero_curves, inst, MarketRole::DiscountCurve, self.ktbf_discount_curve) {
            Ok(c) => c,
            Err(e) => return Err(e),
        };
        let c = match self.collateral_exec(inst) {
            Ok(c) => c,
            Err(e) => return Err(e),
        };
        let collateral_curve = match present_exec(&self.zero_curves, inst, MarketRole::CollateralCurve, c) {
            Ok(c) => c,
            Err(e) => return Err(e),
        };
        Ok(Pricer::KtbfPricer { discount_curve, collateral_curve })
    }

    fn get_fx_futures_pricer(&self, inst: &Instrument, fx: FxCode) -> (r: Result<Pricer, PricerError>)
        ensures
            r == fx_futures_pricer_spec(*self, *inst, fx),
    {
        if !vec_contains(&self.fxs, &fx) {
            return Err(PricerError::Missing(ResolveError { instrument: inst.info.id, role: MarketRole::Fx, key: LookupKey::Fx(fx) }));
        }
        let u = match lift_exec(self.match_parameter.get_floating_crs_curve_id(inst)) {
            Ok(d) => d,
            Err(e) => return Err(e),
        };
        let underlying_currency_curve = match present_exec(&self.zero_curves, inst, MarketRole::FloatingCrsCurve, u) {
            Ok(c) => c,
            Err(e) => return Err(e),
        };
        let c = match lift_exec(self.match_parameter.get_crs_curve_id(inst)) {
            Ok(d) => d,
            Err(e) => return Err(e),
        };
        let futures_currency_curve = match present_exec(&self.zero_curves, inst, MarketRole::CrsCurve, c) {
            Ok(c) => c,
            Err(e) => return Err(e),
        };
        Ok(Pricer::FxFuturesPricer { fx, underlying_currency_curve, futures_currency_curve })
    }

    fn get_plain_swap_pricer(&self, inst: &Instrument, rate_index: Option<Id>) -> (r: Result<Pricer, PricerError>)
        ensures
            r == swap_pricer_spec(*self, *inst, rate_index),
    {
        let x = match lift_exec(self.match_parameter.get_crs_curve_id(inst)) {
            Ok(d) => d,
            Err(e) => return Err(e),
        };
        let fixed_leg_discount_curve = match present_exec(&self.zero_curves, inst, MarketRole::CrsCurve, x) {
            Ok(c) => c,
            Err(e) => return Err(e),
        };
        let y = match lift_exec(self.match_parameter.get_floating_crs_curve_id(inst)) {
            Ok(d) => d,
            Err(e) => return Err(e),
        };
        let floating_leg_discount_curve = match present_exec(&self.zero_curves, inst, MarketRole::FloatingCrsCurve, y) {
            Ok(c) => c,
            Err(e) => return Err(e),
        };
        let forward_curve = match self.optional_curve_exec(inst, rate_index) {
            Ok(c) => c,
            Err(e) => return Err(e),
        };
        let past_fixing = match self.optional_fixing_exec(inst, rate_index) {
            Ok(c) => c,
            Err(e) => return Err(e),
        };
        let floating_to_fixed_fx = match inst.get_floating_to_fixed_fxcode() {
            None => None,
            Some(fx) => {
                if vec_contains(&self.fxs, &fx) {
                    Some(fx)
                } else {
                    return Err(PricerError::Missing(ResolveError { instrument: inst.info.id, role: MarketRole::Fx, key: LookupKey::Fx(fx) }));
                }
            },
        };
        Ok(Pricer::PlainSwapPricer {
            fixed_leg_discount_curve,
            floating_leg_discount_curve,
            forward_curve,
            past_fixing,
            floating_to_fixed_fx,
        })
    }

    /// Builds the pricer of `instrument`, bound to the market objects that the
    /// curve tables assign it; fails naming the instrument, the role and the
    /// key of the first object that is not configured or not supplied.
    pub fn create_pricer(&self, instrument: &Instrument) -> (r: Result<Pricer, PricerError>)
        ensures
            r == pricer_spec(*self, *instrument),
    {
        match &instrument.terms {
            Terms::Futures { underlying_id, .. } => self.get_futures_pricer(instrument, *underlying_id),
            Terms::VanillaOption { underlying_id, .. } => self.get_vanilla_option_pricer(instrument, *underlying_id),
            Terms::Bond { rate_index, .. } => self.get_bond_pricer(instrument, *rate_index),
            Terms::KTBF { .. } => self.get_ktbf_pricer(instrument),
            Terms::FxFutures { underlying_currency } => self.get_fx_futures_pricer(
                instrument,
                FxCode::new(*underlying_currency, instrument.info.currency),
            ),
            Terms::PlainSwap { rate_index, .. } => self.get_plain_swap_pricer(instrument, *rate_index),
            Terms::Stock => match present_exec(&self.equities, instrument, MarketRole::Equity, instrument.info.id) {
                Ok(equity) => Ok(Pricer::IdentityPricer { equity }),
                Err(e) => Err(e),
            },
            Terms::Cash => Ok(Pricer::UnitPricer),
            Terms::BondFutures { .. } => Err(PricerError::NoPricer { instrument: instrument.info.id }),
        }
    }
}

} // verus!
