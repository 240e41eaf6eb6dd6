use rustmetrics::currency::{Currency, FxCode};
use rustmetrics::datetime::DateTime;
use rustmetrics::instrument::{
    CreditRating, Id, InstInfo, InstType, Instrument, IssuerType, KtbfError, KTBF, OptionDailySettlementType,
    PlainSwapType, Terms,
};
use rustmetrics::match_parameter::{LookupKey, MarketRole, MatchParameter, ResolveError};
use rustmetrics::pricer_factory::{Pricer, PricerError, PricerFactory, VanillaOptionCalculationMethod};
use rustmetrics::table::{BondCurveKey, QuantoKey, Table};

const KOSPI2: u64 = 10;
const SPX: u64 = 11;
const KRWGOV: u64 = 100;
const KRWOIS: u64 = 101;
const USDOIS: u64 = 102;
const KRWCRS: u64 = 103;
const KOSPI2_REPO: u64 = 104;
const CD91: u64 = 200;
const CD91_CURVE: u64 = 201;
const ISSUER: u64 = 300;
const BOND_CURVE: u64 = 301;
const KTB_INDEX: u64 = 400;
const KTB_BORROW: u64 = 401;
const KTB_REPO: u64 = 402;

fn id(v: u64) -> Id {
    Id::new(v)
}

fn info(v: u64, currency: Currency) -> InstInfo {
    InstInfo { id: id(v), currency, issue_date: None, maturity: None }
}

fn match_parameter() -> MatchParameter {
    MatchParameter::new(
        Table::new(vec![(id(KOSPI2), id(KRWGOV)), (id(SPX), id(USDOIS)), (id(KTB_INDEX), id(KRWGOV))]),
        Table::new(vec![(id(KOSPI2), id(KOSPI2_REPO)), (id(KTB_BORROW), id(KTB_REPO))]),
        Table::new(vec![(
            BondCurveKey {
                issuer_id: id(ISSUER),
                issuer_type: IssuerType::Government,
                credit_rating: CreditRating::AAA,
                currency: Currency::KRW,
            },
            id(BOND_CURVE),
        )]),
        Table::new(vec![(Currency::KRW, id(KRWCRS)), (Currency::USD, id(USDOIS))]),
        Table::new(vec![(id(CD91), id(CD91_CURVE))]),
        Table::new(vec![(Currency::KRW, id(KRWOIS))]),
    )
}

fn futures(v: u64, und: u64) -> Instrument {
    Instrument {
        info: info(v, Currency::KRW),
        terms: Terms::Futures { underlying_id: id(und), underlying_currency: Currency::KRW },
    }
}

fn option(v: u64, und: u64, ccy: Currency, und_ccy: Currency, settlement: OptionDailySettlementType) -> Instrument {
    Instrument {
        info: info(v, ccy),
        terms: Terms::VanillaOption { underlying_id: id(und), underlying_currency: und_ccy, settlement },
    }
}

fn bond(v: u64, rating: CreditRating, rate_index: Option<Id>) -> Instrument {
    Instrument {
        info: info(v, Currency::KRW),
        terms: Terms::Bond {
            issuer_id: id(ISSUER),
            issuer_type: IssuerType::Government,
            credit_rating: rating,
            rate_index,
        },
    }
}

fn swap(v: u64, swap_type: PlainSwapType, fixed: Currency, floating: Currency, rate_index: Option<Id>) -> Instrument {
    Instrument {
        info: info(v, fixed),
        terms: Terms::PlainSwap {
            swap_type,
            fixed_leg_currency: fixed,
            floating_leg_currency: floating,
            rate_index,
        },
    }
}

fn fx_futures(v: u64) -> Instrument {
    Instrument { info: info(v, Currency::KRW), terms: Terms::FxFutures { underlying_currency: Currency::USD } }
}

fn ktbf(v: u64) -> Instrument {
    Instrument {
        info: InstInfo { maturity: DateTime::new(2025, 3, 18, 0, 0, 0, 0, 9 * 3600), ..info(v, Currency::KRW) },
        terms: Terms::KTBF { underlying_id: id(KTB_INDEX), borrowing_curve_id: id(KTB_BORROW) },
    }
}

#[test]
fn undiscounted_families_get_no_curve() {
    let mp = match_parameter();
    let list = vec![
        futures(1, KOSPI2),
        ktbf(2),
        fx_futures(3),
        Instrument { info: info(4, Currency::KRW), terms: Terms::Stock },
        Instrument { info: info(5, Currency::KRW), terms: Terms::Cash },
        Instrument { info: info(6, Currency::KRW), terms: Terms::BondFutures { borrowing_curve_id: id(KTB_BORROW) } },
        option(7, KOSPI2, Currency::KRW, Currency::KRW, OptionDailySettlementType::Settled),
    ];
    for inst in list.iter() {
        assert_eq!(mp.get_discount_curve_id(inst), Ok(Id::none()));
    }
}

#[test]
fn discounted_families_use_tables() {
    let mp = match_parameter();
    assert_eq!(mp.get_discount_curve_id(&bond(1, CreditRating::AAA, None)), Ok(id(BOND_CURVE)));
    assert_eq!(mp.get_discount_curve_id(&bond(1, CreditRating::BB, None)), Ok(Id::none()));
    let irs = swap(2, PlainSwapType::IRS, Currency::KRW, Currency::KRW, Some(id(CD91)));
    assert_eq!(mp.get_discount_curve_id(&irs), Ok(id(CD91_CURVE)));
    let unknown_index = swap(3, PlainSwapType::IRS, Currency::KRW, Currency::KRW, Some(id(999)));
    assert_eq!(
        mp.get_discount_curve_id(&unknown_index),
        Err(ResolveError { instrument: id(3), role: MarketRole::DiscountCurve, key: LookupKey::Id(id(999)) })
    );
    let krw_option = option(4, KOSPI2, Currency::KRW, Currency::KRW, OptionDailySettlementType::NotSettled);
    assert_eq!(mp.get_discount_curve_id(&krw_option), Ok(id(KRWOIS)));
    let usd_option = option(5, SPX, Currency::USD, Currency::USD, OptionDailySettlementType::NotSettled);
    assert_eq!(
        mp.get_discount_curve_id(&usd_option),
        Err(ResolveError { instrument: id(5), role: MarketRole::FundingCurve, key: LookupKey::Currency(Currency::USD) })
    );
}

#[test]
fn crs_curves_by_leg_currency() {
    let mp = match_parameter();
    let crs = swap(1, PlainSwapType::CRS, Currency::KRW, Currency::USD, None);
    assert_eq!(mp.get_crs_curve_id(&crs), Ok(id(KRWCRS)));
    assert_eq!(mp.get_floating_crs_curve_id(&crs), Ok(id(USDOIS)));
    let irs = swap(2, PlainSwapType::IRS, Currency::KRW, Currency::KRW, Some(id(CD91)));
    assert_eq!(mp.get_crs_curve_id(&irs), Ok(Id::none()));
    assert_eq!(mp.get_floating_crs_curve_id(&irs), Ok(Id::none()));
    let fx = fx_futures(3);
    assert_eq!(mp.get_crs_curve_id(&fx), Ok(id(KRWCRS)));
    assert_eq!(mp.get_floating_crs_curve_id(&fx), Ok(id(USDOIS)));
    let eur = swap(4, PlainSwapType::CRS, Currency::EUR, Currency::USD, None);
    assert_eq!(
        mp.get_crs_curve_id(&eur),
        Err(ResolveError { instrument: id(4), role: MarketRole::CrsCurve, key: LookupKey::Currency(Currency::EUR) })
    );
    assert_eq!(mp.get_crs_curve_id(&futures(5, KOSPI2)), Ok(Id::none()));
}

#[test]
fn collateral_and_borrowing_curves_are_mandatory() {
    let mp = match_parameter();
    assert_eq!(mp.get_collateral_curve_ids(&futures(1, KOSPI2)), Ok(vec![id(KRWGOV)]));
    assert_eq!(mp.get_borrowing_curve_ids(&futures(1, KOSPI2)), Ok(vec![id(KOSPI2_REPO)]));
    assert_eq!(
        mp.get_borrowing_curve_ids(&futures(2, SPX)),
        Err(ResolveError { instrument: id(2), role: MarketRole::BorrowingCurve, key: LookupKey::Id(id(SPX)) })
    );
    assert_eq!(
        mp.get_collateral_curve_ids(&futures(3, 77)),
        Err(ResolveError { instrument: id(3), role: MarketRole::CollateralCurve, key: LookupKey::Id(id(77)) })
    );
    assert_eq!(mp.get_borrowing_curve_ids(&ktbf(4)), Err(ResolveError {
        instrument: id(4),
        role: MarketRole::BorrowingCurve,
        key: LookupKey::Id(id(KTB_INDEX)),
    }));
    assert_eq!(mp.get_collateral_curve_ids(&fx_futures(5)), Ok(vec![]));
    assert_eq!(mp.get_collateral_curve_id(&futures(1, KOSPI2), id(SPX)), Ok(id(USDOIS)));
    assert_eq!(mp.get_rate_index_curve_id(&bond(6, CreditRating::AAA, Some(id(CD91)))), Ok(id(CD91_CURVE)));
    assert_eq!(mp.get_rate_index_curve_id(&bond(6, CreditRating::AAA, None)), Ok(Id::none()));
}

fn factory(method: VanillaOptionCalculationMethod) -> PricerFactory {
    PricerFactory::new(
        vec![FxCode::new(Currency::USD, Currency::KRW)],
        vec![id(KOSPI2), id(SPX), id(50)],
        vec![id(KRWGOV), id(KOSPI2_REPO), id(KRWOIS), id(USDOIS), id(KRWCRS), id(BOND_CURVE), id(CD91_CURVE)],
        vec![id(KOSPI2), id(SPX)],
        vec![QuantoKey { underlying_id: id(SPX), fx_code: FxCode::new(Currency::USD, Currency::KRW) }],
        vec![id(CD91)],
        match_parameter(),
        method,
        id(KRWGOV),
    )
}

#[test]
fn pricer_for_each_family() {
    let f = factory(VanillaOptionCalculationMethod::Analytic);
    assert_eq!(
        f.create_pricer(&futures(1, KOSPI2)),
        Ok(Pricer::FuturesPricer { equity: id(KOSPI2), collateral_curve: id(KRWGOV), borrowing_curve: id(KOSPI2_REPO) })
    );
    assert_eq!(
        f.create_pricer(&fx_futures(2)),
        Ok(Pricer::FxFuturesPricer {
            fx: FxCode::new(Currency::USD, Currency::KRW),
            underlying_currency_curve: id(USDOIS),
            futures_currency_curve: id(KRWCRS),
        })
    );
    assert_eq!(
        f.create_pricer(&bond(3, CreditRating::AAA, Some(id(CD91)))),
        Ok(Pricer::BondPricer { discount_curve: id(BOND_CURVE), forward_curve: Some(id(CD91_CURVE)), past_fixing: Some(id(CD91)) })
    );
    assert_eq!(
        f.create_pricer(&Instrument { info: info(50, Currency::KRW), terms: Terms::Stock }),
        Ok(Pricer::IdentityPricer { equity: id(50) })
    );
    assert_eq!(f.create_pricer(&Instrument { info: info(6, Currency::KRW), terms: Terms::Cash }), Ok(Pricer::UnitPricer));
    let quanto_option = option(7, SPX, Currency::KRW, Currency::USD, OptionDailySettlementType::NotSettled);
    assert_eq!(
        f.create_pricer(&quanto_option),
        Err(PricerError::Missing(ResolveError { instrument: id(7), role: MarketRole::BorrowingCurve, key: LookupKey::Id(id(SPX)) }))
    );
    let krw_option = option(8, KOSPI2, Currency::KRW, Currency::KRW, OptionDailySettlementType::NotSettled);
    assert_eq!(
        f.create_pricer(&krw_option),
        Ok(Pricer::OptionAnalyticPricer {
            equity: id(KOSPI2),
            volatility: id(KOSPI2),
            discount_curve: id(KRWOIS),
            collateral_curve: id(KRWGOV),
            borrowing_curve: id(KOSPI2_REPO),
            quanto: None,
        })
    );
}

#[test]
fn pricer_errors_name_role_and_key() {
    let f = factory(VanillaOptionCalculationMethod::MonteCarlo);
    let krw_option = option(8, KOSPI2, Currency::KRW, Currency::KRW, OptionDailySettlementType::NotSettled);
    assert_eq!(f.create_pricer(&krw_option), Err(PricerError::UnsupportedMethod { instrument: id(8) }));
    assert_eq!(
        f.create_pricer(&Instrument { info: info(9, Currency::KRW), terms: Terms::Stock }),
        Err(PricerError::Missing(ResolveError { instrument: id(9), role: MarketRole::Equity, key: LookupKey::Id(id(9)) }))
    );
    let crs = swap(10, PlainSwapType::CRS, Currency::KRW, Currency::EUR, None);
    assert_eq!(
        f.create_pricer(&crs),
        Err(PricerError::Missing(ResolveError { instrument: id(10), role: MarketRole::FloatingCrsCurve, key: LookupKey::Currency(Currency::EUR) }))
    );
    assert_eq!(f.create_pricer(&ktbf(11)), Ok(Pricer::KtbfPricer { discount_curve: id(KRWGOV), collateral_curve: id(KRWGOV) }));
    assert_eq!(InstType::KTBF, ktbf(11).get_type());
}

#[test]
fn ktbf_requires_bonds_priced_at_maturity() {
    let maturity = DateTime::new(2025, 3, 18, 0, 0, 0, 0, 9 * 3600).unwrap();
    let same_instant_utc = DateTime::new(2025, 3, 17, 15, 0, 0, 0, 0).unwrap();
    let other = DateTime::new(2025, 3, 19, 0, 0, 0, 0, 9 * 3600).unwrap();
    let info = InstInfo { id: id(20), currency: Currency::KRW, issue_date: None, maturity: Some(maturity) };
    let bonds = vec![(id(21), Some(maturity)), (id(22), Some(same_instant_utc))];
    let ok = KTBF::new(info, None, id(KTB_INDEX), bonds.clone(), id(KTB_BORROW)).unwrap();
    assert_eq!(ok.instrument, ktbf(20));
    assert_eq!(ok.get_underlying_bonds(), &bonds);
    assert_eq!(ok.settlement_date, None);
    assert_eq!(
        KTBF::new(info, None, id(KTB_INDEX), vec![(id(21), Some(maturity)), (id(22), None), (id(23), Some(other))], id(KTB_BORROW)).unwrap_err(),
        KtbfError::MissingPricingDate { bond: id(22) }
    );
    assert_eq!(
        KTBF::new(info, Some(other), id(KTB_INDEX), vec![(id(23), Some(other))], id(KTB_BORROW)).unwrap_err(),
        KtbfError::PricingDateMismatch { bond: id(23) }
    );
    let no_maturity = InstInfo { maturity: None, ..info };
    assert_eq!(
        KTBF::new(no_maturity, None, id(KTB_INDEX), vec![(id(21), Some(maturity))], id(KTB_BORROW)).unwrap_err(),
        KtbfError::MissingMaturity
    );
    assert!(KTBF::new(no_maturity, None, id(KTB_INDEX), vec![], id(KTB_BORROW)).is_ok());
}

#[test]
fn bond_futures_have_no_pricer() {
    let f = factory(VanillaOptionCalculationMethod::Analytic);
    let bf = Instrument { info: info(30, Currency::KRW), terms: Terms::BondFutures { borrowing_curve_id: id(KTB_BORROW) } };
    assert_eq!(f.create_pricer(&bf), Err(PricerError::NoPricer { instrument: id(30) }));
}

#[test]
fn test_match_parameter() {
    let stock_id = id(1001);
    let inst_id = id(1002);
    let index_id = id(1003);
    let swap_id = id(1004);
    let usdgov_curve_id = id(1005);
    let krwirs_curve_id = id(1006);

    let maturity_date = DateTime::new(2021, 12, 31, 0, 0, 0, 0, 0);
    let issue_date = DateTime::new(2021, 1, 1, 0, 0, 0, 0, 0);

    let stock_futures_inst = Instrument {
        info: InstInfo { id: inst_id, currency: Currency::USD, issue_date, maturity: maturity_date },
        terms: Terms::Futures { underlying_id: stock_id, underlying_currency: Currency::USD },
    };
    let irs_inst = Instrument {
        info: InstInfo { id: swap_id, currency: Currency::KRW, issue_date, maturity: maturity_date },
        terms: Terms::PlainSwap {
            swap_type: PlainSwapType::IRS,
            fixed_leg_currency: Currency::KRW,
            floating_leg_currency: Currency::KRW,
            rate_index: Some(index_id),
        },
    };

    let match_parameter = MatchParameter::new(
        Table::new(vec![(stock_id, usdgov_curve_id)]),
        Table::empty(),
        Table::empty(),
        Table::empty(),
        Table::new(vec![(index_id, krwirs_curve_id)]),
        Table::empty(),
    );

    assert_eq!(match_parameter.get_collateral_curve_id(&stock_futures_inst, stock_id), Ok(usdgov_curve_id));
    assert_eq!(match_parameter.get_discount_curve_id(&stock_futures_inst), Ok(Id::default()));
    assert_eq!(match_parameter.get_rate_index_curve_id(&stock_futures_inst), Ok(Id::default()));
    assert_eq!(match_parameter.get_discount_curve_id(&irs_inst), Ok(krwirs_curve_id));
    assert_eq!(match_parameter.get_rate_index_curve_id(&irs_inst), Ok(krwirs_curve_id));
}
