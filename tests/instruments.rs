use rustmetrics::currency::{Currency, FxCode};
use rustmetrics::datetime::DateTime;
use rustmetrics::instrument::{Id, InstInfo, InstType, Instrument, OptionDailySettlementType, PlainSwapType, Terms};
use rustmetrics::instruments::Instruments;
use rustmetrics::match_parameter::{LookupKey, MarketRole, MatchParameter, ResolveError};
use rustmetrics::table::{QuantoKey, Table};

fn day(y: i32, m: u8, d: u8) -> DateTime {
    DateTime::new(y, m, d, 0, 0, 0, 0, 0).unwrap()
}

fn inst(v: u64, currency: Currency, maturity: Option<DateTime>, terms: Terms) -> Instrument {
    Instrument { info: InstInfo { id: Id::new(v), currency, issue_date: None, maturity }, terms }
}

fn sample() -> Instruments {
    Instruments::new(vec![
        inst(1, Currency::KRW, Some(day(2025, 3, 14)), Terms::Futures { underlying_id: Id::new(10), underlying_currency: Currency::KRW }),
        inst(2, Currency::KRW, Some(day(2025, 6, 13)), Terms::VanillaOption {
            underlying_id: Id::new(10),
            underlying_currency: Currency::KRW,
            settlement: OptionDailySettlementType::NotSettled,
        }),
        inst(3, Currency::USD, Some(day(2025, 1, 10)), Terms::Futures { underlying_id: Id::new(11), underlying_currency: Currency::USD }),
        inst(4, Currency::KRW, Some(day(2026, 1, 1)), Terms::PlainSwap {
            swap_type: PlainSwapType::CRS,
            fixed_leg_currency: Currency::KRW,
            floating_leg_currency: Currency::USD,
            rate_index: None,
        }),
    ])
}

fn tables() -> MatchParameter {
    MatchParameter::new(
        Table::new(vec![(Id::new(10), Id::new(100)), (Id::new(11), Id::new(101))]),
        Table::empty(),
        Table::empty(),
        Table::new(vec![(Currency::KRW, Id::new(100)), (Currency::USD, Id::new(101))]),
        Table::empty(),
        Table::new(vec![(Currency::KRW, Id::new(102))]),
    )
}

#[test]
fn unique_lists_keep_first_appearance_order() {
    let s = sample();
    assert_eq!(s.len(), 4);
    assert!(!s.is_empty());
    assert_eq!(s.get_all_underlying_ids(), vec![Id::new(10), Id::new(11)]);
    assert_eq!(s.get_all_type_names(), vec![InstType::Futures, InstType::VanillaOption, InstType::PlainSwap]);
    assert_eq!(s.get_all_currencies(), vec![Currency::KRW, Currency::USD]);
    assert_eq!(s.get_all_inst_id(None), vec![Id::new(1), Id::new(2), Id::new(3), Id::new(4)]);
    assert_eq!(s.get_instruments_clone().len(), 4);
}

#[test]
fn filters() {
    let s = sample();
    let with_10 = s.instruments_with_underlying(Id::new(10), None);
    assert_eq!(with_10.len(), 2);
    let with_10_no_options = s.instruments_with_underlying(Id::new(10), Some(vec![InstType::VanillaOption]));
    assert_eq!(with_10_no_options, vec![s.get(0)]);
    assert_eq!(s.instruments_with_currency(Currency::USD), vec![s.get(2)]);
    assert_eq!(s.instruments_with_types(vec![InstType::PlainSwap]), vec![s.get(3)]);
}

#[test]
fn maturity_queries() {
    let s = sample();
    let upto = s.instruments_with_maturity_upto(None, &day(2025, 3, 14), None);
    assert_eq!(upto, vec![s.get(0), s.get(2)]);
    let over = s.instruments_with_maturity_over(None, &day(2025, 3, 14), Some(vec![InstType::PlainSwap]));
    assert_eq!(over, vec![s.get(1)]);
    assert_eq!(s.get_shortest_maturity(None), Some(day(2025, 1, 10)));
    assert_eq!(s.get_longest_maturity(None), Some(day(2026, 1, 1)));
    let with_perpetual = vec![s.get(0), inst(9, Currency::KRW, None, Terms::Stock)];
    assert_eq!(s.get_longest_maturity(Some(&with_perpetual)), None);
    assert_eq!(s.get_shortest_maturity(Some(&with_perpetual)), Some(day(2025, 3, 14)));
    assert_eq!(s.get_shortest_maturity(Some(&vec![])), None);
}

#[test]
fn curve_usage() {
    let s = sample();
    let mp = tables();
    let users = s.instruments_using_curve(Id::new(100), &mp, None).unwrap();
    assert_eq!(users, vec![s.get(0), s.get(1), s.get(3)]);
    assert_eq!(s.get_all_curve_ids(&mp), Ok(vec![Id::new(100), Id::new(102), Id::new(101)]));
    let bare = MatchParameter::new(Table::empty(), Table::empty(), Table::empty(), Table::empty(), Table::empty(), Table::empty());
    assert_eq!(
        s.get_all_curve_ids(&bare),
        Err(ResolveError { instrument: Id::new(1), role: MarketRole::CollateralCurve, key: LookupKey::Id(Id::new(10)) })
    );
}

#[test]
fn pricing_needs() {
    let list = Instruments::new(vec![
        inst(1, Currency::KRW, None, Terms::FxFutures { underlying_currency: Currency::USD }),
        inst(2, Currency::KRW, None, Terms::VanillaOption {
            underlying_id: Id::new(11),
            underlying_currency: Currency::USD,
            settlement: OptionDailySettlementType::Settled,
        }),
        inst(3, Currency::KRW, None, Terms::PlainSwap {
            swap_type: PlainSwapType::CRS,
            fixed_leg_currency: Currency::KRW,
            floating_leg_currency: Currency::USD,
            rate_index: None,
        }),
        inst(4, Currency::KRW, None, Terms::VanillaOption {
            underlying_id: Id::new(10),
            underlying_currency: Currency::KRW,
            settlement: OptionDailySettlementType::Settled,
        }),
    ]);
    let usdkrw = FxCode::new(Currency::USD, Currency::KRW);
    assert_eq!(list.get_all_fxcodes_for_pricing(), vec![usdkrw]);
    assert_eq!(list.get_all_quanto_fxcode_und_pairs(), vec![QuantoKey { underlying_id: Id::new(11), fx_code: usdkrw }]);
    assert_eq!(list.get_all_unerlying_ids_requiring_volatility(None), vec![Id::new(11), Id::new(10)]);
    assert_eq!(list.get(0).get_fxfutures_und_fxcode(), Ok(usdkrw));
    assert!(list.get(0).get_credit_rating().is_err());
    assert_eq!(list.get(2).get_specific_plain_swap_type(), Ok(PlainSwapType::CRS));
    assert_eq!(list.get(1).get_option_daily_settlement_type(), Ok(OptionDailySettlementType::Settled));
}

#[test]
fn test_instruments() {
    let kospi_und_id = Id::new(2001);
    let spx_und_id = Id::new(2002);
    let rate_id = Id::new(2003);
    let krwgov = Id::new(2004);
    let usgov = Id::new(2005);
    let krwirs = Id::new(2006);
    let utc = |y: i32, m: u8, d: u8| DateTime::new(y, m, d, 9, 0, 0, 0, 0).unwrap();

    let fut1 = Instrument {
        info: InstInfo { id: Id::new(2010), currency: Currency::KRW, issue_date: Some(utc(2022, 1, 1)), maturity: Some(utc(2022, 12, 1)) },
        terms: Terms::Futures { underlying_id: kospi_und_id, underlying_currency: Currency::KRW },
    };
    let fut2 = Instrument {
        info: InstInfo { id: Id::new(2011), currency: Currency::USD, issue_date: Some(utc(2022, 12, 1)), maturity: Some(utc(2024, 3, 1)) },
        terms: Terms::Futures { underlying_id: spx_und_id, underlying_currency: Currency::USD },
    };
    let irs = Instrument {
        info: InstInfo { id: Id::new(2012), currency: Currency::KRW, issue_date: Some(utc(2021, 1, 1)), maturity: Some(utc(2021, 12, 31)) },
        terms: Terms::PlainSwap {
            swap_type: PlainSwapType::IRS,
            fixed_leg_currency: Currency::KRW,
            floating_leg_currency: Currency::KRW,
            rate_index: Some(rate_id),
        },
    };
    let instruments = Instruments::new(vec![fut1, fut2, irs]);

    let match_parameter = MatchParameter::new(
        Table::new(vec![(kospi_und_id, krwgov), (spx_und_id, usgov)]),
        Table::empty(),
        Table::empty(),
        Table::empty(),
        Table::new(vec![(rate_id, krwirs)]),
        Table::empty(),
    );

    assert_eq!(instruments.get_all_underlying_ids(), vec![kospi_und_id, spx_und_id]);

    let instruments_with_kospi2 = instruments.instruments_with_underlying(kospi_und_id, None);
    assert_eq!(fut1.get_id(), instruments_with_kospi2[0].get_id());
    assert_eq!(fut1.get_currency(), instruments_with_kospi2[0].get_currency());

    assert_eq!(instruments.get_all_curve_ids(&match_parameter), Ok(vec![krwgov, usgov, krwirs]));

    let instruments_using_krw_gov = instruments.instruments_using_curve(krwgov, &match_parameter, None).unwrap();
    assert_eq!(fut1.get_id(), instruments_using_krw_gov[0].get_id());

    let instruments_using_krw_irs = instruments.instruments_using_curve(krwirs, &match_parameter, None).unwrap();
    assert_eq!(irs.get_id(), instruments_using_krw_irs[0].get_id());

    let instruments_with_krw = instruments.instruments_with_currency(Currency::KRW);
    assert_eq!(fut1.get_id(), instruments_with_krw[0].get_id());
    assert_eq!(irs.get_id(), instruments_with_krw[1].get_id());

    let instruments_with_equity_futures = instruments.instruments_with_types(vec![InstType::Futures]);
    assert_eq!(fut1.get_id(), instruments_with_equity_futures[0].get_id());
    assert_eq!(fut2.get_id(), instruments_with_equity_futures[1].get_id());

    let instruments_with_irs = instruments.instruments_with_types(vec![InstType::PlainSwap]);
    assert_eq!(irs.get_id(), instruments_with_irs[0].get_id());

    let instruments_with_maturity_upto = instruments.instruments_with_maturity_upto(None, &utc(2022, 12, 1), None);
    assert_eq!(fut1.get_id(), instruments_with_maturity_upto[0].get_id());
    assert_eq!(irs.get_id(), instruments_with_maturity_upto[1].get_id());
}
