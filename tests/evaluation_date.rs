use rustmetrics::currency::Currency;
use rustmetrics::datetime::DateTime;
use rustmetrics::evaluation_date::{
    crossed_entries, DateShiftError, DiscreteRatioDividend, EvaluationDate, MarketPrice, PriceAdjustment,
};
use rustmetrics::instrument::Id;
use rustmetrics::tenor::TenorError;

const SEOUL: i32 = 9 * 3600;

fn dt(year: i32, month: u8, day: u8) -> DateTime {
    DateTime::new(year, month, day, 16, 0, 0, 0, SEOUL).unwrap()
}

fn registry() -> (EvaluationDate, Vec<f64>) {
    let mut eval = EvaluationDate::new(dt(2024, 1, 2));
    let h = eval.add_dividend_observer(DiscreteRatioDividend {
        id: Id::new(1),
        ex_dates: vec![dt(2024, 1, 5), dt(2024, 1, 10), dt(2024, 2, 1)],
        evaluation_date: dt(2024, 1, 2),
    });
    eval.add_marketprice_observer(MarketPrice {
        id: Id::new(2),
        currency: Currency::KRW,
        market_datetime: dt(2024, 1, 2),
        dividend: Some(h),
    });
    eval.add_marketprice_observer(MarketPrice {
        id: Id::new(3),
        currency: Currency::KRW,
        market_datetime: dt(2024, 1, 2),
        dividend: None,
    });
    (eval, vec![0.01, 0.02, 0.03])
}

fn apply(value: f64, ratios: &[f64], steps: &[PriceAdjustment]) -> f64 {
    let mut v = value;
    for s in steps {
        if s.restore {
            v /= 1.0 - ratios[s.entry];
        } else {
            v *= 1.0 - ratios[s.entry];
        }
    }
    v
}

#[test]
fn forward_move_deducts_dividends_in_window() {
    let (mut eval, _) = registry();
    let steps = eval.set_date(dt(2024, 1, 10));
    assert_eq!(
        steps,
        vec![
            PriceAdjustment { observer: 0, entry: 0, restore: false },
            PriceAdjustment { observer: 0, entry: 1, restore: false },
        ]
    );
    assert_eq!(eval.date(), dt(2024, 1, 10));
    for h in 0..eval.marketprice_observer_count() {
        assert_eq!(eval.get_marketprice_observer(h).market_datetime, dt(2024, 1, 10));
    }
}

#[test]
fn round_trip_restores_price() {
    let (mut eval, ratios) = registry();
    let out = eval.set_date(dt(2024, 3, 1));
    let back = eval.set_date(dt(2024, 1, 2));
    assert_eq!(out.len(), 3);
    assert_eq!(back.len(), 3);
    for (a, b) in out.iter().zip(back.iter()) {
        assert_eq!(a.entry, b.entry);
        assert!(!a.restore && b.restore);
    }
    let value = 350.0;
    let moved = apply(value, &ratios, &out);
    assert!((moved - 350.0 * 0.99 * 0.98 * 0.97).abs() < 1e-9);
    let restored = apply(moved, &ratios, &back);
    assert!((restored - value).abs() < 1e-9);
}

#[test]
fn same_date_takes_no_steps() {
    let (mut eval, _) = registry();
    assert!(eval.set_date(dt(2024, 1, 2)).is_empty());
    let (backward, entries) = crossed_entries(&vec![dt(2024, 1, 2)], &dt(2024, 1, 2), &dt(2024, 1, 2));
    assert!(backward);
    assert!(entries.is_empty());
}

#[test]
fn ex_date_on_the_new_date_counts() {
    let (forward_flag, entries) = crossed_entries(&vec![dt(2024, 1, 5), dt(2024, 1, 6)], &dt(2024, 1, 4), &dt(2024, 1, 5));
    assert!(!forward_flag);
    assert_eq!(entries, vec![0]);
    let (backward, entries) = crossed_entries(&vec![dt(2024, 1, 5), dt(2024, 1, 6)], &dt(2024, 1, 5), &dt(2024, 1, 4));
    assert!(backward);
    assert_eq!(entries, vec![0]);
}

#[test]
fn advance_by_tenor() {
    let (mut eval, _) = registry();
    let steps = eval.advance("1M").unwrap();
    assert_eq!(eval.date(), dt(2024, 2, 2));
    assert_eq!(steps.len(), 3);
    assert_eq!(eval.advance("1Q"), Err(DateShiftError::Tenor(TenorError::UnknownUnit('Q'))));
    assert_eq!(eval.date(), dt(2024, 2, 2));
    let mut far = EvaluationDate::new(dt(9999, 6, 1));
    assert_eq!(far.advance("1Y"), Err(DateShiftError::OutOfRange));
}

#[test]
fn retreat_by_tenor() {
    let (mut eval, ratios) = registry();
    let out = eval.advance("2M").unwrap();
    assert_eq!(eval.date(), dt(2024, 3, 2));
    let back = eval.retreat("2M").unwrap();
    assert_eq!(eval.date(), dt(2024, 1, 2));
    assert_eq!(out.len(), back.len());
    let restored = apply(apply(100.0, &ratios, &out), &ratios, &back);
    assert!((restored - 100.0).abs() < 1e-9);
    assert_eq!(eval.retreat("1Y1Z"), Err(DateShiftError::Tenor(TenorError::UnknownUnit('Z'))));
    let p = MarketPrice::new(Id::new(7), Currency::USD, dt(2024, 1, 2), None);
    assert_eq!(p.dividend, None);
    assert_eq!(eval.dividend_observer_count(), 1);
}

#[test]
fn snapshot_has_no_observers() {
    let (mut eval, _) = registry();
    let mut snap = eval.snapshot();
    assert_eq!(snap.date(), eval.date());
    assert_eq!(snap.marketprice_observer_count(), 0);
    assert!(snap.set_date(dt(2024, 3, 1)).is_empty());
    assert_eq!(eval.get_marketprice_observer(0).market_datetime, dt(2024, 1, 2));
    assert_eq!(eval.set_date(dt(2024, 1, 2)), vec![]);
}

#[test]
fn test_equity_update_evaluation_date() {
    let eval_dt = DateTime::new(2021, 1, 1, 15, 40, 0, 0, SEOUL).unwrap();
    let mut evaluation_date = EvaluationDate::new(eval_dt);

    let div_dates = vec![
        eval_dt.add_days(1).unwrap(),
        eval_dt.add_days(2).unwrap(),
        eval_dt.add_days(3).unwrap(),
    ];
    let spot = 100.0;
    let div_amounts = vec![1.0, 1.0, 1.0];
    let div_yields: Vec<f64> = div_amounts.iter().map(|x| x / spot).collect();

    let dividend = evaluation_date.add_dividend_observer(DiscreteRatioDividend {
        id: Id::new(1),
        ex_dates: div_dates,
        evaluation_date: eval_dt,
    });
    let stock = evaluation_date.add_marketprice_observer(MarketPrice::new(Id::new(2), Currency::KRW, eval_dt, Some(dividend)));

    let mut price = spot;
    let mut test_spot = spot;
    for i in 1..div_yields.len() {
        let steps = evaluation_date.advance("1D").unwrap();
        assert_eq!(steps, vec![PriceAdjustment { observer: stock, entry: i - 1, restore: false }]);
        price = apply(price, &div_yields, &steps);
        test_spot *= 1.0 - div_yields[i];
        assert!((price - test_spot).abs() < 1.0e-10, "stock: {}, test_spot at i: {}", price, test_spot);
        assert_eq!(evaluation_date.get_marketprice_observer(stock).market_datetime, eval_dt.add_days(i as i32).unwrap());
    }

    let steps = evaluation_date.retreat("3D").unwrap();
    assert_eq!(evaluation_date.date(), eval_dt.add_days(-1).unwrap());
    price = apply(price, &div_yields, &steps);
    assert_eq!(steps.len(), 2);
    assert!(steps.iter().all(|s| s.restore));
    assert!((price - spot).abs() < 1.0e-10, "stock: {}", price);
}
