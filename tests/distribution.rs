use rustmetrics::currency::Currency;
use rustmetrics::engine_generator::{merge_group_results, distribute_instruments, EngineGenerator, InstrumentCategory};
use rustmetrics::instrument::{Id, InstInfo, InstType, Instrument, Terms};

fn inst(v: u64, currency: Currency, terms: Terms) -> Instrument {
    Instrument { info: InstInfo { id: Id::new(v), currency, issue_date: None, maturity: None }, terms }
}

fn futures(v: u64, und: u64) -> Instrument {
    inst(v, Currency::KRW, Terms::Futures { underlying_id: Id::new(und), underlying_currency: Currency::KRW })
}

fn instruments() -> Vec<Instrument> {
    vec![
        futures(1, 10),
        inst(2, Currency::USD, Terms::Stock),
        futures(3, 11),
        inst(4, Currency::KRW, Terms::Cash),
        futures(5, 10),
    ]
}

#[test]
fn first_matching_category_wins() {
    let cats = vec![
        InstrumentCategory::new(Some(vec![InstType::Futures]), None, Some(vec![Id::new(10)])),
        InstrumentCategory::new(Some(vec![InstType::Futures, InstType::Stock]), None, None),
        InstrumentCategory::new(None, Some(vec![Currency::KRW]), None),
        InstrumentCategory::new(None, None, None),
    ];
    let groups = distribute_instruments(&instruments(), &cats).unwrap();
    assert_eq!(groups, vec![vec![0, 4], vec![1, 2], vec![3]]);
}

#[test]
fn uncovered_instruments_are_all_named() {
    let cats = vec![InstrumentCategory::new(Some(vec![InstType::Futures]), None, None)];
    assert_eq!(distribute_instruments(&instruments(), &cats), Err(vec![1, 3]));
    let none: Vec<InstrumentCategory> = vec![];
    assert_eq!(distribute_instruments(&instruments(), &none), Err(vec![0, 1, 2, 3, 4]));
    assert_eq!(distribute_instruments(&vec![], &none), Ok(vec![]));
}

#[test]
fn underlying_filter_is_exact_and_passes_instruments_without_underlying() {
    let cat = InstrumentCategory::new(None, None, Some(vec![Id::new(10), Id::new(11)]));
    assert!(!cat.contains(&futures(1, 10)));
    assert!(cat.contains(&inst(2, Currency::USD, Terms::Stock)));
    let cat = InstrumentCategory::new(None, Some(vec![Currency::USD]), Some(vec![Id::new(10)]));
    assert!(!cat.contains(&futures(1, 10)));
    assert!(cat.contains(&inst(2, Currency::USD, Terms::Cash)));
}

#[test]
fn engine_generator_groups() {
    let mut generator = EngineGenerator::builder()
        .with_instruments(instruments())
        .with_instrument_categories(vec![
            InstrumentCategory::new(Some(vec![InstType::Futures]), None, None),
            InstrumentCategory::new(None, None, None),
        ]);
    assert_eq!(generator.distribute_instruments(), Ok(()));
    assert_eq!(generator.get_instrument_groups(), &vec![vec![0, 2, 4], vec![1, 3]]);
    let second = generator.group_instruments(1);
    assert_eq!(second, vec![inst(2, Currency::USD, Terms::Stock), inst(4, Currency::KRW, Terms::Cash)]);

    let mut strict = EngineGenerator::builder()
        .with_instruments(instruments())
        .with_instrument_categories(vec![InstrumentCategory::new(None, Some(vec![Currency::KRW]), None)]);
    assert_eq!(strict.distribute_instruments(), Err(vec![1]));
    assert!(strict.get_instrument_groups().is_empty());
}

#[test]
fn merge_order_does_not_matter() {
    let a = vec![(Id::new(1), "a1"), (Id::new(3), "a3")];
    let b = vec![(Id::new(2), "b2")];
    let mut ab = vec![];
    merge_group_results(&mut ab, a.clone());
    merge_group_results(&mut ab, b.clone());
    let mut ba = vec![];
    merge_group_results(&mut ba, b);
    merge_group_results(&mut ba, a);
    let mut ab_sorted = ab.clone();
    ab_sorted.sort_by_key(|(k, _)| k.value);
    let mut ba_sorted = ba.clone();
    ba_sorted.sort_by_key(|(k, _)| k.value);
    assert_eq!(ab_sorted, ba_sorted);
    assert_eq!(ab.len(), 3);
}

#[test]
fn merging_three_groups_in_any_order_gives_same_results() {
    let groups = vec![
        vec![(Id::new(1), 10), (Id::new(4), 40)],
        vec![(Id::new(2), 20)],
        vec![(Id::new(3), 30), (Id::new(5), 50)],
    ];
    let orders = [[0, 1, 2], [0, 2, 1], [1, 0, 2], [1, 2, 0], [2, 0, 1], [2, 1, 0]];
    let mut expected: Option<Vec<(u64, i32)>> = None;
    for order in orders.iter() {
        let mut merged = vec![];
        for &g in order.iter() {
            merge_group_results(&mut merged, groups[g].clone());
        }
        let mut keyed: Vec<(u64, i32)> = merged.iter().map(|(k, v)| (k.value, *v)).collect();
        keyed.sort();
        match &expected {
            None => expected = Some(keyed),
            Some(e) => assert_eq!(&keyed, e),
        }
    }
    assert_eq!(expected.unwrap(), vec![(1, 10), (2, 20), (3, 30), (4, 40), (5, 50)]);
}
