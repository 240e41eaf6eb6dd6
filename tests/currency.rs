use rustmetrics::currency::{Currency, FxCode};

#[test]
fn show_memory_size() {
    println!("Currency: {} bytes", std::mem::size_of::<Currency>());
    println!("&Currency: {} bytes", std::mem::size_of::<&Currency>());
    println!("FxCode: {} bytes", std::mem::size_of::<FxCode>());
    assert_eq!(std::mem::size_of::<FxCode>(), 2 * std::mem::size_of::<Currency>());
}

#[test]
fn test_currency_as_str() {
    let currency = Currency::KRW;
    let as_str = currency.as_str();

    assert_eq!(as_str, "KRW");
}

#[test]
fn currency_codes_are_three_letters() {
    let all = [
        Currency::NIL,
        Currency::KRW,
        Currency::USD,
        Currency::EUR,
        Currency::JPY,
        Currency::CNY,
        Currency::CNH,
        Currency::GBP,
        Currency::AUD,
        Currency::CAD,
        Currency::CHF,
        Currency::NZD,
    ];
    for c in all.iter() {
        assert_eq!(c.as_str().len(), 3);
    }
    assert_eq!(Currency::NIL.as_str(), "NIL");
    assert_eq!(Currency::NZD.as_str(), "NZD");
}

#[test]
fn fxcode_reciprocal_swaps_currencies() {
    let code = FxCode::new(Currency::USD, Currency::KRW);
    assert_eq!(code.get_currency1(), Currency::USD);
    assert_eq!(code.get_currency2(), Currency::KRW);
    let rec = code.reciprocal();
    assert_eq!(rec, FxCode::new(Currency::KRW, Currency::USD));
    assert_eq!(rec.reciprocal(), code);
}

#[test]
fn currency_from_code() {
    assert_eq!(Currency::from_code("KRW"), Some(Currency::KRW));
    assert_eq!(Currency::from_code("NZD"), Some(Currency::NZD));
    assert_eq!(Currency::from_code("NIL"), None);
    assert_eq!(Currency::from_code("KR"), None);
    assert_eq!(Currency::from_code("krw"), None);
    assert_eq!(Currency::from_code_or_nil("XYZ"), Currency::NIL);
    assert_eq!(Currency::from_code_or_nil("USD"), Currency::USD);
    assert_eq!(Currency::default(), Currency::NIL);
}

#[test]
fn fxcode_from_code() {
    assert_eq!(FxCode::from_code("KRWUSD"), Some(FxCode::new(Currency::KRW, Currency::USD)));
    assert_eq!(FxCode::from_code("USDKRW"), Some(FxCode::new(Currency::USD, Currency::KRW)));
    assert_eq!(FxCode::from_code("USDKR"), None);
    assert_eq!(FxCode::from_code("USDXXX"), None);
    assert_eq!(FxCode::default(), FxCode::new(Currency::NIL, Currency::NIL));
}
