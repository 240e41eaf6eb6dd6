use vstd::prelude::*;
use crate::currency::Currency;
use crate::datetime::{day_in_range, DateTime};
use crate::engine_generator::positions;
use crate::instrument::Id;
use crate::period::{after_years_and_months, days_later, Period};
use crate::tenor::{tenor_scan, TenorError};

verus! {

/// A schedule of ex-dividend dates; the ratio paid on each date is kept by
/// whoever holds the prices, at the same position.
#[derive(Debug)]
pub struct DiscreteRatioDividend {
    pub id: Id,
    pub ex_dates: Vec<DateTime>,
    /// The evaluation date the schedule was last told of.
    pub evaluation_date: DateTime,
}

/// A spot-like price that follows the evaluation date: it drops by each
/// dividend whose ex-date the date moves past, and recovers it when the date
/// moves back.
#[derive(Debug, Clone, Copy, PartialEq, Eq, Structural)]
pub struct MarketPrice {
    pub id: Id,
    pub currency: Currency,
    /// The evaluation date the price is adjusted to.
    pub market_datetime: DateTime,
    /// The dividend schedule that adjusts this price, by its handle.
    pub dividend: Option<usize>,
}

impl MarketPrice {
    pub fn new(id: Id, currency: Currency, market_datetime: DateTime, dividend: Option<usize>) -> (r: MarketPrice)
        ensures
            r == (MarketPrice { id, currency, market_datetime, dividend }),
    {
        MarketPrice { id, currency, market_datetime, dividend }
    }
}

/// One dividend step that a price must take: multiply by `1 - ratio` of
/// entry `entry` of its schedule, or (`restore`) divide by it.
#[derive(Debug, Clone, Copy, PartialEq, Eq, Structural)]
pub struct PriceAdjustment {
    /// Handle of the price observer.
    pub observer: usize,
    /// Position of the dividend in the observer's schedule.
    pub entry: usize,
    pub restore: bool,
}

/// Whether `d` lies in the half-open interval `(lo, hi]` of the time line.
pub open spec fn in_window(d: DateTime, lo: DateTime, hi: DateTime) -> bool {
    lo.instant() < d.instant() && d.instant() <= hi.instant()
}

pub open spec fn window_pred(ex_dates: Seq<DateTime>, lo: DateTime, hi: DateTime) -> spec_fn(usize) -> bool {
    |i: usize| in_window(ex_dates[i as int], lo, hi)
}

/// The entries of a schedule whose ex-date a move of the evaluation date from
/// `from` to `to` crosses: those in `(from, to]` moving forward, those in
/// `(to, from]` moving back.
pub open spec fn crossed(ex_dates: Seq<DateTime>, from: DateTime, to: DateTime) -> Seq<usize> {
    if from.instant() < to.instant() {
        positions(ex_dates.len() as int).filter(window_pred(ex_dates, from, to))
    } else {
        positions(ex_dates.len() as int).filter(window_pred(ex_dates, to, from))
    }
}

/// The steps price `p` (handle `h`) takes when the date moves to `to`.
pub open spec fn steps_of(p: MarketPrice, h: int, schedules: Seq<DiscreteRatioDividend>, to: DateTime) -> Seq<PriceAdjustment> {
    match p.dividend {
        None => Seq::empty(),
        Some(d) => crossed(schedules[d as int].ex_dates@, p.market_datetime, to).map_values(
            |i: usize| PriceAdjustment { observer: h as usize, entry: i, restore: !(p.market_datetime.instant() < to.instant()) },
        ),
    }
}

/// The steps of the first `n` price observers, in registration order.
pub open spec fn steps_upto(prices: Seq<MarketPrice>, schedules: Seq<DiscreteRatioDividend>, to: DateTime, n: int) -> Seq<PriceAdjustment>
    decreases n,
{
    if n <= 0 {
        Seq::empty()
    } else {
        steps_upto(prices, schedules, to, n - 1) + steps_of(prices[n - 1], n - 1, schedules, to)
    }
}

/// Which entries of `ex_dates` a price crosses, and in which direction, when
/// the date moves from `from` to `to`.
pub fn crossed_entries(ex_dates: &Vec<DateTime>, from: &DateTime, to: &DateTime) -> (r: (bool, Vec<usize>))
    requires
        from.wf(),
        to.wf(),
        forall|i: int| 0 <= i < ex_dates@.len() ==> (#[trigger] ex_dates@[i]).wf(),
    ensures
        r.0 == !(from.instant() < to.instant()),
        r.1@ == crossed(ex_dates@, *from, *to),
{
    let forward = from.precedes(to);
    let (lo, hi) = if forward { (from, to) } else { (to, from) };
    let ghost pred = window_pred(ex_dates@, *lo, *hi);
    let mut res: Vec<usize> = Vec::new();
    let mut i: usize = 0;
    while i < ex_dates.len()
        invariant
            i <= ex_dates@.len(),
            lo.wf(),
            hi.wf(),
            forall|j: int| 0 <= j < ex_dates@.len() ==> (#[trigger] ex_dates@[j]).wf(),
            pred == window_pred(ex_dates@, *lo, *hi),
            res@ == positions(i as int).filter(pred),
        decreases ex_dates@.len() - i,
    {
        proof {
            assert(positions(i as int + 1) == positions(i as int).push(i));
            positions(i as int).lemma_filter_push(i, pred);
        }
        if lo.precedes(&ex_dates[i]) && !hi.precedes(&ex_dates[i]) {
            res.push(i);
        }
        i = i + 1;
    }
    (!forward, res)
}

/// Moving the date from `a` to `b` and back crosses the same dividends both
/// ways, in the same order, once in each direction: every deduction made on
/// the way out is restored on the way back.
pub proof fn lemma_round_trip_crosses_same_entries(ex_dates: Seq<DateTime>, a: DateTime, b: DateTime)
    ensures
        crossed(ex_dates, a, b) == crossed(ex_dates, b, a),
{
    if a.instant() < b.instant() {
    } else if b.instant() < a.instant() {
    } else {
        assert(window_pred(ex_dates, a, b) == window_pred(ex_dates, b, a)) by {
            assert forall|i: usize| #[trigger] window_pred(ex_dates, a, b)(i) == window_pred(ex_dates, b, a)(i) by {}
        }
    }
}

/// A price synced at `p.market_datetime` that follows the date to `to` and
/// back takes the same dividend steps both ways, entry for entry, and each
/// step of the way back undoes the matching step of the way out.
pub proof fn lemma_round_trip_steps(p: MarketPrice, h: int, schedules: Seq<DiscreteRatioDividend>, to: DateTime)
    ensures
        ({
            let out = steps_of(p, h, schedules, to);
            let back = steps_of(MarketPrice { market_datetime: to, ..p }, h, schedules, p.market_datetime);
            &&& out.len() == back.len()
            &&& forall|i: int| 0 <= i < out.len() ==> #[trigger] out[i].entry == back[i].entry
                && out[i].observer == back[i].observer
            &&& p.market_datetime.instant() != to.instant() ==> forall|i: int| 0 <= i < out.len()
                ==> #[trigger] out[i].restore != back[i].restore
        }),
{
    if let Some(d) = p.dividend {
        lemma_round_trip_crosses_same_entries(schedules[d as int].ex_dates@, p.market_datetime, to);
    }
}

/// The single evaluation date that market objects follow, with the registry
/// of those objects. Observers are addressed by the handle their registration
/// returned, and are told of every change in registration order: prices
/// first, then dividend schedules.
#[derive(Debug)]
pub struct EvaluationDate {
    date: DateTime,
    marketprice_observers: Vec<MarketPrice>,
    dividend_observers: Vec<DiscreteRatioDividend>,
}

/// Why the evaluation date could not be moved by a tenor.
#[derive(Debug, Clone, Copy, PartialEq, Eq, Structural)]
pub enum DateShiftError {
    Tenor(TenorError),
    /// The moved date falls outside the supported years.
    OutOfRange,
}

impl EvaluationDate {
    pub closed spec fn spec_date(&self) -> DateTime {
        self.date
    }

    pub closed spec fn prices(&self) -> Seq<MarketPrice> {
        self.marketprice_observers@
    }

    pub closed spec fn schedules(&self) -> Seq<DiscreteRatioDividend> {
        self.dividend_observers@
    }

    /// Every date is valid and every price's schedule handle is registered.
    pub open spec fn wf(&self) -> bool {
        &&& self.spec_date().wf()
        &&& forall|p: int| 0 <= p < self.prices().len() ==> price_wf(#[trigger] self.prices()[p], self.schedules())
        &&& forall|d: int| 0 <= d < self.schedules().len() ==> schedule_wf(#[trigger] self.schedules()[d])
    }

    /// A new evaluation date with no observers.
    pub fn new(date: DateTime) -> (r: EvaluationDate)
        requires
            date.wf(),
        ensures
            r.wf(),
            r.spec_date() == date,
            r.prices().len() == 0,
            r.schedules().len() == 0,
    {
        EvaluationDate { date, marketprice_observers: Vec::new(), dividend_observers: Vec::new() }
    }

    /// A copy of the date with no observers registered: a snapshot that can be
    /// moved without moving anything that follows this one.
    pub fn snapshot(&self) -> (r: EvaluationDate)
        requires
            self.wf(),
        ensures
            r.wf(),
            r.spec_date() == self.spec_date(),
            r.prices().len() == 0,
            r.schedules().len() == 0,
    {
        EvaluationDate::new(self.date)
    }

    pub fn date(&self) -> (r: DateTime)
        ensures
            r == self.spec_date(),
    {
        self.date
    }

    pub fn get_marketprice_observer(&self, handle: usize) -> (r: MarketPrice)
        requires
            handle < self.prices().len(),
        ensures
            r == self.prices()[handle as int],
    {
        self.marketprice_observers[handle]
    }

    pub fn marketprice_observer_count(&self) -> (r: usize)
        ensures
            r == self.prices().len(),
    {
        self.marketprice_observers.len()
    }

    pub fn dividend_observer_count(&self) -> (r: usize)
        ensures
            r == self.schedules().len(),
    {
        self.dividend_observers.len()
    }

    /// Registers a dividend schedule; returns its handle.
    pub fn add_dividend_observer(&mut self, observer: DiscreteRatioDividend) -> (r: usize)
        requires
            old(self).wf(),
            schedule_wf(observer),
        ensures
            final(self).wf(),
            r == old(self).schedules().len(),
            final(self).schedules() == old(self).schedules().push(observer),
            final(self).prices() == old(self).prices(),
            final(self).spec_date() == old(self).spec_date(),
    {
        let h = self.dividend_observers.len();
        self.dividend_observers.push(observer);
        proof {
            assert forall|p: int| 0 <= p < self.prices().len() implies price_wf(#[trigger] self.prices()[p], self.schedules()) by {
                assert(price_wf(old(self).prices()[p], old(self).schedules()));
            }
            assert forall|d: int| 0 <= d < self.schedules().len() implies schedule_wf(#[trigger] self.schedules()[d]) by {
                if d < h {
                    assert(self.schedules()[d] == old(self).schedules()[d]);
                }
            }
        }
        h
    }

    /// Registers a price; returns its handle.
    pub fn add_marketprice_observer(&mut self, observer: MarketPrice) -> (r: usize)
        requires
            old(self).wf(),
            price_wf(observer, old(self).schedules()),
        ensures
            final(self).wf(),
            r == old(self).prices().len(),
            final(self).prices() == old(self).prices().push(observer),
            final(self).schedules() == old(self).schedules(),
            final(self).spec_date() == old(self).spec_date(),
    {
        let h = self.marketprice_observers.len();
        self.marketprice_observers.push(observer);
        proof {
            assert forall|p: int| 0 <= p < self.prices().len() implies price_wf(#[trigger] self.prices()[p], self.schedules()) by {
                if p < h {
                    assert(self.prices()[p] == old(self).prices()[p]);
                }
            }
        }
        h
    }

    /// Moves the evaluation date to `date` and tells every observer, in
    /// registration order. Each price ends synced to `date`; the result lists
    /// the dividend steps the prices take, observer by observer.
    pub fn set_date(&mut self, date: DateTime) -> (r: Vec<PriceAdjustment>)
        requires
            old(self).wf(),
            date.wf(),
        ensures
            final(self).wf(),
            final(self).spec_date() == date,
            final(self).prices().len() == old(self).prices().len(),
            forall|p: int| 0 <= p < final(self).prices().len() ==> #[trigger] final(self).prices()[p]
                == (MarketPrice { market_datetime: date, ..old(self).prices()[p] }),
            final(self).schedules().len() == old(self).schedules().len(),
            forall|d: int| 0 <= d < final(self).schedules().len() ==> {
                &&& (#[trigger] final(self).schedules()[d]).evaluation_date == date
                &&& final(self).schedules()[d].id == old(self).schedules()[d].id
                &&& final(self).schedules()[d].ex_dates@ == old(self).schedules()[d].ex_dates@
            },
            r@ == steps_upto(old(self).prices(), old(self).schedules(), date, old(self).prices().len() as int),
    {
        self.date = date;
        let ghost old_prices = self.marketprice_observers@;
        let n = self.marketprice_observers.len();
        let mut steps: Vec<PriceAdjustment> = Vec::new();
        let mut p: usize = 0;
        while p < n
            invariant
                n == old_prices.len(),
                p <= n,
                date.wf(),
                self.date == date,
                self.dividend_observers@ == old(self).dividend_observers@,
                old_prices == old(self).marketprice_observers@,
                self.marketprice_observers@.len() == n,
                forall|q: int| 0 <= q < p ==> #[trigger] self.marketprice_observers@[q]
                    == (MarketPrice { market_datetime: date, ..old_prices[q] }),
                forall|q: int| p <= q < n ==> #[trigger] self.marketprice_observers@[q] == old_prices[q],
                forall|q: int| 0 <= q < n ==> price_wf(#[trigger] old_prices[q], self.dividend_observers@),
                forall|d: int| 0 <= d < self.dividend_observers@.len() ==> schedule_wf(#[trigger] self.dividend_observers@[d]),
                steps@ == steps_upto(old_prices, self.dividend_observers@, date, p as int),
            decreases n - p,
        {
            let price = self.marketprice_observers[p];
            assert(price_wf(old_prices[p as int], self.dividend_observers@));
            if let Some(d) = price.dividend {
                let schedule = &self.dividend_observers[d];
                assert(schedule_wf(self.dividend_observers@[d as int]));
                let (restore, entries) = crossed_entries(&schedule.ex_dates, &price.market_datetime, &date);
                let ghost before = steps@;
                let mut k: usize = 0;
                while k < entries.len()
                    invariant
                        k <= entries@.len(),
                        steps@ == before + entries@.take(k as int).map_values(
                            |i: usize| PriceAdjustment { observer: p, entry: i, restore },
                        ),
                    decreases entries@.len() - k,
                {
                    steps.push(PriceAdjustment { observer: p, entry: entries[k], restore });
                    proof {
                        assert(entries@.take(k as int + 1) == entries@.take(k as int).push(entries@[k as int]));
                        assert(entries@.take(k as int + 1).map_values(
                            |i: usize| PriceAdjustment { observer: p, entry: i, restore },
                        ) == entries@.take(k as int).map_values(
                            |i: usize| PriceAdjustment { observer: p, entry: i, restore },
                        ).push(PriceAdjustment { observer: p, entry: entries@[k as int], restore }));
                    }
                    k = k + 1;
                }
                proof {
                    assert(entries@.take(entries@.len() as int) == entries@);
                }
            }
            proof {
                assert(steps_of(old_prices[p as int], p as int, self.dividend_observers@, date)
                    == steps_of(price, p as int, self.dividend_observers@, date));
            }
            self.marketprice_observers.set(p, MarketPrice { market_datetime: date, ..price });
            p = p + 1;
        }
        let m = self.dividend_observers.len();
        let ghost old_divs = self.dividend_observers@;
        let mut d: usize = 0;
        while d < m
            invariant
                m == old_divs.len(),
                d <= m,
                date.wf(),
                self.dividend_observers@.len() == m,
                forall|e: int| 0 <= e < d ==> {
                    &&& (#[trigger] self.dividend_observers@[e]).evaluation_date == date
                    &&& self.dividend_observers@[e].id == old_divs[e].id
                    &&& self.dividend_observers@[e].ex_dates@ == old_divs[e].ex_dates@
                },
                forall|e: int| d <= e < m ==> #[trigger] self.dividend_observers@[e] == old_divs[e],
                forall|e: int| 0 <= e < m ==> schedule_wf(#[trigger] old_divs[e]),
                self.date == date,
                n == old_prices.len(),
                self.marketprice_observers@.len() == n,
                forall|q: int| 0 <= q < n ==> #[trigger] self.marketprice_observers@[q]
                    == (MarketPrice { market_datetime: date, ..old_prices[q] }),
                forall|q: int| 0 <= q < n ==> price_wf(#[trigger] old_prices[q], old_divs),
            decreases m - d,
        {
            self.dividend_observers[d].evaluation_date = date;
            d = d + 1;
        }
        proof {
            assert forall|q: int| 0 <= q < self.prices().len() implies price_wf(#[trigger] self.prices()[q], self.schedules()) by {
                assert(price_wf(old_prices[q], old_divs));
            }
            assert forall|e: int| 0 <= e < self.schedules().len() implies schedule_wf(#[trigger] self.schedules()[e]) by {
                assert(schedule_wf(old_divs[e]));
                assert forall|i: int| 0 <= i < self.schedules()[e].ex_dates@.len() implies (#[trigger] self.schedules()[e].ex_dates@[i]).wf() by {
                    assert(old_divs[e].ex_dates@[i].wf());
                }
            }
        }
        steps
    }

    /// Moves the evaluation date forward by a tenor such as `"1D"` or `"3M"`.
    pub fn advance(&mut self, tenor: &str) -> (r: Result<Vec<PriceAdjustment>, DateShiftError>)
        requires
            old(self).wf(),
        ensures
            final(self).wf(),
            tenor_scan(tenor@, false) matches Err(e) ==> r == Err::<Vec<PriceAdjustment>, DateShiftError>(DateShiftError::Tenor(e)),
            r matches Ok(steps) ==> tenor_scan(tenor@, false) matches Ok(f) && {
                let p = Period { years: f.years, months: f.months, days: f.days };
                &&& after_years_and_months(p, old(self).spec_date()) is Some
                &&& days_later(after_years_and_months(p, old(self).spec_date())->Some_0, final(self).spec_date(), f.days as int)
                &&& steps@ == steps_upto(old(self).prices(), old(self).schedules(), final(self).spec_date(), old(self).prices().len() as int)
            },
            r is Ok <==> (tenor_scan(tenor@, false) matches Ok(f) && after_years_and_months(
                Period { years: f.years, months: f.months, days: f.days },
                old(self).spec_date(),
            ) matches Some(b) && day_in_range(b.day_count() + f.days)),
            r is Err ==> *final(self) == *old(self),
    {
        let period = match Period::new_from_string(tenor) {
            Ok(p) => p,
            Err(e) => return Err(DateShiftError::Tenor(e)),
        };
        match period.apply(&self.date) {
            Some(d) => Ok(self.set_date(d)),
            None => Err(DateShiftError::OutOfRange),
        }
    }

    /// Moves the evaluation date back by a tenor such as `"1D"` or `"3M"`.
    pub fn retreat(&mut self, tenor: &str) -> (r: Result<Vec<PriceAdjustment>, DateShiftError>)
        requires
            old(self).wf(),
        ensures
            final(self).wf(),
            tenor_scan(tenor@, false) matches Err(e) ==> r == Err::<Vec<PriceAdjustment>, DateShiftError>(DateShiftError::Tenor(e)),
            r matches Ok(steps) ==> tenor_scan(tenor@, false) matches Ok(f) && {
                let p = Period { years: -f.years as i32, months: -f.months as i32, days: -f.days as i32 };
                &&& after_years_and_months(p, old(self).spec_date()) is Some
                &&& days_later(after_years_and_months(p, old(self).spec_date())->Some_0, final(self).spec_date(), -f.days)
                &&& steps@ == steps_upto(old(self).prices(), old(self).schedules(), final(self).spec_date(), old(self).prices().len() as int)
            },
            r is Ok <==> (tenor_scan(tenor@, false) matches Ok(f) && after_years_and_months(
                Period { years: -f.years as i32, months: -f.months as i32, days: -f.days as i32 },
                old(self).spec_date(),
            ) matches Some(b) && day_in_range(b.day_count() - f.days)),
            r is Err ==> *final(self) == *old(self),
    {
        let period = match Period::new_from_string(tenor) {
            Ok(p) => p,
            Err(e) => return Err(DateShiftError::Tenor(e)),
        };
        proof {
            crate::tenor::lemma_scan_fields_in_range(tenor@, false);
        }
        let back = Period::new(-period.years, -period.months, -period.days);
        match back.apply(&self.date) {
            Some(d) => Ok(self.set_date(d)),
            None => Err(DateShiftError::OutOfRange),
        }
    }
}

pub open spec fn schedule_wf(s: DiscreteRatioDividend) -> bool {
    &&& s.evaluation_date.wf()
    &&& forall|i: int| 0 <= i < s.ex_dates@.len() ==> (#[trigger] s.ex_dates@[i]).wf()
}

pub open spec fn price_wf(p: MarketPrice, schedules: Seq<DiscreteRatioDividend>) -> bool {
    &&& p.market_datetime.wf()
    &&& p.dividend matches Some(d) ==> d < schedules.len()
}

} // verus!
