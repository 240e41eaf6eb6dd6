use vstd::prelude::*;
use crate::currency::{Currency, FxCode};
use crate::datetime::DateTime;

verus! {

/// A stable identifier of an instrument, an underlying asset or a market
/// object. The value 0 is reserved for "none": a role that does not apply.
#[derive(Debug, Clone, Copy, PartialEq, Eq, Structural, Hash)]
pub struct Id {
    pub value: u64,
}

/// The identifier that means "this role does not apply to this instrument".
pub open spec fn no_id() -> Id {
    Id { value: 0 }
}

impl Default for Id {
    /// The reserved "none" identifier.
    fn default() -> (r: Id)
        ensures
            r == no_id(),
    {
        Id { value: 0 }
    }
}

impl Id {
    pub fn new(value: u64) -> (r: Id)
        ensures
            r.value == value,
    {
        Id { value }
    }

    /// The reserved "none" identifier.
    pub fn none() -> (r: Id)
        ensures
            r == no_id(),
    {
        Id { value: 0 }
    }

    pub fn is_none(&self) -> (r: bool)
        ensures
            r == (*self == no_id()),
    {
        self.value == 0
    }
}

#[derive(Debug, Clone, Copy, PartialEq, Eq, Structural, Hash)]
pub enum IssuerType {
    Government,
    Public,
    Bank,
    Card,
    Capital,
    Corporate,
    Other,
}

#[derive(Debug, Clone, Copy, PartialEq, Eq, Structural, Hash)]
pub enum CreditRating {
    AAA,
    AA,
    A,
    BBB,
    BB,
    B,
    CCC,
    Unrated,
}

#[derive(Debug, Clone, Copy, PartialEq, Eq, Structural, Hash)]
pub enum PlainSwapType {
    /// Single-currency interest rate swap.
    IRS,
    /// Cross-currency swap.
    CRS,
    FxSwap,
    FxForward,
    FxSpot,
}

/// Whether an option's value is settled every day (margined) or only at expiry.
#[derive(Debug, Clone, Copy, PartialEq, Eq, Structural, Hash)]
pub enum OptionDailySettlementType {
    Settled,
    NotSettled,
}

/// The family an instrument belongs to.
#[derive(Debug, Clone, Copy, PartialEq, Eq, Structural, Hash)]
pub enum InstType {
    Futures,
    Bond,
    BondFutures,
    KTBF,
    PlainSwap,
    FxFutures,
    VanillaOption,
    Stock,
    Cash,
}

/// What every instrument carries.
#[derive(Debug, Clone, Copy, PartialEq, Eq, Structural)]
pub struct InstInfo {
    pub id: Id,
    pub currency: Currency,
    pub issue_date: Option<DateTime>,
    pub maturity: Option<DateTime>,
}

impl InstInfo {
    pub fn new(id: Id, currency: Currency, issue_date: Option<DateTime>, maturity: Option<DateTime>) -> (r: InstInfo)
        ensures
            r == (InstInfo { id, currency, issue_date, maturity }),
    {
        InstInfo { id, currency, issue_date, maturity }
    }
}

/// The terms that only one family of instruments has.
#[derive(Debug, Clone, Copy, PartialEq, Eq, Structural)]
pub enum Terms {
    /// Futures on one underlying asset.
    Futures { underlying_id: Id, underlying_currency: Currency },
    Bond {
        issuer_id: Id,
        issuer_type: IssuerType,
        credit_rating: CreditRating,
        /// The floating rate index, for a floating rate note.
        rate_index: Option<Id>,
    },
    BondFutures { borrowing_curve_id: Id },
    /// Korea treasury bond futures on the virtual bond `underlying_id`.
    KTBF { underlying_id: Id, borrowing_curve_id: Id },
    PlainSwap {
        swap_type: PlainSwapType,
        fixed_leg_currency: Currency,
        floating_leg_currency: Currency,
        rate_index: Option<Id>,
    },
    /// Futures on the price of `underlying_currency` in the instrument's currency.
    FxFutures { underlying_currency: Currency },
    VanillaOption {
        underlying_id: Id,
        underlying_currency: Currency,
        settlement: OptionDailySettlementType,
    },
    Stock,
    Cash,
}

/// An instrument: common information and the terms of its family.
#[derive(Debug, Clone, Copy, PartialEq, Eq, Structural)]
pub struct Instrument {
    pub info: InstInfo,
    pub terms: Terms,
}

pub open spec fn inst_type_of(t: Terms) -> InstType {
    match t {
        Terms::Futures { .. } => InstType::Futures,
        Terms::Bond { .. } => InstType::Bond,
        Terms::BondFutures { .. } => InstType::BondFutures,
        Terms::KTBF { .. } => InstType::KTBF,
        Terms::PlainSwap { .. } => InstType::PlainSwap,
        Terms::FxFutures { .. } => InstType::FxFutures,
        Terms::VanillaOption { .. } => InstType::VanillaOption,
        Terms::Stock => InstType::Stock,
        Terms::Cash => InstType::Cash,
    }
}

/// The underlying assets an instrument's value depends on.
pub open spec fn underlying_ids_of(t: Terms) -> Seq<Id> {
    match t {
        Terms::Futures { underlying_id, .. } => seq![underlying_id],
        Terms::VanillaOption { underlying_id, .. } => seq![underlying_id],
        Terms::KTBF { underlying_id, .. } => seq![underlying_id],
        _ => Seq::empty(),
    }
}

/// The curves a bond futures contract borrows its deliverable bonds on.
pub open spec fn borrowing_ids_of(t: Terms) -> Seq<Id> {
    match t {
        Terms::BondFutures { borrowing_curve_id } => seq![borrowing_curve_id],
        Terms::KTBF { borrowing_curve_id, .. } => seq![borrowing_curve_id],
        _ => Seq::empty(),
    }
}

/// The currency of the underlying asset, where the family has one.
pub open spec fn underlying_currency_of(t: Terms) -> Option<Currency> {
    match t {
        Terms::Futures { underlying_currency, .. } => Some(underlying_currency),
        Terms::FxFutures { underlying_currency } => Some(underlying_currency),
        Terms::VanillaOption { underlying_currency, .. } => Some(underlying_currency),
        _ => None,
    }
}

/// The floating rate index, where the family has one.
pub open spec fn rate_index_of(t: Terms) -> Option<Option<Id>> {
    match t {
        Terms::Bond { rate_index, .. } => Some(rate_index),
        Terms::PlainSwap { rate_index, .. } => Some(rate_index),
        _ => None,
    }
}

/// For a swap whose legs pay in two currencies, the pair that converts the
/// floating leg into the fixed leg's currency.
pub open spec fn floating_to_fixed_of(t: Terms) -> Option<FxCode> {
    match t {
        Terms::PlainSwap { fixed_leg_currency, floating_leg_currency, .. } => if fixed_leg_currency
            == floating_leg_currency {
            None
        } else {
            Some(FxCode { currency1: floating_leg_currency, currency2: fixed_leg_currency })
        },
        _ => None,
    }
}

/// The FX pairs whose rates pricing the instrument reads: an FX futures
/// contract's pair, a two-currency swap's floating-to-fixed pair, and a
/// quanto option's underlying-to-payoff pair.
pub open spec fn fxcodes_for_pricing_of(inst: Instrument) -> Seq<FxCode> {
    match inst.terms {
        Terms::FxFutures { underlying_currency } => seq![FxCode { currency1: underlying_currency, currency2: inst.info.currency }],
        Terms::PlainSwap { .. } => match floating_to_fixed_of(inst.terms) {
            Some(fx) => seq![fx],
            None => Seq::empty(),
        },
        Terms::VanillaOption { underlying_currency, .. } => if underlying_currency == inst.info.currency {
            Seq::empty()
        } else {
            seq![FxCode { currency1: underlying_currency, currency2: inst.info.currency }]
        },
        _ => Seq::empty(),
    }
}

/// The underlying assets whose volatility pricing the instrument reads.
pub open spec fn underlying_ids_requiring_volatility_of(t: Terms) -> Seq<Id> {
    match t {
        Terms::VanillaOption { underlying_id, .. } => seq![underlying_id],
        _ => Seq::empty(),
    }
}

/// Why a KTBF contract could not be made from its deliverable bonds.
#[derive(Debug, Clone, Copy, PartialEq, Eq, Structural)]
pub enum KtbfError {
    /// The contract has deliverable bonds but no maturity.
    MissingMaturity,
    /// A deliverable bond has no pricing date.
    MissingPricingDate { bond: Id },
    /// A deliverable bond is priced on another day than the contract matures.
    PricingDateMismatch { bond: Id },
}

/// A Korea treasury bond futures contract with its deliverable bonds, each
/// with its pricing date. The virtual bond's coupon and notional, which value
/// the contract, are floating-point terms kept by the pricing side.
#[derive(Debug)]
pub struct KTBF {
    pub instrument: Instrument,
    pub settlement_date: Option<DateTime>,
    pub underlying_bonds: Vec<(Id, Option<DateTime>)>,
}

impl KTBF {
    /// A KTBF contract on the virtual bond `underlying_id`; every deliverable
    /// bond, given with its pricing date, must be priced at the contract's
    /// maturity. The settlement date, when absent, is the maturity.
    pub fn new(
        info: InstInfo,
        settlement_date: Option<DateTime>,
        underlying_id: Id,
        underlying_bonds: Vec<(Id, Option<DateTime>)>,
        borrowing_curve_id: Id,
    ) -> (r: Result<KTBF, KtbfError>)
        requires
            info.maturity matches Some(m) ==> m.wf(),
            forall|k: int| 0 <= k < underlying_bonds@.len() ==> ((#[trigger] underlying_bonds@[k]).1 matches Some(d) ==> d.wf()),
        ensures
            underlying_bonds@.len() > 0 && info.maturity is None ==> (r matches Err(e) && e == KtbfError::MissingMaturity),
            r is Ok <==> (underlying_bonds@.len() == 0 || (info.maturity is Some
                && forall|k: int| 0 <= k < underlying_bonds@.len() ==> #[trigger] ktbf_bond_error(info.maturity->Some_0, underlying_bonds@, k) is None)),
            r matches Ok(k) ==> k.instrument == (Instrument { info, terms: Terms::KTBF { underlying_id, borrowing_curve_id } })
                && k.settlement_date == settlement_date && k.underlying_bonds@ == underlying_bonds@,
            r matches Err(e) ==> e == KtbfError::MissingMaturity || exists|k: int| 0 <= k < underlying_bonds@.len()
                && ktbf_bond_error(info.maturity->Some_0, underlying_bonds@, k) == Some(e)
                && forall|j: int| 0 <= j < k ==> ktbf_bond_error(info.maturity->Some_0, underlying_bonds@, j) is None,
    {
        let n = underlying_bonds.len();
        if n > 0 {
            let maturity = match info.maturity {
                Some(m) => m,
                None => return Err(KtbfError::MissingMaturity),
            };
            let mut k: usize = 0;
            while k < n
                invariant
                    n == underlying_bonds@.len(),
                    k <= n,
                    maturity.wf(),
                    info.maturity == Some(maturity),
                    forall|j: int| 0 <= j < n ==> ((#[trigger] underlying_bonds@[j]).1 matches Some(d) ==> d.wf()),
                    forall|j: int| 0 <= j < k ==> ktbf_bond_error(maturity, underlying_bonds@, j) is None,
                decreases n - k,
            {
                let (bond, pricing_date) = underlying_bonds[k];
                assert(underlying_bonds@[k as int].1 matches Some(d) ==> d.wf());
                let ghost err = ktbf_bond_error(maturity, underlying_bonds@, k as int);
                match pricing_date {
                    None => {
                        assert(err == Some(KtbfError::MissingPricingDate { bond }));
                        return Err(KtbfError::MissingPricingDate { bond });
                    },
                    Some(d) => {
                        if d.instant_nanos() != maturity.instant_nanos() {
                            assert(err == Some(KtbfError::PricingDateMismatch { bond }));
                            return Err(KtbfError::PricingDateMismatch { bond });
                        }
                        assert(err is None);
                    },
                }
                k = k + 1;
            }
        }
        Ok(KTBF {
            instrument: Instrument { info, terms: Terms::KTBF { underlying_id, borrowing_curve_id } },
            settlement_date,
            underlying_bonds,
        })
    }


    pub fn get_underlying_bonds(&self) -> (r: &Vec<(Id, Option<DateTime>)>)
        ensures
            r@ == self.underlying_bonds@,
    {
        &self.underlying_bonds
    }
}

/// The first bond (by position) whose pricing date is not the maturity, and why.
pub open spec fn ktbf_bond_error(maturity: DateTime, bonds: Seq<(Id, Option<DateTime>)>, k: int) -> Option<KtbfError> {
    match bonds[k].1 {
        None => Some(KtbfError::MissingPricingDate { bond: bonds[k].0 }),
        Some(d) => if d.instant() == maturity.instant() {
            None
        } else {
            Some(KtbfError::PricingDateMismatch { bond: bonds[k].0 })
        },
    }
}

/// Why a question that only some families can answer was asked of another.
#[derive(Debug, Clone, Copy, PartialEq, Eq, Structural)]
pub struct Unsupported {
    pub instrument: Id,
    pub inst_type: InstType,
}

impl Instrument {
    pub fn get_id(&self) -> (r: Id)
        ensures
            r == self.info.id,
    {
        self.info.id
    }

    pub fn get_currency(&self) -> (r: Currency)
        ensures
            r == self.info.currency,
    {
        self.info.currency
    }

    pub fn get_maturity(&self) -> (r: Option<DateTime>)
        ensures
            r == self.info.maturity,
    {
        self.info.maturity
    }

    pub fn get_issue_date(&self) -> (r: Option<DateTime>)
        ensures
            r == self.info.issue_date,
    {
        self.info.issue_date
    }

    pub fn get_type(&self) -> (r: InstType)
        ensures
            r == inst_type_of(self.terms),
    {
        match &self.terms {
            Terms::Futures { .. } => InstType::Futures,
            Terms::Bond { .. } => InstType::Bond,
            Terms::BondFutures { .. } => InstType::BondFutures,
            Terms::KTBF { .. } => InstType::KTBF,
            Terms::PlainSwap { .. } => InstType::PlainSwap,
            Terms::FxFutures { .. } => InstType::FxFutures,
            Terms::VanillaOption { .. } => InstType::VanillaOption,
            Terms::Stock => InstType::Stock,
            Terms::Cash => InstType::Cash,
        }
    }

    pub fn get_underlying_ids(&self) -> (r: Vec<Id>)
        ensures
            r@ == underlying_ids_of(self.terms),
    {
        match &self.terms {
            Terms::Futures { underlying_id, .. } => vec![*underlying_id],
            Terms::VanillaOption { underlying_id, .. } => vec![*underlying_id],
            Terms::KTBF { underlying_id, .. } => vec![*underlying_id],
            _ => Vec::new(),
        }
    }

    pub fn get_bond_futures_borrowing_curve_ids(&self) -> (r: Vec<Id>)
        ensures
            r@ == borrowing_ids_of(self.terms),
    {
        match &self.terms {
            Terms::BondFutures { borrowing_curve_id } => vec![*borrowing_curve_id],
            Terms::KTBF { borrowing_curve_id, .. } => vec![*borrowing_curve_id],
            _ => Vec::new(),
        }
    }

    pub fn get_underlying_currency(&self) -> (r: Result<Currency, Unsupported>)
        ensures
            r == (match underlying_currency_of(self.terms) {
                Some(c) => Ok(c),
                None => Err(Unsupported { instrument: self.info.id, inst_type: inst_type_of(self.terms) }),
            }),
    {
        match &self.terms {
            Terms::Futures { underlying_currency, .. } => Ok(*underlying_currency),
            Terms::FxFutures { underlying_currency } => Ok(*underlying_currency),
            Terms::VanillaOption { underlying_currency, .. } => Ok(*underlying_currency),
            _ => Err(Unsupported { instrument: self.info.id, inst_type: self.get_type() }),
        }
    }

    pub fn get_rate_index(&self) -> (r: Result<Option<Id>, Unsupported>)
        ensures
            r == (match rate_index_of(self.terms) {
                Some(ri) => Ok(ri),
                None => Err(Unsupported { instrument: self.info.id, inst_type: inst_type_of(self.terms) }),
            }),
    {
        match &self.terms {
            Terms::Bond { rate_index, .. } => Ok(*rate_index),
            Terms::PlainSwap { rate_index, .. } => Ok(*rate_index),
            _ => Err(Unsupported { instrument: self.info.id, inst_type: self.get_type() }),
        }
    }

    pub fn get_issuer_id(&self) -> (r: Result<Id, Unsupported>)
        ensures
            r == (match self.terms {
                Terms::Bond { issuer_id, .. } => Ok(issuer_id),
                _ => Err(Unsupported { instrument: self.info.id, inst_type: inst_type_of(self.terms) }),
            }),
    {
        match &self.terms {
            Terms::Bond { issuer_id, .. } => Ok(*issuer_id),
            _ => Err(Unsupported { instrument: self.info.id, inst_type: self.get_type() }),
        }
    }

    pub fn get_issuer_type(&self) -> (r: Result<IssuerType, Unsupported>)
        ensures
            r == (match self.terms {
                Terms::Bond { issuer_type, .. } => Ok(issuer_type),
                _ => Err(Unsupported { instrument: self.info.id, inst_type: inst_type_of(self.terms) }),
            }),
    {
        match &self.terms {
            Terms::Bond { issuer_type, .. } => Ok(*issuer_type),
            _ => Err(Unsupported { instrument: self.info.id, inst_type: self.get_type() }),
        }
    }

    pub fn get_credit_rating(&self) -> (r: Result<CreditRating, Unsupported>)
        ensures
            r == (match self.terms {
                Terms::Bond { credit_rating, .. } => Ok(credit_rating),
                _ => Err(Unsupported { instrument: self.info.id, inst_type: inst_type_of(self.terms) }),
            }),
    {
        match &self.terms {
            Terms::Bond { credit_rating, .. } => Ok(*credit_rating),
            _ => Err(Unsupported { instrument: self.info.id, inst_type: self.get_type() }),
        }
    }

    pub fn get_option_daily_settlement_type(&self) -> (r: Result<OptionDailySettlementType, Unsupported>)
        ensures
            r == (match self.terms {
                Terms::VanillaOption { settlement, .. } => Ok(settlement),
                _ => Err(Unsupported { instrument: self.info.id, inst_type: inst_type_of(self.terms) }),
            }),
    {
        match &self.terms {
            Terms::VanillaOption { settlement, .. } => Ok(*settlement),
            _ => Err(Unsupported { instrument: self.info.id, inst_type: self.get_type() }),
        }
    }

    pub fn get_specific_plain_swap_type(&self) -> (r: Result<PlainSwapType, Unsupported>)
        ensures
            r == (match self.terms {
                Terms::PlainSwap { swap_type, .. } => Ok(swap_type),
                _ => Err(Unsupported { instrument: self.info.id, inst_type: inst_type_of(self.terms) }),
            }),
    {
        match &self.terms {
            Terms::PlainSwap { swap_type, .. } => Ok(*swap_type),
            _ => Err(Unsupported { instrument: self.info.id, inst_type: self.get_type() }),
        }
    }

    pub fn get_all_fxcodes_for_pricing(&self) -> (r: Vec<FxCode>)
        ensures
            r@ == fxcodes_for_pricing_of(*self),
    {
        match &self.terms {
            Terms::FxFutures { underlying_currency } => vec![FxCode::new(*underlying_currency, self.info.currency)],
            Terms::PlainSwap { .. } => match self.get_floating_to_fixed_fxcode() {
                Some(fx) => vec![fx],
                None => Vec::new(),
            },
            Terms::VanillaOption { underlying_currency, .. } => {
                if *underlying_currency == self.info.currency {
                    Vec::new()
                } else {
                    vec![FxCode::new(*underlying_currency, self.info.currency)]
                }
            },
            _ => Vec::new(),
        }
    }

    pub fn get_underlying_ids_requiring_volatility(&self) -> (r: Vec<Id>)
        ensures
            r@ == underlying_ids_requiring_volatility_of(self.terms),
    {
        match &self.terms {
            Terms::VanillaOption { underlying_id, .. } => vec![*underlying_id],
            _ => Vec::new(),
        }
    }

    pub fn get_floating_to_fixed_fxcode(&self) -> (r: Option<FxCode>)
        ensures
            r == floating_to_fixed_of(self.terms),
    {
        match &self.terms {
            Terms::PlainSwap { fixed_leg_currency, floating_leg_currency, .. } => {
                if *fixed_leg_currency == *floating_leg_currency {
                    None
                } else {
                    Some(FxCode::new(*floating_leg_currency, *fixed_leg_currency))
                }
            },
            _ => None,
        }
    }

    /// The pair an FX futures contract is written on: its underlying currency
    /// priced in its own currency.
    pub fn get_fxfutures_und_fxcode(&self) -> (r: Result<FxCode, Unsupported>)
        ensures
            r == (match self.terms {
                Terms::FxFutures { underlying_currency } => Ok(
                    FxCode { currency1: underlying_currency, currency2: self.info.currency },
                ),
                _ => Err(Unsupported { instrument: self.info.id, inst_type: inst_type_of(self.terms) }),
            }),
    {
        match &self.terms {
            Terms::FxFutures { underlying_currency } => Ok(FxCode::new(*underlying_currency, self.info.currency)),
            _ => Err(Unsupported { instrument: self.info.id, inst_type: self.get_type() }),
        }
    }
}

} // verus!
