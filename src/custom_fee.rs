//! Custom fees that a token charges on transfers.
use vstd::prelude::*;

use crate::error::DecodeError;
use crate::ids::{
    lemma_narrow_widen, lemma_opt_id_round_trip, narrow, opt_id_from_wire, opt_id_to_wire,
    spec_opt_id_from_wire, spec_opt_id_to_wire, widen, AccountId, EntityId, TokenId,
};
use crate::wire;

verus! {

/// A fixed amount, in hbar or in units of a token.
#[derive(Clone, Copy, Debug, PartialEq, Eq, Structural)]
pub struct FixedFee {
    pub amount: u64,
    /// The token the amount is in; hbar where unset.
    pub denominating_token_id: Option<TokenId>,
}

/// Whether a fractional fee comes out of the amount transferred or on top of it.
#[derive(Clone, Copy, Debug, PartialEq, Eq, Structural)]
pub enum FeeAssessmentMethod {
    /// The fee is taken from the amount the receiver gets.
    Inclusive,
    /// The fee is charged to the sender on top of the amount.
    Exclusive,
}

/// A fraction of each transfer, between a minimum and a maximum.
#[derive(Clone, Copy, Debug, PartialEq, Eq, Structural)]
pub struct FractionalFee {
    pub numerator: u64,
    pub denominator: u64,
    pub minimum_amount: u64,
    pub maximum_amount: u64,
    pub assessment_method: FeeAssessmentMethod,
}

/// A fraction of the value exchanged for an NFT, with a fixed fee where nothing
/// is exchanged.
#[derive(Clone, Copy, Debug, PartialEq, Eq, Structural)]
pub struct RoyaltyFee {
    pub numerator: u64,
    pub denominator: u64,
    pub fallback_fee: Option<FixedFee>,
}

/// The kind of a custom fee.
#[derive(Clone, Copy, Debug, PartialEq, Eq, Structural)]
pub enum AnyCustomFeeKind {
    Fixed(FixedFee),
    Fractional(FractionalFee),
    Royalty(RoyaltyFee),
}

/// A custom fee and the account that collects it.
#[derive(Clone, Copy, Debug, PartialEq, Eq, Structural)]
pub struct AnyCustomFee {
    pub fee: AnyCustomFeeKind,
    pub fee_collector_account_id: Option<AccountId>,
    pub all_collectors_are_exempt: bool,
}

impl FixedFee {
    pub open spec fn spec_to_wire(self) -> wire::FixedFee {
        wire::FixedFee {
            amount: narrow(self.amount),
            denominating_token_id: spec_opt_id_to_wire(self.denominating_token_id),
        }
    }

    pub open spec fn spec_from_wire(w: wire::FixedFee) -> FixedFee {
        FixedFee {
            amount: widen(w.amount),
            denominating_token_id: spec_opt_id_from_wire(w.denominating_token_id),
        }
    }

    fn to_wire(&self) -> (r: wire::FixedFee)
        ensures
            r == self.spec_to_wire(),
    {
        wire::FixedFee {
            amount: self.amount as i64,
            denominating_token_id: opt_id_to_wire(self.denominating_token_id),
        }
    }

    fn from_wire(w: wire::FixedFee) -> (r: FixedFee)
        ensures
            r == FixedFee::spec_from_wire(w),
    {
        FixedFee {
            amount: w.amount as u64,
            denominating_token_id: opt_id_from_wire(w.denominating_token_id),
        }
    }

    proof fn lemma_round_trip(self)
        ensures
            FixedFee::spec_from_wire(self.spec_to_wire()) == self,
    {
        lemma_narrow_widen(self.amount);
        lemma_opt_id_round_trip(self.denominating_token_id);
    }
}

impl AnyCustomFee {
    pub open spec fn spec_to_wire(self) -> wire::CustomFee {
        let fee = match self.fee {
            AnyCustomFeeKind::Fixed(f) => wire::Fee::FixedFee(f.spec_to_wire()),
            AnyCustomFeeKind::Fractional(f) => wire::Fee::FractionalFee(
                wire::FractionalFee {
                    fractional_amount: Some(
                        wire::Fraction { numerator: narrow(f.numerator), denominator: narrow(f.denominator) },
                    ),
                    minimum_amount: narrow(f.minimum_amount),
                    maximum_amount: narrow(f.maximum_amount),
                    net_of_transfers: f.assessment_method == FeeAssessmentMethod::Exclusive,
                },
            ),
            AnyCustomFeeKind::Royalty(f) => wire::Fee::RoyaltyFee(
                wire::RoyaltyFee {
                    exchange_value_fraction: Some(
                        wire::Fraction { numerator: narrow(f.numerator), denominator: narrow(f.denominator) },
                    ),
                    fallback_fee: match f.fallback_fee {
                        Some(ff) => Some(ff.spec_to_wire()),
                        None => None,
                    },
                },
            ),
        };
        wire::CustomFee {
            fee: Some(fee),
            fee_collector_account_id: spec_opt_id_to_wire(self.fee_collector_account_id),
            all_collectors_are_exempt: self.all_collectors_are_exempt,
        }
    }

    /// The fee that `w` stands for; the fee oneof and each fraction must be set.
    pub open spec fn spec_from_wire(w: wire::CustomFee) -> Result<AnyCustomFee, DecodeError> {
        let kind = match w.fee {
            None => Err(DecodeError::MissingField),
            Some(wire::Fee::FixedFee(f)) => Ok(AnyCustomFeeKind::Fixed(FixedFee::spec_from_wire(f))),
            Some(wire::Fee::FractionalFee(f)) => match f.fractional_amount {
                None => Err(DecodeError::MissingField),
                Some(fr) => Ok(
                    AnyCustomFeeKind::Fractional(
                        FractionalFee {
                            numerator: widen(fr.numerator),
                            denominator: widen(fr.denominator),
                            minimum_amount: widen(f.minimum_amount),
                            maximum_amount: widen(f.maximum_amount),
                            assessment_method: if f.net_of_transfers {
                                FeeAssessmentMethod::Exclusive
                            } else {
                                FeeAssessmentMethod::Inclusive
                            },
                        },
                    ),
                ),
            },
            Some(wire::Fee::RoyaltyFee(f)) => match f.exchange_value_fraction {
                None => Err(DecodeError::MissingField),
                Some(fr) => Ok(
                    AnyCustomFeeKind::Royalty(
                        RoyaltyFee {
                            numerator: widen(fr.numerator),
                            denominator: widen(fr.denominator),
                            fallback_fee: match f.fallback_fee {
                                Some(ff) => Some(FixedFee::spec_from_wire(ff)),
                                None => None,
                            },
                        },
                    ),
                ),
            },
        };
        match kind {
            Ok(fee) => Ok(
                AnyCustomFee {
                    fee,
                    fee_collector_account_id: spec_opt_id_from_wire(w.fee_collector_account_id),
                    all_collectors_are_exempt: w.all_collectors_are_exempt,
                },
            ),
            Err(e) => Err(e),
        }
    }

    /// Encodes this fee.
    pub fn to_wire(&self) -> (r: wire::CustomFee)
        ensures
            r == self.spec_to_wire(),
    {
        let fee = match self.fee {
            AnyCustomFeeKind::Fixed(f) => wire::Fee::FixedFee(f.to_wire()),
            AnyCustomFeeKind::Fractional(f) => wire::Fee::FractionalFee(
                wire::FractionalFee {
                    fractional_amount: Some(
                        wire::Fraction { numerator: f.numerator as i64, denominator: f.denominator as i64 },
                    ),
                    minimum_amount: f.minimum_amount as i64,
                    maximum_amount: f.maximum_amount as i64,
                    net_of_transfers: match f.assessment_method {
                        FeeAssessmentMethod::Exclusive => true,
                        FeeAssessmentMethod::Inclusive => false,
                    },
                },
            ),
            AnyCustomFeeKind::Royalty(f) => wire::Fee::RoyaltyFee(
                wire::RoyaltyFee {
                    exchange_value_fraction: Some(
                        wire::Fraction { numerator: f.numerator as i64, denominator: f.denominator as i64 },
                    ),
                    fallback_fee: match f.fallback_fee {
                        Some(ff) => Some(ff.to_wire()),
                        None => None,
                    },
                },
            ),
        };
        wire::CustomFee {
            fee: Some(fee),
            fee_collector_account_id: opt_id_to_wire(self.fee_collector_account_id),
            all_collectors_are_exempt: self.all_collectors_are_exempt,
        }
    }

    /// Decodes a fee.
    pub fn from_wire(w: wire::CustomFee) -> (r: Result<AnyCustomFee, DecodeError>)
        ensures
            r == AnyCustomFee::spec_from_wire(w),
    {
        let fee = match w.fee {
            None => return Err(DecodeError::MissingField),
            Some(wire::Fee::FixedFee(f)) => AnyCustomFeeKind::Fixed(FixedFee::from_wire(f)),
            Some(wire::Fee::FractionalFee(f)) => match f.fractional_amount {
                None => return Err(DecodeError::MissingField),
                Some(fr) => AnyCustomFeeKind::Fractional(
                    FractionalFee {
                        numerator: fr.numerator as u64,
                        denominator: fr.denominator as u64,
                        minimum_amount: f.minimum_amount as u64,
                        maximum_amount: f.maximum_amount as u64,
                        assessment_method: if f.net_of_transfers {
                            FeeAssessmentMethod::Exclusive
                        } else {
                            FeeAssessmentMethod::Inclusive
                        },
                    },
                ),
            },
            Some(wire::Fee::RoyaltyFee(f)) => match f.exchange_value_fraction {
                None => return Err(DecodeError::MissingField),
                Some(fr) => AnyCustomFeeKind::Royalty(
                    RoyaltyFee {
                        numerator: fr.numerator as u64,
                        denominator: fr.denominator as u64,
                        fallback_fee: match f.fallback_fee {
                            Some(ff) => Some(FixedFee::from_wire(ff)),
                            None => None,
                        },
                    },
                ),
            },
        };
        Ok(
            AnyCustomFee {
                fee,
                fee_collector_account_id: opt_id_from_wire(w.fee_collector_account_id),
                all_collectors_are_exempt: w.all_collectors_are_exempt,
            },
        )
    }

    /// Decoding the encoding of a fee gives it back.
    pub proof fn lemma_round_trip(self)
        ensures
            AnyCustomFee::spec_from_wire(self.spec_to_wire()) == Ok::<AnyCustomFee, DecodeError>(self),
    {
        lemma_opt_id_round_trip(self.fee_collector_account_id);
        match self.fee {
            AnyCustomFeeKind::Fixed(f) => f.lemma_round_trip(),
            AnyCustomFeeKind::Fractional(f) => {
                lemma_narrow_widen(f.numerator);
                lemma_narrow_widen(f.denominator);
                lemma_narrow_widen(f.minimum_amount);
                lemma_narrow_widen(f.maximum_amount);
            },
            AnyCustomFeeKind::Royalty(f) => {
                lemma_narrow_widen(f.numerator);
                lemma_narrow_widen(f.denominator);
                if let Some(ff) = f.fallback_fee {
                    ff.lemma_round_trip();
                }
            },
        }
    }
}

/// The fees that the wire list `ws` stands for, or the error of the first
/// that cannot be decoded.
pub open spec fn spec_fees_from_wire(ws: Seq<wire::CustomFee>) -> Result<Seq<AnyCustomFee>, DecodeError>
    decreases ws.len(),
{
    if ws.len() == 0 {
        Ok(Seq::empty())
    } else {
        match spec_fees_from_wire(ws.drop_last()) {
            Err(e) => Err(e),
            Ok(prefix) => match AnyCustomFee::spec_from_wire(ws.last()) {
                Err(e) => Err(e),
                Ok(f) => Ok(prefix.push(f)),
            },
        }
    }
}

impl AnyCustomFee {
    /// The token that the fee's fixed amount is in: that of a fixed fee, or of
    /// a royalty fee's fallback fee; none for a fractional fee.
    pub open spec fn spec_denominating_token_id(self) -> Option<TokenId> {
        match self.fee {
            AnyCustomFeeKind::Fixed(f) => f.denominating_token_id,
            AnyCustomFeeKind::Fractional(_) => None,
            AnyCustomFeeKind::Royalty(r) => match r.fallback_fee {
                Some(f) => f.denominating_token_id,
                None => None,
            },
        }
    }

    /// The token that the fee's fixed amount is in, where there is one.
    pub fn denominating_token_id(&self) -> (r: Option<TokenId>)
        ensures
            r == self.spec_denominating_token_id(),
    {
        match self.fee {
            AnyCustomFeeKind::Fixed(f) => f.denominating_token_id,
            AnyCustomFeeKind::Fractional(_) => None,
            AnyCustomFeeKind::Royalty(r) => match r.fallback_fee {
                Some(f) => f.denominating_token_id,
                None => None,
            },
        }
    }
}

/// The address fields of the fees, each possibly unset: for each fee in order,
/// its collector account, then its denominating token.
pub open spec fn fees_address_slots(fees: Seq<AnyCustomFee>) -> Seq<Option<EntityId>>
    decreases fees.len(),
{
    if fees.len() == 0 {
        Seq::empty()
    } else {
        fees_address_slots(fees.drop_last()) + seq![
            fees.last().fee_collector_account_id,
            fees.last().spec_denominating_token_id(),
        ]
    }
}

/// Appends to `ids` the address fields of the fees, as `fees_address_slots`
/// orders them.
pub fn push_fee_address_slots(ids: &mut Vec<Option<EntityId>>, fees: &Vec<AnyCustomFee>)
    ensures
        final(ids)@ == old(ids)@ + fees_address_slots(fees@),
{
    let ghost start = ids@;
    let mut i: usize = 0;
    while i < fees.len()
        invariant
            i <= fees@.len(),
            ids@ == start + fees_address_slots(fees@.subrange(0, i as int)),
        decreases fees@.len() - i,
    {
        assert(fees@.subrange(0, i + 1).drop_last() =~= fees@.subrange(0, i as int));
        let fee = fees[i];
        ids.push(fee.fee_collector_account_id);
        ids.push(fee.denominating_token_id());
        i = i + 1;
        assert(ids@ =~= start + fees_address_slots(fees@.subrange(0, i as int)));
    }
    assert(fees@.subrange(0, fees@.len() as int) =~= fees@);
}

/// The wire form of a list of fees.
pub open spec fn spec_fees_to_wire(fees: Seq<AnyCustomFee>) -> Seq<wire::CustomFee> {
    fees.map_values(|f: AnyCustomFee| f.spec_to_wire())
}

/// A failure in a prefix of the list is the failure of the whole list.
proof fn lemma_fees_error_extends(ws: Seq<wire::CustomFee>, i: int)
    requires
        0 <= i <= ws.len(),
        spec_fees_from_wire(ws.subrange(0, i)) is Err,
    ensures
        spec_fees_from_wire(ws) == spec_fees_from_wire(ws.subrange(0, i)),
    decreases ws.len() - i,
{
    if i < ws.len() {
        assert(ws.subrange(0, i + 1).drop_last() =~= ws.subrange(0, i));
        lemma_fees_error_extends(ws, i + 1);
    } else {
        assert(ws.subrange(0, i) =~= ws);
    }
}

/// Encodes a list of fees, in order.
pub fn fees_to_wire(fees: &Vec<AnyCustomFee>) -> (r: Vec<wire::CustomFee>)
    ensures
        r@ == spec_fees_to_wire(fees@),
{
    let mut out: Vec<wire::CustomFee> = Vec::new();
    let mut i: usize = 0;
    while i < fees.len()
        invariant
            i <= fees@.len(),
            out@ == spec_fees_to_wire(fees@.subrange(0, i as int)),
        decreases fees@.len() - i,
    {
        let w = fees[i].to_wire();
        out.push(w);
        i = i + 1;
        assert(out@ =~= spec_fees_to_wire(fees@.subrange(0, i as int)));
    }
    assert(fees@.subrange(0, fees@.len() as int) =~= fees@);
    out
}

/// Decodes a list of fees, in order; the first fee that cannot be decoded
/// gives the error.
pub fn fees_from_wire(ws: &Vec<wire::CustomFee>) -> (r: Result<Vec<AnyCustomFee>, DecodeError>)
    ensures
        r is Ok <==> spec_fees_from_wire(ws@) is Ok,
        r matches Ok(fees) ==> spec_fees_from_wire(ws@) == Ok::<Seq<AnyCustomFee>, DecodeError>(fees@),
        r matches Err(e) ==> spec_fees_from_wire(ws@) == Err::<Seq<AnyCustomFee>, DecodeError>(e),
{
    let mut out: Vec<AnyCustomFee> = Vec::new();
    let mut i: usize = 0;
    while i < ws.len()
        invariant
            i <= ws@.len(),
            spec_fees_from_wire(ws@.subrange(0, i as int)) == Ok::<Seq<AnyCustomFee>, DecodeError>(out@),
        decreases ws@.len() - i,
    {
        assert(ws@.subrange(0, i + 1).drop_last() =~= ws@.subrange(0, i as int));
        match AnyCustomFee::from_wire(ws[i]) {
            Ok(f) => {
                out.push(f);
            },
            Err(e) => {
                proof {
                    lemma_fees_error_extends(ws@, i + 1);
                }
                return Err(e);
            },
        }
        i = i + 1;
    }
    assert(ws@.subrange(0, ws@.len() as int) =~= ws@);
    Ok(out)
}

/// Decoding the encoding of a list of fees gives it back.
pub proof fn lemma_fees_round_trip(fees: Seq<AnyCustomFee>)
    ensures
        spec_fees_from_wire(spec_fees_to_wire(fees)) == Ok::<Seq<AnyCustomFee>, DecodeError>(fees),
    decreases fees.len(),
{
    if fees.len() > 0 {
        lemma_fees_round_trip(fees.drop_last());
        assert(spec_fees_to_wire(fees).drop_last() =~= spec_fees_to_wire(fees.drop_last()));
        fees.last().lemma_round_trip();
        let ws = spec_fees_to_wire(fees);
        assert(ws.len() == fees.len());
        assert(ws.last() == fees.last().spec_to_wire());
        assert(fees.drop_last().push(fees.last()) =~= fees);
    } else {
        assert(spec_fees_to_wire(fees) =~= Seq::<wire::CustomFee>::empty());
        assert(fees =~= Seq::<AnyCustomFee>::empty());
    }
}

} // verus!
