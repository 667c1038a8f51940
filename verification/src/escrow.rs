//! The escrow ledger: the balance a campaign holds for its plays.

use vstd::prelude::*;
use crate::errors::SamizdatError;

verus! {

/// What a balance leaves above the reserve that keeps its record alive;
/// nothing when it is below the reserve.
pub open spec fn spec_spendable_balance(lamports: u64, rent_exempt_minimum: u64) -> u64 {
    if lamports >= rent_exempt_minimum {
        (lamports - rent_exempt_minimum) as u64
    } else {
        0
    }
}

/// The custody balance of a record that holds `lamports`.
#[verifier::when_used_as_spec(spec_spendable_balance)]
pub fn spendable_balance(lamports: u64, rent_exempt_minimum: u64) -> (spendable: u64)
    ensures
        spendable == spec_spendable_balance(lamports, rent_exempt_minimum),
{
    lamports.saturating_sub(rent_exempt_minimum)
}

/// The balances of a payer and a campaign after the payer put `amount` into
/// the campaign: the payer must hold the amount, and the campaign's balance
/// must stay in range.
pub open spec fn spec_deposit(payer: u64, campaign: u64, amount: u64) -> Result<
    (u64, u64),
    SamizdatError,
> {
    if payer < amount {
        Err(SamizdatError::InsufficientFunds)
    } else if campaign + amount > u64::MAX {
        Err(SamizdatError::ArithmeticOverflow)
    } else {
        Ok(((payer - amount) as u64, (campaign + amount) as u64))
    }
}

/// Moves `amount` from a payer's balance into a campaign's balance.
#[verifier::when_used_as_spec(spec_deposit)]
pub fn deposit(payer: u64, campaign: u64, amount: u64) -> (balances: Result<
    (u64, u64),
    SamizdatError,
>)
    ensures
        balances == spec_deposit(payer, campaign, amount),
        balances matches Ok((payer_after, campaign_after)) ==> payer_after + campaign_after
            == payer + campaign,
{
    match payer.checked_sub(amount) {
        None => Err(SamizdatError::InsufficientFunds),
        Some(payer_after) => match campaign.checked_add(amount) {
            None => Err(SamizdatError::ArithmeticOverflow),
            Some(campaign_after) => Ok((payer_after, campaign_after)),
        },
    }
}

/// Whether a campaign that holds `campaign` can pay `amount` out and still
/// hold its reserve: its custody balance does not become negative.
pub open spec fn payout_keeps_reserve(campaign: u64, rent_exempt_minimum: u64, amount: u64) -> bool {
    campaign - amount >= rent_exempt_minimum
}

/// A payout that the custody balance does not cover would break into the
/// reserve; a payout of more than nothing keeps the reserve exactly when
/// the custody balance covers it.
pub proof fn lemma_payout_needs_custody(campaign: u64, rent_exempt_minimum: u64, amount: u64)
    ensures
        spec_spendable_balance(campaign, rent_exempt_minimum) < amount ==> !payout_keeps_reserve(
            campaign,
            rent_exempt_minimum,
            amount,
        ),
        amount > 0 ==> (payout_keeps_reserve(campaign, rent_exempt_minimum, amount)
            <==> spec_spendable_balance(campaign, rent_exempt_minimum) >= amount),
        payout_keeps_reserve(campaign, rent_exempt_minimum, amount) ==> spec_spendable_balance(
            (campaign - amount) as u64,
            rent_exempt_minimum,
        ) == spec_spendable_balance(campaign, rent_exempt_minimum) - amount,
{
}

/// The balances of a campaign and a payee after the campaign paid `amount`
/// out: the campaign must keep its reserve, and the payee's balance must
/// stay in range.
pub open spec fn spec_pay_out(campaign: u64, payee: u64, amount: u64, rent_exempt_minimum: u64)
    -> Result<(u64, u64), SamizdatError> {
    if !payout_keeps_reserve(campaign, rent_exempt_minimum, amount) || payee + amount > u64::MAX {
        Err(SamizdatError::ArithmeticOverflow)
    } else {
        Ok(((campaign - amount) as u64, (payee + amount) as u64))
    }
}

/// Moves exactly `amount` from a campaign's balance to a payee's balance,
/// unless that would take from the campaign's reserve.
#[verifier::when_used_as_spec(spec_pay_out)]
pub fn pay_out(campaign: u64, payee: u64, amount: u64, rent_exempt_minimum: u64) -> (balances:
    Result<(u64, u64), SamizdatError>)
    ensures
        balances == spec_pay_out(campaign, payee, amount, rent_exempt_minimum),
        balances matches Ok((campaign_after, payee_after)) ==> campaign_after + payee_after
            == campaign + payee && campaign_after >= rent_exempt_minimum,
        spec_spendable_balance(campaign, rent_exempt_minimum) < amount ==> balances is Err,
{
    match campaign.checked_sub(amount) {
        None => Err(SamizdatError::ArithmeticOverflow),
        Some(campaign_after) => if campaign_after < rent_exempt_minimum {
            Err(SamizdatError::ArithmeticOverflow)
        } else {
            match payee.checked_add(amount) {
                None => Err(SamizdatError::ArithmeticOverflow),
                Some(payee_after) => Ok((campaign_after, payee_after)),
            }
        },
    }
}

} // verus!
