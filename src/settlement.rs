use vstd::prelude::*;

use crate::errors::DataChainError;
use crate::identity::Identity;

verus! {

/// Lowest score a rating may give.
pub const RATING_MIN: u8 = 1;

/// Highest score a rating may give.
pub const RATING_MAX: u8 = 5;

/// Longest review text, in bytes.
pub const MAX_REVIEW_LENGTH: usize = 500;

/// A holding account of the fungible token, as the ledger shows it.
#[derive(Clone, Copy, Debug)]
pub struct TokenHolding {
    /// Address of the holding account itself.
    pub key: Identity,
    /// Principal allowed to move value out of it.
    pub owner: Identity,
    /// Token that the account holds.
    pub mint: Identity,
    /// Balance, in the smallest unit.
    pub amount: u64,
}

/// One movement of value that the ledger performs as part of an action.
#[derive(Clone, Copy, Debug)]
pub struct ValueTransfer {
    pub from: Identity,
    pub to: Identity,
    /// Principal that signs for `from`.
    pub authority: Identity,
    pub amount: u64,
}

/// How one kind of listing is sold: the settlement engine is shared, this
/// value says where the kinds differ.
#[derive(Clone, Copy, Debug)]
pub struct SettlementPolicy {
    /// Whether the owner of a listing may buy access to it.
    pub allow_owner_purchase: bool,
}

/// Datasets: an owner cannot buy their own dataset.
pub open spec fn dataset_policy() -> SettlementPolicy {
    SettlementPolicy { allow_owner_purchase: false }
}

/// Model queries: an owner may query their own model.
pub open spec fn model_policy() -> SettlementPolicy {
    SettlementPolicy { allow_owner_purchase: true }
}

impl SettlementPolicy {
    pub fn datasets() -> (r: SettlementPolicy)
        ensures
            r == dataset_policy(),
    {
        SettlementPolicy { allow_owner_purchase: false }
    }

    pub fn models() -> (r: SettlementPolicy)
        ensures
            r == model_policy(),
    {
        SettlementPolicy { allow_owner_purchase: true }
    }
}

/// A price split between the platform and the seller.
#[derive(Clone, Copy, Debug)]
pub struct FeeSplit {
    pub platform_fee: u64,
    pub seller_amount: u64,
}

/// The two transfers that pay for one acquisition.
#[derive(Clone, Copy, Debug)]
pub struct Settlement {
    /// Buyer to the platform's fee account.
    pub platform_fee: ValueTransfer,
    /// Buyer to the listing owner's holding account.
    pub seller_payment: ValueTransfer,
}

/// The platform's share of a price: rounded down, so the platform never
/// collects more than its percentage.
pub open spec fn platform_fee_of(price: int, fee_percentage: int) -> int {
    price * fee_percentage / 100
}

/// Number of bytes in the UTF-8 encoding of a text, as `str::len` reports it.
pub open spec fn byte_len(s: Seq<char>) -> nat {
    (vstd::utf8::encode_utf8(s).len() as usize) as nat
}

/// Whether `a + b` leaves the range of `u64`.
pub open spec fn overflows(a: u64, b: int) -> bool {
    a + b > u64::MAX
}

/// Whether an optional text is longer than `max` bytes.
pub open spec fn text_too_long(t: Option<String>, max: nat) -> bool {
    match t {
        Some(s) => byte_len(s@) > max,
        None => false,
    }
}

/// Number of bytes in a string.
pub fn text_len(s: &String) -> (r: usize)
    ensures
        r == byte_len(s@),
{
    s.as_str().len()
}

/// Whether an optional text exceeds `max` bytes.
pub fn exceeds(t: &Option<String>, max: usize) -> (r: bool)
    ensures
        r == text_too_long(*t, max as nat),
{
    match t {
        Some(s) => text_len(s) > max,
        None => false,
    }
}

/// `a + b`, or `InvalidParameters` where the sum leaves `u64`.
pub fn checked_sum(a: u64, b: u64) -> (r: Result<u64, DataChainError>)
    ensures
        match r {
            Ok(v) => !overflows(a, b as int) && v == a + b,
            Err(e) => overflows(a, b as int) && e == DataChainError::InvalidParameters,
        },
{
    match a.checked_add(b) {
        Some(v) => Ok(v),
        None => Err(DataChainError::InvalidParameters),
    }
}

/// Splits `price` into the platform's fee and the seller's amount. Fails
/// with `InvalidParameters` exactly where the fee would exceed the price,
/// which a percentage of at most 100 never does.
pub fn split_payment(price: u64, fee_percentage: u8) -> (r: Result<FeeSplit, DataChainError>)
    ensures
        match r {
            Ok(s) => {
                &&& platform_fee_of(price as int, fee_percentage as int) <= price
                &&& s.platform_fee == platform_fee_of(price as int, fee_percentage as int)
                &&& s.platform_fee + s.seller_amount == price
            },
            Err(e) => {
                &&& platform_fee_of(price as int, fee_percentage as int) > price
                &&& e == DataChainError::InvalidParameters
            },
        },
        fee_percentage <= 100 ==> r is Ok,
{
    proof {
        assert((price as int) * (fee_percentage as int) <= (u64::MAX as int) * 255)
            by (nonlinear_arith)
            requires
                price <= u64::MAX,
                fee_percentage <= 255,
        ;
        assert(fee_percentage <= 100 ==> platform_fee_of(price as int, fee_percentage as int)
            <= price) by (nonlinear_arith)
            requires
                price >= 0,
        ;
    }
    let wide: u128 = (price as u128) * (fee_percentage as u128) / 100;
    if wide > price as u128 {
        return Err(DataChainError::InvalidParameters);
    }
    let platform_fee = wide as u64;
    Ok(FeeSplit { platform_fee, seller_amount: price - platform_fee })
}

/// One buyer about to acquire access to one listing, with the holding
/// accounts that the payment moves between.
#[derive(Clone, Copy, Debug)]
pub struct Acquisition {
    /// The authenticated caller who pays.
    pub payer: Identity,
    /// Address of the listing account that was loaded.
    pub listing_key: Identity,
    pub listing_owner: Identity,
    pub price: u64,
    /// The marketplace's platform fee, in percent.
    pub fee_percentage: u8,
    /// The principal configured to receive platform fees.
    pub fee_recipient: Identity,
    pub payer_token: TokenHolding,
    pub owner_token: TokenHolding,
    pub fee_token: TokenHolding,
}

/// Why the settlement engine refuses an acquisition, if it does: the
/// self-purchase policy, then the owners of the three holding accounts, then
/// the listing's identity, then the fee split.
pub open spec fn acquisition_error(
    policy: SettlementPolicy,
    a: Acquisition,
    listing_id: Identity,
    not_found: DataChainError,
) -> Option<DataChainError> {
    if !policy.allow_owner_purchase && a.payer == a.listing_owner {
        Some(DataChainError::Unauthorized)
    } else if a.payer_token.owner != a.payer || a.owner_token.owner != a.listing_owner
        || a.fee_token.owner != a.fee_recipient {
        Some(DataChainError::Unauthorized)
    } else if a.listing_key != listing_id {
        Some(not_found)
    } else if platform_fee_of(a.price as int, a.fee_percentage as int) > a.price {
        Some(DataChainError::InvalidParameters)
    } else {
        None
    }
}

/// The two transfers that pay `a.price`: the platform's fee to the fee
/// account, the rest to the owner's holding account, both from the payer.
pub open spec fn settlement_of(a: Acquisition) -> Settlement {
    let fee = platform_fee_of(a.price as int, a.fee_percentage as int);
    Settlement {
        platform_fee: ValueTransfer {
            from: a.payer_token.key,
            to: a.fee_token.key,
            authority: a.payer,
            amount: fee as u64,
        },
        seller_payment: ValueTransfer {
            from: a.payer_token.key,
            to: a.owner_token.key,
            authority: a.payer,
            amount: (a.price - fee) as u64,
        },
    }
}

/// Checks an acquisition and computes the transfers that pay for it.
pub fn settle(
    policy: SettlementPolicy,
    a: &Acquisition,
    listing_id: Identity,
    not_found: DataChainError,
) -> (r: Result<Settlement, DataChainError>)
    ensures
        match r {
            Ok(s) => acquisition_error(policy, *a, listing_id, not_found) is None && s
                == settlement_of(*a),
            Err(e) => acquisition_error(policy, *a, listing_id, not_found) == Some(e),
        },
{
    if !policy.allow_owner_purchase && a.payer.same(&a.listing_owner) {
        return Err(DataChainError::Unauthorized);
    }
    if !a.payer_token.owner.same(&a.payer) || !a.owner_token.owner.same(&a.listing_owner)
        || !a.fee_token.owner.same(&a.fee_recipient) {
        return Err(DataChainError::Unauthorized);
    }
    if !a.listing_key.same(&listing_id) {
        return Err(not_found);
    }
    let split = match split_payment(a.price, a.fee_percentage) {
        Ok(split) => split,
        Err(e) => return Err(e),
    };
    Ok(Settlement {
        platform_fee: ValueTransfer {
            from: a.payer_token.key,
            to: a.fee_token.key,
            authority: a.payer,
            amount: split.platform_fee,
        },
        seller_payment: ValueTransfer {
            from: a.payer_token.key,
            to: a.owner_token.key,
            authority: a.payer,
            amount: split.seller_amount,
        },
    })
}

/// Why a rating is refused before the listing is looked at, if it is: the
/// access record must belong to the rater (`Unauthorized`), name the listing
/// (`mismatch`) and not have been used for a rating (`AlreadyRated`); the
/// score must lie in `RATING_MIN..=RATING_MAX` (`InvalidRating`) and the
/// review fit `MAX_REVIEW_LENGTH` bytes (`InvalidParameters`).
pub open spec fn rating_error(
    rater: Identity,
    holder: Identity,
    record_listing: Identity,
    listing_key: Identity,
    has_rated: bool,
    mismatch: DataChainError,
    rating_value: u8,
    review: Option<String>,
) -> Option<DataChainError> {
    if holder != rater {
        Some(DataChainError::Unauthorized)
    } else if record_listing != listing_key {
        Some(mismatch)
    } else if has_rated {
        Some(DataChainError::AlreadyRated)
    } else if rating_value < RATING_MIN || rating_value > RATING_MAX {
        Some(DataChainError::InvalidRating)
    } else if text_too_long(review, MAX_REVIEW_LENGTH as nat) {
        Some(DataChainError::InvalidParameters)
    } else {
        None
    }
}

/// Checks that an access record entitles `rater` to one rating of the
/// listing at `listing_key`, and that the rating itself is well formed.
pub fn check_rating(
    rater: Identity,
    holder: Identity,
    record_listing: Identity,
    listing_key: Identity,
    has_rated: bool,
    mismatch: DataChainError,
    rating_value: u8,
    review: &Option<String>,
) -> (r: Result<(), DataChainError>)
    ensures
        match r {
            Ok(_) => rating_error(
                rater,
                holder,
                record_listing,
                listing_key,
                has_rated,
                mismatch,
                rating_value,
                *review,
            ) is None,
            Err(e) => rating_error(
                rater,
                holder,
                record_listing,
                listing_key,
                has_rated,
                mismatch,
                rating_value,
                *review,
            ) == Some(e),
        },
{
    if !holder.same(&rater) {
        return Err(DataChainError::Unauthorized);
    }
    if !record_listing.same(&listing_key) {
        return Err(mismatch);
    }
    if has_rated {
        return Err(DataChainError::AlreadyRated);
    }
    if rating_value < RATING_MIN || rating_value > RATING_MAX {
        return Err(DataChainError::InvalidRating);
    }
    if exceeds(review, MAX_REVIEW_LENGTH) {
        return Err(DataChainError::InvalidParameters);
    }
    Ok(())
}

/// No value is created or destroyed by a sale: with a fee of at most 100%,
/// the platform's fee and the seller's amount add up to the price exactly,
/// and the fee is the price times the percentage over 100, rounded down.
pub proof fn lemma_settlement_conserves_price(a: Acquisition)
    requires
        a.fee_percentage <= 100,
    ensures
        settlement_of(a).platform_fee.amount + settlement_of(a).seller_payment.amount == a.price,
        settlement_of(a).platform_fee.amount == a.price * a.fee_percentage / 100,
{
    assert(0 <= platform_fee_of(a.price as int, a.fee_percentage as int) <= a.price)
        by (nonlinear_arith)
        requires
            a.price >= 0,
            0 <= a.fee_percentage <= 100,
    ;
}

} // verus!
