use vstd::prelude::*;

use crate::errors::DataChainError;
use crate::identity::Identity;
use crate::settlement::{
    acquisition_error, byte_len, check_rating, checked_sum, dataset_policy, overflows,
    rating_error, settle, settlement_of, text_len, text_too_long, Acquisition, Settlement,
    SettlementPolicy, TokenHolding, MAX_REVIEW_LENGTH, RATING_MAX, RATING_MIN,
};

verus! {

/// Platform fee that a dataset marketplace is usually set up with, in percent.
pub const PLATFORM_FEE_PERCENTAGE: u8 = 2;

pub const MARKETPLACE_VERSION: u8 = 1;

pub const MAX_DATASET_NAME_LENGTH: usize = 50;

pub const MAX_DATASET_DESCRIPTION_LENGTH: usize = 500;

pub const MAX_DATA_TYPE_LENGTH: usize = 50;

pub const MAX_URI_LENGTH: usize = 200;

/// A dataset offered for sale.
#[derive(Clone, Debug)]
pub struct Dataset {
    pub owner: Identity,
    pub name: String,
    pub description: String,
    pub data_type: String,
    /// Price of one purchase, in the smallest unit; never 0.
    pub price: u64,
    pub uri: String,
    pub preview_uri: String,
    pub purchases: u64,
    pub rating_sum: u64,
    pub rating_count: u64,
    pub created_at: i64,
    pub updated_at: i64,
    pub version: u8,
}

/// Proof that a buyer paid for a dataset; it allows one rating.
#[derive(Clone, Copy, Debug)]
pub struct PurchaseRecord {
    pub buyer: Identity,
    pub dataset: Identity,
    pub purchased_at: i64,
    pub has_rated: bool,
    pub price_paid: u64,
}

/// A buyer's rating of a dataset.
#[derive(Clone, Debug)]
pub struct DatasetRating {
    pub rater: Identity,
    pub dataset: Identity,
    pub rating: u8,
    pub review: Option<String>,
    pub rated_at: i64,
}

/// The dataset marketplace's singleton configuration and totals.
#[derive(Clone, Copy, Debug)]
pub struct MarketplaceConfig {
    pub authority: Identity,
    pub platform_fee_percentage: u8,
    pub platform_fee_recipient: Identity,
    pub total_datasets: u64,
    pub total_purchases: u64,
    pub total_volume: u64,
    pub version: u8,
}

impl MarketplaceConfig {
    /// The fee never exceeds the price.
    pub open spec fn wf(&self) -> bool {
        self.platform_fee_percentage <= 100
    }
}

/// The accounts that registering a dataset reads and writes.
#[derive(Clone, Copy, Debug)]
pub struct RegisterDataset {
    /// The authenticated caller, who will own the dataset.
    pub owner: Identity,
    pub marketplace_config: MarketplaceConfig,
    /// The ledger's clock, read once for the action.
    pub now: i64,
}

/// The accounts that a purchase reads and writes.
#[derive(Clone, Debug)]
pub struct PurchaseDataset {
    /// The authenticated caller, who pays.
    pub buyer: Identity,
    /// Address of the dataset account that was loaded.
    pub dataset_key: Identity,
    pub dataset: Dataset,
    pub buyer_token: TokenHolding,
    pub owner_token: TokenHolding,
    pub platform_fee_token: TokenHolding,
    pub marketplace_config: MarketplaceConfig,
    pub now: i64,
}

/// The accounts that rating a dataset reads and writes.
#[derive(Clone, Debug)]
pub struct RateDataset {
    /// The authenticated caller.
    pub rater: Identity,
    /// Address of the dataset account that was loaded.
    pub dataset_key: Identity,
    pub dataset: Dataset,
    pub purchase_record: PurchaseRecord,
    pub now: i64,
}

/// The accounts that setting up the dataset marketplace reads.
#[derive(Clone, Copy, Debug)]
pub struct InitializeMarketplace {
    /// The authenticated caller, who becomes the marketplace's authority.
    pub authority: Identity,
    pub platform_fee_recipient: Identity,
}

/// What a successful purchase hands to the ledger: the record to create and
/// the two transfers to perform, in one atomic batch.
#[derive(Clone, Copy, Debug)]
pub struct Purchase {
    pub record: PurchaseRecord,
    pub settlement: Settlement,
}

/// Why registering a dataset fails, if it does.
pub open spec fn register_dataset_error(
    ctx: RegisterDataset,
    name: String,
    description: String,
    data_type: String,
    price: u64,
    uri: String,
    preview_uri: String,
) -> Option<DataChainError> {
    if byte_len(name@) > MAX_DATASET_NAME_LENGTH || byte_len(description@)
        > MAX_DATASET_DESCRIPTION_LENGTH || byte_len(data_type@) > MAX_DATA_TYPE_LENGTH
        || byte_len(uri@) > MAX_URI_LENGTH || byte_len(preview_uri@) > MAX_URI_LENGTH {
        Some(DataChainError::InvalidParameters)
    } else if price == 0 {
        Some(DataChainError::InvalidDatasetPrice)
    } else if overflows(ctx.marketplace_config.total_datasets, 1) {
        Some(DataChainError::InvalidParameters)
    } else {
        None
    }
}

/// Registers a dataset owned by the caller, with zeroed counters.
pub fn register_dataset(
    ctx: &mut RegisterDataset,
    name: String,
    description: String,
    data_type: String,
    price: u64,
    uri: String,
    preview_uri: String,
) -> (r: Result<Dataset, DataChainError>)
    ensures
        match r {
            Ok(d) => {
                &&& register_dataset_error(
                    *old(ctx),
                    name,
                    description,
                    data_type,
                    price,
                    uri,
                    preview_uri,
                ) is None
                &&& d == (Dataset {
                    owner: old(ctx).owner,
                    name,
                    description,
                    data_type,
                    price,
                    uri,
                    preview_uri,
                    purchases: 0,
                    rating_sum: 0,
                    rating_count: 0,
                    created_at: old(ctx).now,
                    updated_at: old(ctx).now,
                    version: MARKETPLACE_VERSION,
                })
                &&& *final(ctx) == (RegisterDataset {
                    marketplace_config: MarketplaceConfig {
                        total_datasets: (old(ctx).marketplace_config.total_datasets + 1) as u64,
                        ..old(ctx).marketplace_config
                    },
                    ..*old(ctx)
                })
            },
            Err(e) => {
                &&& register_dataset_error(
                    *old(ctx),
                    name,
                    description,
                    data_type,
                    price,
                    uri,
                    preview_uri,
                ) == Some(e)
                &&& *final(ctx) == *old(ctx)
            },
        },
{
    if text_len(&name) > MAX_DATASET_NAME_LENGTH || text_len(&description)
        > MAX_DATASET_DESCRIPTION_LENGTH || text_len(&data_type) > MAX_DATA_TYPE_LENGTH
        || text_len(&uri) > MAX_URI_LENGTH || text_len(&preview_uri) > MAX_URI_LENGTH {
        return Err(DataChainError::InvalidParameters);
    }
    if price == 0 {
        return Err(DataChainError::InvalidDatasetPrice);
    }
    let total_datasets = match checked_sum(ctx.marketplace_config.total_datasets, 1) {
        Ok(v) => v,
        Err(e) => return Err(e),
    };
    ctx.marketplace_config.total_datasets = total_datasets;
    Ok(
        Dataset {
            owner: ctx.owner,
            name,
            description,
            data_type,
            price,
            uri,
            preview_uri,
            purchases: 0,
            rating_sum: 0,
            rating_count: 0,
            created_at: ctx.now,
            updated_at: ctx.now,
            version: MARKETPLACE_VERSION,
        },
    )
}

/// The acquisition that a purchase asks the settlement engine to pay for.
pub open spec fn purchase_terms(ctx: PurchaseDataset) -> Acquisition {
    Acquisition {
        payer: ctx.buyer,
        listing_key: ctx.dataset_key,
        listing_owner: ctx.dataset.owner,
        price: ctx.dataset.price,
        fee_percentage: ctx.marketplace_config.platform_fee_percentage,
        fee_recipient: ctx.marketplace_config.platform_fee_recipient,
        payer_token: ctx.buyer_token,
        owner_token: ctx.owner_token,
        fee_token: ctx.platform_fee_token,
    }
}

/// Why a purchase fails, if it does: the settlement engine's checks under
/// the dataset policy, then the counters that the purchase raises.
pub open spec fn purchase_dataset_error(ctx: PurchaseDataset, dataset_id: Identity) -> Option<
    DataChainError,
> {
    match acquisition_error(
        dataset_policy(),
        purchase_terms(ctx),
        dataset_id,
        DataChainError::DatasetNotFound,
    ) {
        Some(e) => Some(e),
        None => if overflows(ctx.dataset.purchases, 1) || overflows(
            ctx.marketplace_config.total_purchases,
            1,
        ) || overflows(ctx.marketplace_config.total_volume, ctx.dataset.price as int) {
            Some(DataChainError::InvalidParameters)
        } else {
            None
        },
    }
}

/// The accounts after a successful purchase: one more purchase of the
/// dataset, one more and `price` more volume in the marketplace's totals.
pub open spec fn purchased(ctx: PurchaseDataset) -> PurchaseDataset {
    PurchaseDataset {
        dataset: Dataset { purchases: (ctx.dataset.purchases + 1) as u64, ..ctx.dataset },
        marketplace_config: MarketplaceConfig {
            total_purchases: (ctx.marketplace_config.total_purchases + 1) as u64,
            total_volume: (ctx.marketplace_config.total_volume + ctx.dataset.price) as u64,
            ..ctx.marketplace_config
        },
        ..ctx
    }
}

/// The record that a successful purchase creates.
pub open spec fn purchase_record_of(ctx: PurchaseDataset) -> PurchaseRecord {
    PurchaseRecord {
        buyer: ctx.buyer,
        dataset: ctx.dataset_key,
        purchased_at: ctx.now,
        has_rated: false,
        price_paid: ctx.dataset.price,
    }
}

/// Buys access to a dataset: checks everything, raises the counters, and
/// returns the access record and the transfers that pay the platform and the
/// owner. On an error nothing changes.
pub fn purchase_dataset(ctx: &mut PurchaseDataset, dataset_id: Identity) -> (r: Result<
    Purchase,
    DataChainError,
>)
    ensures
        match r {
            Ok(p) => {
                &&& purchase_dataset_error(*old(ctx), dataset_id) is None
                &&& *final(ctx) == purchased(*old(ctx))
                &&& p.record == purchase_record_of(*old(ctx))
                &&& p.settlement == settlement_of(purchase_terms(*old(ctx)))
            },
            Err(e) => {
                &&& purchase_dataset_error(*old(ctx), dataset_id) == Some(e)
                &&& *final(ctx) == *old(ctx)
            },
        },
{
    let terms = Acquisition {
        payer: ctx.buyer,
        listing_key: ctx.dataset_key,
        listing_owner: ctx.dataset.owner,
        price: ctx.dataset.price,
        fee_percentage: ctx.marketplace_config.platform_fee_percentage,
        fee_recipient: ctx.marketplace_config.platform_fee_recipient,
        payer_token: ctx.buyer_token,
        owner_token: ctx.owner_token,
        fee_token: ctx.platform_fee_token,
    };
    let settlement = match settle(
        SettlementPolicy::datasets(),
        &terms,
        dataset_id,
        DataChainError::DatasetNotFound,
    ) {
        Ok(s) => s,
        Err(e) => return Err(e),
    };
    let price = ctx.dataset.price;
    let purchases = match checked_sum(ctx.dataset.purchases, 1) {
        Ok(v) => v,
        Err(e) => return Err(e),
    };
    let total_purchases = match checked_sum(ctx.marketplace_config.total_purchases, 1) {
        Ok(v) => v,
        Err(e) => return Err(e),
    };
    let total_volume = match checked_sum(ctx.marketplace_config.total_volume, price) {
        Ok(v) => v,
        Err(e) => return Err(e),
    };
    ctx.dataset.purchases = purchases;
    ctx.marketplace_config.total_purchases = total_purchases;
    ctx.marketplace_config.total_volume = total_volume;
    let record = PurchaseRecord {
        buyer: ctx.buyer,
        dataset: ctx.dataset_key,
        purchased_at: ctx.now,
        has_rated: false,
        price_paid: price,
    };
    Ok(Purchase { record, settlement })
}

/// Why rating a dataset fails, if it does: the access record and the rating
/// itself, then the dataset's identity, then its rating counters.
pub open spec fn rate_dataset_error(
    ctx: RateDataset,
    dataset_id: Identity,
    rating_value: u8,
    review: Option<String>,
) -> Option<DataChainError> {
    match rating_error(
        ctx.rater,
        ctx.purchase_record.buyer,
        ctx.purchase_record.dataset,
        ctx.dataset_key,
        ctx.purchase_record.has_rated,
        DataChainError::AccessNotPurchased,
        rating_value,
        review,
    ) {
        Some(e) => Some(e),
        None => if ctx.dataset_key != dataset_id {
            Some(DataChainError::DatasetNotFound)
        } else if overflows(ctx.dataset.rating_sum, rating_value as int) || overflows(
            ctx.dataset.rating_count,
            1,
        ) {
            Some(DataChainError::InvalidParameters)
        } else {
            None
        },
    }
}

/// The accounts after a successful rating: the record is used up and the
/// score is added to the dataset's totals.
pub open spec fn rated(ctx: RateDataset, rating_value: u8) -> RateDataset {
    RateDataset {
        dataset: Dataset {
            rating_sum: (ctx.dataset.rating_sum + rating_value) as u64,
            rating_count: (ctx.dataset.rating_count + 1) as u64,
            ..ctx.dataset
        },
        purchase_record: PurchaseRecord { has_rated: true, ..ctx.purchase_record },
        ..ctx
    }
}

/// Rates a purchased dataset once, with a score from 1 to 5 and an optional
/// review; returns the rating to store. On an error nothing changes.
pub fn rate_dataset(
    ctx: &mut RateDataset,
    dataset_id: Identity,
    rating_value: u8,
    review: Option<String>,
) -> (r: Result<DatasetRating, DataChainError>)
    ensures
        match r {
            Ok(rating) => {
                &&& rate_dataset_error(*old(ctx), dataset_id, rating_value, review) is None
                &&& *final(ctx) == rated(*old(ctx), rating_value)
                &&& rating == (DatasetRating {
                    rater: old(ctx).rater,
                    dataset: old(ctx).dataset_key,
                    rating: rating_value,
                    review,
                    rated_at: old(ctx).now,
                })
            },
            Err(e) => {
                &&& rate_dataset_error(*old(ctx), dataset_id, rating_value, review) == Some(e)
                &&& *final(ctx) == *old(ctx)
            },
        },
{
    match check_rating(
        ctx.rater,
        ctx.purchase_record.buyer,
        ctx.purchase_record.dataset,
        ctx.dataset_key,
        ctx.purchase_record.has_rated,
        DataChainError::AccessNotPurchased,
        rating_value,
        &review,
    ) {
        Ok(_) => {},
        Err(e) => return Err(e),
    }
    if !ctx.dataset_key.same(&dataset_id) {
        return Err(DataChainError::DatasetNotFound);
    }
    let rating_sum = match checked_sum(ctx.dataset.rating_sum, rating_value as u64) {
        Ok(v) => v,
        Err(e) => return Err(e),
    };
    let rating_count = match checked_sum(ctx.dataset.rating_count, 1) {
        Ok(v) => v,
        Err(e) => return Err(e),
    };
    ctx.dataset.rating_sum = rating_sum;
    ctx.dataset.rating_count = rating_count;
    ctx.purchase_record.has_rated = true;
    Ok(
        DatasetRating {
            rater: ctx.rater,
            dataset: ctx.dataset_key,
            rating: rating_value,
            review,
            rated_at: ctx.now,
        },
    )
}

/// Sets up the dataset marketplace with a platform fee of at most 100%.
pub fn initialize_marketplace(ctx: &InitializeMarketplace, platform_fee_percentage: u8) -> (r:
    Result<MarketplaceConfig, DataChainError>)
    ensures
        match r {
            Ok(c) => {
                &&& platform_fee_percentage <= 100
                &&& c.wf()
                &&& c == (MarketplaceConfig {
                    authority: ctx.authority,
                    platform_fee_percentage,
                    platform_fee_recipient: ctx.platform_fee_recipient,
                    total_datasets: 0,
                    total_purchases: 0,
                    total_volume: 0,
                    version: MARKETPLACE_VERSION,
                })
            },
            Err(e) => platform_fee_percentage > 100 && e == DataChainError::InvalidParameters,
        },
{
    if platform_fee_percentage > 100 {
        return Err(DataChainError::InvalidParameters);
    }
    Ok(
        MarketplaceConfig {
            authority: ctx.authority,
            platform_fee_percentage,
            platform_fee_recipient: ctx.platform_fee_recipient,
            total_datasets: 0,
            total_purchases: 0,
            total_volume: 0,
            version: MARKETPLACE_VERSION,
        },
    )
}

/// A buyer can never purchase their own dataset, whatever else holds.
pub proof fn lemma_no_self_purchase(ctx: PurchaseDataset, dataset_id: Identity)
    requires
        ctx.buyer == ctx.dataset.owner,
    ensures
        purchase_dataset_error(ctx, dataset_id) == Some(DataChainError::Unauthorized),
{
}

/// A purchase record allows one rating: once a rating went through, any
/// further rating through the same record fails with `AlreadyRated`.
pub proof fn lemma_dataset_rated_once(
    ctx: RateDataset,
    dataset_id: Identity,
    rating_value: u8,
    review: Option<String>,
    next_id: Identity,
    next_value: u8,
    next_review: Option<String>,
)
    requires
        rate_dataset_error(ctx, dataset_id, rating_value, review) is None,
    ensures
        rate_dataset_error(rated(ctx, rating_value), next_id, next_value, next_review) == Some(
            DataChainError::AlreadyRated,
        ),
{
}

/// Rating without a purchase record of the rater for this very dataset
/// always fails.
pub proof fn lemma_dataset_rating_needs_purchase(
    ctx: RateDataset,
    dataset_id: Identity,
    rating_value: u8,
    review: Option<String>,
)
    requires
        ctx.purchase_record.buyer != ctx.rater || ctx.purchase_record.dataset != ctx.dataset_key,
    ensures
        rate_dataset_error(ctx, dataset_id, rating_value, review) is Some,
{
}

/// The accounts of a rating, at `rated_at`, by the buyer of a purchase that
/// went through, with the record that the purchase created.
pub open spec fn rating_after(ctx: PurchaseDataset, rated_at: i64) -> RateDataset {
    RateDataset {
        rater: ctx.buyer,
        dataset_key: ctx.dataset_key,
        dataset: purchased(ctx).dataset,
        purchase_record: purchase_record_of(ctx),
        now: rated_at,
    }
}

/// A purchase entitles its buyer to a rating: after it, a score from 1 to 5
/// with a review of at most `MAX_REVIEW_LENGTH` bytes goes through, unless
/// the rating counters would overflow.
pub proof fn lemma_purchase_allows_rating(
    ctx: PurchaseDataset,
    dataset_id: Identity,
    rated_at: i64,
    rating_value: u8,
    review: Option<String>,
)
    requires
        purchase_dataset_error(ctx, dataset_id) is None,
        RATING_MIN <= rating_value <= RATING_MAX,
        !text_too_long(review, MAX_REVIEW_LENGTH as nat),
        !overflows(ctx.dataset.rating_sum, rating_value as int),
        !overflows(ctx.dataset.rating_count, 1),
    ensures
        rate_dataset_error(rating_after(ctx, rated_at), dataset_id, rating_value, review) is None,
{
}

} // verus!
