use vstd::prelude::*;

use crate::errors::DataChainError;
use crate::identity::Identity;
use crate::settlement::{
    acquisition_error, byte_len, check_rating, checked_sum, model_policy, overflows, platform_fee_of,
    rating_error, settle, settlement_of, text_len, Acquisition, Settlement, SettlementPolicy,
    TokenHolding,
};

verus! {

pub const MODEL_VERSION: u8 = 1;

/// Platform fee that a model marketplace is usually set up with, in percent.
pub const PLATFORM_FEE_PERCENTAGE: u8 = 15;

pub const MAX_MODEL_NAME_LENGTH: usize = 50;

pub const MAX_MODEL_DESCRIPTION_LENGTH: usize = 500;

pub const MAX_MODEL_TYPE_LENGTH: usize = 50;

pub const MAX_URI_LENGTH: usize = 200;

pub const MAX_QUERY_PARAMS_LENGTH: usize = 1000;

/// An AI model whose queries are sold one at a time.
#[derive(Clone, Debug)]
pub struct AiModel {
    pub owner: Identity,
    pub name: String,
    pub description: String,
    pub model_type: String,
    /// Price of one query, in the smallest unit; never 0.
    pub price_per_query: u64,
    pub uri: String,
    pub usages: u64,
    pub rating_sum: u64,
    pub rating_count: u64,
    pub total_revenue: u64,
    pub created_at: i64,
    pub updated_at: i64,
    pub version: u8,
}

/// Proof that a user paid for one query of a model; it allows one rating.
#[derive(Clone, Debug)]
pub struct ModelUsage {
    pub user: Identity,
    pub model: Identity,
    pub used_at: i64,
    pub has_rated: bool,
    pub query_params: String,
    pub price_paid: u64,
}

/// A user's rating of a model.
#[derive(Clone, Debug)]
pub struct ModelRating {
    pub rater: Identity,
    pub model: Identity,
    pub rating: u8,
    pub review: Option<String>,
    pub rated_at: i64,
}

/// The model marketplace's singleton configuration and totals.
#[derive(Clone, Copy, Debug)]
pub struct ModelMarketplaceConfig {
    pub authority: Identity,
    pub platform_fee_percentage: u8,
    pub platform_fee_recipient: Identity,
    pub total_models: u64,
    pub total_usages: u64,
    pub total_volume: u64,
    pub version: u8,
}

impl ModelMarketplaceConfig {
    /// The fee never exceeds the price.
    pub open spec fn wf(&self) -> bool {
        self.platform_fee_percentage <= 100
    }
}

/// The accounts that registering a model reads and writes.
#[derive(Clone, Copy, Debug)]
pub struct RegisterModel {
    /// The authenticated caller, who will own the model.
    pub owner: Identity,
    pub marketplace_config: ModelMarketplaceConfig,
    /// The ledger's clock, read once for the action.
    pub now: i64,
}

/// The accounts that one paid query reads and writes.
#[derive(Clone, Debug)]
pub struct UseModel {
    /// The authenticated caller, who pays.
    pub user: Identity,
    /// Address of the model account that was loaded.
    pub model_key: Identity,
    pub model: AiModel,
    pub user_token: TokenHolding,
    pub owner_token: TokenHolding,
    pub platform_fee_token: TokenHolding,
    pub marketplace_config: ModelMarketplaceConfig,
    pub now: i64,
}

/// The accounts that rating a model reads and writes.
#[derive(Clone, Debug)]
pub struct RateModel {
    /// The authenticated caller.
    pub rater: Identity,
    /// Address of the model account that was loaded.
    pub model_key: Identity,
    pub model: AiModel,
    pub usage_record: ModelUsage,
    pub now: i64,
}

/// The accounts that setting up the model marketplace reads.
#[derive(Clone, Copy, Debug)]
pub struct InitializeModelMarketplace {
    /// The authenticated caller, who becomes the marketplace's authority.
    pub authority: Identity,
    pub platform_fee_recipient: Identity,
}

/// What a successful query hands to the ledger: the usage record to create
/// and the two transfers to perform, in one atomic batch.
#[derive(Clone, Debug)]
pub struct Usage {
    pub record: ModelUsage,
    pub settlement: Settlement,
}

/// Why registering a model fails, if it does.
pub open spec fn register_model_error(
    ctx: RegisterModel,
    name: String,
    description: String,
    model_type: String,
    price_per_query: u64,
    uri: String,
) -> Option<DataChainError> {
    if byte_len(name@) > MAX_MODEL_NAME_LENGTH || byte_len(description@)
        > MAX_MODEL_DESCRIPTION_LENGTH || byte_len(model_type@) > MAX_MODEL_TYPE_LENGTH
        || byte_len(uri@) > MAX_URI_LENGTH {
        Some(DataChainError::InvalidParameters)
    } else if price_per_query == 0 {
        Some(DataChainError::InvalidModelPrice)
    } else if overflows(ctx.marketplace_config.total_models, 1) {
        Some(DataChainError::InvalidParameters)
    } else {
        None
    }
}

/// Registers a model owned by the caller, with zeroed counters.
pub fn register_model(
    ctx: &mut RegisterModel,
    name: String,
    description: String,
    model_type: String,
    price_per_query: u64,
    uri: String,
) -> (r: Result<AiModel, DataChainError>)
    ensures
        match r {
            Ok(m) => {
                &&& register_model_error(
                    *old(ctx),
                    name,
                    description,
                    model_type,
                    price_per_query,
                    uri,
                ) is None
                &&& m == (AiModel {
                    owner: old(ctx).owner,
                    name,
                    description,
                    model_type,
                    price_per_query,
                    uri,
                    usages: 0,
                    rating_sum: 0,
                    rating_count: 0,
                    total_revenue: 0,
                    created_at: old(ctx).now,
                    updated_at: old(ctx).now,
                    version: MODEL_VERSION,
                })
                &&& *final(ctx) == (RegisterModel {
                    marketplace_config: ModelMarketplaceConfig {
                        total_models: (old(ctx).marketplace_config.total_models + 1) as u64,
                        ..old(ctx).marketplace_config
                    },
                    ..*old(ctx)
                })
            },
            Err(e) => {
                &&& register_model_error(
                    *old(ctx),
                    name,
                    description,
                    model_type,
                    price_per_query,
                    uri,
                ) == Some(e)
                &&& *final(ctx) == *old(ctx)
            },
        },
{
    if text_len(&name) > MAX_MODEL_NAME_LENGTH || text_len(&description)
        > MAX_MODEL_DESCRIPTION_LENGTH || text_len(&model_type) > MAX_MODEL_TYPE_LENGTH
        || text_len(&uri) > MAX_URI_LENGTH {
        return Err(DataChainError::InvalidParameters);
    }
    if price_per_query == 0 {
        return Err(DataChainError::InvalidModelPrice);
    }
    let total_models = match checked_sum(ctx.marketplace_config.total_models, 1) {
        Ok(v) => v,
        Err(e) => return Err(e),
    };
    ctx.marketplace_config.total_models = total_models;
    Ok(
        AiModel {
            owner: ctx.owner,
            name,
            description,
            model_type,
            price_per_query,
            uri,
            usages: 0,
            rating_sum: 0,
            rating_count: 0,
            total_revenue: 0,
            created_at: ctx.now,
            updated_at: ctx.now,
            version: MODEL_VERSION,
        },
    )
}

/// The acquisition that a query asks the settlement engine to pay for.
pub open spec fn usage_terms(ctx: UseModel) -> Acquisition {
    Acquisition {
        payer: ctx.user,
        listing_key: ctx.model_key,
        listing_owner: ctx.model.owner,
        price: ctx.model.price_per_query,
        fee_percentage: ctx.marketplace_config.platform_fee_percentage,
        fee_recipient: ctx.marketplace_config.platform_fee_recipient,
        payer_token: ctx.user_token,
        owner_token: ctx.owner_token,
        fee_token: ctx.platform_fee_token,
    }
}

/// Why a query fails, if it does: the length of its parameters, the
/// settlement engine's checks under the model policy, then the counters that
/// the query raises.
pub open spec fn use_model_error(ctx: UseModel, model_id: Identity, query_params: String) -> Option<
    DataChainError,
> {
    if byte_len(query_params@) > MAX_QUERY_PARAMS_LENGTH {
        Some(DataChainError::InvalidParameters)
    } else {
        match acquisition_error(
            model_policy(),
            usage_terms(ctx),
            model_id,
            DataChainError::ModelNotFound,
        ) {
            Some(e) => Some(e),
            None => {
                let price = ctx.model.price_per_query as int;
                if overflows(ctx.model.usages, 1) || overflows(ctx.model.total_revenue, price)
                    || overflows(ctx.marketplace_config.total_usages, 1) || overflows(
                    ctx.marketplace_config.total_volume,
                    price,
                ) {
                    Some(DataChainError::InvalidParameters)
                } else {
                    None
                }
            },
        }
    }
}

/// The accounts after a successful query: one more use and `price` more
/// revenue for the model, one more use and `price` more volume in the
/// marketplace's totals.
pub open spec fn used(ctx: UseModel) -> UseModel {
    let price = ctx.model.price_per_query;
    UseModel {
        model: AiModel {
            usages: (ctx.model.usages + 1) as u64,
            total_revenue: (ctx.model.total_revenue + price) as u64,
            ..ctx.model
        },
        marketplace_config: ModelMarketplaceConfig {
            total_usages: (ctx.marketplace_config.total_usages + 1) as u64,
            total_volume: (ctx.marketplace_config.total_volume + price) as u64,
            ..ctx.marketplace_config
        },
        ..ctx
    }
}

/// Pays for one query of a model: checks everything, raises the counters,
/// and returns the usage record and the transfers that pay the platform and
/// the owner. On an error nothing changes.
pub fn use_model(ctx: &mut UseModel, model_id: Identity, query_params: String) -> (r: Result<
    Usage,
    DataChainError,
>)
    ensures
        match r {
            Ok(u) => {
                &&& use_model_error(*old(ctx), model_id, query_params) is None
                &&& *final(ctx) == used(*old(ctx))
                &&& u.record == (ModelUsage {
                    user: old(ctx).user,
                    model: old(ctx).model_key,
                    used_at: old(ctx).now,
                    has_rated: false,
                    query_params,
                    price_paid: old(ctx).model.price_per_query,
                })
                &&& u.settlement == settlement_of(usage_terms(*old(ctx)))
            },
            Err(e) => {
                &&& use_model_error(*old(ctx), model_id, query_params) == Some(e)
                &&& *final(ctx) == *old(ctx)
            },
        },
{
    if text_len(&query_params) > MAX_QUERY_PARAMS_LENGTH {
        return Err(DataChainError::InvalidParameters);
    }
    let terms = Acquisition {
        payer: ctx.user,
        listing_key: ctx.model_key,
        listing_owner: ctx.model.owner,
        price: ctx.model.price_per_query,
        fee_percentage: ctx.marketplace_config.platform_fee_percentage,
        fee_recipient: ctx.marketplace_config.platform_fee_recipient,
        payer_token: ctx.user_token,
        owner_token: ctx.owner_token,
        fee_token: ctx.platform_fee_token,
    };
    let settlement = match settle(
        SettlementPolicy::models(),
        &terms,
        model_id,
        DataChainError::ModelNotFound,
    ) {
        Ok(s) => s,
        Err(e) => return Err(e),
    };
    let price = ctx.model.price_per_query;
    let usages = match checked_sum(ctx.model.usages, 1) {
        Ok(v) => v,
        Err(e) => return Err(e),
    };
    let total_revenue = match checked_sum(ctx.model.total_revenue, price) {
        Ok(v) => v,
        Err(e) => return Err(e),
    };
    let total_usages = match checked_sum(ctx.marketplace_config.total_usages, 1) {
        Ok(v) => v,
        Err(e) => return Err(e),
    };
    let total_volume = match checked_sum(ctx.marketplace_config.total_volume, price) {
        Ok(v) => v,
        Err(e) => return Err(e),
    };
    ctx.model.usages = usages;
    ctx.model.total_revenue = total_revenue;
    ctx.marketplace_config.total_usages = total_usages;
    ctx.marketplace_config.total_volume = total_volume;
    let record = ModelUsage {
        user: ctx.user,
        model: ctx.model_key,
        used_at: ctx.now,
        has_rated: false,
        query_params,
        price_paid: price,
    };
    Ok(Usage { record, settlement })
}

/// Why rating a model fails, if it does: the usage record and the rating
/// itself, then the model's identity, then its rating counters.
pub open spec fn rate_model_error(
    ctx: RateModel,
    model_id: Identity,
    rating_value: u8,
    review: Option<String>,
) -> Option<DataChainError> {
    match rating_error(
        ctx.rater,
        ctx.usage_record.user,
        ctx.usage_record.model,
        ctx.model_key,
        ctx.usage_record.has_rated,
        DataChainError::ModelNotFound,
        rating_value,
        review,
    ) {
        Some(e) => Some(e),
        None => if ctx.model_key != model_id {
            Some(DataChainError::ModelNotFound)
        } else if overflows(ctx.model.rating_sum, rating_value as int) || overflows(
            ctx.model.rating_count,
            1,
        ) {
            Some(DataChainError::InvalidParameters)
        } else {
            None
        },
    }
}

/// The accounts after a successful rating: the record is used up and the
/// score is added to the model's totals.
pub open spec fn model_rated(ctx: RateModel, rating_value: u8) -> RateModel {
    RateModel {
        model: AiModel {
            rating_sum: (ctx.model.rating_sum + rating_value) as u64,
            rating_count: (ctx.model.rating_count + 1) as u64,
            ..ctx.model
        },
        usage_record: ModelUsage { has_rated: true, ..ctx.usage_record },
        ..ctx
    }
}

/// Rates a used model once, with a score from 1 to 5 and an optional review;
/// returns the rating to store. On an error nothing changes.
pub fn rate_model(
    ctx: &mut RateModel,
    model_id: Identity,
    rating_value: u8,
    review: Option<String>,
) -> (r: Result<ModelRating, DataChainError>)
    ensures
        match r {
            Ok(rating) => {
                &&& rate_model_error(*old(ctx), model_id, rating_value, review) is None
                &&& *final(ctx) == model_rated(*old(ctx), rating_value)
                &&& rating == (ModelRating {
                    rater: old(ctx).rater,
                    model: old(ctx).model_key,
                    rating: rating_value,
                    review,
                    rated_at: old(ctx).now,
                })
            },
            Err(e) => {
                &&& rate_model_error(*old(ctx), model_id, rating_value, review) == Some(e)
                &&& *final(ctx) == *old(ctx)
            },
        },
{
    match check_rating(
        ctx.rater,
        ctx.usage_record.user,
        ctx.usage_record.model,
        ctx.model_key,
        ctx.usage_record.has_rated,
        DataChainError::ModelNotFound,
        rating_value,
        &review,
    ) {
        Ok(_) => {},
        Err(e) => return Err(e),
    }
    if !ctx.model_key.same(&model_id) {
        return Err(DataChainError::ModelNotFound);
    }
    let rating_sum = match checked_sum(ctx.model.rating_sum, rating_value as u64) {
        Ok(v) => v,
        Err(e) => return Err(e),
    };
    let rating_count = match checked_sum(ctx.model.rating_count, 1) {
        Ok(v) => v,
        Err(e) => return Err(e),
    };
    ctx.model.rating_sum = rating_sum;
    ctx.model.rating_count = rating_count;
    ctx.usage_record.has_rated = true;
    Ok(
        ModelRating {
            rater: ctx.rater,
            model: ctx.model_key,
            rating: rating_value,
            review,
            rated_at: ctx.now,
        },
    )
}

/// Sets up the model marketplace with a platform fee of at most 100%.
pub fn initialize_model_marketplace(
    ctx: &InitializeModelMarketplace,
    platform_fee_percentage: u8,
) -> (r: Result<ModelMarketplaceConfig, DataChainError>)
    ensures
        match r {
            Ok(c) => {
                &&& platform_fee_percentage <= 100
                &&& c.wf()
                &&& c == (ModelMarketplaceConfig {
                    authority: ctx.authority,
                    platform_fee_percentage,
                    platform_fee_recipient: ctx.platform_fee_recipient,
                    total_models: 0,
                    total_usages: 0,
                    total_volume: 0,
                    version: MODEL_VERSION,
                })
            },
            Err(e) => platform_fee_percentage > 100 && e == DataChainError::InvalidParameters,
        },
{
    if platform_fee_percentage > 100 {
        return Err(DataChainError::InvalidParameters);
    }
    Ok(
        ModelMarketplaceConfig {
            authority: ctx.authority,
            platform_fee_percentage,
            platform_fee_recipient: ctx.platform_fee_recipient,
            total_models: 0,
            total_usages: 0,
            total_volume: 0,
            version: MODEL_VERSION,
        },
    )
}

/// The owner of a model may pay for queries of it: where every other check
/// passes, a query by the owner goes through.
pub proof fn lemma_owner_may_use_model(ctx: UseModel, model_id: Identity, query_params: String)
    requires
        ctx.user == ctx.model.owner,
        byte_len(query_params@) <= MAX_QUERY_PARAMS_LENGTH,
        ctx.user_token.owner == ctx.user,
        ctx.owner_token.owner == ctx.model.owner,
        ctx.platform_fee_token.owner == ctx.marketplace_config.platform_fee_recipient,
        ctx.model_key == model_id,
        ctx.marketplace_config.wf(),
        !overflows(ctx.model.usages, 1),
        !overflows(ctx.model.total_revenue, ctx.model.price_per_query as int),
        !overflows(ctx.marketplace_config.total_usages, 1),
        !overflows(ctx.marketplace_config.total_volume, ctx.model.price_per_query as int),
    ensures
        use_model_error(ctx, model_id, query_params) is None,
{
    let a = usage_terms(ctx);
    assert(platform_fee_of(a.price as int, a.fee_percentage as int) <= a.price)
        by (nonlinear_arith)
        requires
            a.price >= 0,
            0 <= a.fee_percentage <= 100,
    ;
}

/// A usage record allows one rating: once a rating went through, any
/// further rating through the same record fails with `AlreadyRated`.
pub proof fn lemma_model_rated_once(
    ctx: RateModel,
    model_id: Identity,
    rating_value: u8,
    review: Option<String>,
    next_id: Identity,
    next_value: u8,
    next_review: Option<String>,
)
    requires
        rate_model_error(ctx, model_id, rating_value, review) is None,
    ensures
        rate_model_error(model_rated(ctx, rating_value), next_id, next_value, next_review)
            == Some(DataChainError::AlreadyRated),
{
}

/// Rating without a usage record of the rater for this very model always
/// fails.
pub proof fn lemma_model_rating_needs_usage(
    ctx: RateModel,
    model_id: Identity,
    rating_value: u8,
    review: Option<String>,
)
    requires
        ctx.usage_record.user != ctx.rater || ctx.usage_record.model != ctx.model_key,
    ensures
        rate_model_error(ctx, model_id, rating_value, review) is Some,
{
}

} // verus!
