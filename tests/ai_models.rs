use datachain_ai::ai_models::{
    initialize_model_marketplace, rate_model, register_model, use_model, AiModel,
    InitializeModelMarketplace, ModelMarketplaceConfig, RateModel, RegisterModel, UseModel,
};
use datachain_ai::errors::DataChainError;
use datachain_ai::identity::Identity;
use datachain_ai::settlement::TokenHolding;

fn id(n: u8) -> Identity {
    Identity::new([n; 32])
}

const OWNER: u8 = 1;
const USER: u8 = 2;
const PLATFORM: u8 = 3;
const MODEL: u8 = 4;

fn holding(key: u8, owner: u8) -> TokenHolding {
    TokenHolding { key: id(key), owner: id(owner), mint: id(5), amount: 1_000_000 }
}

fn model_marketplace() -> ModelMarketplaceConfig {
    initialize_model_marketplace(
        &InitializeModelMarketplace { authority: id(9), platform_fee_recipient: id(PLATFORM) },
        15,
    )
    .unwrap()
}

fn registered(price: u64) -> (AiModel, ModelMarketplaceConfig) {
    let mut ctx = RegisterModel { owner: id(OWNER), marketplace_config: model_marketplace(), now: 10 };
    let m = register_model(
        &mut ctx,
        "Classifier".to_string(),
        "Labels images".to_string(),
        "vision".to_string(),
        price,
        "https://models/c".to_string(),
    )
    .unwrap();
    (m, ctx.marketplace_config)
}

fn use_ctx(user: u8, model: AiModel, config: ModelMarketplaceConfig) -> UseModel {
    UseModel {
        user: id(user),
        model_key: id(MODEL),
        model,
        user_token: holding(20, user),
        owner_token: holding(21, OWNER),
        platform_fee_token: holding(22, PLATFORM),
        marketplace_config: config,
        now: 50,
    }
}

#[test]
fn model_query_splits_fee_and_counts_revenue() {
    let (model, config) = registered(200);
    assert_eq!(config.total_models, 1);
    let mut ctx = use_ctx(USER, model, config);
    let u = use_model(&mut ctx, id(MODEL), "{\"q\":1}".to_string()).unwrap();
    assert_eq!(u.settlement.platform_fee.amount, 30);
    assert_eq!(u.settlement.seller_payment.amount, 170);
    assert_eq!(ctx.model.usages, 1);
    assert_eq!(ctx.model.total_revenue, 200);
    assert_eq!(ctx.marketplace_config.total_usages, 1);
    assert_eq!(ctx.marketplace_config.total_volume, 200);
    assert_eq!(u.record.query_params, "{\"q\":1}");
    assert_eq!(u.record.price_paid, 200);
    assert!(!u.record.has_rated);
    let u2 = use_model(&mut ctx, id(MODEL), String::new()).unwrap();
    assert_eq!(u2.settlement.platform_fee.amount, 30);
    assert_eq!(ctx.model.usages, 2);
    assert_eq!(ctx.model.total_revenue, 400);
}

#[test]
fn owner_may_query_own_model() {
    let (model, config) = registered(200);
    let mut ctx = use_ctx(OWNER, model, config);
    let u = use_model(&mut ctx, id(MODEL), String::new()).unwrap();
    assert!(u.record.user == id(OWNER));
    assert_eq!(ctx.model.usages, 1);
}

#[test]
fn model_query_errors() {
    let (model, config) = registered(200);
    let mut ctx = use_ctx(USER, model.clone(), config);
    assert_eq!(
        use_model(&mut ctx, id(8), String::new()).unwrap_err(),
        DataChainError::ModelNotFound
    );
    assert_eq!(
        use_model(&mut ctx, id(MODEL), "q".repeat(1001)).unwrap_err(),
        DataChainError::InvalidParameters
    );
    assert!(use_model(&mut ctx, id(MODEL), "q".repeat(1000)).is_ok());
    let mut foreign = use_ctx(USER, model, config);
    foreign.user_token = holding(20, 7);
    assert_eq!(
        use_model(&mut foreign, id(MODEL), String::new()).unwrap_err(),
        DataChainError::Unauthorized
    );
    assert_eq!(foreign.model.usages, 0);
}

#[test]
fn model_rated_once() {
    let (model, config) = registered(200);
    let mut ctx = use_ctx(USER, model, config);
    let u = use_model(&mut ctx, id(MODEL), String::new()).unwrap();
    let mut rate = RateModel {
        rater: id(USER),
        model_key: id(MODEL),
        model: ctx.model.clone(),
        usage_record: u.record.clone(),
        now: 60,
    };
    assert_eq!(rate_model(&mut rate, id(MODEL), 0, None).unwrap_err(), DataChainError::InvalidRating);
    let r = rate_model(&mut rate, id(MODEL), 3, None).unwrap();
    assert_eq!(r.rating, 3);
    assert_eq!(rate.model.rating_sum, 3);
    assert_eq!(rate.model.rating_count, 1);
    assert_eq!(rate_model(&mut rate, id(MODEL), 3, None).unwrap_err(), DataChainError::AlreadyRated);
    let mut stranger = RateModel {
        rater: id(7),
        model_key: id(MODEL),
        model: ctx.model.clone(),
        usage_record: u.record.clone(),
        now: 60,
    };
    assert_eq!(rate_model(&mut stranger, id(MODEL), 3, None).unwrap_err(), DataChainError::Unauthorized);
    let mut other_model = RateModel {
        rater: id(USER),
        model_key: id(8),
        model: ctx.model.clone(),
        usage_record: u.record,
        now: 60,
    };
    assert_eq!(rate_model(&mut other_model, id(8), 3, None).unwrap_err(), DataChainError::ModelNotFound);
}

#[test]
fn register_model_validates_fields() {
    let mut ctx = RegisterModel { owner: id(OWNER), marketplace_config: model_marketplace(), now: 10 };
    let s = |t: &str| t.to_string();
    assert_eq!(
        register_model(&mut ctx, s("n"), s("d"), s("t"), 0, s("u")).unwrap_err(),
        DataChainError::InvalidModelPrice
    );
    assert_eq!(
        register_model(&mut ctx, s("n"), s("d"), s("t"), 1, "u".repeat(201)).unwrap_err(),
        DataChainError::InvalidParameters
    );
    assert_eq!(ctx.marketplace_config.total_models, 0);
    let ctx2 = InitializeModelMarketplace { authority: id(9), platform_fee_recipient: id(PLATFORM) };
    assert_eq!(
        initialize_model_marketplace(&ctx2, 200).unwrap_err(),
        DataChainError::InvalidParameters
    );
}
