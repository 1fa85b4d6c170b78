use datachain_ai::data_token::{
    accept_authority_transfer, initialize_token, mint_tokens, request_authority_transfer,
    transfer_tokens, AcceptAuthorityTransfer, InitializeToken, MintTokens,
    RequestAuthorityTransfer, TokenInfo, TransferTokens, AUTHORITY_TRANSFER_EXPIRY,
    MINT_COOLDOWN, TOTAL_SUPPLY,
};
use datachain_ai::errors::DataChainError;
use datachain_ai::identity::Identity;
use datachain_ai::settlement::TokenHolding;

fn id(n: u8) -> Identity {
    Identity::new([n; 32])
}

const AUTHORITY: u8 = 1;
const MINT: u8 = 2;
const HOLDER: u8 = 3;

fn token(now: i64) -> TokenInfo {
    initialize_token(
        &InitializeToken { authority: id(AUTHORITY), mint: id(MINT), now },
        "Data".to_string(),
        "DATA".to_string(),
        "https://token".to_string(),
        9,
    )
}

fn mint_ctx(info: TokenInfo, now: i64) -> MintTokens {
    MintTokens {
        authority: id(AUTHORITY),
        mint: id(MINT),
        mint_authority: Some(id(AUTHORITY)),
        recipient: TokenHolding { key: id(10), owner: id(HOLDER), mint: id(MINT), amount: 0 },
        token_info: info,
        now,
    }
}

#[test]
fn initialized_token_is_empty() {
    let t = token(1000);
    assert_eq!(t.current_supply, 0);
    assert_eq!(t.max_supply, TOTAL_SUPPLY);
    assert_eq!(t.last_mint_timestamp, 1000);
    assert!(t.pending_authority.is_none());
    assert_eq!(t.authority_transfer_expiry, 0);
    assert_eq!(t.decimals, 9);
    assert_eq!(t.symbol, "DATA");
}

#[test]
fn mint_respects_cooldown() {
    let mut ctx = mint_ctx(token(0), MINT_COOLDOWN - 1);
    assert_eq!(mint_tokens(&mut ctx, 10).unwrap_err(), DataChainError::MintingCooldown);
    ctx.now = MINT_COOLDOWN;
    let m = mint_tokens(&mut ctx, 500).unwrap();
    assert_eq!(m.amount, 500);
    assert!(m.to == id(10));
    assert_eq!(ctx.token_info.current_supply, 500);
    assert_eq!(ctx.token_info.last_mint_timestamp, MINT_COOLDOWN);
    ctx.now = 2 * MINT_COOLDOWN - 1;
    assert_eq!(mint_tokens(&mut ctx, 1).unwrap_err(), DataChainError::MintingCooldown);
    assert_eq!(ctx.token_info.current_supply, 500);
    ctx.now = 2 * MINT_COOLDOWN;
    mint_tokens(&mut ctx, 250).unwrap();
    assert_eq!(ctx.token_info.current_supply, 750);
}

#[test]
fn mint_respects_cap() {
    let mut info = token(0);
    info.current_supply = TOTAL_SUPPLY - 5;
    let mut ctx = mint_ctx(info, MINT_COOLDOWN);
    assert_eq!(mint_tokens(&mut ctx, 6).unwrap_err(), DataChainError::MaxSupplyReached);
    mint_tokens(&mut ctx, 5).unwrap();
    assert_eq!(ctx.token_info.current_supply, TOTAL_SUPPLY);
    let mut info = token(0);
    info.current_supply = 10;
    info.max_supply = u64::MAX;
    let mut ctx = mint_ctx(info, MINT_COOLDOWN);
    assert_eq!(mint_tokens(&mut ctx, u64::MAX).unwrap_err(), DataChainError::InvalidParameters);
}

#[test]
fn mint_needs_the_authority() {
    let mut ctx = mint_ctx(token(0), MINT_COOLDOWN);
    ctx.authority = id(7);
    assert_eq!(mint_tokens(&mut ctx, 1).unwrap_err(), DataChainError::Unauthorized);
    let mut ctx = mint_ctx(token(0), MINT_COOLDOWN);
    ctx.mint_authority = None;
    assert_eq!(mint_tokens(&mut ctx, 1).unwrap_err(), DataChainError::Unauthorized);
    let mut ctx = mint_ctx(token(0), MINT_COOLDOWN);
    ctx.recipient.mint = id(8);
    assert_eq!(mint_tokens(&mut ctx, 1).unwrap_err(), DataChainError::InvalidParameters);
    assert_eq!(ctx.token_info.current_supply, 0);
}

#[test]
fn transfer_from_own_account_only() {
    let ctx = TransferTokens {
        sender: id(HOLDER),
        sender_token: TokenHolding { key: id(10), owner: id(HOLDER), mint: id(MINT), amount: 9 },
        recipient_token: TokenHolding { key: id(11), owner: id(4), mint: id(MINT), amount: 0 },
    };
    let t = transfer_tokens(&ctx, 9).unwrap();
    assert!(t.from == id(10) && t.to == id(11) && t.authority == id(HOLDER));
    assert_eq!(t.amount, 9);
    let thief = TransferTokens { sender: id(4), ..ctx };
    assert_eq!(transfer_tokens(&thief, 9).unwrap_err(), DataChainError::Unauthorized);
}

fn requested(now: i64) -> TokenInfo {
    let mut req = RequestAuthorityTransfer {
        current_authority: id(AUTHORITY),
        new_authority: id(6),
        token_info: token(0),
        now,
    };
    request_authority_transfer(&mut req).unwrap();
    assert!(req.token_info.pending_authority == Some(id(6)));
    assert_eq!(req.token_info.authority_transfer_expiry, now + AUTHORITY_TRANSFER_EXPIRY);
    req.token_info
}

#[test]
fn handover_in_time_succeeds() {
    let info = requested(100);
    let mut acc = AcceptAuthorityTransfer {
        new_authority: id(6),
        token_info: info,
        now: 100 + AUTHORITY_TRANSFER_EXPIRY - 1,
    };
    accept_authority_transfer(&mut acc).unwrap();
    assert!(acc.token_info.authority == id(6));
    assert!(acc.token_info.pending_authority.is_none());
    assert_eq!(acc.token_info.authority_transfer_expiry, 0);
}

#[test]
fn handover_after_expiry_fails() {
    let info = requested(100);
    let mut acc = AcceptAuthorityTransfer {
        new_authority: id(6),
        token_info: info,
        now: 100 + AUTHORITY_TRANSFER_EXPIRY,
    };
    assert_eq!(accept_authority_transfer(&mut acc).unwrap_err(), DataChainError::InvalidTimestamp);
    assert!(acc.token_info.authority == id(AUTHORITY));
}

#[test]
fn handover_by_someone_else_fails() {
    let info = requested(100);
    let mut acc = AcceptAuthorityTransfer { new_authority: id(7), token_info: info, now: 200 };
    assert_eq!(accept_authority_transfer(&mut acc).unwrap_err(), DataChainError::Unauthorized);
    let mut req = RequestAuthorityTransfer {
        current_authority: id(7),
        new_authority: id(7),
        token_info: token(0),
        now: 5,
    };
    assert_eq!(request_authority_transfer(&mut req).unwrap_err(), DataChainError::Unauthorized);
    assert!(req.token_info.pending_authority.is_none());
    let mut late = RequestAuthorityTransfer {
        current_authority: id(AUTHORITY),
        new_authority: id(6),
        token_info: token(0),
        now: i64::MAX - 10,
    };
    assert_eq!(request_authority_transfer(&mut late).unwrap_err(), DataChainError::InvalidParameters);
}
