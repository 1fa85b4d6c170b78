use vstd::prelude::*;

use crate::errors::DataChainError;
use crate::identity::Identity;
use crate::settlement::{TokenHolding, ValueTransfer};

verus! {

pub const TOKEN_DECIMALS: u8 = 9;

/// Cap on the supply: 100 million tokens of 9 decimals.
pub const TOTAL_SUPPLY: u64 = 100_000_000_000_000_000;

/// Seconds that must pass between two mints.
pub const MINT_COOLDOWN: i64 = 3600;

/// Seconds for which a requested authority handover can be accepted.
pub const AUTHORITY_TRANSFER_EXPIRY: i64 = 86400;

pub const TOKEN_VERSION: u8 = 1;

/// The issued token's record: who may mint, how much exists, and any
/// authority handover under way.
#[derive(Clone, Debug)]
pub struct TokenInfo {
    pub authority: Identity,
    pub mint: Identity,
    pub name: String,
    pub symbol: String,
    pub uri: String,
    pub current_supply: u64,
    pub max_supply: u64,
    pub last_mint_timestamp: i64,
    pub pending_authority: Option<Identity>,
    pub authority_transfer_expiry: i64,
    pub decimals: u8,
    pub version: u8,
}

impl TokenInfo {
    /// The supply never passes its cap.
    pub open spec fn wf(&self) -> bool {
        self.current_supply <= self.max_supply
    }
}

/// A handover of the token's authority, as a record of its own.
#[derive(Clone, Copy, Debug)]
pub struct AuthorityTransferRequest {
    pub current_authority: Identity,
    pub new_authority: Identity,
    pub expiry_timestamp: i64,
}

/// The accounts that issuing the token reads.
#[derive(Clone, Copy, Debug)]
pub struct InitializeToken {
    /// The authenticated caller, who becomes the mint authority.
    pub authority: Identity,
    /// Address of the token's mint account.
    pub mint: Identity,
    /// The ledger's clock, read once for the action.
    pub now: i64,
}

/// The accounts that minting reads and writes.
#[derive(Clone, Debug)]
pub struct MintTokens {
    /// The authenticated caller.
    pub authority: Identity,
    /// Address of the token's mint account.
    pub mint: Identity,
    /// The authority recorded on the mint account itself.
    pub mint_authority: Option<Identity>,
    pub recipient: TokenHolding,
    pub token_info: TokenInfo,
    pub now: i64,
}

/// The accounts that a plain transfer reads.
#[derive(Clone, Copy, Debug)]
pub struct TransferTokens {
    /// The authenticated caller.
    pub sender: Identity,
    pub sender_token: TokenHolding,
    pub recipient_token: TokenHolding,
}

/// The accounts that requesting an authority handover reads and writes.
#[derive(Clone, Debug)]
pub struct RequestAuthorityTransfer {
    /// The authenticated caller.
    pub current_authority: Identity,
    pub new_authority: Identity,
    pub token_info: TokenInfo,
    pub now: i64,
}

/// The accounts that accepting an authority handover reads and writes.
#[derive(Clone, Debug)]
pub struct AcceptAuthorityTransfer {
    /// The authenticated caller.
    pub new_authority: Identity,
    pub token_info: TokenInfo,
    pub now: i64,
}

/// New units that the ledger is to credit to a holding account.
#[derive(Clone, Copy, Debug)]
pub struct TokenMint {
    pub mint: Identity,
    /// The holding account credited.
    pub to: Identity,
    /// Principal that signs as the mint authority.
    pub authority: Identity,
    pub amount: u64,
}

/// Issues the token: nothing minted yet, supply capped at `TOTAL_SUPPLY`,
/// no handover pending.
pub fn initialize_token(
    ctx: &InitializeToken,
    name: String,
    symbol: String,
    uri: String,
    decimals: u8,
) -> (r: TokenInfo)
    ensures
        r.wf(),
        r == (TokenInfo {
            authority: ctx.authority,
            mint: ctx.mint,
            name,
            symbol,
            uri,
            current_supply: 0,
            max_supply: TOTAL_SUPPLY,
            last_mint_timestamp: ctx.now,
            pending_authority: None,
            authority_transfer_expiry: 0,
            decimals,
            version: TOKEN_VERSION,
        }),
{
    TokenInfo {
        authority: ctx.authority,
        mint: ctx.mint,
        name,
        symbol,
        uri,
        current_supply: 0,
        max_supply: TOTAL_SUPPLY,
        last_mint_timestamp: ctx.now,
        pending_authority: None,
        authority_transfer_expiry: 0,
        decimals,
        version: TOKEN_VERSION,
    }
}

/// Why minting fails, if it does: the caller must be the authority of both
/// the mint and the token record, the accounts must belong to this token,
/// the cooldown must have passed, and the supply must stay within its cap.
pub open spec fn mint_error(ctx: MintTokens, amount: u64) -> Option<DataChainError> {
    let info = ctx.token_info;
    if ctx.mint_authority != Some(ctx.authority) {
        Some(DataChainError::Unauthorized)
    } else if ctx.recipient.mint != ctx.mint || info.mint != ctx.mint {
        Some(DataChainError::InvalidParameters)
    } else if info.authority != ctx.authority {
        Some(DataChainError::Unauthorized)
    } else if ctx.now - info.last_mint_timestamp < MINT_COOLDOWN {
        Some(DataChainError::MintingCooldown)
    } else if info.current_supply + amount > u64::MAX {
        Some(DataChainError::InvalidParameters)
    } else if info.current_supply + amount > info.max_supply {
        Some(DataChainError::MaxSupplyReached)
    } else {
        None
    }
}

/// The accounts after a successful mint: the supply grows by `amount` and
/// the cooldown starts again at `now`.
pub open spec fn minted(ctx: MintTokens, amount: u64) -> MintTokens {
    MintTokens {
        token_info: TokenInfo {
            current_supply: (ctx.token_info.current_supply + amount) as u64,
            last_mint_timestamp: ctx.now,
            ..ctx.token_info
        },
        ..ctx
    }
}

/// Mints `amount` new units to the recipient's holding account. On an
/// error nothing changes.
pub fn mint_tokens(ctx: &mut MintTokens, amount: u64) -> (r: Result<TokenMint, DataChainError>)
    ensures
        match r {
            Ok(m) => {
                &&& mint_error(*old(ctx), amount) is None
                &&& *final(ctx) == minted(*old(ctx), amount)
                &&& m == (TokenMint {
                    mint: old(ctx).mint,
                    to: old(ctx).recipient.key,
                    authority: old(ctx).authority,
                    amount,
                })
            },
            Err(e) => {
                &&& mint_error(*old(ctx), amount) == Some(e)
                &&& *final(ctx) == *old(ctx)
            },
        },
        old(ctx).token_info.wf() ==> final(ctx).token_info.wf(),
{
    let is_mint_authority = match ctx.mint_authority {
        Some(a) => a.same(&ctx.authority),
        None => false,
    };
    if !is_mint_authority {
        return Err(DataChainError::Unauthorized);
    }
    if !ctx.recipient.mint.same(&ctx.mint) || !ctx.token_info.mint.same(&ctx.mint) {
        return Err(DataChainError::InvalidParameters);
    }
    if !ctx.token_info.authority.same(&ctx.authority) {
        return Err(DataChainError::Unauthorized);
    }
    if (ctx.now as i128) - (ctx.token_info.last_mint_timestamp as i128) < MINT_COOLDOWN as i128 {
        return Err(DataChainError::MintingCooldown);
    }
    let supply = match ctx.token_info.current_supply.checked_add(amount) {
        Some(v) => v,
        None => return Err(DataChainError::InvalidParameters),
    };
    if supply > ctx.token_info.max_supply {
        return Err(DataChainError::MaxSupplyReached);
    }
    ctx.token_info.current_supply = supply;
    ctx.token_info.last_mint_timestamp = ctx.now;
    Ok(TokenMint { mint: ctx.mint, to: ctx.recipient.key, authority: ctx.authority, amount })
}

/// Moves `amount` from the caller's holding account to another one; only
/// the owner of the sending account may do so.
pub fn transfer_tokens(ctx: &TransferTokens, amount: u64) -> (r: Result<
    ValueTransfer,
    DataChainError,
>)
    ensures
        match r {
            Ok(t) => ctx.sender_token.owner == ctx.sender && t == (ValueTransfer {
                from: ctx.sender_token.key,
                to: ctx.recipient_token.key,
                authority: ctx.sender,
                amount,
            }),
            Err(e) => ctx.sender_token.owner != ctx.sender && e == DataChainError::Unauthorized,
        },
{
    if !ctx.sender_token.owner.same(&ctx.sender) {
        return Err(DataChainError::Unauthorized);
    }
    Ok(
        ValueTransfer {
            from: ctx.sender_token.key,
            to: ctx.recipient_token.key,
            authority: ctx.sender,
            amount,
        },
    )
}

/// Why requesting a handover fails, if it does.
pub open spec fn request_error(ctx: RequestAuthorityTransfer) -> Option<DataChainError> {
    if ctx.token_info.authority != ctx.current_authority {
        Some(DataChainError::Unauthorized)
    } else if ctx.now + AUTHORITY_TRANSFER_EXPIRY > i64::MAX {
        Some(DataChainError::InvalidParameters)
    } else {
        None
    }
}

/// The token record after a handover to `new_authority` was requested at
/// `now`.
pub open spec fn with_pending(info: TokenInfo, new_authority: Identity, now: i64) -> TokenInfo {
    TokenInfo {
        pending_authority: Some(new_authority),
        authority_transfer_expiry: (now + AUTHORITY_TRANSFER_EXPIRY) as i64,
        ..info
    }
}

/// Names `new_authority` as the token's next authority, to accept within
/// `AUTHORITY_TRANSFER_EXPIRY` seconds; replaces any earlier request. Only
/// the current authority may ask.
pub fn request_authority_transfer(ctx: &mut RequestAuthorityTransfer) -> (r: Result<
    (),
    DataChainError,
>)
    ensures
        match r {
            Ok(_) => {
                &&& request_error(*old(ctx)) is None
                &&& *final(ctx) == (RequestAuthorityTransfer {
                    token_info: with_pending(old(ctx).token_info, old(ctx).new_authority, old(ctx).now),
                    ..*old(ctx)
                })
            },
            Err(e) => {
                &&& request_error(*old(ctx)) == Some(e)
                &&& *final(ctx) == *old(ctx)
            },
        },
{
    if !ctx.token_info.authority.same(&ctx.current_authority) {
        return Err(DataChainError::Unauthorized);
    }
    let expiry = match ctx.now.checked_add(AUTHORITY_TRANSFER_EXPIRY) {
        Some(v) => v,
        None => return Err(DataChainError::InvalidParameters),
    };
    ctx.token_info.pending_authority = Some(ctx.new_authority);
    ctx.token_info.authority_transfer_expiry = expiry;
    Ok(())
}

/// Why accepting a handover fails, if it does: the caller must be the
/// pending authority, and the request must not have expired.
pub open spec fn accept_error(ctx: AcceptAuthorityTransfer) -> Option<DataChainError> {
    if ctx.token_info.pending_authority != Some(ctx.new_authority) {
        Some(DataChainError::Unauthorized)
    } else if ctx.token_info.authority_transfer_expiry <= ctx.now {
        Some(DataChainError::InvalidTimestamp)
    } else {
        None
    }
}

/// The token record once `new_authority` took over.
pub open spec fn handed_over(info: TokenInfo, new_authority: Identity) -> TokenInfo {
    TokenInfo {
        authority: new_authority,
        pending_authority: None,
        authority_transfer_expiry: 0,
        ..info
    }
}

/// Completes a handover: the pending authority, before the request expires,
/// becomes the token's authority, and nothing stays pending.
pub fn accept_authority_transfer(ctx: &mut AcceptAuthorityTransfer) -> (r: Result<
    (),
    DataChainError,
>)
    ensures
        match r {
            Ok(_) => {
                &&& accept_error(*old(ctx)) is None
                &&& *final(ctx) == (AcceptAuthorityTransfer {
                    token_info: handed_over(old(ctx).token_info, old(ctx).new_authority),
                    ..*old(ctx)
                })
            },
            Err(e) => {
                &&& accept_error(*old(ctx)) == Some(e)
                &&& *final(ctx) == *old(ctx)
            },
        },
{
    let is_pending = match ctx.token_info.pending_authority {
        Some(p) => p.same(&ctx.new_authority),
        None => false,
    };
    if !is_pending {
        return Err(DataChainError::Unauthorized);
    }
    if ctx.token_info.authority_transfer_expiry <= ctx.now {
        return Err(DataChainError::InvalidTimestamp);
    }
    ctx.token_info.authority = ctx.new_authority;
    ctx.token_info.pending_authority = None;
    ctx.token_info.authority_transfer_expiry = 0;
    Ok(())
}

/// The accounts of a second mint, made at `later` on the state that a first
/// mint left.
pub open spec fn mint_again(ctx: MintTokens, amount: u64, later: i64) -> MintTokens {
    MintTokens { now: later, ..minted(ctx, amount) }
}

/// After a mint, another one less than `MINT_COOLDOWN` seconds later fails
/// with `MintingCooldown`, whatever its amount.
pub proof fn lemma_mint_cooldown(ctx: MintTokens, amount: u64, later: i64, next_amount: u64)
    requires
        mint_error(ctx, amount) is None,
        later - ctx.now < MINT_COOLDOWN,
    ensures
        mint_error(mint_again(ctx, amount, later), next_amount) == Some(
            DataChainError::MintingCooldown,
        ),
{
}

/// After a mint, another one once the cooldown has passed, with room left
/// under the cap, succeeds and raises the supply by exactly its amount.
pub proof fn lemma_mint_after_cooldown(ctx: MintTokens, amount: u64, later: i64, next_amount: u64)
    requires
        mint_error(ctx, amount) is None,
        later - ctx.now >= MINT_COOLDOWN,
        ctx.token_info.current_supply + amount + next_amount <= ctx.token_info.max_supply,
    ensures
        mint_error(mint_again(ctx, amount, later), next_amount) is None,
        minted(mint_again(ctx, amount, later), next_amount).token_info.current_supply
            == mint_again(ctx, amount, later).token_info.current_supply + next_amount,
{
}

/// The accounts of an acceptance at `accepted_at` of the handover that `req` asked for.
pub open spec fn acceptance_of(req: RequestAuthorityTransfer, accepted_at: i64) -> AcceptAuthorityTransfer {
    AcceptAuthorityTransfer {
        new_authority: req.new_authority,
        token_info: with_pending(req.token_info, req.new_authority, req.now),
        now: accepted_at,
    }
}

/// A requested handover that is accepted once the expiry window is over
/// fails with `InvalidTimestamp`.
pub proof fn lemma_handover_expires(req: RequestAuthorityTransfer, accepted_at: i64)
    requires
        request_error(req) is None,
        accepted_at >= req.now + AUTHORITY_TRANSFER_EXPIRY,
    ensures
        accept_error(acceptance_of(req, accepted_at)) == Some(DataChainError::InvalidTimestamp),
{
}

/// A requested handover that the pending identity accepts within the
/// expiry window succeeds: the new authority takes over and nothing stays
/// pending.
pub proof fn lemma_handover_in_time(req: RequestAuthorityTransfer, accepted_at: i64)
    requires
        request_error(req) is None,
        accepted_at < req.now + AUTHORITY_TRANSFER_EXPIRY,
    ensures
        accept_error(acceptance_of(req, accepted_at)) is None,
        handed_over(acceptance_of(req, accepted_at).token_info, req.new_authority).authority
            == req.new_authority,
        handed_over(acceptance_of(req, accepted_at).token_info, req.new_authority).pending_authority
            is None,
        handed_over(acceptance_of(req, accepted_at).token_info, req.new_authority).authority_transfer_expiry
            == 0,
{
}

} // verus!
