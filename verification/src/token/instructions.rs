//! The wrapped token's operations: setting the vault up, swapping public
//! value for tokens and back, and the refusal of wallet-to-wallet transfers.

use vstd::prelude::*;
use crate::bytes::{append_bytes, u64_le_bytes, u64_to_le, zero32, zero64};
use crate::fee::{fee_of, net_of, split_fee, BPS_DENOMINATOR};
use crate::state::pubkey::Pubkey;
use crate::token::error::ErrorCode;
use crate::token::state::{Config, TokenPrivacyLink, TokenVault};

verus! {

/// The fee that a new vault charges on each swap, in basis points.
pub const DEFAULT_SWAP_FEE_BPS: u16 = 10;

/// How long the marker of a spent nullifier is.
pub const NULLIFIER_MARKER_LEN: usize = 80;

/// What setting the vault up works on.
#[derive(Clone, Copy, Debug, PartialEq, Eq)]
pub struct InitializeToken {
    /// The vault's record.
    pub vault: TokenVault,
    /// The vault's address.
    pub vault_key: Pubkey,
    /// Who sets the vault up.
    pub authority: Pubkey,
    /// The token's mint.
    pub psol_mint: Pubkey,
    /// The address that holds the public value.
    pub sol_vault: Pubkey,
    /// The pool that the vault is linked to.
    pub privacy_pool: Pubkey,
    /// The bump of the vault's address.
    pub bump: u8,
}

/// What setting the vault up reports.
#[derive(Clone, Copy, Debug, PartialEq, Eq)]
pub struct TokenVaultInitialized {
    /// The vault's address.
    pub vault: Pubkey,
    /// Who set the vault up.
    pub authority: Pubkey,
    /// The token's mint.
    pub psol_mint: Pubkey,
    /// The address that holds the public value.
    pub sol_vault: Pubkey,
    /// The fee on each swap, in basis points.
    pub swap_fee_bps: u16,
}

/// What a swap of public value for tokens works on.
#[derive(Clone, Copy, Debug, PartialEq, Eq)]
pub struct SwapToPsol {
    /// The vault.
    pub vault: TokenVault,
    /// The buyer's link; a link of nobody becomes the buyer's.
    pub privacy_link: TokenPrivacyLink,
    /// The buyer.
    pub user: Pubkey,
    /// The buyer's token account.
    pub user_psol_account: Pubkey,
    /// The bump of the link's address.
    pub link_bump: u8,
}

/// What a swap of public value for tokens reports: the value that has to
/// move into the vault, the tokens that have to be minted, and the supply
/// afterwards.
#[derive(Clone, Copy, Debug, PartialEq, Eq)]
pub struct SwapToPsolEvent {
    /// The buyer.
    pub user: Pubkey,
    /// The public value that moves into the vault.
    pub sol_amount: u64,
    /// The tokens that are minted to the buyer.
    pub psol_amount: u64,
    /// The part of the value that is not turned into tokens.
    pub fee: u64,
    /// How many tokens exist after the swap.
    pub total_supply: u64,
}

/// What a swap of tokens for public value works on.
#[derive(Clone, Copy, Debug, PartialEq, Eq)]
pub struct SwapToSol {
    /// The vault.
    pub vault: TokenVault,
    /// The vault's address.
    pub vault_key: Pubkey,
    /// The seller's link.
    pub privacy_link: TokenPrivacyLink,
    /// The seller.
    pub user: Pubkey,
    /// Who is paid.
    pub recipient: Pubkey,
    /// How many tokens the seller holds.
    pub user_balance: u64,
    /// How much public value the vault's address holds.
    pub vault_balance: u64,
}

/// What a swap of tokens for public value reports: the tokens that have to
/// be burnt, the value that has to leave the vault, the marker to store for
/// the nullifier, and the supply afterwards.
#[derive(Clone, Copy, Debug, PartialEq, Eq)]
pub struct SwapToSolEvent {
    /// The seller.
    pub user: Pubkey,
    /// Who is paid.
    pub recipient: Pubkey,
    /// The tokens that are burnt.
    pub psol_amount: u64,
    /// The public value that leaves the vault.
    pub sol_amount: u64,
    /// The part of the tokens' value that stays in the vault.
    pub fee: u64,
    /// The nullifier that the swap spends.
    pub nullifier: [u8; 32],
    /// How many tokens exist after the swap.
    pub total_supply: u64,
}

/// What a wallet-to-wallet transfer would work on: nothing, since there is
/// none.
#[derive(Clone, Copy, Debug, PartialEq, Eq)]
pub struct TransferPsol {}

/// Fills in the token's configuration, and says whether the mint still has
/// to be handed to `mint_authority`: it has to unless `current_authority` is
/// that very key.
pub fn configure(
    config: &mut Config,
    admin: Pubkey,
    pool: Pubkey,
    psol_mint: Pubkey,
    psol_program: Pubkey,
    mint_authority_bump: u8,
    bump: u8,
    current_authority: Option<Pubkey>,
    mint_authority: &Pubkey,
) -> (hand_over: bool)
    ensures
        *final(config) == (Config {
            admin,
            psol_program,
            pool,
            psol_mint,
            mint_authority_bump,
            bump,
        }),
        hand_over == !(current_authority matches Some(k) && k@ == mint_authority@),
{
    config.admin = admin;
    config.pool = pool;
    config.psol_mint = psol_mint;
    config.psol_program = psol_program;
    config.mint_authority_bump = mint_authority_bump;
    config.bump = bump;
    match current_authority {
        Some(k) => k != *mint_authority,
        None => true,
    }
}

/// Sets the vault up: no tokens, nothing locked, the default fee, not
/// paused.
pub fn initialize_token(ctx: &mut InitializeToken) -> (event: TokenVaultInitialized)
    ensures
        final(ctx).vault == (TokenVault {
            authority: old(ctx).authority,
            psol_mint: old(ctx).psol_mint,
            sol_vault: old(ctx).sol_vault,
            privacy_pool: old(ctx).privacy_pool,
            total_supply: 0,
            total_locked: 0,
            swap_fee_bps: DEFAULT_SWAP_FEE_BPS,
            paused: false,
            bump: old(ctx).bump,
        }),
        final(ctx).vault.wf(),
        *final(ctx) == (InitializeToken { vault: final(ctx).vault, ..*old(ctx) }),
        event == (TokenVaultInitialized {
            vault: old(ctx).vault_key,
            authority: old(ctx).authority,
            psol_mint: old(ctx).psol_mint,
            sol_vault: old(ctx).sol_vault,
            swap_fee_bps: DEFAULT_SWAP_FEE_BPS,
        }),
{
    ctx.vault = TokenVault {
        authority: ctx.authority,
        psol_mint: ctx.psol_mint,
        sol_vault: ctx.sol_vault,
        privacy_pool: ctx.privacy_pool,
        total_supply: 0,
        total_locked: 0,
        swap_fee_bps: DEFAULT_SWAP_FEE_BPS,
        paused: false,
        bump: ctx.bump,
    };
    TokenVaultInitialized {
        vault: ctx.vault_key,
        authority: ctx.vault.authority,
        psol_mint: ctx.vault.psol_mint,
        sol_vault: ctx.vault.sol_vault,
        swap_fee_bps: ctx.vault.swap_fee_bps,
    }
}

/// Splits `amount` into what is left after the vault's fee and the fee, or
/// refuses with `ArithmeticOverflow` where the product leaves the range of
/// `u64` or the fee exceeds the amount.
fn swap_split(amount: u64, fee_bps: u16) -> (r: Result<(u64, u64), ErrorCode>)
    ensures
        match r {
            Ok((net, fee)) => {
                &&& amount * fee_bps <= u64::MAX
                &&& fee == fee_of(amount, fee_bps)
                &&& fee <= amount
                &&& net == net_of(amount, fee_bps)
            },
            Err(e) => e == ErrorCode::ArithmeticOverflow && (amount * fee_bps > u64::MAX || fee_of(
                amount,
                fee_bps,
            ) > amount),
        },
{
    match split_fee(amount, fee_bps) {
        Ok(split) => Ok(split),
        Err(_) => Err(ErrorCode::ArithmeticOverflow),
    }
}

impl SwapToPsol {
    /// Why a swap of `amount` for tokens is refused, if it is. The checks
    /// come in this order: the vault is active; the amount is not zero; the
    /// amount is at most a ten-thousandth of what a `u64` holds; the fee can
    /// be taken; neither of the vault's totals overflows.
    pub open spec fn refusal(&self, amount: u64) -> Option<ErrorCode> {
        if self.vault.paused {
            Some(ErrorCode::ProtocolPaused)
        } else if amount == 0 {
            Some(ErrorCode::InvalidAmount)
        } else if amount > u64::MAX / 10_000 || amount * self.vault.swap_fee_bps > u64::MAX
            || fee_of(amount, self.vault.swap_fee_bps) > amount || self.vault.total_supply
            + net_of(amount, self.vault.swap_fee_bps) > u64::MAX || self.vault.total_locked
            + amount > u64::MAX {
            Some(ErrorCode::ArithmeticOverflow)
        } else {
            None
        }
    }

    /// The link after a swap at `slot`: the given one, or where that is
    /// nobody's, the buyer's new link.
    pub open spec fn link_after(&self, slot: u64) -> TokenPrivacyLink {
        if self.privacy_link.owner.is_unset() {
            TokenPrivacyLink {
                owner: self.user,
                token_account: self.user_psol_account,
                privacy_account: Pubkey(zero32()),
                encrypted_balance: zero64(),
                last_sync: slot,
                bump: self.link_bump,
            }
        } else {
            self.privacy_link
        }
    }

    /// Whether `post` and `r` are what a swap of `amount` for tokens at
    /// `slot` makes of `self`. A refused swap changes nothing. One that goes
    /// through counts the whole amount as locked and the amount less the fee
    /// as new tokens.
    pub open spec fn gives(
        &self,
        amount: u64,
        slot: u64,
        post: SwapToPsol,
        r: Result<SwapToPsolEvent, ErrorCode>,
    ) -> bool {
        match self.refusal(amount) {
            Some(e) => r == Err::<SwapToPsolEvent, ErrorCode>(e) && post == *self,
            None => {
                let fee = fee_of(amount, self.vault.swap_fee_bps) as u64;
                let net = net_of(amount, self.vault.swap_fee_bps) as u64;
                &&& r == Ok::<SwapToPsolEvent, ErrorCode>(
                    SwapToPsolEvent {
                        user: self.user,
                        sol_amount: amount,
                        psol_amount: net,
                        fee,
                        total_supply: (self.vault.total_supply + net) as u64,
                    },
                )
                &&& post == (SwapToPsol {
                    vault: TokenVault {
                        total_supply: (self.vault.total_supply + net) as u64,
                        total_locked: (self.vault.total_locked + amount) as u64,
                        ..self.vault
                    },
                    privacy_link: self.link_after(slot),
                    ..*self
                })
            },
        }
    }
}

/// Swaps `amount` of public value for tokens: the whole amount has to move
/// into the vault, and the amount less the vault's fee has to be minted to
/// the buyer.
pub fn swap_to_psol(ctx: &mut SwapToPsol, amount: u64, slot: u64) -> (r: Result<
    SwapToPsolEvent,
    ErrorCode,
>)
    ensures
        old(ctx).gives(amount, slot, *final(ctx), r),
        r is Err ==> *final(ctx) == *old(ctx),
        r matches Ok(event) ==> event.psol_amount + event.fee == amount,
        old(ctx).vault.wf() ==> final(ctx).vault.wf(),
{
    if ctx.vault.paused {
        return Err(ErrorCode::ProtocolPaused);
    }
    if amount == 0 {
        return Err(ErrorCode::InvalidAmount);
    }
    if amount > u64::MAX / BPS_DENOMINATOR {
        return Err(ErrorCode::ArithmeticOverflow);
    }
    let (net, fee) = match swap_split(amount, ctx.vault.swap_fee_bps) {
        Ok(split) => split,
        Err(e) => {
            return Err(e);
        },
    };
    let total_supply = match ctx.vault.total_supply.checked_add(net) {
        Some(v) => v,
        None => {
            return Err(ErrorCode::ArithmeticOverflow);
        },
    };
    let total_locked = match ctx.vault.total_locked.checked_add(amount) {
        Some(v) => v,
        None => {
            return Err(ErrorCode::ArithmeticOverflow);
        },
    };
    ctx.vault.total_supply = total_supply;
    ctx.vault.total_locked = total_locked;
    if ctx.privacy_link.owner.is_default() {
        ctx.privacy_link = TokenPrivacyLink {
            owner: ctx.user,
            token_account: ctx.user_psol_account,
            privacy_account: Pubkey::default(),
            encrypted_balance: [0u8; 64],
            last_sync: slot,
            bump: ctx.link_bump,
        };
    }
    Ok(
        SwapToPsolEvent {
            user: ctx.user,
            sol_amount: amount,
            psol_amount: net,
            fee,
            total_supply,
        },
    )
}

impl SwapToSol {
    /// Why a swap of `amount` tokens for public value is refused, if it is.
    /// The checks come in this order: the seller holds as many tokens; the
    /// link is the seller's; the vault is active; the amount is not zero; as
    /// many tokens exist; the fee can be taken; the vault's address holds
    /// what is to be paid; as much is counted as locked.
    pub open spec fn refusal(&self, amount: u64) -> Option<ErrorCode> {
        if self.user_balance < amount {
            Some(ErrorCode::InsufficientBalance)
        } else if self.privacy_link.owner@ != self.user@ {
            Some(ErrorCode::Unauthorized)
        } else if self.vault.paused {
            Some(ErrorCode::ProtocolPaused)
        } else if amount == 0 {
            Some(ErrorCode::InvalidAmount)
        } else if amount > self.vault.total_supply {
            Some(ErrorCode::InsufficientBalance)
        } else if amount * self.vault.swap_fee_bps > u64::MAX || fee_of(
            amount,
            self.vault.swap_fee_bps,
        ) > amount {
            Some(ErrorCode::ArithmeticOverflow)
        } else if self.vault_balance < net_of(amount, self.vault.swap_fee_bps) {
            Some(ErrorCode::InsufficientBalance)
        } else if self.vault.total_locked < net_of(amount, self.vault.swap_fee_bps) {
            Some(ErrorCode::ArithmeticOverflow)
        } else {
            None
        }
    }

    /// Whether `post` and `r` are what a swap of `amount` tokens for public
    /// value makes of `self`. A refused swap changes nothing. One that goes
    /// through takes the tokens out of the supply and the amount less the
    /// fee out of what is locked.
    pub open spec fn gives(
        &self,
        amount: u64,
        nullifier: [u8; 32],
        post: SwapToSol,
        r: Result<SwapToSolEvent, ErrorCode>,
    ) -> bool {
        match self.refusal(amount) {
            Some(e) => r == Err::<SwapToSolEvent, ErrorCode>(e) && post == *self,
            None => {
                let fee = fee_of(amount, self.vault.swap_fee_bps) as u64;
                let net = net_of(amount, self.vault.swap_fee_bps) as u64;
                &&& r == Ok::<SwapToSolEvent, ErrorCode>(
                    SwapToSolEvent {
                        user: self.user,
                        recipient: self.recipient,
                        psol_amount: amount,
                        sol_amount: net,
                        fee,
                        nullifier,
                        total_supply: (self.vault.total_supply - amount) as u64,
                    },
                )
                &&& post == (SwapToSol {
                    vault: TokenVault {
                        total_supply: (self.vault.total_supply - amount) as u64,
                        total_locked: (self.vault.total_locked - net) as u64,
                        ..self.vault
                    },
                    user_balance: (self.user_balance - amount) as u64,
                    vault_balance: (self.vault_balance - net) as u64,
                    ..*self
                })
            },
        }
    }
}

/// Swaps `amount` tokens for public value: the tokens have to be burnt, and
/// their value less the vault's fee has to leave the vault for the
/// recipient.
pub fn swap_to_sol(ctx: &mut SwapToSol, amount: u64, nullifier: [u8; 32]) -> (r: Result<
    SwapToSolEvent,
    ErrorCode,
>)
    ensures
        old(ctx).gives(amount, nullifier, *final(ctx), r),
        r is Err ==> *final(ctx) == *old(ctx),
        r matches Ok(event) ==> event.sol_amount + event.fee == amount,
        old(ctx).vault.wf() ==> final(ctx).vault.wf(),
{
    if ctx.user_balance < amount {
        return Err(ErrorCode::InsufficientBalance);
    }
    if ctx.privacy_link.owner != ctx.user {
        return Err(ErrorCode::Unauthorized);
    }
    if ctx.vault.paused {
        return Err(ErrorCode::ProtocolPaused);
    }
    if amount == 0 {
        return Err(ErrorCode::InvalidAmount);
    }
    if amount > ctx.vault.total_supply {
        return Err(ErrorCode::InsufficientBalance);
    }
    let (net, fee) = match swap_split(amount, ctx.vault.swap_fee_bps) {
        Ok(split) => split,
        Err(e) => {
            return Err(e);
        },
    };
    if ctx.vault_balance < net {
        return Err(ErrorCode::InsufficientBalance);
    }
    if ctx.vault.total_locked < net {
        return Err(ErrorCode::ArithmeticOverflow);
    }
    ctx.vault.total_supply = ctx.vault.total_supply - amount;
    ctx.vault.total_locked = ctx.vault.total_locked - net;
    ctx.user_balance = ctx.user_balance - amount;
    ctx.vault_balance = ctx.vault_balance - net;
    Ok(
        SwapToSolEvent {
            user: ctx.user,
            recipient: ctx.recipient,
            psol_amount: amount,
            sol_amount: net,
            fee,
            nullifier,
            total_supply: ctx.vault.total_supply,
        },
    )
}

/// The marker that is stored for a spent nullifier: eight bytes of `0xff`,
/// the vault's address, the nullifier, and the slot in eight little-endian
/// bytes.
pub open spec fn marker_bytes(vault_key: Seq<u8>, nullifier: Seq<u8>, slot: u64) -> Seq<u8> {
    Seq::new(8, |i: int| 0xffu8) + vault_key + nullifier + u64_le_bytes(slot)
}

/// Writes the marker of a nullifier spent at `slot` in the vault at
/// `vault_key`.
pub fn nullifier_marker(vault_key: &Pubkey, nullifier: &[u8; 32], slot: u64) -> (r: Vec<u8>)
    ensures
        r@ == marker_bytes(vault_key@, nullifier@, slot),
        r@.len() == NULLIFIER_MARKER_LEN,
{
    let tag = [0xffu8; 8];
    let slot_le = u64_to_le(slot);
    let mut data: Vec<u8> = Vec::new();
    append_bytes(&mut data, &tag);
    append_bytes(&mut data, &vault_key.0);
    append_bytes(&mut data, nullifier);
    append_bytes(&mut data, &slot_le);
    assert(tag@ =~= Seq::new(8, |i: int| 0xffu8));
    assert(data@ =~= marker_bytes(vault_key@, nullifier@, slot));
    data
}

/// Refuses: tokens do not move from wallet to wallet, whoever asks and
/// whatever the amount.
pub fn transfer_psol(_ctx: &TransferPsol, _amount: u64) -> (r: Result<(), ErrorCode>)
    ensures
        r == Err::<(), ErrorCode>(ErrorCode::TransfersDisabled),
{
    Err(ErrorCode::TransfersDisabled)
}

} // verus!
