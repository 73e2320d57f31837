//! The matrix placement engine: creating user records, copying ancestor
//! chains, assigning slots, and detecting completion.

use vstd::prelude::*;

use crate::addr::Addr;
use crate::errors::ErrorCode;
use crate::model::{
    ChainV, FinancialAction, ProgramState, ReferralChain, ReferralUpline, SlotFilled, UplineEntry,
    UplineV, UserAccount, UserV,
};
use crate::validate::{
    extract_vault_a_spec, extract_and_verify_vault_a_accounts, validate_base_registration,
    validate_base_registration_spec, AddressBook,
};
use crate::MAX_UPLINE_DEPTH;

verus! {

/// The supplied fixed accounts of a registration call, as plain keys.
#[derive(Clone, Copy, PartialEq, Eq, Structural, Debug)]
pub struct FixedAccountKeys {
    /// The exchange pool.
    pub pool: Addr,
    /// The native-currency vault.
    pub b_vault: Addr,
    /// The token account holding the native vault's funds.
    pub b_token_vault: Addr,
    /// The share mint of the native vault.
    pub b_vault_lp_mint: Addr,
    /// The pool's holding of native-vault shares.
    pub b_vault_lp: Addr,
    /// The reward token mint.
    pub token_mint: Addr,
    /// The wrapped-native-currency mint.
    pub wsol_mint: Addr,
    /// The vault program behind the pool.
    pub vault_program: Addr,
    /// The exchange program.
    pub amm_program: Addr,
    /// The exchange's protocol fee account.
    pub protocol_token_fee: Addr,
}

/// A freshly initialized program state: counters at one, ledger active.
pub open spec fn initial_program_state(owner: Addr, multisig_treasury: Addr) -> ProgramState {
    ProgramState {
        owner,
        multisig_treasury,
        next_upline_id: 1,
        next_chain_id: 1,
        airdrop_active: true,
        airdrop_end_timestamp: 0,
    }
}

/// What [`initialize`] returns: the fresh state, or a rejection of any
/// caller but the authorized initializer.
pub open spec fn initialize_spec(
    owner: Addr,
    authorized_initializer: Addr,
    multisig_treasury: Addr,
) -> Result<ProgramState, ErrorCode> {
    if owner != authorized_initializer {
        Err(ErrorCode::NotAuthorized)
    } else {
        Ok(initial_program_state(owner, multisig_treasury))
    }
}

/// Creates the program state, allowed only to the authorized initializer.
pub fn initialize(owner: Addr, authorized_initializer: Addr, multisig_treasury: Addr) -> (r: Result<
    ProgramState,
    ErrorCode,
>)
    ensures
        r == initialize_spec(owner, authorized_initializer, multisig_treasury),
{
    if owner != authorized_initializer {
        return Err(ErrorCode::NotAuthorized);
    }
    Ok(
        ProgramState {
            owner,
            multisig_treasury,
            next_upline_id: 1,
            next_chain_id: 1,
            airdrop_active: true,
            airdrop_end_timestamp: 0,
        },
    )
}

/// A root user's record: no referrer, an empty ancestor list at depth one,
/// a fresh matrix, and no escrow.
pub open spec fn base_user(user_wallet: Addr, upline_id: u32, chain_id: u32) -> UserV {
    UserV {
        is_registered: true,
        referrer: None,
        owner_wallet: user_wallet,
        upline: UplineV { id: upline_id, depth: 1, upline: Seq::empty() },
        chain: ChainV::fresh(chain_id),
        reserved_sol: 0,
    }
}

/// Builds the root user's record.
pub fn initialize_base_user_data(user_wallet: &Addr, upline_id: u32, chain_id: u32) -> (r:
    UserAccount)
    ensures
        r@ == base_user(*user_wallet, upline_id, chain_id),
        r@.wf(),
{
    let r = UserAccount {
        is_registered: true,
        referrer: None,
        owner_wallet: *user_wallet,
        upline: ReferralUpline { id: upline_id, depth: 1, upline: Vec::new() },
        chain: ReferralChain::new_fresh(chain_id),
        reserved_sol: 0,
    };
    proof {
        assert(r@.upline.upline =~= Seq::<UplineEntry>::empty());
    }
    r
}

/// A child's ancestor list: the referrer's list with the referrer appended,
/// keeping only the most recent entries when the list is at capacity.
pub open spec fn child_upline_entries(stored: Seq<UplineEntry>, entry: UplineEntry) -> Seq<
    UplineEntry,
> {
    if stored.len() >= MAX_UPLINE_DEPTH {
        stored.subrange(
            stored.len() - (MAX_UPLINE_DEPTH - 1) as int,
            stored.len() as int,
        ).push(entry)
    } else {
        stored.push(entry)
    }
}

/// Copies a referrer's ancestor list and appends the referrer, truncating
/// the oldest entries once the capacity is reached.
pub fn build_child_upline_entries(stored: &Vec<UplineEntry>, entry: UplineEntry) -> (r: Vec<
    UplineEntry,
>)
    ensures
        r@ == child_upline_entries(stored@, entry),
        r@.len() <= MAX_UPLINE_DEPTH || r@.len() == stored@.len() + 1,
{
    let n = stored.len();
    let start: usize = if n >= MAX_UPLINE_DEPTH {
        n - (MAX_UPLINE_DEPTH - 1)
    } else {
        0
    };
    let mut entries: Vec<UplineEntry> = Vec::new();
    let mut i: usize = start;
    while i < n
        invariant
            start <= i <= n,
            n == stored@.len(),
            entries@ == stored@.subrange(start as int, i as int),
        decreases n - i,
    {
        entries.push(stored[i]);
        proof {
            assert(entries@ =~= stored@.subrange(start as int, i + 1 as int));
        }
        i = i + 1;
    }
    entries.push(entry);
    proof {
        if start == 0 {
            assert(stored@.subrange(0, n as int) =~= stored@);
        }
    }
    entries
}

/// A newly registered child's record under the given referrer.
pub open spec fn new_child_user(
    user_wallet: Addr,
    referrer_pda: Addr,
    referrer_wallet: Addr,
    referrer: UserV,
    upline_id: u32,
    chain_id: u32,
) -> UserV {
    UserV {
        is_registered: true,
        referrer: Some(referrer_pda),
        owner_wallet: user_wallet,
        upline: UplineV {
            id: upline_id,
            depth: (referrer.upline.depth + 1) as u8,
            upline: child_upline_entries(
                referrer.upline.upline,
                UplineEntry { pda: referrer_pda, wallet: referrer_wallet },
            ),
        },
        chain: ChainV::fresh(chain_id),
        reserved_sol: 0,
    }
}

/// Builds a child's record under the given referrer.
pub fn build_child_user(
    user_wallet: &Addr,
    referrer_pda: &Addr,
    referrer_wallet: &Addr,
    referrer: &UserAccount,
    upline_id: u32,
    chain_id: u32,
) -> (r: UserAccount)
    requires
        referrer@.upline.depth < u8::MAX,
        referrer@.upline.upline.len() <= MAX_UPLINE_DEPTH,
    ensures
        r@ == new_child_user(
            *user_wallet,
            *referrer_pda,
            *referrer_wallet,
            referrer@,
            upline_id,
            chain_id,
        ),
        r@.wf(),
{
    let entry = UplineEntry { pda: *referrer_pda, wallet: *referrer_wallet };
    let entries = build_child_upline_entries(&referrer.upline.upline, entry);
    UserAccount {
        is_registered: true,
        referrer: Some(*referrer_pda),
        owner_wallet: *user_wallet,
        upline: ReferralUpline { id: upline_id, depth: referrer.upline.depth + 1, upline: entries },
        chain: ReferralChain::new_fresh(chain_id),
        reserved_sol: 0,
    }
}

/// What a successful root registration produces.
pub ghost struct RootRegOut {
    /// The program state with both counters advanced.
    pub state: ProgramState,
    /// The created root user record.
    pub user: UserV,
    /// The money movements to perform: the whole deposit is burned.
    pub actions: Seq<FinancialAction>,
}

/// What [`register_without_referrer`] does: after authorization and
/// allow-list checks, draw both counters, create the root user, and route
/// the whole deposit to swap-and-burn.
pub open spec fn register_without_referrer_spec(
    state: ProgramState,
    book: AddressBook,
    owner: Addr,
    fixed: FixedAccountKeys,
    remaining: Seq<Addr>,
    user_wallet: Addr,
    deposit_amount: u64,
) -> Result<RootRegOut, ErrorCode> {
    match validate_base_registration_spec(
        book,
        owner,
        state.multisig_treasury,
        fixed.pool,
        fixed.b_vault,
        fixed.b_token_vault,
        fixed.b_vault_lp_mint,
        fixed.b_vault_lp,
        fixed.token_mint,
        fixed.wsol_mint,
        fixed.vault_program,
        fixed.amm_program,
        fixed.protocol_token_fee,
    ) {
        Err(e) => Err(e),
        Ok(_) => {
            let upline_id = state.next_upline_id;
            let chain_id = state.next_chain_id;
            let state1 = ProgramState {
                next_upline_id: (upline_id + 1) as u32,
                next_chain_id: (chain_id + 1) as u32,
                ..state
            };
            match extract_vault_a_spec(book, remaining) {
                Err(e) => Err(e),
                Ok(_) => Ok(
                    RootRegOut {
                        state: state1,
                        user: base_user(user_wallet, upline_id, chain_id),
                        actions: seq![FinancialAction::Burn { amount: deposit_amount }],
                    },
                ),
            }
        },
    }
}

/// What a root registration hands back to the caller.
#[derive(Clone, PartialEq, Debug)]
pub struct RootRegistrationOutcome {
    /// The created root user record, to be persisted.
    pub user: UserAccount,
    /// The money movements to perform, in order.
    pub actions: Vec<FinancialAction>,
}

/// Registers the root user: authorizes the caller, validates every supplied
/// account, creates the record, and routes the whole deposit to
/// swap-and-burn. On any error nothing changes.
pub fn register_without_referrer(
    state: &mut ProgramState,
    book: &AddressBook,
    owner: &Addr,
    fixed: &FixedAccountKeys,
    remaining: &Vec<Addr>,
    user_wallet: &Addr,
    deposit_amount: u64,
) -> (r: Result<RootRegistrationOutcome, ErrorCode>)
    requires
        old(state).next_upline_id < u32::MAX,
        old(state).next_chain_id < u32::MAX,
    ensures
        match r {
            Ok(out) => {
                &&& register_without_referrer_spec(
                    *old(state),
                    *book,
                    *owner,
                    *fixed,
                    remaining@,
                    *user_wallet,
                    deposit_amount,
                ) matches Ok(s)
                &&& *final(state) == s.state
                &&& out.user@ == s.user
                &&& out.actions@ == s.actions
                &&& out.user@.wf()
            },
            Err(e) => {
                &&& register_without_referrer_spec(
                    *old(state),
                    *book,
                    *owner,
                    *fixed,
                    remaining@,
                    *user_wallet,
                    deposit_amount,
                ) == Err::<RootRegOut, ErrorCode>(e)
                &&& *final(state) == *old(state)
            },
        },
{
    validate_base_registration(
        book,
        owner,
        &state.multisig_treasury,
        &fixed.pool,
        &fixed.b_vault,
        &fixed.b_token_vault,
        &fixed.b_vault_lp_mint,
        &fixed.b_vault_lp,
        &fixed.token_mint,
        &fixed.wsol_mint,
        &fixed.vault_program,
        &fixed.amm_program,
        &fixed.protocol_token_fee,
    )?;
    extract_and_verify_vault_a_accounts(book, remaining)?;
    let upline_id = state.next_upline_id;
    let chain_id = state.next_chain_id;
    state.next_upline_id = upline_id + 1;
    state.next_chain_id = chain_id + 1;
    let user = initialize_base_user_data(user_wallet, upline_id, chain_id);
    let mut actions: Vec<FinancialAction> = Vec::new();
    actions.push(FinancialAction::Burn { amount: deposit_amount });
    proof {
        assert(actions@ =~= seq![FinancialAction::Burn { amount: deposit_amount }]);
    }
    Ok(RootRegistrationOutcome { user, actions })
}

/// What one placement does to a matrix owner's record.
pub ghost struct PlaceOut {
    /// The owner's record afterward, reset if the matrix completed.
    pub account: UserV,
    /// Whether the placement filled the third slot.
    pub completed: bool,
    /// The emitted slot event; absent only when the matrix was already full.
    pub event: Option<SlotFilled>,
}

/// What [`place_in_matrix`] does: `user_key` takes the next open slot; a
/// full matrix is left untouched; filling the third slot resets the matrix
/// in place under the freshly drawn identifier.
pub open spec fn place_spec(
    account: UserV,
    owner_pda: Addr,
    user_key: Addr,
    next_chain_id: u32,
) -> PlaceOut {
    if account.chain.filled_slots >= 3 {
        PlaceOut { account, completed: false, event: None }
    } else {
        let event = SlotFilled {
            slot_idx: account.chain.filled_slots,
            chain_id: account.chain.id,
            user: user_key,
            owner: owner_pda,
        };
        let filled = account.chain.filled_with(user_key);
        if filled.filled_slots == 3 {
            PlaceOut {
                account: UserV { chain: ChainV::fresh(next_chain_id), ..account },
                completed: true,
                event: Some(event),
            }
        } else {
            PlaceOut {
                account: UserV { chain: filled, ..account },
                completed: false,
                event: Some(event),
            }
        }
    }
}

/// Assigns `user_key` to the next open slot of `account`'s matrix and
/// resets the matrix when the third slot fills.
pub fn place_in_matrix(
    account: &mut UserAccount,
    owner_pda: &Addr,
    user_key: &Addr,
    next_chain_id: u32,
) -> (r: (bool, Option<SlotFilled>))
    requires
        old(account)@.chain.wf(),
    ensures
        final(account)@ == place_spec(old(account)@, *owner_pda, *user_key, next_chain_id).account,
        r.0 == place_spec(old(account)@, *owner_pda, *user_key, next_chain_id).completed,
        r.1 == place_spec(old(account)@, *owner_pda, *user_key, next_chain_id).event,
        old(account)@.chain.settled() ==> final(account)@.chain.settled(),
        r.0 ==> final(account)@.chain == ChainV::fresh(next_chain_id),
{
    let slot_idx = account.chain.filled_slots;
    if slot_idx >= 3 {
        return (false, None);
    }
    let event = SlotFilled {
        slot_idx,
        chain_id: account.chain.id,
        user: *user_key,
        owner: *owner_pda,
    };
    account.chain.slots[slot_idx as usize] = Some(*user_key);
    account.chain.filled_slots = slot_idx + 1;
    if account.chain.filled_slots == 3 {
        account.chain = ReferralChain::new_fresh(next_chain_id);
        return (true, Some(event));
    }
    (false, Some(event))
}

} // verus!
