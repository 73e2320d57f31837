//! The external-ledger notifier: deriving the ledger's expected account
//! addresses, locating them among caller-supplied accounts, framing the
//! notification payload, and the ledger's one-way lifecycle.
//!
//! The cross-program call itself is made by the embedding program; the
//! address derivation goes through one trusted call into the host SDK, and
//! everything built on it is verified.

use vstd::prelude::*;

use crate::addr::Addr;
use crate::errors::ErrorCode;
use crate::model::ProgramState;
use crate::swap::{push_le_u64, u64_le_bytes};

verus! {

/// How many epochs the external ledger runs before it expires.
pub const AIRDROP_MAX_WEEKS: i64 = 36;

/// Seconds in one of the ledger's epochs.
pub const SECONDS_PER_WEEK: i64 = 604800;

/// The ledger's whole lifetime, in seconds.
pub const AIRDROP_LIFETIME_SECONDS: i64 = AIRDROP_MAX_WEEKS * SECONDS_PER_WEEK;

/// The address that deriving the given seeds under the given program
/// yields, when one exists: a function of the seeds and the program alone.
pub uninterp spec fn derived_address(seeds: Seq<Seq<u8>>, program: Addr) -> Option<Addr>;

/// Relies on solana_program's `Pubkey::try_find_program_address`: the
/// result is computed from the seeds and the program id alone, by hashing,
/// and depends on nothing else.
#[verifier::external_body]
fn find_program_address(seeds: &Vec<Vec<u8>>, program: &Addr) -> (r: Option<Addr>)
    ensures
        r == derived_address(seeds.deep_view(), *program),
{
    let refs: Vec<&[u8]> = seeds.iter().map(|s| s.as_slice()).collect();
    let pk = solana_program::pubkey::Pubkey::new_from_array(
        addr_to_bytes(program).try_into().unwrap(),
    );
    let (pda, _bump) = solana_program::pubkey::Pubkey::try_find_program_address(&refs, &pk)?;
    let b = pda.to_bytes().to_vec();
    Some(
        Addr {
            w0: crate::swap::read_le_u64(&b, 0),
            w1: crate::swap::read_le_u64(&b, 8),
            w2: crate::swap::read_le_u64(&b, 16),
            w3: crate::swap::read_le_u64(&b, 24),
        },
    )
}

/// The 32 little-endian bytes of an address.
#[verifier::opaque]
pub open spec fn addr_bytes(a: Addr) -> Seq<u8> {
    u64_le_bytes(a.w0) + u64_le_bytes(a.w1) + u64_le_bytes(a.w2) + u64_le_bytes(a.w3)
}

/// Serializes an address into its 32 little-endian bytes.
fn addr_to_bytes(a: &Addr) -> (r: Vec<u8>)
    ensures
        r@ == addr_bytes(*a),
{
    let mut out: Vec<u8> = Vec::new();
    push_le_u64(&mut out, a.w0);
    push_le_u64(&mut out, a.w1);
    push_le_u64(&mut out, a.w2);
    push_le_u64(&mut out, a.w3);
    proof {
        reveal(addr_bytes);
        assert(out@ =~= addr_bytes(*a));
    }
    out
}

/// The seed tag of a participant account in the external ledger:
/// `user_account` in ASCII.
pub open spec fn user_account_seed() -> Seq<u8> {
    seq![117u8, 115u8, 101u8, 114u8, 95u8, 97u8, 99u8, 99u8, 111u8, 117u8, 110u8, 116u8]
}

/// The seed tag of the external ledger's state account: `program_state` in
/// ASCII.
pub open spec fn program_state_seed() -> Seq<u8> {
    seq![112u8, 114u8, 111u8, 103u8, 114u8, 97u8, 109u8, 95u8, 115u8, 116u8, 97u8, 116u8, 101u8]
}

/// The seed tag of an epoch record in the external ledger: `weekly_data` in
/// ASCII.
pub open spec fn weekly_data_seed() -> Seq<u8> {
    seq![119u8, 101u8, 101u8, 107u8, 108u8, 121u8, 95u8, 100u8, 97u8, 116u8, 97u8]
}

/// Builds the `user_account` seed tag.
fn user_account_seed_bytes() -> (r: Vec<u8>)
    ensures
        r@ == user_account_seed(),
{
    let mut out: Vec<u8> = Vec::new();
    out.push(117);
    out.push(115);
    out.push(101);
    out.push(114);
    out.push(95);
    out.push(97);
    out.push(99);
    out.push(99);
    out.push(111);
    out.push(117);
    out.push(110);
    out.push(116);
    proof {
        assert(out@ =~= user_account_seed());
    }
    out
}

/// Builds the `program_state` seed tag.
fn program_state_seed_bytes() -> (r: Vec<u8>)
    ensures
        r@ == program_state_seed(),
{
    let mut out: Vec<u8> = Vec::new();
    out.push(112);
    out.push(114);
    out.push(111);
    out.push(103);
    out.push(114);
    out.push(97);
    out.push(109);
    out.push(95);
    out.push(115);
    out.push(116);
    out.push(97);
    out.push(116);
    out.push(101);
    proof {
        assert(out@ =~= program_state_seed());
    }
    out
}

/// Builds the `weekly_data` seed tag.
fn weekly_data_seed_bytes() -> (r: Vec<u8>)
    ensures
        r@ == weekly_data_seed(),
{
    let mut out: Vec<u8> = Vec::new();
    out.push(119);
    out.push(101);
    out.push(101);
    out.push(107);
    out.push(108);
    out.push(121);
    out.push(95);
    out.push(100);
    out.push(97);
    out.push(116);
    out.push(97);
    proof {
        assert(out@ =~= weekly_data_seed());
    }
    out
}

/// The derived ledger account of a wallet.
pub open spec fn user_account_pda(wallet: Addr, program: Addr) -> Option<Addr> {
    derived_address(seq![user_account_seed(), addr_bytes(wallet)], program)
}

/// Derives a wallet's ledger account address.
pub fn derive_user_account_pda(wallet: &Addr, program: &Addr) -> (r: Option<Addr>)
    ensures
        r == user_account_pda(*wallet, *program),
{
    let mut seeds: Vec<Vec<u8>> = Vec::new();
    seeds.push(user_account_seed_bytes());
    seeds.push(addr_to_bytes(wallet));
    proof {
        assert(seeds.deep_view() =~~= seq![user_account_seed(), addr_bytes(*wallet)]);
    }
    find_program_address(&seeds, program)
}

/// The derived state account of the ledger program.
pub open spec fn program_state_pda(program: Addr) -> Option<Addr> {
    derived_address(seq![program_state_seed()], program)
}

/// Derives the ledger program's state account address.
pub fn derive_program_state_pda(program: &Addr) -> (r: Option<Addr>)
    ensures
        r == program_state_pda(*program),
{
    let mut seeds: Vec<Vec<u8>> = Vec::new();
    seeds.push(program_state_seed_bytes());
    proof {
        assert(seeds.deep_view() =~~= seq![program_state_seed()]);
    }
    find_program_address(&seeds, program)
}

/// The derived epoch record of the ledger program for one week index.
pub open spec fn weekly_data_pda(week: u8, program: Addr) -> Option<Addr> {
    derived_address(seq![weekly_data_seed(), seq![week]], program)
}

/// Derives the ledger program's epoch record address for one week index.
pub fn derive_weekly_data_pda(week: u8, program: &Addr) -> (r: Option<Addr>)
    ensures
        r == weekly_data_pda(week, *program),
{
    let mut seeds: Vec<Vec<u8>> = Vec::new();
    seeds.push(weekly_data_seed_bytes());
    let mut wb: Vec<u8> = Vec::new();
    wb.push(week);
    seeds.push(wb);
    proof {
        assert(seeds.deep_view() =~~= seq![weekly_data_seed(), seq![week]]);
    }
    find_program_address(&seeds, program)
}

/// One caller-supplied account, as the notifier sees it: its key and the
/// facts the caller read from it.
#[derive(Clone, Copy, PartialEq, Eq, Structural, Debug)]
pub struct LedgerAccountInfo {
    /// The account's key.
    pub key: Addr,
    /// Whether the account is owned by the ledger program.
    pub owned_by_ledger: bool,
    /// Whether the account holds any funds.
    pub has_lamports: bool,
    /// Whether the account holds any data.
    pub has_data: bool,
}

/// The position of the first supplied account under the given key, from
/// position `i` on.
pub open spec fn first_key_index_from(
    accounts: Seq<LedgerAccountInfo>,
    target: Addr,
    i: int,
) -> Option<int>
    decreases accounts.len() - i,
{
    if i < 0 || i >= accounts.len() {
        None
    } else if accounts[i].key == target {
        Some(i)
    } else {
        first_key_index_from(accounts, target, i + 1)
    }
}

/// Finds the first supplied account under the given key.
pub fn find_account_index(accounts: &Vec<LedgerAccountInfo>, target: &Addr) -> (r: Option<usize>)
    ensures
        match r {
            Some(idx) => first_key_index_from(accounts@, *target, 0) == Some(idx as int),
            None => first_key_index_from(accounts@, *target, 0) is None,
        },
{
    let n = accounts.len();
    let mut i: usize = 0;
    while i < n
        invariant
            i <= n,
            n == accounts@.len(),
            first_key_index_from(accounts@, *target, 0) == first_key_index_from(
                accounts@,
                *target,
                i as int,
            ),
        decreases n - i,
    {
        if accounts[i].key == *target {
            return Some(i);
        }
        i = i + 1;
    }
    None
}

/// Whether the ledger already knows this wallet: its derived account is
/// among the supplied accounts, owned by the ledger, funded, and non-empty.
/// A wallet whose account cannot be derived is taken as unknown.
pub open spec fn user_exists_spec(
    accounts: Seq<LedgerAccountInfo>,
    wallet: Addr,
    ledger_program: Addr,
) -> bool {
    match user_account_pda(wallet, ledger_program) {
        None => false,
        Some(pda) => match first_key_index_from(accounts, pda, 0) {
            None => false,
            Some(i) => accounts[i].owned_by_ledger && accounts[i].has_lamports
                && accounts[i].has_data,
        },
    }
}

/// Decides whether the ledger already knows this wallet.
#[verifier::rlimit(50)]
pub fn user_exists_in_airdrop(
    accounts: &Vec<LedgerAccountInfo>,
    wallet: &Addr,
    ledger_program: &Addr,
) -> (r: bool)
    ensures
        r == user_exists_spec(accounts@, *wallet, *ledger_program),
{
    let pda = match derive_user_account_pda(wallet, ledger_program) {
        Some(p) => p,
        None => {
            return false;
        },
    };
    match find_account_index(accounts, &pda) {
        None => false,
        Some(i) => {
            proof {
                lemma_first_key_index_in_bounds(accounts@, pda, 0);
            }
            let a = &accounts[i];
            a.owned_by_ledger && a.has_lamports && a.has_data
        },
    }
}

/// What [`locate_airdrop_state`] returns: the position of the ledger's
/// state account among the supplied accounts; a ledger whose state account
/// cannot be derived or was not supplied aborts the call.
pub open spec fn locate_airdrop_state_spec(
    accounts: Seq<LedgerAccountInfo>,
    ledger_program: Addr,
) -> Result<int, ErrorCode> {
    match program_state_pda(ledger_program) {
        None => Err(ErrorCode::MissingUplineAccount),
        Some(pda) => match first_key_index_from(accounts, pda, 0) {
            None => Err(ErrorCode::MissingUplineAccount),
            Some(i) => Ok(i),
        },
    }
}

/// Locates the ledger's state account among the supplied accounts, so the
/// caller can read the current epoch out of it.
pub fn locate_airdrop_state(accounts: &Vec<LedgerAccountInfo>, ledger_program: &Addr) -> (r: Result<
    usize,
    ErrorCode,
>)
    ensures
        match r {
            Ok(idx) => locate_airdrop_state_spec(accounts@, *ledger_program) == Ok::<
                int,
                ErrorCode,
            >(idx as int) && idx < accounts@.len(),
            Err(e) => locate_airdrop_state_spec(accounts@, *ledger_program) == Err::<
                int,
                ErrorCode,
            >(e),
        },
{
    let pda = match derive_program_state_pda(ledger_program) {
        Some(p) => p,
        None => {
            return Err(ErrorCode::MissingUplineAccount);
        },
    };
    match find_account_index(accounts, &pda) {
        None => Err(ErrorCode::MissingUplineAccount),
        Some(i) => {
            proof {
                lemma_first_key_index_in_bounds(accounts@, pda, 0);
            }
            Ok(i)
        },
    }
}

proof fn lemma_first_key_index_in_bounds(accounts: Seq<LedgerAccountInfo>, target: Addr, i: int)
    ensures
        first_key_index_from(accounts, target, i) matches Some(j) ==> i <= j < accounts.len(),
    decreases accounts.len() - i,
{
    if 0 <= i < accounts.len() {
        lemma_first_key_index_in_bounds(accounts, target, i + 1);
    }
}

/// The opcode tag telling the ledger to record a completion for a wallet it
/// already knows.
pub open spec fn register_existing_tag() -> Seq<u8> {
    seq![250u8, 108u8, 76u8, 22u8, 238u8, 239u8, 87u8, 21u8]
}

/// The opcode tag telling the ledger to create the wallet's record and then
/// record the completion.
pub open spec fn register_with_create_tag() -> Seq<u8> {
    seq![68u8, 201u8, 129u8, 230u8, 125u8, 165u8, 234u8, 125u8]
}

/// The notification payload: the opcode tag picked by whether the wallet is
/// known, one byte saying whether this notification closes its batch, and
/// the two epoch indices.
pub open spec fn notify_payload(user_exists: bool, is_last: bool, current_week: u8) -> Seq<u8> {
    let tag = if user_exists {
        register_existing_tag()
    } else {
        register_with_create_tag()
    };
    tag + seq![
        if is_last {
            1u8
        } else {
            0u8
        },
        current_week,
        (current_week + 1) as u8,
    ]
}

/// Everything the caller needs to issue one ledger notification.
#[derive(Clone, PartialEq, Debug)]
pub struct NotifyPlan {
    /// Whether the ledger already knows the wallet.
    pub user_exists: bool,
    /// The wallet's derived ledger account.
    pub user_account_pda: Addr,
    /// The ledger's state account.
    pub program_state_pda: Addr,
    /// The current epoch's record account.
    pub current_week_data_pda: Addr,
    /// The next epoch's record account.
    pub next_week_data_pda: Addr,
    /// The position of the wallet among the supplied accounts.
    pub wallet_index: usize,
    /// The instruction payload to send.
    pub instruction_data: Vec<u8>,
}

/// What [`plan_airdrop_notification`] returns, field by field; any account
/// that cannot be derived or found among the supplied ones aborts the call.
pub open spec fn plan_airdrop_notification_spec(
    accounts: Seq<LedgerAccountInfo>,
    referrer_wallet: Addr,
    ledger_program: Addr,
    current_week: u8,
    is_last: bool,
) -> Result<
    (bool, Addr, Addr, Addr, Addr, int, Seq<u8>),
    ErrorCode,
> {
    let user_exists = user_exists_spec(accounts, referrer_wallet, ledger_program);
    match (
        user_account_pda(referrer_wallet, ledger_program),
        program_state_pda(ledger_program),
        weekly_data_pda(current_week, ledger_program),
        weekly_data_pda((current_week + 1) as u8, ledger_program),
    ) {
        (Some(user_pda), Some(state_pda), Some(cur_pda), Some(next_pda)) => {
            match first_key_index_from(accounts, referrer_wallet, 0) {
                None => Err(ErrorCode::MissingUplineAccount),
                Some(widx) => Ok(
                    (
                        user_exists,
                        user_pda,
                        state_pda,
                        cur_pda,
                        next_pda,
                        widx,
                        notify_payload(user_exists, is_last, current_week),
                    ),
                ),
            }
        },
        _ => Err(ErrorCode::MissingUplineAccount),
    }
}

/// Plans one ledger notification: derives the ledger's expected accounts,
/// locates the wallet among the supplied accounts, and frames the payload.
pub fn plan_airdrop_notification(
    accounts: &Vec<LedgerAccountInfo>,
    referrer_wallet: &Addr,
    ledger_program: &Addr,
    current_week: u8,
    is_last: bool,
) -> (r: Result<NotifyPlan, ErrorCode>)
    requires
        current_week < u8::MAX,
    ensures
        ({
            let s = plan_airdrop_notification_spec(
                accounts@,
                *referrer_wallet,
                *ledger_program,
                current_week,
                is_last,
            );
            match r {
                Ok(plan) => {
                    &&& s matches Ok(t)
                    &&& plan.user_exists == t.0
                    &&& plan.user_account_pda == t.1
                    &&& plan.program_state_pda == t.2
                    &&& plan.current_week_data_pda == t.3
                    &&& plan.next_week_data_pda == t.4
                    &&& plan.wallet_index as int == t.5
                    &&& plan.instruction_data@ == t.6
                    &&& plan.wallet_index < accounts@.len()
                },
                Err(e) => s == Err::<(bool, Addr, Addr, Addr, Addr, int, Seq<u8>), ErrorCode>(e),
            }
        }),
{
    let user_exists = user_exists_in_airdrop(accounts, referrer_wallet, ledger_program);
    let user_pda = match derive_user_account_pda(referrer_wallet, ledger_program) {
        Some(p) => p,
        None => {
            return Err(ErrorCode::MissingUplineAccount);
        },
    };
    let state_pda = match derive_program_state_pda(ledger_program) {
        Some(p) => p,
        None => {
            return Err(ErrorCode::MissingUplineAccount);
        },
    };
    let cur_pda = match derive_weekly_data_pda(current_week, ledger_program) {
        Some(p) => p,
        None => {
            return Err(ErrorCode::MissingUplineAccount);
        },
    };
    let next_pda = match derive_weekly_data_pda(current_week + 1, ledger_program) {
        Some(p) => p,
        None => {
            return Err(ErrorCode::MissingUplineAccount);
        },
    };
    let wallet_index = match find_account_index(accounts, referrer_wallet) {
        Some(i) => i,
        None => {
            return Err(ErrorCode::MissingUplineAccount);
        },
    };
    proof {
        lemma_first_key_index_in_bounds(accounts@, *referrer_wallet, 0);
    }
    let mut data: Vec<u8> = Vec::new();
    if user_exists {
        data.push(250);
        data.push(108);
        data.push(76);
        data.push(22);
        data.push(238);
        data.push(239);
        data.push(87);
        data.push(21);
    } else {
        data.push(68);
        data.push(201);
        data.push(129);
        data.push(230);
        data.push(125);
        data.push(165);
        data.push(234);
        data.push(125);
    }
    data.push(
        if is_last {
            1
        } else {
            0
        },
    );
    data.push(current_week);
    data.push(current_week + 1);
    proof {
        assert(data@ =~= notify_payload(user_exists, is_last, current_week));
    }
    Ok(
        NotifyPlan {
            user_exists,
            user_account_pda: user_pda,
            program_state_pda: state_pda,
            current_week_data_pda: cur_pda,
            next_week_data_pda: next_pda,
            wallet_index,
            instruction_data: data,
        },
    )
}

/// Whether the ledger's lifetime has elapsed at the given clock reading.
pub open spec fn airdrop_expired(start_timestamp: i64, now: i64) -> bool {
    now - start_timestamp >= AIRDROP_LIFETIME_SECONDS
}

/// Recomputes whether the external ledger still accepts notifications: an
/// active ledger whose lifetime has elapsed is flipped to inactive and the
/// clock reading recorded; the transition is one-way and an inactive ledger
/// never comes back.
pub fn refresh_airdrop_status(state: &mut ProgramState, ledger_start_timestamp: i64, now: i64) -> (r:
    bool)
    ensures
        ({
            let st = *final(state);
            &&& r == st.airdrop_active
            &&& st.owner == old(state).owner
            &&& st.multisig_treasury == old(state).multisig_treasury
            &&& st.next_upline_id == old(state).next_upline_id
            &&& st.next_chain_id == old(state).next_chain_id
            &&& !old(state).airdrop_active ==> st == *old(state)
            &&& old(state).airdrop_active && !airdrop_expired(ledger_start_timestamp, now) ==> st
                == *old(state)
            &&& old(state).airdrop_active && airdrop_expired(ledger_start_timestamp, now)
                ==> st.airdrop_active == false && st.airdrop_end_timestamp == now
            &&& st.airdrop_active ==> old(state).airdrop_active
        }),
{
    if !state.airdrop_active {
        return false;
    }
    // Work in 128 bits so neither the elapsed time nor the fixed lifetime
    // can overflow.
    let elapsed: i128 = now as i128 - ledger_start_timestamp as i128;
    if elapsed >= AIRDROP_LIFETIME_SECONDS as i128 {
        state.airdrop_active = false;
        state.airdrop_end_timestamp = now;
        return false;
    }
    true
}

/// What the ledger's answer to a notification means for the whole call: a
/// wallet the ledger reports as unknown aborts the transaction only while
/// the ledger is active; after expiry every notification is a no-op.
pub fn ledger_report_outcome(airdrop_active: bool, wallet_unregistered: bool) -> (r: Result<
    (),
    ErrorCode,
>)
    ensures
        r == (if airdrop_active && wallet_unregistered {
            Err::<(), ErrorCode>(ErrorCode::UserNotRegisteredInAirdrop)
        } else {
            Ok::<(), ErrorCode>(())
        }),
{
    if airdrop_active && wallet_unregistered {
        return Err(ErrorCode::UserNotRegisteredInAirdrop);
    }
    Ok(())
}

} // verus!
