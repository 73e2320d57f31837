//! The recursive upline settlement engine.
//!
//! When a third-slot placement completes a referrer's matrix, the fresh
//! deposit propagates up the referrer's stored ancestor chain: each ancestor
//! in turn receives the current user into its next open slot and the
//! slot-indexed financial action is applied to the carried deposit, until
//! the deposit is consumed or the chain ends. The caller supplies the
//! ancestor accounts; they must equal the stored chain pair by pair, and no
//! account may appear twice.

use vstd::prelude::*;

use crate::addr::Addr;
use crate::errors::ErrorCode;
use crate::matrix::{new_child_user, place_in_matrix, place_spec, FixedAccountKeys, build_child_user};
use crate::model::{
    ChainV, FinancialAction, ProgramState, SlotFilled, UplineEntry, UserAccount, UserV,
};
use crate::oracle::{calculate_minimum_sol_deposit, minimum_sol_deposit_spec, OracleReading};
use crate::validate::{
    verify_address_strict, verify_all_fixed_addresses, verify_all_fixed_addresses_spec,
    verify_chainlink_addresses, verify_chainlink_addresses_spec, verify_vault_a_addresses,
    verify_vault_a_addresses_spec, AddressBook,
};
use crate::{MAX_UPLINE_DEPTH, VAULT_A_ACCOUNTS_COUNT};

verus! {

/// One caller-supplied ancestor: its account keys, its loaded record, and
/// the ownership facts the caller read from the two accounts.
#[derive(Clone, PartialEq, Debug)]
pub struct AncestorRecord {
    /// The ancestor's program-derived user account key.
    pub pda: Addr,
    /// The wallet that controls that account.
    pub wallet: Addr,
    /// The record loaded from the user account.
    pub account: UserAccount,
    /// Whether the wallet account is owned by the system program.
    pub wallet_is_system_owned: bool,
    /// Whether the user account is owned by this program.
    pub pda_is_program_owned: bool,
}

/// Mathematical view of [`AncestorRecord`].
pub ghost struct AncestorV {
    /// The ancestor's program-derived user account key.
    pub pda: Addr,
    /// The wallet that controls that account.
    pub wallet: Addr,
    /// The record loaded from the user account.
    pub account: UserV,
    /// Whether the wallet account is owned by the system program.
    pub wallet_is_system_owned: bool,
    /// Whether the user account is owned by this program.
    pub pda_is_program_owned: bool,
}

impl View for AncestorRecord {
    type V = AncestorV;

    open spec fn view(&self) -> AncestorV {
        AncestorV {
            pda: self.pda,
            wallet: self.wallet,
            account: self.account@,
            wallet_is_system_owned: self.wallet_is_system_owned,
            pda_is_program_owned: self.pda_is_program_owned,
        }
    }
}

/// The views of a sequence of ancestor records.
pub open spec fn anc_views(s: Seq<AncestorRecord>) -> Seq<AncestorV> {
    Seq::new(s.len(), |i: int| s[i]@)
}

/// The views of a sequence of user records.
pub open spec fn user_views(s: Seq<UserAccount>) -> Seq<UserV> {
    Seq::new(s.len(), |i: int| s[i]@)
}

/// Pairwise comparison of the supplied ancestors against the stored chain,
/// from position `i` on: a wrong account rejects the order, a right account
/// under a wrong wallet rejects the wallet.
pub open spec fn validate_pairs_from(
    stored: Seq<UplineEntry>,
    supplied: Seq<AncestorV>,
    i: int,
) -> Result<(), ErrorCode>
    decreases stored.len() - i,
{
    if i < 0 || i >= stored.len() {
        Ok(())
    } else if supplied[i].pda != stored[i].pda {
        Err(ErrorCode::InvalidUplineOrder)
    } else if supplied[i].wallet != stored[i].wallet {
        Err(ErrorCode::InvalidUplineWallet)
    } else {
        validate_pairs_from(stored, supplied, i + 1)
    }
}

/// What [`validate_upline_list`] returns: the supplied list must match the
/// stored chain pair by pair, in the stored order, and at full length.
pub open spec fn validate_upline_list_spec(
    stored: Seq<UplineEntry>,
    supplied: Seq<AncestorV>,
) -> Result<(), ErrorCode> {
    if supplied.len() != stored.len() {
        Err(ErrorCode::InvalidUplineOrder)
    } else {
        validate_pairs_from(stored, supplied, 0)
    }
}

/// Whether the supplied ancestor at `j` is the stored one: same account,
/// same wallet.
pub open spec fn pair_matches(stored: Seq<UplineEntry>, supplied: Seq<AncestorV>, j: int) -> bool {
    supplied[j].pda == stored[j].pda && supplied[j].wallet == stored[j].wallet
}

/// The validation accepts exactly the stored list: it passes if and only if
/// the supplied accounts and wallets are the stored ones in the stored
/// order.
pub proof fn lemma_validate_upline_iff(stored: Seq<UplineEntry>, supplied: Seq<AncestorV>)
    ensures
        validate_upline_list_spec(stored, supplied) is Ok <==> (supplied.len() == stored.len()
            && forall|j: int| 0 <= j < stored.len() ==> #[trigger] pair_matches(stored, supplied, j)),
{
    if supplied.len() == stored.len() {
        lemma_validate_pairs_iff(stored, supplied, 0);
        assert(validate_upline_list_spec(stored, supplied) == validate_pairs_from(
            stored,
            supplied,
            0,
        ));
    } else {
        assert(validate_upline_list_spec(stored, supplied) is Err);
    }
}

proof fn lemma_validate_pairs_iff(stored: Seq<UplineEntry>, supplied: Seq<AncestorV>, i: int)
    requires
        0 <= i <= stored.len(),
    ensures
        validate_pairs_from(stored, supplied, i) is Ok <==> (forall|j: int|
            i <= j < stored.len() ==> #[trigger] pair_matches(stored, supplied, j)),
    decreases stored.len() - i,
{
    if i < stored.len() {
        lemma_validate_pairs_iff(stored, supplied, i + 1);
        if pair_matches(stored, supplied, i) {
            assert(validate_pairs_from(stored, supplied, i) == validate_pairs_from(
                stored,
                supplied,
                i + 1,
            ));
            if validate_pairs_from(stored, supplied, i) is Ok {
                assert forall|j: int|
                    i <= j < stored.len() implies #[trigger] pair_matches(stored, supplied, j) by {
                    if j > i {
                        assert(pair_matches(stored, supplied, j));
                    }
                }
            } else {
                let j = choose|j: int|
                    i + 1 <= j < stored.len() && !(#[trigger] pair_matches(stored, supplied, j));
                assert(!pair_matches(stored, supplied, j));
            }
        } else {
            assert(validate_pairs_from(stored, supplied, i) is Err);
            assert(!pair_matches(stored, supplied, i));
        }
    }
}

/// Checks the supplied ancestors against the stored chain, pair by pair.
pub fn validate_upline_list(stored: &Vec<UplineEntry>, supplied: &Vec<AncestorRecord>) -> (r:
    Result<(), ErrorCode>)
    ensures
        r == validate_upline_list_spec(stored@, anc_views(supplied@)),
{
    let ghost sup = anc_views(supplied@);
    if supplied.len() != stored.len() {
        return Err(ErrorCode::InvalidUplineOrder);
    }
    let n = stored.len();
    let mut i: usize = 0;
    while i < n
        invariant
            i <= n,
            n == stored@.len() == supplied@.len(),
            sup == anc_views(supplied@),
            validate_pairs_from(stored@, sup, 0) == validate_pairs_from(stored@, sup, i as int),
        decreases n - i,
    {
        if supplied[i].pda != stored[i].pda {
            return Err(ErrorCode::InvalidUplineOrder);
        }
        if supplied[i].wallet != stored[i].wallet {
            return Err(ErrorCode::InvalidUplineWallet);
        }
        i = i + 1;
    }
    Ok(())
}

/// Whether any user account key appears twice among the supplied ancestors.
pub open spec fn has_duplicate_pda(supplied: Seq<AncestorV>) -> bool {
    exists|i: int, j: int| 0 <= i < j < supplied.len() && supplied[i].pda == supplied[j].pda
}

/// What [`check_duplicate_uplines`] returns: reuse of an ancestor account
/// within one walk is an attack and is rejected.
pub open spec fn check_duplicate_uplines_spec(supplied: Seq<AncestorV>) -> Result<(), ErrorCode> {
    if has_duplicate_pda(supplied) {
        Err(ErrorCode::DuplicateUplineExploit)
    } else {
        Ok(())
    }
}

/// Rejects a supplied ancestor list in which any account appears twice.
pub fn check_duplicate_uplines(supplied: &Vec<AncestorRecord>) -> (r: Result<(), ErrorCode>)
    ensures
        r == check_duplicate_uplines_spec(anc_views(supplied@)),
{
    let ghost sup = anc_views(supplied@);
    let n = supplied.len();
    let mut i: usize = 0;
    while i < n
        invariant
            i <= n,
            n == supplied@.len(),
            sup == anc_views(supplied@),
            forall|a: int, b: int| 0 <= a < b < n && a < i ==> sup[a].pda != sup[b].pda,
        decreases n - i,
    {
        let mut j: usize = i + 1;
        while j < n
            invariant
                i < j <= n || (i + 1 == j && j > n),
                i < n,
                n == supplied@.len(),
                sup == anc_views(supplied@),
                forall|b: int| i < b < j ==> sup[i as int].pda != sup[b].pda,
            decreases n - j,
        {
            if supplied[i].pda == supplied[j].pda {
                assert(sup[i as int].pda == sup[j as int].pda);
                return Err(ErrorCode::DuplicateUplineExploit);
            }
            j = j + 1;
        }
        i = i + 1;
    }
    Ok(())
}

/// How many ancestors at the head of the list are on their third slot: each
/// of those matrices completes during the walk, and only those, so this is
/// the number of completion notifications the walk itself will send.
pub open spec fn cascade_len(anc: Seq<AncestorV>, i: int) -> int
    decreases anc.len() - i,
{
    if i < 0 || i >= anc.len() || i >= MAX_UPLINE_DEPTH as int {
        0
    } else if anc[i].account.chain.filled_slots == 2 {
        1 + cascade_len(anc, i + 1)
    } else {
        0
    }
}

/// Counts the matrices the walk will complete, by scanning the head of the
/// ancestor list for accounts on their third slot.
pub fn count_cascade_completions(ancestors: &Vec<AncestorRecord>) -> (r: u64)
    ensures
        r as int == cascade_len(anc_views(ancestors@), 0),
        r <= MAX_UPLINE_DEPTH,
{
    let ghost vs = anc_views(ancestors@);
    let n = ancestors.len();
    let mut i: usize = 0;
    while i < n && i < MAX_UPLINE_DEPTH && ancestors[i].account.chain.filled_slots == 2
        invariant
            i <= n,
            i <= MAX_UPLINE_DEPTH,
            n == ancestors@.len(),
            vs == anc_views(ancestors@),
            cascade_len(vs, 0) == i + cascade_len(vs, i as int),
            forall|j: int| 0 <= j < i ==> #[trigger] vs[j].account.chain.filled_slots == 2,
        decreases n - i,
    {
        i = i + 1;
    }
    proof {
        assert(cascade_len(vs, i as int) == 0);
    }
    i as u64
}

/// What one visit does to one ancestor.
pub ghost struct StepOut {
    /// The ancestor's record afterward.
    pub account: UserV,
    /// The money movements of this visit, in order.
    pub actions: Seq<FinancialAction>,
    /// The emitted slot event.
    pub event: SlotFilled,
    /// Whether this visit consumed the carried deposit.
    pub allocated: bool,
    /// Whether this visit completed the ancestor's matrix.
    pub completed: bool,
    /// Who is placed next: the ancestor itself after a completion.
    pub current: Addr,
    /// The matrix-identifier counter afterward.
    pub next_chain_id: u32,
    /// Notifications sent so far, this visit's included.
    pub notified: int,
}

/// One visit: the current user takes the ancestor's next open slot and the
/// slot index picks the financial action on the carried deposit — first
/// slot burns it, second slot reserves it, third slot pays out any earlier
/// reservation, notifies the ledger of the completion, resets the matrix,
/// and carries the deposit onward.
pub open spec fn visit_step(
    a: AncestorV,
    current: Addr,
    deposit: u64,
    next_chain_id: u32,
    notified: int,
    total: int,
) -> StepOut
    recommends
        a.account.chain.settled(),
{
    let slot = a.account.chain.filled_slots;
    let event = SlotFilled {
        slot_idx: slot,
        chain_id: a.account.chain.id,
        user: current,
        owner: a.pda,
    };
    let filled = UserV { chain: a.account.chain.filled_with(current), ..a.account };
    if slot == 0 {
        StepOut {
            account: filled,
            actions: seq![FinancialAction::Burn { amount: deposit }],
            event,
            allocated: true,
            completed: false,
            current,
            next_chain_id,
            notified,
        }
    } else if slot == 1 {
        StepOut {
            account: UserV { reserved_sol: deposit, ..filled },
            actions: seq![FinancialAction::Reserve { beneficiary: a.pda, amount: deposit }],
            event,
            allocated: true,
            completed: false,
            current,
            next_chain_id,
            notified,
        }
    } else {
        let pay: Seq<FinancialAction> = if a.account.reserved_sol > 0 {
            seq![FinancialAction::Pay { wallet: a.wallet, amount: a.account.reserved_sol }]
        } else {
            Seq::empty()
        };
        let notify = FinancialAction::Notify { wallet: a.wallet, is_last: notified + 1 == total };
        StepOut {
            account: UserV { chain: ChainV::fresh(next_chain_id), reserved_sol: 0, ..filled },
            actions: pay.push(notify),
            event,
            allocated: false,
            completed: true,
            current: a.pda,
            next_chain_id: (next_chain_id + 1) as u32,
            notified: notified + 1,
        }
    }
}

/// Everything one walk produces.
pub ghost struct WalkOut {
    /// The post-visit records of the visited head of the list, in order.
    pub updated: Seq<UserV>,
    /// The money movements of the walk, in order.
    pub actions: Seq<FinancialAction>,
    /// The emitted slot events, in order.
    pub events: Seq<SlotFilled>,
    /// How many ancestors were visited.
    pub visited: int,
    /// Whether the walk consumed the deposit.
    pub allocated: bool,
    /// The deposit still carried: zero once allocated.
    pub deposit: u64,
    /// Who would be placed next.
    pub current: Addr,
    /// The matrix-identifier counter afterward.
    pub next_chain_id: u32,
    /// Notifications sent so far, the walk's included.
    pub notified: int,
    /// Why the walk aborted, if it did; the other fields then carry nothing.
    pub error: Option<ErrorCode>,
}

/// A walk that visits nothing more.
pub open spec fn walk_done(deposit: u64, current: Addr, next_chain_id: u32, notified: int) -> WalkOut {
    WalkOut {
        updated: Seq::empty(),
        actions: Seq::empty(),
        events: Seq::empty(),
        visited: 0,
        allocated: false,
        deposit,
        current,
        next_chain_id,
        notified,
        error: None,
    }
}

/// A walk aborted by an invalid ancestor.
pub open spec fn walk_failed(
    e: ErrorCode,
    deposit: u64,
    current: Addr,
    next_chain_id: u32,
    notified: int,
) -> WalkOut {
    WalkOut { error: Some(e), ..walk_done(deposit, current, next_chain_id, notified) }
}

/// The whole walk from position `i`: visit ancestors in order while the
/// deposit is still carried, stopping at an incomplete matrix, at an
/// allocation, or at the depth bound; every visited ancestor must be a
/// registered, program-owned account with a system-owned wallet.
pub open spec fn upline_walk(
    anc: Seq<AncestorV>,
    i: int,
    current: Addr,
    deposit: u64,
    next_chain_id: u32,
    notified: int,
    total: int,
) -> WalkOut
    decreases anc.len() - i,
{
    if i < 0 || i >= anc.len() || i >= MAX_UPLINE_DEPTH as int || deposit == 0 {
        walk_done(deposit, current, next_chain_id, notified)
    } else {
        let a = anc[i];
        if !a.wallet_is_system_owned {
            walk_failed(ErrorCode::PaymentWalletInvalid, deposit, current, next_chain_id, notified)
        } else if !a.pda_is_program_owned {
            walk_failed(ErrorCode::InvalidSlotOwner, deposit, current, next_chain_id, notified)
        } else if !a.account.is_registered {
            walk_failed(ErrorCode::SlotNotRegistered, deposit, current, next_chain_id, notified)
        } else {
            let s = visit_step(a, current, deposit, next_chain_id, notified, total);
            let dep1: u64 = if s.allocated {
                0u64
            } else {
                deposit
            };
            if !s.completed || s.allocated || i >= MAX_UPLINE_DEPTH as int - 1 {
                WalkOut {
                    updated: seq![s.account],
                    actions: s.actions,
                    events: seq![s.event],
                    visited: 1,
                    allocated: s.allocated,
                    deposit: dep1,
                    current: s.current,
                    next_chain_id: s.next_chain_id,
                    notified: s.notified,
                    error: None,
                }
            } else {
                let rest = upline_walk(anc, i + 1, s.current, dep1, s.next_chain_id, s.notified, total);
                WalkOut {
                    updated: seq![s.account] + rest.updated,
                    actions: s.actions + rest.actions,
                    events: seq![s.event] + rest.events,
                    visited: 1 + rest.visited,
                    allocated: rest.allocated,
                    deposit: rest.deposit,
                    current: rest.current,
                    next_chain_id: rest.next_chain_id,
                    notified: rest.notified,
                    error: rest.error,
                }
            }
        }
    }
}

/// What [`process_upline_walk`] hands back on success.
#[derive(Clone, PartialEq, Debug)]
pub struct WalkDone {
    /// The post-visit records of the visited head of the list, in order.
    pub updated: Vec<UserAccount>,
    /// The money movements of the walk, in order.
    pub actions: Vec<FinancialAction>,
    /// The emitted slot events, in order.
    pub events: Vec<SlotFilled>,
    /// Whether the walk consumed the deposit.
    pub allocated: bool,
    /// The deposit still carried: zero once allocated.
    pub deposit: u64,
    /// Who would be placed next.
    pub current: Addr,
    /// The matrix-identifier counter afterward.
    pub next_chain_id: u32,
    /// Notifications sent so far, the walk's included.
    pub notified: u64,
}

/// Walks the validated ancestor list, applying one placement and one
/// slot-indexed financial action per ancestor until the deposit is
/// consumed, a matrix stays incomplete, or the depth bound is reached.
pub fn process_upline_walk(
    ancestors: &Vec<AncestorRecord>,
    start_current: Addr,
    deposit: u64,
    next_chain_id: u32,
    notified_before: u64,
    total_notifications: u64,
) -> (r: Result<WalkDone, ErrorCode>)
    requires
        forall|k: int|
            0 <= k < ancestors@.len() ==> (#[trigger] ancestors@[k])@.account.wf(),
        next_chain_id + MAX_UPLINE_DEPTH <= u32::MAX,
        notified_before + MAX_UPLINE_DEPTH <= u64::MAX,
    ensures
        ({
            let w = upline_walk(
                anc_views(ancestors@),
                0,
                start_current,
                deposit,
                next_chain_id,
                notified_before as int,
                total_notifications as int,
            );
            match r {
                Ok(d) => {
                    &&& w.error is None
                    &&& user_views(d.updated@) == w.updated
                    &&& d.updated@.len() == w.visited
                    &&& d.updated@.len() <= ancestors@.len()
                    &&& d.actions@ == w.actions
                    &&& d.events@ == w.events
                    &&& d.allocated == w.allocated
                    &&& d.deposit == w.deposit
                    &&& d.current == w.current
                    &&& d.next_chain_id == w.next_chain_id
                    &&& d.notified as int == w.notified
                    &&& forall|k: int|
                        0 <= k < d.updated@.len() ==> (#[trigger] d.updated@[k])@.wf()
                },
                Err(e) => w.error == Some(e),
            }
        }),
{
    let ghost vs = anc_views(ancestors@);
    let ghost w = upline_walk(
        vs,
        0,
        start_current,
        deposit,
        next_chain_id,
        notified_before as int,
        total_notifications as int,
    );
    let n = ancestors.len();
    let mut updated: Vec<UserAccount> = Vec::new();
    let mut actions: Vec<FinancialAction> = Vec::new();
    let mut events: Vec<SlotFilled> = Vec::new();
    let mut current = start_current;
    let mut dep = deposit;
    let mut ncid = next_chain_id;
    let mut notified = notified_before;
    let mut allocated = false;
    let mut i: usize = 0;
    proof {
        assert(user_views(updated@) + w.updated =~= w.updated);
        assert(actions@ + w.actions =~= w.actions);
        assert(events@ + w.events =~= w.events);
    }
    loop
        invariant_except_break
            n == ancestors@.len(),
            vs == anc_views(ancestors@),
            forall|k: int| 0 <= k < vs.len() ==> (#[trigger] vs[k]).account.wf(),
            w == upline_walk(
                vs,
                0,
                start_current,
                deposit,
                next_chain_id,
                notified_before as int,
                total_notifications as int,
            ),
            i <= n,
            i <= MAX_UPLINE_DEPTH,
            updated@.len() == i,
            forall|k: int| 0 <= k < updated@.len() ==> (#[trigger] updated@[k])@.wf(),
            !allocated,
            dep == deposit,
            next_chain_id <= ncid,
            ncid as int <= next_chain_id as int + i,
            notified_before <= notified,
            notified as int <= notified_before as int + i,
            next_chain_id + MAX_UPLINE_DEPTH <= u32::MAX,
            notified_before + MAX_UPLINE_DEPTH <= u64::MAX,
            ({
                let rest = upline_walk(
                    vs,
                    i as int,
                    current,
                    dep,
                    ncid,
                    notified as int,
                    total_notifications as int,
                );
                &&& w.updated == user_views(updated@) + rest.updated
                &&& w.actions == actions@ + rest.actions
                &&& w.events == events@ + rest.events
                &&& w.visited == i + rest.visited
                &&& w.allocated == rest.allocated
                &&& w.deposit == rest.deposit
                &&& w.current == rest.current
                &&& w.next_chain_id == rest.next_chain_id
                &&& w.notified == rest.notified
                &&& w.error == rest.error
            }),
        ensures
            w.error is None,
            w.updated == user_views(updated@),
            w.actions == actions@,
            w.events == events@,
            w.visited == updated@.len(),
            updated@.len() <= n,
            n == ancestors@.len(),
            w.allocated == allocated,
            w.deposit == dep,
            w.current == current,
            w.next_chain_id == ncid,
            w.notified == notified,
            forall|k: int| 0 <= k < updated@.len() ==> (#[trigger] updated@[k])@.wf(),
        decreases n - i,
    {
        if i >= n || i >= MAX_UPLINE_DEPTH || dep == 0 {
            proof {
                assert(user_views(updated@) + Seq::<UserV>::empty() =~= user_views(updated@));
                assert(actions@ + Seq::<FinancialAction>::empty() =~= actions@);
                assert(events@ + Seq::<SlotFilled>::empty() =~= events@);
            }
            break;
        }
        // Snapshots of the state this iteration starts from; the walk suffix
        // named in the invariant is expressed over these.
        let ghost cur0 = current;
        let ghost ncid0 = ncid;
        let ghost not0 = notified as int;
        let ghost actions_before = actions@;
        let ghost updated_before = updated@;
        let ghost events_before = events@;
        let anc = &ancestors[i];
        proof {
            assert(vs[i as int] == ancestors@[i as int]@);
        }
        if !anc.wallet_is_system_owned {
            return Err(ErrorCode::PaymentWalletInvalid);
        }
        if !anc.pda_is_program_owned {
            return Err(ErrorCode::InvalidSlotOwner);
        }
        if !anc.account.is_registered {
            return Err(ErrorCode::SlotNotRegistered);
        }
        let ghost s = visit_step(
            vs[i as int],
            cur0,
            deposit,
            ncid0,
            not0,
            total_notifications as int,
        );
        let mut acct = anc.account.duplicate();
        let slot = acct.chain.filled_slots;
        let (completed, ev) = place_in_matrix(&mut acct, &anc.pda, &current, ncid);
        let event = ev.unwrap();
        let mut step_allocated = false;
        if slot == 0 {
            actions.push(FinancialAction::Burn { amount: dep });
            step_allocated = true;
        } else if slot == 1 {
            acct.reserved_sol = dep;
            actions.push(FinancialAction::Reserve { beneficiary: anc.pda, amount: dep });
            step_allocated = true;
        } else {
            if acct.reserved_sol > 0 {
                actions.push(
                    FinancialAction::Pay { wallet: anc.wallet, amount: acct.reserved_sol },
                );
                acct.reserved_sol = 0;
            }
            notified = notified + 1;
            actions.push(
                FinancialAction::Notify {
                    wallet: anc.wallet,
                    is_last: notified == total_notifications,
                },
            );
            ncid = ncid + 1;
            current = anc.pda;
        }
        events.push(event);
        updated.push(acct);
        proof {
            assert(acct@ == s.account);
            assert(event == s.event);
            assert(completed == s.completed);
            assert(step_allocated == s.allocated);
            assert(current == s.current);
            assert(ncid == s.next_chain_id);
            assert(notified as int == s.notified);
            assert(actions@ =~= actions_before + s.actions);
            assert(events@ =~= events_before + seq![s.event]);
            assert(user_views(updated@) =~= user_views(updated_before) + seq![s.account]);
        }
        if step_allocated {
            allocated = true;
            dep = 0;
        }
        let stop = !completed || step_allocated || i >= MAX_UPLINE_DEPTH - 1;
        proof {
            // The walk suffix at this position takes exactly this visit and
            // then stops or goes on from the next position.
            let rest_here = upline_walk(
                vs,
                i as int,
                cur0,
                deposit,
                ncid0,
                not0,
                total_notifications as int,
            );
            let dep1: u64 = if s.allocated { 0u64 } else { deposit };
            if !stop {
                let rest_next = upline_walk(
                    vs,
                    (i + 1) as int,
                    s.current,
                    dep1,
                    s.next_chain_id,
                    s.notified,
                    total_notifications as int,
                );
                assert(user_views(updated_before) + (seq![s.account] + rest_next.updated) =~= (
                user_views(updated_before) + seq![s.account]) + rest_next.updated);
                assert(actions_before + (s.actions + rest_next.actions) =~= (actions_before
                    + s.actions) + rest_next.actions);
                assert(events_before + (seq![s.event] + rest_next.events) =~= (events_before
                    + seq![s.event]) + rest_next.events);
            } else {
                assert(rest_here.updated =~= seq![s.account]);
            }
        }
        if stop {
            break;
        }
        i = i + 1;
    }
    Ok(
        WalkDone {
            updated,
            actions,
            events,
            allocated,
            deposit: dep,
            current,
            next_chain_id: ncid,
            notified,
        },
    )
}

/// Where the ancestor account pairs start in the trailing account list: the
/// reward-vault accounts and the two oracle accounts come first.
pub const UPLINE_START_IDX: usize = 6;

/// The entry checks of a deposit registration, in the order they are made;
/// on success, the oracle-derived minimum deposit.
pub open spec fn deposit_entry_checks_spec(
    book: AddressBook,
    fixed: FixedAccountKeys,
    remaining: Seq<Addr>,
    oracle: OracleReading,
    referrer: UserV,
    deposit_amount: u64,
) -> Result<u64, ErrorCode> {
    if !referrer.is_registered {
        Err(ErrorCode::ReferrerNotRegistered)
    } else if remaining.len() < VAULT_A_ACCOUNTS_COUNT + 2 {
        Err(ErrorCode::MissingVaultAAccounts)
    } else {
        match verify_vault_a_addresses_spec(
            book,
            remaining[0],
            remaining[1],
            remaining[2],
            remaining[3],
        ) {
            Err(e) => Err(e),
            Ok(_) => match verify_all_fixed_addresses_spec(
                book,
                fixed.pool,
                fixed.b_vault,
                fixed.b_token_vault,
                fixed.b_vault_lp_mint,
                fixed.b_vault_lp,
                fixed.token_mint,
                fixed.wsol_mint,
            ) {
                Err(e) => Err(e),
                Ok(_) => {
                    if fixed.vault_program != book.meteora_vault_program {
                        Err(ErrorCode::InvalidVaultProgram)
                    } else if fixed.amm_program != book.meteora_amm_program {
                        Err(ErrorCode::InvalidAmmProgram)
                    } else if fixed.protocol_token_fee != book.protocol_token_b_fee {
                        Err(ErrorCode::InvalidProtocolFeeAccount)
                    } else {
                        match verify_chainlink_addresses_spec(book, remaining[5], remaining[4]) {
                            Err(e) => Err(e),
                            Ok(_) => match minimum_sol_deposit_spec(oracle) {
                                Err(e) => Err(e),
                                Ok(minimum) => if deposit_amount < minimum {
                                    Err(ErrorCode::InsufficientDeposit)
                                } else {
                                    Ok(minimum)
                                },
                            },
                        }
                    }
                },
            },
        }
    }
}

/// Whether the supplied ancestor records are exactly the account pairs of
/// the trailing list, in order.
pub open spec fn ancestors_match_tail(remaining: Seq<Addr>, anc: Seq<AncestorV>) -> bool {
    forall|k: int|
        0 <= k < anc.len() ==> (#[trigger] anc[k]).pda == remaining[UPLINE_START_IDX + 2 * k]
            && anc[k].wallet == remaining[UPLINE_START_IDX + 2 * k + 1]
}

/// The checks a third-slot placement under a non-root referrer makes before
/// any funds move: ancestors must be supplied as well-shaped pairs, they
/// must be the referrer's stored ancestor chain in the stored order, and no
/// account may appear twice.
pub open spec fn slot_three_prechecks_spec(
    remaining: Seq<Addr>,
    referrer: UserV,
    anc: Seq<AncestorV>,
) -> Result<(), ErrorCode> {
    let tail_len = remaining.len() - UPLINE_START_IDX;
    if tail_len <= 0 {
        Err(ErrorCode::UplineRequiredForNonBase)
    } else if tail_len < 2 || tail_len % 2 != 0 {
        Err(ErrorCode::MissingUplineAccount)
    } else if anc.len() * 2 != tail_len {
        Err(ErrorCode::MissingUplineAccount)
    } else if !ancestors_match_tail(remaining, anc) {
        Err(ErrorCode::MissingUplineAccount)
    } else {
        match validate_upline_list_spec(referrer.upline.upline, anc) {
            Err(e) => Err(e),
            Ok(_) => check_duplicate_uplines_spec(anc),
        }
    }
}

/// Everything a successful deposit registration produces.
pub ghost struct RegOut {
    /// The program state afterward, counters advanced.
    pub state: ProgramState,
    /// The referrer's record afterward.
    pub referrer: UserV,
    /// The created user record.
    pub user: UserV,
    /// The ancestor records afterward: the visited head updated, keys and
    /// ownership facts untouched.
    pub ancestors: Seq<AncestorV>,
    /// The money movements to perform, in order.
    pub actions: Seq<FinancialAction>,
    /// The emitted slot events, in order.
    pub events: Seq<SlotFilled>,
    /// Whether the referrer's matrix completed.
    pub completed: bool,
    /// How many ancestors the walk visited.
    pub visited: int,
}

/// What [`register_with_sol_deposit`] does, in full: entry checks, user
/// creation, the slot-indexed action on the referrer, placement, and — on a
/// third-slot completion — payout, notification, and the upline walk with
/// its fallback burn. Exactly one `Burn` or `Reserve` carries the deposit.
pub open spec fn register_with_sol_deposit_spec(
    state: ProgramState,
    book: AddressBook,
    fixed: FixedAccountKeys,
    remaining: Seq<Addr>,
    oracle: OracleReading,
    referrer: UserV,
    referrer_pda: Addr,
    referrer_wallet: Addr,
    referrer_wallet_is_system: bool,
    user_pda: Addr,
    user_wallet: Addr,
    deposit_amount: u64,
    anc: Seq<AncestorV>,
) -> Result<RegOut, ErrorCode> {
    match deposit_entry_checks_spec(book, fixed, remaining, oracle, referrer, deposit_amount) {
        Err(e) => Err(e),
        Ok(_) => {
            let slot_idx = referrer.chain.filled_slots;
            let prechecks: Result<(), ErrorCode> = if slot_idx == 2 && referrer.referrer is Some {
                slot_three_prechecks_spec(remaining, referrer, anc)
            } else {
                Ok(())
            };
            match prechecks {
                Err(e) => Err(e),
                Ok(_) => {
                    let upline_id = state.next_upline_id;
                    let chain_id = state.next_chain_id;
                    let user = new_child_user(
                        user_wallet,
                        referrer_pda,
                        referrer_wallet,
                        referrer,
                        upline_id,
                        chain_id,
                    );
                    let total: int = if slot_idx == 2 && referrer.referrer is Some {
                        1 + cascade_len(anc, 0)
                    } else {
                        1
                    };
                    if slot_idx == 2 && referrer.reserved_sol > 0 && !referrer_wallet_is_system {
                        Err(ErrorCode::PaymentWalletInvalid)
                    } else {
                        let actions0: Seq<FinancialAction> = if slot_idx == 0 {
                            seq![FinancialAction::Burn { amount: deposit_amount }]
                        } else if slot_idx == 1 {
                            seq![
                                FinancialAction::Reserve {
                                    beneficiary: referrer_pda,
                                    amount: deposit_amount,
                                },
                            ]
                        } else if referrer.reserved_sol > 0 {
                            seq![
                                FinancialAction::Pay {
                                    wallet: referrer_wallet,
                                    amount: referrer.reserved_sol,
                                },
                            ]
                        } else {
                            Seq::empty()
                        };
                        let referrer1 = if slot_idx == 1 {
                            UserV { reserved_sol: deposit_amount, ..referrer }
                        } else if slot_idx == 2 {
                            UserV { reserved_sol: 0, ..referrer }
                        } else {
                            referrer
                        };
                        let p = place_spec(
                            referrer1,
                            referrer_pda,
                            user_pda,
                            (chain_id + 1) as u32,
                        );
                        let events0 = seq![p.event->0];
                        let actions1 = if p.completed {
                            actions0.push(
                                FinancialAction::Notify {
                                    wallet: referrer_wallet,
                                    is_last: 1 == total,
                                },
                            )
                        } else {
                            actions0
                        };
                        let ncid1: u32 = if p.completed {
                            (chain_id + 2) as u32
                        } else {
                            (chain_id + 1) as u32
                        };
                        let base = RegOut {
                            state: ProgramState {
                                next_upline_id: (upline_id + 1) as u32,
                                next_chain_id: ncid1,
                                ..state
                            },
                            referrer: p.account,
                            user,
                            ancestors: anc,
                            actions: actions1,
                            events: events0,
                            completed: p.completed,
                            visited: 0,
                        };
                        if !(p.completed && slot_idx == 2) {
                            Ok(base)
                        } else if referrer.referrer is None {
                            if deposit_amount > 0 {
                                Ok(
                                    RegOut {
                                        actions: actions1.push(
                                            FinancialAction::Burn { amount: deposit_amount },
                                        ),
                                        ..base
                                    },
                                )
                            } else {
                                Err(ErrorCode::UnusedDepositDetected)
                            }
                        } else if anc.len() > 0 && deposit_amount > 0 {
                            let w = upline_walk(
                                anc,
                                0,
                                referrer_pda,
                                deposit_amount,
                                ncid1,
                                1,
                                total,
                            );
                            match w.error {
                                Some(e) => Err(e),
                                None => {
                                    let anc_final = Seq::new(
                                        anc.len(),
                                        |k: int|
                                            if k < w.visited {
                                                AncestorV { account: w.updated[k], ..anc[k] }
                                            } else {
                                                anc[k]
                                            },
                                    );
                                    let actions2 = actions1 + w.actions;
                                    let actions3 = if !w.allocated && w.deposit > 0 {
                                        actions2.push(FinancialAction::Burn { amount: w.deposit })
                                    } else {
                                        actions2
                                    };
                                    Ok(
                                        RegOut {
                                            state: ProgramState {
                                                next_upline_id: (upline_id + 1) as u32,
                                                next_chain_id: w.next_chain_id,
                                                ..state
                                            },
                                            ancestors: anc_final,
                                            actions: actions3,
                                            events: events0 + w.events,
                                            visited: w.visited,
                                            ..base
                                        },
                                    )
                                },
                            }
                        } else {
                            Err(ErrorCode::UplineRequiredForNonBase)
                        }
                    }
                },
            }
        },
    }
}

/// Checks the supplied ancestor records against the tail of the trailing
/// account list, pair by pair.
fn check_ancestors_match_tail(remaining: &Vec<Addr>, ancestors: &Vec<AncestorRecord>) -> (r: bool)
    requires
        UPLINE_START_IDX + 2 * ancestors@.len() <= remaining@.len(),
    ensures
        r == ancestors_match_tail(remaining@, anc_views(ancestors@)),
{
    let ghost vs = anc_views(ancestors@);
    let n = ancestors.len();
    let rem_len = remaining.len();
    let mut k: usize = 0;
    while k < n
        invariant
            k <= n,
            n == ancestors@.len(),
            vs == anc_views(ancestors@),
            rem_len == remaining@.len(),
            UPLINE_START_IDX + 2 * n <= rem_len,
            forall|j: int|
                0 <= j < k ==> (#[trigger] vs[j]).pda == remaining@[UPLINE_START_IDX + 2 * j]
                    && vs[j].wallet == remaining@[UPLINE_START_IDX + 2 * j + 1],
        decreases n - k,
    {
        let a = &ancestors[k];
        if a.pda != remaining[UPLINE_START_IDX + 2 * k] || a.wallet != remaining[UPLINE_START_IDX
            + 2 * k + 1] {
            proof {
                assert(!((vs[k as int]).pda == remaining@[UPLINE_START_IDX + 2 * k] && vs[
                k as int].wallet == remaining@[UPLINE_START_IDX + 2 * k + 1]));
            }
            return false;
        }
        k = k + 1;
    }
    true
}

/// What a deposit registration hands back to the caller.
#[derive(Clone, PartialEq, Debug)]
pub struct RegistrationOutcome {
    /// The created user record, to be persisted.
    pub user: UserAccount,
    /// The money movements to perform, in order.
    pub actions: Vec<FinancialAction>,
    /// The emitted slot events, in order.
    pub events: Vec<SlotFilled>,
    /// Whether the referrer's matrix completed.
    pub chain_completed: bool,
    /// How many ancestor records were updated in place.
    pub visited_ancestors: usize,
}

/// Registers a user under a referrer: validates every supplied account and
/// the deposit, creates the user record, applies the slot-indexed action to
/// the referrer, places the user, and — on a third-slot completion — pays
/// the referrer's reservation, notifies the ledger, and walks the validated
/// ancestor list until the deposit is consumed, burning any remainder.
/// On any error nothing changes.
pub fn register_with_sol_deposit(
    state: &mut ProgramState,
    book: &AddressBook,
    fixed: &FixedAccountKeys,
    remaining: &Vec<Addr>,
    oracle: &OracleReading,
    referrer: &mut UserAccount,
    referrer_pda: Addr,
    referrer_wallet: Addr,
    referrer_wallet_is_system: bool,
    user_pda: Addr,
    user_wallet: Addr,
    deposit_amount: u64,
    ancestors: &mut Vec<AncestorRecord>,
) -> (r: Result<RegistrationOutcome, ErrorCode>)
    requires
        old(referrer)@.wf(),
        old(referrer)@.upline.depth < u8::MAX,
        forall|k: int|
            0 <= k < old(ancestors)@.len() ==> (#[trigger] old(ancestors)@[k])@.account.wf(),
        old(state).next_upline_id < u32::MAX,
        old(state).next_chain_id + 2 + MAX_UPLINE_DEPTH <= u32::MAX,
    ensures
        ({
            let spec_r = register_with_sol_deposit_spec(
                *old(state),
                *book,
                *fixed,
                remaining@,
                *oracle,
                old(referrer)@,
                referrer_pda,
                referrer_wallet,
                referrer_wallet_is_system,
                user_pda,
                user_wallet,
                deposit_amount,
                anc_views(old(ancestors)@),
            );
            match r {
                Ok(out) => {
                    &&& spec_r matches Ok(s)
                    &&& *final(state) == s.state
                    &&& final(referrer)@ == s.referrer
                    &&& anc_views(final(ancestors)@) == s.ancestors
                    &&& final(ancestors)@.len() == old(ancestors)@.len()
                    &&& out.user@ == s.user
                    &&& out.actions@ == s.actions
                    &&& out.events@ == s.events
                    &&& out.chain_completed == s.completed
                    &&& out.visited_ancestors as int == s.visited
                    &&& final(referrer)@.wf()
                    &&& out.user@.wf()
                    &&& ({
                        let fa = final(ancestors)@;
                        forall|k: int| 0 <= k < fa.len() ==> (#[trigger] fa[k])@.account.wf()
                    })
                },
                Err(e) => {
                    &&& spec_r == Err::<RegOut, ErrorCode>(e)
                    &&& *final(state) == *old(state)
                    &&& final(referrer)@ == old(referrer)@
                    &&& final(ancestors)@ == old(ancestors)@
                },
            }
        }),
{
    let ghost anc0 = anc_views(ancestors@);
    // Entry checks, in the order the caller observes their errors.
    if !referrer.is_registered {
        return Err(ErrorCode::ReferrerNotRegistered);
    }
    if remaining.len() < VAULT_A_ACCOUNTS_COUNT + 2 {
        return Err(ErrorCode::MissingVaultAAccounts);
    }
    verify_vault_a_addresses(book, &remaining[0], &remaining[1], &remaining[2], &remaining[3])?;
    verify_all_fixed_addresses(
        book,
        &fixed.pool,
        &fixed.b_vault,
        &fixed.b_token_vault,
        &fixed.b_vault_lp_mint,
        &fixed.b_vault_lp,
        &fixed.token_mint,
        &fixed.wsol_mint,
    )?;
    verify_address_strict(
        &fixed.vault_program,
        &book.meteora_vault_program,
        ErrorCode::InvalidVaultProgram,
    )?;
    verify_address_strict(
        &fixed.amm_program,
        &book.meteora_amm_program,
        ErrorCode::InvalidAmmProgram,
    )?;
    verify_address_strict(
        &fixed.protocol_token_fee,
        &book.protocol_token_b_fee,
        ErrorCode::InvalidProtocolFeeAccount,
    )?;
    verify_chainlink_addresses(book, &remaining[5], &remaining[4])?;
    let minimum_deposit = calculate_minimum_sol_deposit(oracle)?;
    if deposit_amount < minimum_deposit {
        return Err(ErrorCode::InsufficientDeposit);
    }
    proof {
        assert(deposit_entry_checks_spec(
            *book,
            *fixed,
            remaining@,
            *oracle,
            old(referrer)@,
            deposit_amount,
        ) == Ok::<u64, ErrorCode>(minimum_deposit));
    }
    let slot_idx = referrer.chain.filled_slots;
    // Third-slot prechecks: a non-root referrer must supply its stored
    // ancestor chain, well shaped and free of duplicates, before any funds
    // move.
    if slot_idx == 2 && referrer.referrer.is_some() {
        let tail_len = remaining.len() - UPLINE_START_IDX;
        if tail_len == 0 {
            return Err(ErrorCode::UplineRequiredForNonBase);
        }
        if tail_len < 2 || tail_len % 2 != 0 {
            return Err(ErrorCode::MissingUplineAccount);
        }
        if ancestors.len() != tail_len / 2 {
            return Err(ErrorCode::MissingUplineAccount);
        }
        if !check_ancestors_match_tail(remaining, ancestors) {
            return Err(ErrorCode::MissingUplineAccount);
        }
        validate_upline_list(&referrer.upline.upline, ancestors)?;
        check_duplicate_uplines(ancestors)?;
        proof {
            assert(slot_three_prechecks_spec(remaining@, old(referrer)@, anc0) == Ok::<
                (),
                ErrorCode,
            >(()));
        }
    }
    // Draw the identifiers; the state itself is written only on success.
    let upline_id = state.next_upline_id;
    let chain_id = state.next_chain_id;
    let user = build_child_user(
        &user_wallet,
        &referrer_pda,
        &referrer_wallet,
        referrer,
        upline_id,
        chain_id,
    );
    let cascade = count_cascade_completions(ancestors);
    let total: u64 = if slot_idx == 2 && referrer.referrer.is_some() {
        1 + cascade
    } else {
        1
    };
    if slot_idx == 2 && referrer.reserved_sol > 0 && !referrer_wallet_is_system {
        return Err(ErrorCode::PaymentWalletInvalid);
    }
    // The slot-indexed action on the referrer, on a working copy: burn on
    // the first slot, reserve on the second, pay out any reservation on the
    // third.
    let mut new_referrer = referrer.duplicate();
    let mut actions: Vec<FinancialAction> = Vec::new();
    let mut events: Vec<SlotFilled> = Vec::new();
    if slot_idx == 0 {
        actions.push(FinancialAction::Burn { amount: deposit_amount });
    } else if slot_idx == 1 {
        new_referrer.reserved_sol = deposit_amount;
        actions.push(
            FinancialAction::Reserve { beneficiary: referrer_pda, amount: deposit_amount },
        );
    } else {
        if new_referrer.reserved_sol > 0 {
            actions.push(
                FinancialAction::Pay { wallet: referrer_wallet, amount: new_referrer.reserved_sol },
            );
        }
        new_referrer.reserved_sol = 0;
    }
    let mut ncid: u32 = chain_id + 1;
    let (completed, ev) = place_in_matrix(&mut new_referrer, &referrer_pda, &user_pda, ncid);
    events.push(ev.unwrap());
    if completed {
        actions.push(FinancialAction::Notify { wallet: referrer_wallet, is_last: total == 1 });
        ncid = ncid + 1;
    }
    let mut visited: usize = 0;
    let mut updated: Vec<UserAccount> = Vec::new();
    if completed && slot_idx == 2 {
        if referrer.referrer.is_none() {
            // A root referrer has no chain to walk: the fresh deposit is
            // burned outright.
            if deposit_amount > 0 {
                actions.push(FinancialAction::Burn { amount: deposit_amount });
            } else {
                return Err(ErrorCode::UnusedDepositDetected);
            }
        } else {
            if ancestors.len() > 0 && deposit_amount > 0 {
                let walk = process_upline_walk(
                    ancestors,
                    referrer_pda,
                    deposit_amount,
                    ncid,
                    1,
                    total,
                )?;
                let WalkDone {
                    updated: wupd,
                    actions: mut wacts,
                    events: mut wevs,
                    allocated,
                    deposit: wdep,
                    current: _,
                    next_chain_id: wncid,
                    notified: _,
                } = walk;
                ncid = wncid;
                actions.append(&mut wacts);
                events.append(&mut wevs);
                updated = wupd;
                visited = updated.len();
                // Never leave the deposit unallocated: burn whatever the
                // walk did not consume.
                if !allocated && wdep > 0 {
                    actions.push(FinancialAction::Burn { amount: wdep });
                }
            } else {
                return Err(ErrorCode::UplineRequiredForNonBase);
            }
        }
    }
    // Commit: counters, the referrer, and the visited ancestor records.
    state.next_upline_id = upline_id + 1;
    state.next_chain_id = ncid;
    *referrer = new_referrer;
    let ghost updated0 = updated@;
    let mut k: usize = visited;
    while k > 0
        invariant
            k <= visited,
            visited <= ancestors@.len(),
            ancestors@.len() == old(ancestors)@.len(),
            updated@ == updated0.subrange(0, k as int),
            updated0.len() == visited,
            forall|j: int| 0 <= j < k ==> ancestors@[j] == old(ancestors)@[j],
            forall|j: int|
                k <= j < visited ==> (#[trigger] ancestors@[j])@ == (AncestorV {
                    account: updated0[j]@,
                    ..old(ancestors)@[j]@
                }),
            forall|j: int|
                visited <= j < ancestors@.len() ==> ancestors@[j] == old(ancestors)@[j],
        decreases k,
    {
        k = k - 1;
        let acct = updated.pop().unwrap();
        let pda = ancestors[k].pda;
        let wallet = ancestors[k].wallet;
        let wso = ancestors[k].wallet_is_system_owned;
        let ppo = ancestors[k].pda_is_program_owned;
        ancestors[k] = AncestorRecord {
            pda,
            wallet,
            account: acct,
            wallet_is_system_owned: wso,
            pda_is_program_owned: ppo,
        };
    }
    Ok(
        RegistrationOutcome {
            user,
            actions,
            events,
            chain_completed: completed,
            visited_ancestors: visited,
        },
    )
}

} // verus!
