//! The engine's governing laws, stated and proved over the same spec
//! functions the executable contracts use.

use vstd::prelude::*;

use crate::addr::Addr;
use crate::errors::ErrorCode;
use crate::matrix::{place_spec, FixedAccountKeys};
use crate::model::{ChainV, FinancialAction, ProgramState, UserV};
use crate::oracle::OracleReading;
use crate::settle::{
    check_duplicate_uplines_spec, has_duplicate_pda, register_with_sol_deposit_spec,
    slot_three_prechecks_spec, upline_walk, validate_upline_list_spec, visit_step, AncestorV,
    RegOut, ancestors_match_tail, UPLINE_START_IDX,
};
use crate::validate::AddressBook;
use crate::MAX_UPLINE_DEPTH;

verus! {

/// How much of the fresh deposit one action consumes: a burn or a
/// reservation carries its amount; a payout releases an earlier reservation
/// and a notification moves nothing.
pub open spec fn allocated_amount(a: FinancialAction) -> int {
    match a {
        FinancialAction::Burn { amount } => amount as int,
        FinancialAction::Reserve { beneficiary: _, amount } => amount as int,
        FinancialAction::Pay { wallet: _, amount: _ } => 0,
        FinancialAction::Notify { wallet: _, is_last: _ } => 0,
    }
}

/// The deposit consumed over a whole action list.
pub open spec fn allocation_total(s: Seq<FinancialAction>) -> int
    decreases s.len(),
{
    if s.len() == 0 {
        0
    } else {
        allocated_amount(s[0]) + allocation_total(s.subrange(1, s.len() as int))
    }
}

/// How many actions of a list consume deposit: the burns and reservations.
pub open spec fn allocation_count(s: Seq<FinancialAction>) -> int
    decreases s.len(),
{
    if s.len() == 0 {
        0
    } else {
        (if allocated_amount(s[0]) == 0 && !(s[0] is Burn) && !(s[0] is Reserve) {
            0int
        } else {
            1int
        }) + allocation_count(s.subrange(1, s.len() as int))
    }
}

/// Allocation adds up over concatenation.
pub proof fn lemma_allocation_concat(a: Seq<FinancialAction>, b: Seq<FinancialAction>)
    ensures
        allocation_total(a + b) == allocation_total(a) + allocation_total(b),
        allocation_count(a + b) == allocation_count(a) + allocation_count(b),
    decreases a.len(),
{
    if a.len() == 0 {
        assert(a + b =~= b);
    } else {
        assert((a + b)[0] == a[0]);
        assert((a + b).subrange(1, (a + b).len() as int) =~= a.subrange(1, a.len() as int) + b);
        lemma_allocation_concat(a.subrange(1, a.len() as int), b);
    }
}

/// Allocation of a single action is that action's amount.
pub proof fn lemma_allocation_single(x: FinancialAction)
    ensures
        allocation_total(seq![x]) == allocated_amount(x),
        allocation_count(seq![x]) == if x is Burn || x is Reserve {
            1int
        } else {
            0int
        },
{
    reveal_with_fuel(allocation_total, 2);
    reveal_with_fuel(allocation_count, 2);
    assert(seq![x].subrange(1, 1) =~= Seq::<FinancialAction>::empty());
    assert(allocation_total(Seq::<FinancialAction>::empty()) == 0);
    assert(allocation_count(Seq::<FinancialAction>::empty()) == 0);
}

/// Allocation over a push.
pub proof fn lemma_allocation_push(a: Seq<FinancialAction>, x: FinancialAction)
    ensures
        allocation_total(a.push(x)) == allocation_total(a) + allocated_amount(x),
        allocation_count(a.push(x)) == allocation_count(a) + (
        if x is Burn || x is Reserve {
            1int
        } else {
            0int
        }),
{
    assert(a.push(x) =~= a + seq![x]);
    lemma_allocation_concat(a, seq![x]);
    lemma_allocation_single(x);
}

/// Slot cycling: from an empty matrix, three placements fill slots one and
/// two without completing and without touching the matrix identifier, and
/// the third completes and resets the matrix, in place, under the freshly
/// drawn identifier — the only identifier change of the three.
pub proof fn lemma_slot_cycling(
    account: UserV,
    owner: Addr,
    u1: Addr,
    u2: Addr,
    u3: Addr,
    id1: u32,
    id2: u32,
    id3: u32,
)
    requires
        account.chain.wf(),
        account.chain.filled_slots == 0,
    ensures
        ({
            let p1 = place_spec(account, owner, u1, id1);
            let p2 = place_spec(p1.account, owner, u2, id2);
            let p3 = place_spec(p2.account, owner, u3, id3);
            &&& !p1.completed && p1.account.chain.filled_slots == 1 && p1.account.chain.id
                == account.chain.id
            &&& !p2.completed && p2.account.chain.filled_slots == 2 && p2.account.chain.id
                == account.chain.id
            &&& p3.completed && p3.account.chain == ChainV::fresh(id3)
                && p3.account.chain.filled_slots == 0
        }),
{
}

/// Escrow correctness: a second-slot visit reserves exactly the carried
/// deposit for the visited account, and the following third-slot visit on
/// the same account pays out exactly that amount to the account's wallet
/// and clears the reservation.
pub proof fn lemma_escrow_round_trip(
    a: AncestorV,
    cur1: Addr,
    dep1: u64,
    ncid1: u32,
    n1: int,
    t1: int,
    cur2: Addr,
    dep2: u64,
    ncid2: u32,
    n2: int,
    t2: int,
)
    requires
        a.account.chain.settled(),
        a.account.chain.filled_slots == 1,
        dep1 > 0,
    ensures
        ({
            let s1 = visit_step(a, cur1, dep1, ncid1, n1, t1);
            let a2 = AncestorV { account: s1.account, ..a };
            let s2 = visit_step(a2, cur2, dep2, ncid2, n2, t2);
            &&& s1.account.reserved_sol == dep1
            &&& s1.actions == seq![
                FinancialAction::Reserve { beneficiary: a.pda, amount: dep1 },
            ]
            &&& s2.actions == seq![
                FinancialAction::Pay { wallet: a.wallet, amount: dep1 },
                FinancialAction::Notify { wallet: a.wallet, is_last: n2 + 1 == t2 },
            ]
            &&& s2.account.reserved_sol == 0
        }),
{
    let s1 = visit_step(a, cur1, dep1, ncid1, n1, t1);
    let a2 = AncestorV { account: s1.account, ..a };
    let s2 = visit_step(a2, cur2, dep2, ncid2, n2, t2);
    assert(s1.account.chain.filled_slots == 2);
    assert(s2.actions =~= seq![
        FinancialAction::Pay { wallet: a.wallet, amount: dep1 },
        FinancialAction::Notify { wallet: a.wallet, is_last: n2 + 1 == t2 },
    ]);
}

/// Duplicate ancestor rejection: a supplied list in which any two positions
/// name the same ancestor account never passes the third-slot prechecks,
/// and when it is otherwise well-shaped the rejection is the duplicate
/// error itself.
pub proof fn lemma_duplicate_ancestor_rejected(
    remaining: Seq<Addr>,
    referrer: UserV,
    anc: Seq<AncestorV>,
    i: int,
    j: int,
)
    requires
        0 <= i < j < anc.len(),
        anc[i].pda == anc[j].pda,
    ensures
        slot_three_prechecks_spec(remaining, referrer, anc) is Err,
        (remaining.len() - UPLINE_START_IDX == 2 * anc.len() && anc.len() > 0
            && ancestors_match_tail(remaining, anc) && validate_upline_list_spec(
            referrer.upline.upline,
            anc,
        ) is Ok) ==> slot_three_prechecks_spec(remaining, referrer, anc) == Err::<(), ErrorCode>(
            ErrorCode::DuplicateUplineExploit,
        ),
{
    assert(has_duplicate_pda(anc));
}

/// What one walk consumes: nothing while the deposit is still carried, and
/// exactly the deposit, in exactly one action, once it is allocated.
pub proof fn lemma_walk_allocation(
    anc: Seq<AncestorV>,
    i: int,
    current: Addr,
    deposit: u64,
    ncid: u32,
    notified: int,
    total: int,
)
    requires
        deposit > 0,
    ensures
        ({
            let w = upline_walk(anc, i, current, deposit, ncid, notified, total);
            w.error is None ==> {
                &&& w.allocated ==> allocation_total(w.actions) == deposit && allocation_count(
                    w.actions,
                ) == 1 && w.deposit == 0
                &&& !w.allocated ==> allocation_total(w.actions) == 0 && allocation_count(w.actions)
                    == 0 && w.deposit == deposit
            }
        }),
    decreases anc.len() - i,
{
    if !(i < 0 || i >= anc.len() || i >= MAX_UPLINE_DEPTH as int || deposit == 0) {
        let a = anc[i];
        if a.wallet_is_system_owned && a.pda_is_program_owned && a.account.is_registered {
            let s = visit_step(a, current, deposit, ncid, notified, total);
            let slot = a.account.chain.filled_slots;
            if slot == 0 {
                lemma_allocation_single(FinancialAction::Burn { amount: deposit });
            } else if slot == 1 {
                lemma_allocation_single(
                    FinancialAction::Reserve { beneficiary: a.pda, amount: deposit },
                );
            } else {
                let pay: Seq<FinancialAction> = if a.account.reserved_sol > 0 {
                    seq![FinancialAction::Pay { wallet: a.wallet, amount: a.account.reserved_sol }]
                } else {
                    Seq::empty()
                };
                let notify = FinancialAction::Notify {
                    wallet: a.wallet,
                    is_last: notified + 1 == total,
                };
                if a.account.reserved_sol > 0 {
                    lemma_allocation_single(
                        FinancialAction::Pay { wallet: a.wallet, amount: a.account.reserved_sol },
                    );
                }
                lemma_allocation_push(pay, notify);
                assert(allocation_total(s.actions) == 0 && allocation_count(s.actions) == 0);
            }
            if !(!s.completed || s.allocated || i >= MAX_UPLINE_DEPTH as int - 1) {
                let dep1: u64 = if s.allocated {
                    0u64
                } else {
                    deposit
                };
                lemma_walk_allocation(anc, i + 1, s.current, dep1, s.next_chain_id, s.notified, total);
                let rest = upline_walk(anc, i + 1, s.current, dep1, s.next_chain_id, s.notified, total);
                lemma_allocation_concat(s.actions, rest.actions);
            }
        }
    }
}

/// Deposit conservation: every registration that succeeds consumes its
/// deposit in exactly one burn or reservation, whose amount is exactly the
/// deposit; payouts release earlier reservations and are not part of it.
pub proof fn lemma_deposit_conservation(
    state: ProgramState,
    book: AddressBook,
    fixed: FixedAccountKeys,
    remaining: Seq<Addr>,
    oracle: OracleReading,
    referrer: UserV,
    referrer_pda: Addr,
    referrer_wallet: Addr,
    referrer_wallet_is_system: bool,
    user_pda: Addr,
    user_wallet: Addr,
    deposit_amount: u64,
    anc: Seq<AncestorV>,
)
    requires
        referrer.wf(),
    ensures
        ({
            let r = register_with_sol_deposit_spec(
                state,
                book,
                fixed,
                remaining,
                oracle,
                referrer,
                referrer_pda,
                referrer_wallet,
                referrer_wallet_is_system,
                user_pda,
                user_wallet,
                deposit_amount,
                anc,
            );
            r matches Ok(s) ==> allocation_total(s.actions) == deposit_amount && allocation_count(
                s.actions,
            ) == 1
        }),
{
    let r = register_with_sol_deposit_spec(
        state,
        book,
        fixed,
        remaining,
        oracle,
        referrer,
        referrer_pda,
        referrer_wallet,
        referrer_wallet_is_system,
        user_pda,
        user_wallet,
        deposit_amount,
        anc,
    );
    if r is Ok {
        let slot_idx = referrer.chain.filled_slots;
        let chain_id = state.next_chain_id;
        let total: int = if slot_idx == 2 && referrer.referrer is Some {
            1 + crate::settle::cascade_len(anc, 0)
        } else {
            1
        };
        if slot_idx == 0 {
            lemma_allocation_single(FinancialAction::Burn { amount: deposit_amount });
        } else if slot_idx == 1 {
            lemma_allocation_single(
                FinancialAction::Reserve { beneficiary: referrer_pda, amount: deposit_amount },
            );
        } else {
            let actions0: Seq<FinancialAction> = if referrer.reserved_sol > 0 {
                seq![
                    FinancialAction::Pay { wallet: referrer_wallet, amount: referrer.reserved_sol },
                ]
            } else {
                Seq::empty()
            };
            if referrer.reserved_sol > 0 {
                lemma_allocation_single(
                    FinancialAction::Pay { wallet: referrer_wallet, amount: referrer.reserved_sol },
                );
            }
            let notify = FinancialAction::Notify { wallet: referrer_wallet, is_last: 1 == total };
            let actions1 = actions0.push(notify);
            lemma_allocation_push(actions0, notify);
            assert(allocation_total(actions1) == 0 && allocation_count(actions1) == 0);
            if referrer.referrer is None {
                lemma_allocation_push(actions1, FinancialAction::Burn { amount: deposit_amount });
            } else {
                let ncid1: u32 = (chain_id + 2) as u32;
                let w = upline_walk(anc, 0, referrer_pda, deposit_amount, ncid1, 1, total);
                lemma_walk_allocation(anc, 0, referrer_pda, deposit_amount, ncid1, 1, total);
                let actions2 = actions1 + w.actions;
                lemma_allocation_concat(actions1, w.actions);
                if !w.allocated && w.deposit > 0 {
                    lemma_allocation_push(actions2, FinancialAction::Burn { amount: w.deposit });
                }
            }
        }
    }
}

/// The cascading walk of an exhausted chain: when every ancestor in a
/// full-length list is on its third slot, the walk completes all of them,
/// consumes nothing, and still carries the whole deposit at the end.
pub proof fn lemma_cascade_walk(
    anc: Seq<AncestorV>,
    i: int,
    current: Addr,
    deposit: u64,
    ncid: u32,
    notified: int,
    total: int,
)
    requires
        anc.len() == MAX_UPLINE_DEPTH,
        0 <= i < anc.len(),
        deposit > 0,
        forall|k: int|
            0 <= k < anc.len() ==> {
                let a = #[trigger] anc[k];
                &&& a.account.chain.settled()
                &&& a.account.chain.filled_slots == 2
                &&& a.wallet_is_system_owned
                &&& a.pda_is_program_owned
                &&& a.account.is_registered
            },
    ensures
        ({
            let w = upline_walk(anc, i, current, deposit, ncid, notified, total);
            &&& w.error is None
            &&& !w.allocated
            &&& w.deposit == deposit
            &&& w.visited == MAX_UPLINE_DEPTH - i
        }),
    decreases anc.len() - i,
{
    let s = visit_step(anc[i], current, deposit, ncid, notified, total);
    assert(s.completed && !s.allocated);
    if i < MAX_UPLINE_DEPTH as int - 1 {
        lemma_cascade_walk(anc, i + 1, s.current, deposit, s.next_chain_id, s.notified, total);
    }
}

/// Exhaustion fallback: a registration that walks a full-length chain of
/// ancestors all on their third slot ends with the fallback burn of the
/// whole deposit as its final action — the deposit is never left
/// unallocated.
pub proof fn lemma_exhaustion_fallback(
    state: ProgramState,
    book: AddressBook,
    fixed: FixedAccountKeys,
    remaining: Seq<Addr>,
    oracle: OracleReading,
    referrer: UserV,
    referrer_pda: Addr,
    referrer_wallet: Addr,
    referrer_wallet_is_system: bool,
    user_pda: Addr,
    user_wallet: Addr,
    deposit_amount: u64,
    anc: Seq<AncestorV>,
)
    requires
        referrer.wf(),
        referrer.chain.filled_slots == 2,
        referrer.referrer is Some,
        deposit_amount > 0,
        anc.len() == MAX_UPLINE_DEPTH,
        forall|k: int|
            0 <= k < anc.len() ==> {
                let a = #[trigger] anc[k];
                &&& a.account.chain.settled()
                &&& a.account.chain.filled_slots == 2
                &&& a.wallet_is_system_owned
                &&& a.pda_is_program_owned
                &&& a.account.is_registered
            },
    ensures
        ({
            let r = register_with_sol_deposit_spec(
                state,
                book,
                fixed,
                remaining,
                oracle,
                referrer,
                referrer_pda,
                referrer_wallet,
                referrer_wallet_is_system,
                user_pda,
                user_wallet,
                deposit_amount,
                anc,
            );
            r matches Ok(s) ==> {
                &&& s.actions.len() > 0
                &&& s.actions.last() == FinancialAction::Burn { amount: deposit_amount }
                &&& s.visited == MAX_UPLINE_DEPTH
            }
        }),
{
    let r = register_with_sol_deposit_spec(
        state,
        book,
        fixed,
        remaining,
        oracle,
        referrer,
        referrer_pda,
        referrer_wallet,
        referrer_wallet_is_system,
        user_pda,
        user_wallet,
        deposit_amount,
        anc,
    );
    if r is Ok {
        let chain_id = state.next_chain_id;
        let total: int = 1 + crate::settle::cascade_len(anc, 0);
        let ncid1: u32 = (chain_id + 2) as u32;
        lemma_cascade_walk(anc, 0, referrer_pda, deposit_amount, ncid1, 1, total);
    }
}

} // verus!
