//! The persisted account records, their mathematical views, and their
//! well-formedness conditions.

use vstd::prelude::*;

use crate::addr::Addr;
use crate::MAX_UPLINE_DEPTH;

verus! {

/// One stored ancestor: the program-derived account and its owner wallet.
#[derive(Clone, Copy, PartialEq, Eq, Structural, Debug)]
pub struct UplineEntry {
    /// The ancestor's program-derived user account.
    pub pda: Addr,
    /// The wallet that controls that account.
    pub wallet: Addr,
}

/// A user's stored ancestor chain, fixed at registration time.
#[derive(Clone, PartialEq, Debug)]
pub struct ReferralUpline {
    /// Identifier drawn from the global counter at creation.
    pub id: u32,
    /// Number of generations from the root user, starting at 1.
    pub depth: u8,
    /// The ancestors, oldest first; the direct referrer is the last entry.
    pub upline: Vec<UplineEntry>,
}

/// Mathematical view of [`ReferralUpline`].
pub ghost struct UplineV {
    /// Identifier drawn from the global counter at creation.
    pub id: u32,
    /// Number of generations from the root user, starting at 1.
    pub depth: u8,
    /// The ancestors, oldest first; the direct referrer is the last entry.
    pub upline: Seq<UplineEntry>,
}

impl View for ReferralUpline {
    type V = UplineV;

    open spec fn view(&self) -> UplineV {
        UplineV { id: self.id, depth: self.depth, upline: self.upline@ }
    }
}

/// A referrer's three-slot matrix.
#[derive(Clone, PartialEq, Debug)]
pub struct ReferralChain {
    /// Identifier drawn from the global counter; reassigned on each reset.
    pub id: u32,
    /// The three slots; they fill left to right.
    pub slots: Vec<Option<Addr>>,
    /// How many slots are filled, 0 to 3.
    pub filled_slots: u8,
}

/// Mathematical view of [`ReferralChain`].
pub ghost struct ChainV {
    /// Identifier drawn from the global counter; reassigned on each reset.
    pub id: u32,
    /// The three slots; they fill left to right.
    pub slots: Seq<Option<Addr>>,
    /// How many slots are filled, 0 to 3.
    pub filled_slots: u8,
}

impl View for ReferralChain {
    type V = ChainV;

    open spec fn view(&self) -> ChainV {
        ChainV { id: self.id, slots: self.slots@, filled_slots: self.filled_slots }
    }
}

impl ChainV {
    /// The slots hold exactly three entries, filled left to right.
    pub open spec fn wf(self) -> bool {
        &&& self.slots.len() == 3
        &&& self.filled_slots <= 3
        &&& forall|i: int| 0 <= i < 3 ==> (self.slots[i] is Some <==> i < self.filled_slots)
    }

    /// A committed matrix additionally has an open slot: a full matrix is
    /// reset before the call that filled it returns.
    pub open spec fn settled(self) -> bool {
        self.wf() && self.filled_slots < 3
    }

    /// The matrix after `user` takes the next open slot.
    pub open spec fn filled_with(self, user: Addr) -> ChainV {
        ChainV {
            id: self.id,
            slots: self.slots.update(self.filled_slots as int, Some(user)),
            filled_slots: (self.filled_slots + 1) as u8,
        }
    }

    /// A fresh, empty matrix under a newly drawn identifier.
    pub open spec fn fresh(id: u32) -> ChainV {
        ChainV { id, slots: seq![None, None, None], filled_slots: 0 }
    }
}

impl ReferralChain {
    /// Builds the fresh, empty matrix for a newly drawn identifier.
    pub fn new_fresh(id: u32) -> (r: ReferralChain)
        ensures
            r@ == ChainV::fresh(id),
            r@.settled(),
    {
        let mut slots: Vec<Option<Addr>> = Vec::new();
        slots.push(None);
        slots.push(None);
        slots.push(None);
        proof {
            assert(slots@ =~= seq![None::<Addr>, None::<Addr>, None::<Addr>]);
        }
        ReferralChain { id, slots, filled_slots: 0 }
    }
}

/// One registered participant's record.
#[derive(Clone, PartialEq, Debug)]
pub struct UserAccount {
    /// True from creation onward.
    pub is_registered: bool,
    /// The direct referrer's user account; absent only for the root user.
    pub referrer: Option<Addr>,
    /// The wallet that controls this account.
    pub owner_wallet: Addr,
    /// The stored ancestor chain.
    pub upline: ReferralUpline,
    /// The matrix state.
    pub chain: ReferralChain,
    /// Native currency held in escrow for this account's owner.
    pub reserved_sol: u64,
}

/// Mathematical view of [`UserAccount`].
pub ghost struct UserV {
    /// True from creation onward.
    pub is_registered: bool,
    /// The direct referrer's user account; absent only for the root user.
    pub referrer: Option<Addr>,
    /// The wallet that controls this account.
    pub owner_wallet: Addr,
    /// The stored ancestor chain.
    pub upline: UplineV,
    /// The matrix state.
    pub chain: ChainV,
    /// Native currency held in escrow for this account's owner.
    pub reserved_sol: u64,
}

impl View for UserAccount {
    type V = UserV;

    open spec fn view(&self) -> UserV {
        UserV {
            is_registered: self.is_registered,
            referrer: self.referrer,
            owner_wallet: self.owner_wallet,
            upline: self.upline@,
            chain: self.chain@,
            reserved_sol: self.reserved_sol,
        }
    }
}

impl UserV {
    /// A committed record: a well-formed, open matrix and a capped ancestor list.
    pub open spec fn wf(self) -> bool {
        &&& self.chain.settled()
        &&& self.upline.upline.len() <= MAX_UPLINE_DEPTH
    }
}

impl ReferralUpline {
    /// Copies the stored ancestor chain.
    pub fn duplicate(&self) -> (r: ReferralUpline)
        ensures
            r@ == self@,
    {
        let n = self.upline.len();
        let mut entries: Vec<UplineEntry> = Vec::new();
        let mut i: usize = 0;
        while i < n
            invariant
                i <= n,
                n == self.upline@.len(),
                entries@ == self.upline@.subrange(0, i as int),
            decreases n - i,
        {
            entries.push(self.upline[i]);
            proof {
                assert(entries@ =~= self.upline@.subrange(0, i + 1 as int));
            }
            i = i + 1;
        }
        proof {
            assert(self.upline@.subrange(0, n as int) =~= self.upline@);
        }
        ReferralUpline { id: self.id, depth: self.depth, upline: entries }
    }
}

impl ReferralChain {
    /// Copies the matrix state.
    pub fn duplicate(&self) -> (r: ReferralChain)
        ensures
            r@ == self@,
    {
        let n = self.slots.len();
        let mut slots: Vec<Option<Addr>> = Vec::new();
        let mut i: usize = 0;
        while i < n
            invariant
                i <= n,
                n == self.slots@.len(),
                slots@ == self.slots@.subrange(0, i as int),
            decreases n - i,
        {
            slots.push(self.slots[i]);
            proof {
                assert(slots@ =~= self.slots@.subrange(0, i + 1 as int));
            }
            i = i + 1;
        }
        proof {
            assert(self.slots@.subrange(0, n as int) =~= self.slots@);
        }
        ReferralChain { id: self.id, slots, filled_slots: self.filled_slots }
    }
}

impl UserAccount {
    /// Copies the whole record.
    pub fn duplicate(&self) -> (r: UserAccount)
        ensures
            r@ == self@,
    {
        UserAccount {
            is_registered: self.is_registered,
            referrer: self.referrer,
            owner_wallet: self.owner_wallet,
            upline: self.upline.duplicate(),
            chain: self.chain.duplicate(),
            reserved_sol: self.reserved_sol,
        }
    }
}

/// The singleton program configuration and counters.
#[derive(Clone, Copy, PartialEq, Eq, Structural, Debug)]
pub struct ProgramState {
    /// The account that initialized the program.
    pub owner: Addr,
    /// The treasury allowed to register the root user.
    pub multisig_treasury: Addr,
    /// Next ancestor-chain identifier to hand out.
    pub next_upline_id: u32,
    /// Next matrix identifier to hand out.
    pub next_chain_id: u32,
    /// Whether the external ledger still accepts completion notifications.
    pub airdrop_active: bool,
    /// When the ledger was found expired; zero while it is active.
    pub airdrop_end_timestamp: i64,
}

/// The external ledger's own state record, as this program reads it.
#[derive(Clone, PartialEq, Debug)]
pub struct AirdropProgramState {
    /// The ledger's administrator.
    pub admin: Addr,
    /// The reward token mint the ledger pays in.
    pub donut_token_mint: Addr,
    /// The ledger's current epoch, 1 to 36.
    pub current_week: u8,
    /// The matrix program the ledger accepts calls from.
    pub matrix_program_id: Addr,
    /// When the ledger started.
    pub start_timestamp: i64,
    /// Completions recorded so far.
    pub total_matrices_completed: u64,
    /// Completions recorded per epoch.
    pub matrices_by_week: Vec<u64>,
    /// Participants the ledger knows.
    pub total_users: u64,
    /// The ledger's token vault account.
    pub token_vault: Addr,
    /// The derivation bump of the token vault.
    pub token_vault_bump: u8,
    /// Whether the ledger was initialized.
    pub initialized: bool,
    /// Whether the ledger's vault was created.
    pub vault_created: bool,
}

/// Emitted record of one slot being filled.
#[derive(Clone, Copy, PartialEq, Eq, Structural, Debug)]
pub struct SlotFilled {
    /// The slot index that was filled, 0 to 2.
    pub slot_idx: u8,
    /// The matrix identifier before any reset.
    pub chain_id: u32,
    /// The account that was placed into the slot.
    pub user: Addr,
    /// The account whose matrix was filled.
    pub owner: Addr,
}

/// One money movement the caller must perform; each deposit funds exactly
/// one `Burn` or `Reserve`, while `Pay` releases an earlier reservation.
#[derive(Clone, Copy, PartialEq, Eq, Structural, Debug)]
pub enum FinancialAction {
    /// Swap the amount for the reward token and destroy what was received.
    Burn {
        /// The native amount to swap and destroy.
        amount: u64,
    },
    /// Move the amount into program escrow on behalf of an account.
    Reserve {
        /// The user account whose owner the escrow is owed to.
        beneficiary: Addr,
        /// The native amount to escrow.
        amount: u64,
    },
    /// Release an earlier reservation from escrow to a wallet.
    Pay {
        /// The wallet to pay.
        wallet: Addr,
        /// The native amount released.
        amount: u64,
    },
    /// Tell the external ledger that a wallet completed a matrix.
    Notify {
        /// The wallet that completed its matrix.
        wallet: Addr,
        /// Whether this is the final notification of the batch.
        is_last: bool,
    },
}

} // verus!
