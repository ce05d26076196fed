//! The scan of a wallet's token accounts: which of them are closed, and how
//! the close instructions are gathered into batches for submission.

use crate::address::Address;
use crate::instruction::{
    close_instruction, close_of, token_program_id, CloseInstruction, CloseInstructionView,
    InstructionError,
};
use vstd::prelude::*;

verus! {

/// The most instructions that one transaction carries.
pub const MAX_BATCH: usize = 15;

/// A token account as the remote service reports it.
#[derive(Clone, Copy, Debug, PartialEq, Eq)]
pub struct TokenAccount {
    pub address: Address,
    /// The raw amount that the account holds.
    pub balance: u64,
    /// The number of decimals of the account's mint.
    pub decimals: u8,
}

/// Whether an account holds nothing, and so is closed.
pub open spec fn holds_nothing(account: TokenAccount) -> bool {
    account.balance == 0
}

/// [`holds_nothing`] as a predicate to filter by.
pub open spec fn nothing_held() -> spec_fn(TokenAccount) -> bool {
    |account: TokenAccount| holds_nothing(account)
}

/// The accounts among `accounts` that hold nothing, in listing order.
pub open spec fn empty_accounts(accounts: Seq<TokenAccount>) -> Seq<TokenAccount> {
    accounts.filter(nothing_held())
}

/// The instruction that closes `account` for `owner`, who is both the
/// authority and the receiver of the rent.
pub open spec fn closure_of(owner: Seq<u8>, account: TokenAccount) -> CloseInstructionView {
    close_of(account.address@, owner, owner)
}

/// The close instructions that a scan of `accounts` gives rise to: one for
/// each account that holds nothing, in listing order.
pub open spec fn closures(
    owner: Seq<u8>,
    accounts: Seq<TokenAccount>,
) -> Seq<CloseInstructionView> {
    empty_accounts(accounts).map_values(|account: TokenAccount| closure_of(owner, account))
}

/// What a list of instructions says.
pub open spec fn instruction_views(
    instructions: Seq<CloseInstruction>,
) -> Seq<CloseInstructionView> {
    instructions.map_values(|instruction: CloseInstruction| instruction@)
}

/// The state of a scan: the program and the owner it runs for, and the
/// instructions gathered since the last submission.
pub struct Closer {
    program: Address,
    owner: Address,
    pending: Vec<CloseInstruction>,
}

/// What a [`Closer`] holds.
pub struct CloserView {
    pub program: Seq<u8>,
    pub owner: Seq<u8>,
    pub pending: Seq<CloseInstructionView>,
}

impl View for Closer {
    type V = CloserView;

    closed spec fn view(&self) -> CloserView {
        CloserView {
            program: self.program@,
            owner: self.owner@,
            pending: instruction_views(self.pending@),
        }
    }
}

impl Closer {
    /// The pending batch never exceeds the cap.
    #[verifier::type_invariant]
    spec fn within_cap(self) -> bool {
        self.pending@.len() <= MAX_BATCH
    }

    /// Starts a scan with nothing pending.
    pub fn new(program: Address, owner: Address) -> (closer: Closer)
        ensures
            closer@.program == program@,
            closer@.owner == owner@,
            closer@.pending.len() == 0,
    {
        Closer { program, owner, pending: Vec::with_capacity(MAX_BATCH) }
    }

    /// The number of instructions that are pending.
    pub fn pending_len(&self) -> (len: usize)
        ensures
            len == self@.pending.len(),
            len <= MAX_BATCH,
    {
        proof {
            use_type_invariant(self);
        }
        self.pending.len()
    }

    /// The instructions that are pending, in the order they were recorded.
    pub fn pending(&self) -> (pending: &Vec<CloseInstruction>)
        ensures
            instruction_views(pending@) == self@.pending,
            pending@.len() <= MAX_BATCH,
    {
        proof {
            use_type_invariant(self);
        }
        &self.pending
    }

    /// Before an account is looked at: where the pending batch is full, hands
    /// it out for submission and starts an empty one.
    pub fn make_room(&mut self) -> (batch: Option<Vec<CloseInstruction>>)
        ensures
            final(self)@.program == old(self)@.program,
            final(self)@.owner == old(self)@.owner,
            final(self)@.pending.len() < MAX_BATCH,
            old(self)@.pending.len() <= MAX_BATCH,
            match batch {
                Some(full) => {
                    &&& old(self)@.pending.len() == MAX_BATCH
                    &&& instruction_views(full@) == old(self)@.pending
                    &&& final(self)@.pending.len() == 0
                },
                None => {
                    &&& old(self)@.pending.len() < MAX_BATCH
                    &&& final(self)@.pending == old(self)@.pending
                },
            },
    {
        proof {
            use_type_invariant(&*self);
        }
        if self.pending.len() >= MAX_BATCH {
            let mut full = Vec::with_capacity(MAX_BATCH);
            std::mem::swap(&mut self.pending, &mut full);
            Some(full)
        } else {
            None
        }
    }

    /// Takes in an account with its balance: where it holds nothing, the
    /// instruction that closes it joins the pending batch. Returns whether
    /// one did. Fails, with nothing changed, where an instruction is due and
    /// the scan's program is not the token program.
    pub fn record(&mut self, account: &TokenAccount) -> (result: Result<bool, InstructionError>)
        requires
            old(self)@.pending.len() < MAX_BATCH,
        ensures
            final(self)@.program == old(self)@.program,
            final(self)@.owner == old(self)@.owner,
            final(self)@.pending.len() <= MAX_BATCH,
            result is Err <==> holds_nothing(*account) && old(self)@.program != token_program_id(),
            match result {
                Ok(added) => {
                    &&& added == holds_nothing(*account)
                    &&& final(self)@.pending == if added {
                        old(self)@.pending.push(closure_of(old(self)@.owner, *account))
                    } else {
                        old(self)@.pending
                    }
                },
                Err(error) => {
                    &&& error == InstructionError::IncorrectProgramId
                    &&& final(self)@.pending == old(self)@.pending
                },
            },
    {
        if account.balance != 0 {
            return Ok(false);
        }
        match close_instruction(&self.program, &account.address, &self.owner, &self.owner) {
            Ok(instruction) => {
                // The batch grows outside the closer, which must stay within
                // its cap at every step.
                let mut grown = Vec::new();
                std::mem::swap(&mut self.pending, &mut grown);
                grown.push(instruction);
                std::mem::swap(&mut self.pending, &mut grown);
                assert(instruction_views(self.pending@) =~= instruction_views(
                    old(self).pending@,
                ).push(instruction@));
                Ok(true)
            },
            Err(error) => Err(error),
        }
    }

    /// After the last account: hands out the pending batch, if it holds
    /// anything.
    pub fn finish(self) -> (batch: Option<Vec<CloseInstruction>>)
        ensures
            self@.pending.len() <= MAX_BATCH,
            match batch {
                Some(last) => self@.pending.len() > 0 && instruction_views(last@)
                    == self@.pending,
                None => self@.pending.len() == 0,
            },
    {
        proof {
            use_type_invariant(&self);
        }
        if !self.pending.is_empty() {
            Some(self.pending)
        } else {
            None
        }
    }
}

/// The number of batches that `count` instructions fall into.
pub open spec fn batch_count(count: nat) -> nat {
    ((count + MAX_BATCH - 1) / (MAX_BATCH as int)) as nat
}

/// The batches that a list of instructions is submitted in: runs of
/// `MAX_BATCH` in the order of the list, and a shorter last one for what is
/// left.
pub open spec fn batches_of<T>(items: Seq<T>) -> Seq<Seq<T>> {
    Seq::new(
        batch_count(items.len()),
        |b: int|
            items.subrange(
                MAX_BATCH * b,
                if MAX_BATCH * (b + 1) <= items.len() {
                    MAX_BATCH * (b + 1)
                } else {
                    items.len() as int
                },
            ),
    )
}

/// What a list of batches says.
pub open spec fn batch_views(
    batches: Seq<Vec<CloseInstruction>>,
) -> Seq<Seq<CloseInstructionView>> {
    batches.map_values(|batch: Vec<CloseInstruction>| instruction_views(batch@))
}

/// One more account adds its closure where it holds nothing, and nothing
/// where it holds something.
pub proof fn closures_push(owner: Seq<u8>, accounts: Seq<TokenAccount>, account: TokenAccount)
    ensures
        closures(owner, accounts.push(account)) == if holds_nothing(account) {
            closures(owner, accounts).push(closure_of(owner, account))
        } else {
            closures(owner, accounts)
        },
{
    reveal(Seq::filter);
    assert(accounts.push(account).drop_last() =~= accounts);
}

/// Scans a list of accounts whose balances are known and returns the batches
/// in the order of their submission. Fails where an account holds nothing
/// and `program` is not the token program.
pub fn plan_batches(
    program: Address,
    owner: Address,
    accounts: &Vec<TokenAccount>,
) -> (result: Result<Vec<Vec<CloseInstruction>>, InstructionError>)
    ensures
        result is Err <==> program@ != token_program_id()
            && closures(owner@, accounts@).len() > 0,
        match result {
            Ok(batches) => batch_views(batches@) == batches_of(closures(owner@, accounts@)),
            Err(error) => error == InstructionError::IncorrectProgramId,
        },
{
    let mut closer = Closer::new(program, owner);
    let mut submitted: Vec<Vec<CloseInstruction>> = Vec::new();
    let mut i: usize = 0;
    while i < accounts.len()
        invariant
            i <= accounts.len(),
            closer@.program == program@,
            closer@.owner == owner@,
            closer@.pending.len() <= MAX_BATCH,
            closures(owner@, accounts@.take(i as int)).len() == MAX_BATCH * submitted.len()
                + closer@.pending.len(),
            closer@.pending == closures(owner@, accounts@.take(i as int)).subrange(
                MAX_BATCH * submitted.len(),
                closures(owner@, accounts@.take(i as int)).len() as int,
            ),
            forall|b: int|
                0 <= b < submitted.len() ==> #[trigger] instruction_views(submitted[b]@)
                    == closures(owner@, accounts@.take(i as int)).subrange(
                    MAX_BATCH * b,
                    MAX_BATCH * (b + 1),
                ),
            closures(owner@, accounts@.take(i as int)).len() > 0 ==> program@
                == token_program_id(),
        decreases accounts.len() - i,
    {
        proof {
            assert(accounts@.take(i + 1) =~= accounts@.take(i as int).push(accounts[i as int]));
            closures_push(owner@, accounts@.take(i as int), accounts[i as int]);
        }
        if let Some(full) = closer.make_room() {
            submitted.push(full);
        }
        match closer.record(&accounts[i]) {
            Ok(_) => {},
            Err(error) => {
                proof {
                    still_closed(owner@, accounts@, i + 1);
                }
                return Err(error);
            },
        }
        i += 1;
    }
    assert(accounts@.take(i as int) =~= accounts@);
    if let Some(last) = closer.finish() {
        submitted.push(last);
    }
    assert(batch_views(submitted@) =~= batches_of(closures(owner@, accounts@)));
    Ok(submitted)
}

/// The closures of the first accounts of a list are among those of the
/// whole list.
pub proof fn still_closed(owner: Seq<u8>, accounts: Seq<TokenAccount>, upto: int)
    requires
        0 <= upto <= accounts.len(),
    ensures
        closures(owner, accounts.take(upto)).len() <= closures(owner, accounts).len(),
    decreases accounts.len() - upto,
{
    if upto < accounts.len() {
        assert(accounts.take(upto + 1) =~= accounts.take(upto).push(accounts[upto]));
        closures_push(owner, accounts.take(upto), accounts[upto]);
        still_closed(owner, accounts, upto + 1);
    } else {
        assert(accounts.take(upto) =~= accounts);
    }
}

/// The place among the closures of a scan that the instruction for the
/// account at `index` takes: the number of accounts before it that hold
/// nothing.
pub open spec fn rank(accounts: Seq<TokenAccount>, index: int) -> nat {
    empty_accounts(accounts.take(index)).len()
}

/// Whether batch `b` has a slot `p`.
pub open spec fn is_slot<T>(batches: Seq<Seq<T>>, b: int, p: int) -> bool {
    0 <= b < batches.len() && 0 <= p < batches[b].len()
}

/// The place in the list of instructions that slot `p` of batch `b` stands
/// for.
pub open spec fn place(b: int, p: int) -> int {
    MAX_BATCH * b + p
}

/// No batch is empty and none exceeds the cap; every batch but the last is
/// full, and the last holds what is left.
pub proof fn batches_within_cap<T>(items: Seq<T>)
    ensures
        forall|b: int|
            0 <= b < batches_of(items).len() ==> 0 < (#[trigger] batches_of(items)[b]).len()
                <= MAX_BATCH,
        forall|b: int|
            0 <= b < batches_of(items).len() - 1 ==> (#[trigger] batches_of(items)[b]).len()
                == MAX_BATCH,
        items.len() > 0 ==> batches_of(items).last().len()
            == items.len() - MAX_BATCH * (batches_of(items).len() - 1),
        batches_of(items).len() == 0 <==> items.len() == 0,
{
}

/// Every slot of every batch holds the instruction of the place it stands
/// for.
pub proof fn slot_holds_its_place<T>(items: Seq<T>, b: int, p: int)
    requires
        is_slot(batches_of(items), b, p),
    ensures
        0 <= place(b, p) < items.len(),
        batches_of(items)[b][p] == items[place(b, p)],
{
}

/// Every instruction of the list stands in exactly one slot of one batch.
pub proof fn each_in_one_batch<T>(items: Seq<T>, k: int)
    requires
        0 <= k < items.len(),
    ensures
        is_slot(batches_of(items), k / (MAX_BATCH as int), k % (MAX_BATCH as int)),
        batches_of(items)[k / (MAX_BATCH as int)][k % (MAX_BATCH as int)] == items[k],
        forall|b: int, p: int|
            #[trigger] is_slot(batches_of(items), b, p) && place(b, p) == k
                ==> b == k / (MAX_BATCH as int) && p == k % (MAX_BATCH as int),
{
}

/// The accounts that hold nothing among the first of a list come first among
/// those of the whole list.
pub proof fn empty_accounts_split(accounts: Seq<TokenAccount>, upto: int)
    requires
        0 <= upto <= accounts.len(),
    ensures
        empty_accounts(accounts) == empty_accounts(accounts.take(upto)) + empty_accounts(
            accounts.skip(upto),
        ),
{
    assert(accounts =~= accounts.take(upto) + accounts.skip(upto));
    Seq::filter_distributes_over_add(accounts.take(upto), accounts.skip(upto), nothing_held());
}

/// An account that holds nothing is closed by the instruction at its rank.
pub proof fn closure_at_rank(owner: Seq<u8>, accounts: Seq<TokenAccount>, index: int)
    requires
        0 <= index < accounts.len(),
        holds_nothing(accounts[index]),
    ensures
        rank(accounts, index) < closures(owner, accounts).len(),
        closures(owner, accounts)[rank(accounts, index) as int] == closure_of(
            owner,
            accounts[index],
        ),
{
    let first = accounts.take(index + 1);
    empty_accounts_split(accounts, index + 1);
    assert(first.drop_last() =~= accounts.take(index));
    assert(empty_accounts(first) == empty_accounts(accounts.take(index)).push(accounts[index]))
        by {
        reveal(Seq::filter);
    }
}

/// Of two accounts that hold nothing, the one listed first is closed first.
pub proof fn ranks_follow_listing(accounts: Seq<TokenAccount>, first: int, second: int)
    requires
        0 <= first < second < accounts.len(),
        holds_nothing(accounts[first]),
    ensures
        rank(accounts, first) < rank(accounts, second),
{
    let upto = accounts.take(second);
    empty_accounts_split(upto, first + 1);
    assert(upto.take(first + 1) =~= accounts.take(first + 1));
    assert(accounts.take(first + 1).drop_last() =~= accounts.take(first));
    assert(empty_accounts(accounts.take(first + 1)) == empty_accounts(accounts.take(first)).push(
        accounts[first],
    )) by {
        reveal(Seq::filter);
    }
}

/// Every account of a scan that holds nothing is closed in exactly one slot
/// of one submitted batch.
pub proof fn empty_account_closed_once(owner: Seq<u8>, accounts: Seq<TokenAccount>, index: int)
    requires
        0 <= index < accounts.len(),
        holds_nothing(accounts[index]),
    ensures
        ({
            let batches = batches_of(closures(owner, accounts));
            let k = rank(accounts, index) as int;
            let b = k / (MAX_BATCH as int);
            let p = k % (MAX_BATCH as int);
            &&& is_slot(batches, b, p)
            &&& batches[b][p] == closure_of(owner, accounts[index])
            &&& forall|other_b: int, other_p: int|
                #[trigger] is_slot(batches, other_b, other_p) && place(other_b, other_p) == k
                    ==> other_b == b && other_p == p
        }),
{
    closure_at_rank(owner, accounts, index);
    each_in_one_batch(closures(owner, accounts), rank(accounts, index) as int);
}

/// Every closure of a scan stems from an account that holds nothing: no
/// instruction is made for an account that holds something.
pub proof fn closure_source(owner: Seq<u8>, accounts: Seq<TokenAccount>, k: int) -> (index: int)
    requires
        0 <= k < closures(owner, accounts).len(),
    ensures
        0 <= index < accounts.len(),
        holds_nothing(accounts[index]),
        rank(accounts, index) == k,
        closures(owner, accounts)[k] == closure_of(owner, accounts[index]),
    decreases accounts.len(),
{
    reveal(Seq::filter);
    let rest = accounts.drop_last();
    closures_push(owner, rest, accounts.last());
    if k < closures(owner, rest).len() {
        let index = closure_source(owner, rest, k);
        assert(rest.take(index) =~= accounts.take(index));
        index
    } else {
        accounts.len() - 1
    }
}

/// Every slot of every batch of a scan holds the instruction for an account
/// that holds nothing.
pub proof fn batches_close_only_empty_accounts(
    owner: Seq<u8>,
    accounts: Seq<TokenAccount>,
    b: int,
    p: int,
) -> (index: int)
    requires
        is_slot(batches_of(closures(owner, accounts)), b, p),
    ensures
        0 <= index < accounts.len(),
        holds_nothing(accounts[index]),
        rank(accounts, index) == place(b, p),
        batches_of(closures(owner, accounts))[b][p] == closure_of(owner, accounts[index]),
{
    slot_holds_its_place(closures(owner, accounts), b, p);
    closure_source(owner, accounts, place(b, p))
}

} // verus!
