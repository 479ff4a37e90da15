//! The program's instructions: each registers the programs its handler may
//! call, loads the pool account, runs the handler and stores the pool back.
//! The accounts an instruction receives stand for themselves; the programs
//! it registers are handed in as whatever handle the runtime gives for them.

use vstd::prelude::*;
use crate::handlers::{
    deposit_handler, deposit_plan, init_handler, spec_system_program, spec_token_program,
    system_program_name, token_program_name, withdraw_handler, withdraw_plan, PoolAction,
};
use crate::pool::{DepositPool, LoadedDepositPool};
use crate::seahorse_util::{Empty, ProgramsMap};

verus! {

/// An instruction that works on an existing pool.
#[derive(Clone, Copy, Debug, PartialEq, Eq, Structural)]
pub enum PoolInstruction {
    Deposit { n: u64 },
    Withdraw { n: u64 },
}

/// The pool account after `ix`: the handler's loaded pool stored back,
/// which `deposit` and `withdraw` state leaves the account as it was.
pub open spec fn pool_after(pool: DepositPool, ix: PoolInstruction) -> DepositPool {
    DepositPool::spec_store(DepositPool::spec_load(pool), pool)
}

/// The pool account after the instructions `ixs` in order.
pub open spec fn pool_after_all(pool: DepositPool, ixs: Seq<PoolInstruction>) -> DepositPool
    decreases ixs.len(),
{
    if ixs.len() == 0 {
        pool
    } else {
        pool_after_all(pool_after(pool, ixs[0]), ixs.drop_first())
    }
}

/// The steps `ix` takes on a pool whose account holds `pool`.
pub open spec fn steps_of(pool: DepositPool, ix: PoolInstruction) -> Seq<PoolAction> {
    match ix {
        PoolInstruction::Deposit { n } => deposit_plan(pool.bump, n),
        PoolInstruction::Withdraw { n } => withdraw_plan(n),
    }
}

/// The pool account as `init` leaves it, given the bump found for its
/// address.
pub open spec fn pool_after_init(pool: DepositPool, bump: u8) -> DepositPool {
    DepositPool::spec_store(LoadedDepositPool { bump }, pool)
}

/// Once `init` has recorded the bump `b` found for the pool's address, any
/// run of deposits and withdrawals leaves `b` in the account, and every
/// deposit in the run mints as the pool signing with its address seed and
/// `b`.
pub proof fn pool_keeps_its_bump(pool: DepositPool, b: u8, ixs: Seq<PoolInstruction>)
    ensures
        pool_after_all(pool_after_init(pool, b), ixs).bump == b,
        forall|i: int|
            0 <= i < ixs.len() ==> #[trigger] steps_of(pool_after_all(pool_after_init(pool, b), ixs.take(i)), ixs[i])
                == match ixs[i] {
                PoolInstruction::Deposit { n } => deposit_plan(b, n),
                PoolInstruction::Withdraw { n } => withdraw_plan(n),
            },
{
    lemma_bump_kept(pool_after_init(pool, b), ixs);
    assert forall|i: int| 0 <= i < ixs.len() implies #[trigger] steps_of(
        pool_after_all(pool_after_init(pool, b), ixs.take(i)),
        ixs[i],
    ) == match ixs[i] {
        PoolInstruction::Deposit { n } => deposit_plan(b, n),
        PoolInstruction::Withdraw { n } => withdraw_plan(n),
    } by {
        lemma_bump_kept(pool_after_init(pool, b), ixs.take(i));
    }
}

proof fn lemma_bump_kept(pool: DepositPool, ixs: Seq<PoolInstruction>)
    ensures
        pool_after_all(pool, ixs).bump == pool.bump,
    decreases ixs.len(),
{
    if ixs.len() > 0 {
        lemma_bump_kept(pool_after(pool, ixs[0]), ixs.drop_first());
    }
}

/// Every step of `actions` that calls another program calls one that
/// `programs` holds.
pub open spec fn calls_registered<V>(programs: Map<Seq<char>, V>, actions: Seq<PoolAction>) -> bool {
    forall|i: int|
        0 <= i < actions.len() && (#[trigger] actions[i].spec_program()) is Some ==> programs.contains_key(
            actions[i].spec_program()->0,
        )
}

/// Creates the pool account and records in it the bump seed found for its
/// address. The token and system programs are registered for the handler.
pub fn init<V>(token_program: V, system_program: V, pool: &mut DepositPool, pool_bump: Option<u8>) -> (programs: ProgramsMap<V>)
    requires
        pool_bump is Some,
    ensures
        programs.wf(),
        programs@ == Map::<Seq<char>, V>::empty().insert(spec_token_program(), token_program).insert(
            spec_system_program(),
            system_program,
        ),
        *final(pool) == pool_after_init(*old(pool), pool_bump->0),
{
    let mut programs = ProgramsMap::new();
    programs.insert(token_program_name(), token_program);
    programs.insert(system_program_name(), system_program);
    let loaded = DepositPool::load(pool);
    let mut pool_to_create = Empty { account: loaded, bump: pool_bump };
    init_handler(&mut pool_to_create);
    DepositPool::store(&pool_to_create.account, pool);
    programs
}

/// Creates a user's pool token account. The account's creation is the
/// whole of the instruction; the token and system programs are registered
/// for it.
pub fn init_associated_token_account<V>(token_program: V, system_program: V) -> (programs: ProgramsMap<V>)
    ensures
        programs.wf(),
        programs@ == Map::<Seq<char>, V>::empty().insert(spec_token_program(), token_program).insert(
            spec_system_program(),
            system_program,
        ),
{
    let mut programs = ProgramsMap::new();
    programs.insert(token_program_name(), token_program);
    programs.insert(system_program_name(), system_program);
    programs
}

/// Deposits `n` lamports: returns the programs registered for the handler
/// and the steps the handler takes. The pool account is stored back as it
/// was loaded.
pub fn deposit<V>(system_program: V, token_program: V, pool: &mut DepositPool, n: u64) -> (r: (
    ProgramsMap<V>,
    Vec<PoolAction>,
))
    ensures
        r.0.wf(),
        r.0@ == deposit_programs(system_program, token_program),
        r.1@ == deposit_plan(old(pool).bump, n),
        calls_registered(r.0@, r.1@),
        *final(pool) == *old(pool),
{
    let mut programs = ProgramsMap::new();
    programs.insert(system_program_name(), system_program);
    programs.insert(token_program_name(), token_program);
    let loaded = DepositPool::load(pool);
    let actions = deposit_handler(&loaded, n);
    DepositPool::store(&loaded, pool);
    (programs, actions)
}

/// Withdraws `n` lamports: returns the programs registered for the handler
/// and the steps the handler takes. The pool account is stored back as it
/// was loaded.
pub fn withdraw<V>(token_program: V, pool: &mut DepositPool, n: u64) -> (r: (
    ProgramsMap<V>,
    Vec<PoolAction>,
))
    ensures
        r.0.wf(),
        r.0@ == withdraw_programs(token_program),
        r.1@ == withdraw_plan(n),
        calls_registered(r.0@, r.1@),
        *final(pool) == *old(pool),
{
    let mut programs = ProgramsMap::new();
    programs.insert(token_program_name(), token_program);
    let loaded = DepositPool::load(pool);
    let actions = withdraw_handler(&loaded, n);
    DepositPool::store(&loaded, pool);
    (programs, actions)
}

/// The programs a deposit registers, given the handles of the system and
/// the token program.
pub open spec fn deposit_programs<V>(system_program: V, token_program: V) -> Map<Seq<char>, V> {
    Map::<Seq<char>, V>::empty().insert(spec_system_program(), system_program).insert(
        spec_token_program(),
        token_program,
    )
}

/// The programs a withdrawal registers, given the handle of the token
/// program.
pub open spec fn withdraw_programs<V>(token_program: V) -> Map<Seq<char>, V> {
    Map::<Seq<char>, V>::empty().insert(spec_token_program(), token_program)
}

/// For every bump and amount, each call a deposit makes reaches the handle
/// it was given for that program: its system transfer reaches the system
/// program's handle and its mint the token program's; each call a
/// withdrawal makes (its token transfer) reaches the token program's handle.
pub proof fn calls_reach_their_programs<V>(system_program: V, token_program: V, b: u8, n: u64)
    ensures
        forall|i: int|
            0 <= i < deposit_plan(b, n).len() && #[trigger] deposit_plan(b, n)[i] is SystemTransfer
                ==> deposit_programs(system_program, token_program)[deposit_plan(
                b,
                n,
            )[i].spec_program()->0] == system_program,
        forall|i: int|
            0 <= i < deposit_plan(b, n).len() && #[trigger] deposit_plan(b, n)[i] is MintTo
                ==> deposit_programs(system_program, token_program)[deposit_plan(
                b,
                n,
            )[i].spec_program()->0] == token_program,
        forall|i: int|
            0 <= i < withdraw_plan(n).len() && #[trigger] withdraw_plan(n)[i] is TokenTransfer
                ==> withdraw_programs(token_program)[withdraw_plan(n)[i].spec_program()->0]
                == token_program,
{
    reveal_strlit("system_program");
    reveal_strlit("token_program");
    assert(spec_system_program() != spec_token_program()) by {
        assert(spec_system_program().len() != spec_token_program().len());
    }
}

} // verus!
