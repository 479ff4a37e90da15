//! The instruction handlers. A handler decides which cross-program calls the
//! instruction makes, with what amounts and signers, and in what order; the
//! runtime side performs them one after the other and aborts the instruction
//! at the first one that fails.

use vstd::prelude::*;
use crate::pool::LoadedDepositPool;
use crate::seahorse_util::Empty;

verus! {

/// One step of an instruction.
#[derive(Clone, Copy, Debug, PartialEq, Eq, Structural)]
pub enum PoolAction {
    /// Mint `amount` pool tokens into the user's token account. The pool is
    /// the mint authority and signs with its address seed and
    /// `authority_bump`.
    MintTo { amount: u64, authority_bump: u8 },
    /// Move `amount` lamports from the user to the pool through the system
    /// program, the user signing.
    SystemTransfer { amount: u64 },
    /// Move `amount` pool tokens from the user's token account into the
    /// pool's token account, the user signing.
    TokenTransfer { amount: u64 },
    /// Debit `amount` lamports from the pool account and credit them to the
    /// user, directly on the two accounts' balances.
    PayOut { amount: u64 },
    /// Log that the user deposited `lamports` lamports.
    LogDeposit { lamports: u64 },
    /// Log that the user withdrew `lamports` lamports.
    LogWithdraw { lamports: u64 },
}

/// The name under which an instruction registers the token program.
pub open spec fn spec_token_program() -> Seq<char> {
    "token_program"@
}

/// The name under which an instruction registers the system program.
pub open spec fn spec_system_program() -> Seq<char> {
    "system_program"@
}

/// The name of the token program, as instructions register it.
pub fn token_program_name() -> (name: &'static str)
    ensures
        name@ == spec_token_program(),
{
    "token_program"
}

/// The name of the system program, as instructions register it.
pub fn system_program_name() -> (name: &'static str)
    ensures
        name@ == spec_system_program(),
{
    "system_program"
}

impl PoolAction {
    /// The program that performs the step, where the step is a call into
    /// another program.
    pub open spec fn spec_program(self) -> Option<Seq<char>> {
        match self {
            PoolAction::MintTo { .. } => Some(spec_token_program()),
            PoolAction::TokenTransfer { .. } => Some(spec_token_program()),
            PoolAction::SystemTransfer { .. } => Some(spec_system_program()),
            _ => None,
        }
    }

    /// The name of the program that performs the step, where the step is a
    /// call into another program.
    pub fn program(&self) -> (name: Option<&'static str>)
        ensures
            match name {
                Some(n) => self.spec_program() == Some(n@),
                None => self.spec_program() is None,
            },
    {
        match self {
            PoolAction::MintTo { .. } => Some(token_program_name()),
            PoolAction::TokenTransfer { .. } => Some(token_program_name()),
            PoolAction::SystemTransfer { .. } => Some(system_program_name()),
            _ => None,
        }
    }
}

/// Records in the new pool account the bump seed found for its address.
pub fn init_handler(pool: &mut Empty<LoadedDepositPool>)
    requires
        old(pool).bump is Some,
    ensures
        final(pool).account.bump == old(pool).bump->0,
        final(pool).bump == old(pool).bump,
{
    let bump = pool.bump.unwrap();
    pool.account.bump = bump;
}

/// The steps of a deposit of `n` lamports into a pool whose address bump is
/// `bump`: the pool mints `n` tokens to the user, then the user pays `n`
/// lamports to the pool, then the deposit is logged.
pub open spec fn deposit_plan(bump: u8, n: u64) -> Seq<PoolAction> {
    seq![
        PoolAction::MintTo { amount: n, authority_bump: bump },
        PoolAction::SystemTransfer { amount: n },
        PoolAction::LogDeposit { lamports: n },
    ]
}

/// The steps of a withdrawal of `n` lamports: the user hands `n` tokens to
/// the pool's token account, then the pool pays `n` lamports to the user,
/// then the withdrawal is logged.
pub open spec fn withdraw_plan(n: u64) -> Seq<PoolAction> {
    seq![
        PoolAction::TokenTransfer { amount: n },
        PoolAction::PayOut { amount: n },
        PoolAction::LogWithdraw { lamports: n },
    ]
}

/// Deposits `n` lamports: mint `n` pool tokens to the user, signed by the
/// pool, and take `n` lamports from the user.
pub fn deposit_handler(pool: &LoadedDepositPool, n: u64) -> (actions: Vec<PoolAction>)
    ensures
        actions@ == deposit_plan(pool.bump, n),
        forall|i: int|
            0 <= i < actions@.len() ==> (#[trigger] actions@[i] matches PoolAction::MintTo {
                amount,
                authority_bump,
            } ==> amount == n && authority_bump == pool.bump),
{
    let bump = pool.bump;
    let mut actions: Vec<PoolAction> = Vec::new();
    actions.push(PoolAction::MintTo { amount: n, authority_bump: bump });
    actions.push(PoolAction::SystemTransfer { amount: n });
    actions.push(PoolAction::LogDeposit { lamports: n });
    assert(actions@ =~= deposit_plan(pool.bump, n));
    actions
}

/// Withdraws `n` lamports: take `n` pool tokens from the user and pay out
/// `n` lamports from the pool.
pub fn withdraw_handler(pool: &LoadedDepositPool, n: u64) -> (actions: Vec<PoolAction>)
    ensures
        actions@ == withdraw_plan(n),
{
    let mut actions: Vec<PoolAction> = Vec::new();
    actions.push(PoolAction::TokenTransfer { amount: n });
    actions.push(PoolAction::PayOut { amount: n });
    actions.push(PoolAction::LogWithdraw { lamports: n });
    assert(actions@ =~= withdraw_plan(n));
    actions
}

/// The balances of the pool account and of the user after the pool pays
/// `amount` lamports to the user.
pub open spec fn spec_pay_out(pool_lamports: u64, user_lamports: u64, amount: u64) -> (int, int) {
    (pool_lamports - amount, user_lamports + amount)
}

/// Pays `amount` lamports from the pool account to the user: returns the new
/// balances of the pool and of the user. Where the pool holds less than
/// `amount`, or the user's balance would overflow, the payment cannot be
/// made and the instruction fails instead.
pub fn pay_out(pool_lamports: u64, user_lamports: u64, amount: u64) -> (balances: (u64, u64))
    requires
        amount <= pool_lamports,
        user_lamports + amount <= u64::MAX,
    ensures
        balances.0 == spec_pay_out(pool_lamports, user_lamports, amount).0,
        balances.1 == spec_pay_out(pool_lamports, user_lamports, amount).1,
{
    (pool_lamports - amount, user_lamports + amount)
}

/// The balances of the pool account and of the user after the pool pays
/// `amount` lamports to the user, or `None` where the pool holds less than
/// `amount` or the user's balance would overflow.
pub fn checked_pay_out(pool_lamports: u64, user_lamports: u64, amount: u64) -> (r: Option<(u64, u64)>)
    ensures
        match r {
            Some(balances) => {
                &&& balances.0 == spec_pay_out(pool_lamports, user_lamports, amount).0
                &&& balances.1 == spec_pay_out(pool_lamports, user_lamports, amount).1
            },
            None => amount > pool_lamports || user_lamports + amount > u64::MAX,
        },
{
    if amount <= pool_lamports && amount <= u64::MAX - user_lamports {
        Some(pay_out(pool_lamports, user_lamports, amount))
    } else {
        None
    }
}

/// Whether `a` is one of the steps a deposit takes.
pub open spec fn is_deposit_step(a: PoolAction) -> bool {
    a is MintTo || a is SystemTransfer || a is LogDeposit
}

/// Whether `a` is one of the steps a withdrawal takes.
pub open spec fn is_withdraw_step(a: PoolAction) -> bool {
    a is TokenTransfer || a is PayOut || a is LogWithdraw
}

/// The tokens or lamports that step `a` moves or records.
pub open spec fn step_amount(a: PoolAction) -> u64 {
    match a {
        PoolAction::MintTo { amount, .. } => amount,
        PoolAction::SystemTransfer { amount } => amount,
        PoolAction::TokenTransfer { amount } => amount,
        PoolAction::PayOut { amount } => amount,
        PoolAction::LogDeposit { lamports } => lamports,
        PoolAction::LogWithdraw { lamports } => lamports,
    }
}

/// For every bump `b` and amount `n`, a deposit of `n` into a pool whose
/// account holds `b` first mints, signing with `b`, then takes the user's
/// lamports, then logs the deposit; each of its steps moves or records
/// exactly `n`, and none of them is a withdrawal step.
pub proof fn deposit_mints_then_pays_with_pool_bump(b: u8, n: u64)
    ensures
        deposit_plan(b, n).len() == 3,
        deposit_plan(b, n)[0] matches PoolAction::MintTo { authority_bump, .. } && authority_bump
            == b,
        deposit_plan(b, n)[1] is SystemTransfer,
        deposit_plan(b, n)[2] is LogDeposit,
        forall|i: int|
            0 <= i < deposit_plan(b, n).len() ==> step_amount(#[trigger] deposit_plan(b, n)[i])
                == n && is_deposit_step(deposit_plan(b, n)[i]) && !is_withdraw_step(
                deposit_plan(b, n)[i],
            ),
        forall|i: int|
            0 <= i < deposit_plan(b, n).len() ==> (#[trigger] deposit_plan(b, n)[i] matches PoolAction::MintTo {
                authority_bump,
                ..
            } ==> authority_bump == b),
{
}

/// For every amount `n`, a withdrawal of `n` first takes `n` tokens from the
/// user, then pays `n` lamports out of the pool, then logs the withdrawal;
/// none of its steps is a deposit step.
pub proof fn withdraw_takes_tokens_then_pays_out(n: u64)
    ensures
        withdraw_plan(n).len() == 3,
        withdraw_plan(n)[0] is TokenTransfer,
        withdraw_plan(n)[1] is PayOut,
        withdraw_plan(n)[2] is LogWithdraw,
        forall|i: int|
            0 <= i < withdraw_plan(n).len() ==> step_amount(#[trigger] withdraw_plan(n)[i]) == n
                && is_withdraw_step(withdraw_plan(n)[i]) && !is_deposit_step(withdraw_plan(n)[i]),
{
}

/// For every amount, a system transfer is performed by the program named
/// `"system_program"`, a mint or a token transfer by the one named
/// `"token_program"`, and the other steps call no program; the two names
/// differ.
pub proof fn steps_go_to_their_programs(amount: u64, bump: u8)
    ensures
        (PoolAction::SystemTransfer { amount }).spec_program() == Some("system_program"@),
        (PoolAction::MintTo { amount, authority_bump: bump }).spec_program() == Some(
            "token_program"@,
        ),
        (PoolAction::TokenTransfer { amount }).spec_program() == Some("token_program"@),
        (PoolAction::PayOut { amount }).spec_program() is None,
        (PoolAction::LogDeposit { lamports: amount }).spec_program() is None,
        (PoolAction::LogWithdraw { lamports: amount }).spec_program() is None,
        "system_program"@ != "token_program"@,
{
    reveal_strlit("system_program");
    reveal_strlit("token_program");
    assert("system_program"@.len() != "token_program"@.len());
}

/// For all balances and amounts, a payment out of the pool takes exactly
/// `amount` from the pool, gives exactly `amount` to the user, and leaves
/// what the two hold together unchanged.
pub proof fn pay_out_moves_exactly_the_amount(pool_lamports: u64, user_lamports: u64, amount: u64)
    ensures
        pool_lamports - spec_pay_out(pool_lamports, user_lamports, amount).0 == amount,
        spec_pay_out(pool_lamports, user_lamports, amount).1 - user_lamports == amount,
        spec_pay_out(pool_lamports, user_lamports, amount).0 + spec_pay_out(
            pool_lamports,
            user_lamports,
            amount,
        ).1 == pool_lamports + user_lamports,
{
}

} // verus!
