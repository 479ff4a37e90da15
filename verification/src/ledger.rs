//! What the pool's instructions do to the balances of the accounts they are
//! handed, and the laws that hold of them.
//!
//! The steps that call other programs are given their documented effect on
//! balances: minting adds to the mint's supply and to the receiving token
//! account; a token transfer moves tokens from one token account to another,
//! moves nothing where both are the same account, and fails where the source
//! holds too few; a system transfer moves lamports and fails where the payer
//! holds too few; no balance may leave the range of a `u64`.
//!
//! The model says which balances a completed instruction leaves, and which
//! shortages and overflows make it fail. It does not say that an instruction
//! completes: it can still fail for reasons the model leaves out (a wrong
//! signer or owner, a token account of another mint, a frozen account, an
//! account left below its rent-exempt minimum), and then changes nothing.
//!
//! The token balances are those of the accounts the instruction is handed.
//! The program checks neither which mint they hold nor that the account
//! handed in as the pool's token account is the pool's own; the laws about
//! the pool's backing speak of the pool only where it is.

use vstd::prelude::*;
use crate::handlers::{deposit_plan, spec_pay_out, withdraw_plan, PoolAction};
use crate::pool::DepositPool;
use crate::program::{pool_after, steps_of, PoolInstruction};

verus! {

/// The balances that the pool's instructions touch: the lamports of the
/// user and of the pool account, the tokens in the token account handed in
/// as the user's and in the one handed in as the pool's, and the pool
/// mint's supply. `shared_token_account` says that one token account was
/// handed in for both, whose balance both token fields then give.
#[derive(Clone, Copy, Debug, PartialEq, Eq, Structural)]
pub struct Ledger {
    pub user_lamports: u64,
    pub pool_lamports: u64,
    pub user_tokens: u64,
    pub pool_tokens: u64,
    pub supply: u64,
    pub shared_token_account: bool,
}

/// Whether `x` is a balance a `u64` can hold.
pub open spec fn fits(x: int) -> bool {
    0 <= x <= u64::MAX
}

/// The balances one step leaves if it completes, or `None` where a shortage
/// or an overflow makes it fail.
pub open spec fn apply_action(l: Ledger, a: PoolAction) -> Option<Ledger> {
    match a {
        PoolAction::MintTo { amount, .. } => {
            if fits(l.supply + amount) && fits(l.user_tokens + amount) {
                Some(
                    Ledger {
                        supply: (l.supply + amount) as u64,
                        user_tokens: (l.user_tokens + amount) as u64,
                        pool_tokens: if l.shared_token_account {
                            (l.user_tokens + amount) as u64
                        } else {
                            l.pool_tokens
                        },
                        ..l
                    },
                )
            } else {
                None
            }
        },
        PoolAction::SystemTransfer { amount } => {
            if amount <= l.user_lamports && fits(l.pool_lamports + amount) {
                Some(
                    Ledger {
                        user_lamports: (l.user_lamports - amount) as u64,
                        pool_lamports: (l.pool_lamports + amount) as u64,
                        ..l
                    },
                )
            } else {
                None
            }
        },
        PoolAction::TokenTransfer { amount } => {
            if amount > l.user_tokens {
                None
            } else if l.shared_token_account {
                Some(l)
            } else if fits(l.pool_tokens + amount) {
                Some(
                    Ledger {
                        user_tokens: (l.user_tokens - amount) as u64,
                        pool_tokens: (l.pool_tokens + amount) as u64,
                        ..l
                    },
                )
            } else {
                None
            }
        },
        PoolAction::PayOut { amount } => {
            if amount <= l.pool_lamports && fits(l.user_lamports + amount) {
                let (pool, user) = spec_pay_out(l.pool_lamports, l.user_lamports, amount);
                Some(Ledger { pool_lamports: pool as u64, user_lamports: user as u64, ..l })
            } else {
                None
            }
        },
        PoolAction::LogDeposit { .. } => Some(l),
        PoolAction::LogWithdraw { .. } => Some(l),
    }
}

/// The balances the steps of `plan` leave if they all complete, in order,
/// or `None` where a shortage or an overflow makes one of them fail (and
/// with it the whole instruction).
pub open spec fn apply_plan(l: Ledger, plan: Seq<PoolAction>) -> Option<Ledger>
    decreases plan.len(),
{
    if plan.len() == 0 {
        Some(l)
    } else {
        match apply_action(l, plan[0]) {
            Some(next) => apply_plan(next, plan.drop_first()),
            None => None,
        }
    }
}

/// The pool backs its tokens: the tokens outside the pool's token account
/// are matched one for one by the lamports the pool holds beyond `reserve`,
/// the balance it was created with. This speaks of the pool where the token
/// accounts are the user's and the pool's own, two accounts of the pool's
/// mint.
pub open spec fn backed(l: Ledger, reserve: int) -> bool {
    &&& !l.shared_token_account
    &&& l.user_tokens + l.pool_tokens <= l.supply
    &&& l.pool_lamports == reserve + (l.supply - l.pool_tokens)
}

proof fn lemma_deposit_steps(l: Ledger, bump: u8, n: u64)
    ensures
        apply_plan(l, deposit_plan(bump, n)) == (if n <= l.user_lamports && fits(l.pool_lamports + n)
            && fits(l.supply + n) && fits(l.user_tokens + n) {
            Some(
                Ledger {
                    user_lamports: (l.user_lamports - n) as u64,
                    pool_lamports: (l.pool_lamports + n) as u64,
                    user_tokens: (l.user_tokens + n) as u64,
                    pool_tokens: if l.shared_token_account {
                        (l.user_tokens + n) as u64
                    } else {
                        l.pool_tokens
                    },
                    supply: (l.supply + n) as u64,
                    shared_token_account: l.shared_token_account,
                },
            )
        } else {
            None::<Ledger>
        }),
{
    let p = deposit_plan(bump, n);
    reveal_with_fuel(apply_plan, 4);
    assert(p.drop_first() =~= seq![p[1], p[2]]);
    assert(p.drop_first().drop_first() =~= seq![p[2]]);
    assert(p.drop_first().drop_first().drop_first() =~= Seq::<PoolAction>::empty());
}

proof fn lemma_withdraw_steps(l: Ledger, n: u64)
    ensures
        !l.shared_token_account ==> apply_plan(l, withdraw_plan(n)) == (if n <= l.user_tokens
            && fits(l.pool_tokens + n) && n <= l.pool_lamports && fits(l.user_lamports + n) {
            Some(
                Ledger {
                    user_lamports: (l.user_lamports + n) as u64,
                    pool_lamports: (l.pool_lamports - n) as u64,
                    user_tokens: (l.user_tokens - n) as u64,
                    pool_tokens: (l.pool_tokens + n) as u64,
                    supply: l.supply,
                    shared_token_account: false,
                },
            )
        } else {
            None::<Ledger>
        }),
        l.shared_token_account ==> apply_plan(l, withdraw_plan(n)) == (if n <= l.user_tokens && n
            <= l.pool_lamports && fits(l.user_lamports + n) {
            Some(
                Ledger {
                    user_lamports: (l.user_lamports + n) as u64,
                    pool_lamports: (l.pool_lamports - n) as u64,
                    ..l
                },
            )
        } else {
            None::<Ledger>
        }),
{
    let p = withdraw_plan(n);
    reveal_with_fuel(apply_plan, 4);
    assert(p.drop_first() =~= seq![p[1], p[2]]);
    assert(p.drop_first().drop_first() =~= seq![p[2]]);
    assert(p.drop_first().drop_first().drop_first() =~= Seq::<PoolAction>::empty());
}

/// A shortage or an overflow stops a deposit of `n` lamports exactly when
/// the user holds fewer than `n` lamports or a balance would overflow. A
/// deposit that completes takes `n` lamports from the user into the pool
/// and gives the user's token account `n` newly minted tokens.
pub proof fn deposit_exchanges_one_for_one(l: Ledger, bump: u8, n: u64)
    ensures
        apply_plan(l, deposit_plan(bump, n)) is None <==> !(n <= l.user_lamports && fits(
            l.pool_lamports + n,
        ) && fits(l.supply + n) && fits(l.user_tokens + n)),
        apply_plan(l, deposit_plan(bump, n)) matches Some(m) ==> {
            &&& m.user_lamports == l.user_lamports - n
            &&& m.pool_lamports == l.pool_lamports + n
            &&& m.user_tokens == l.user_tokens + n
            &&& m.supply == l.supply + n
            &&& !l.shared_token_account ==> m.pool_tokens == l.pool_tokens
        },
{
    lemma_deposit_steps(l, bump, n);
}

/// Where the user's and the pool's token accounts are two accounts, a
/// shortage or an overflow stops a withdrawal of `n` lamports exactly when
/// the user holds fewer than `n` tokens, the pool fewer than `n` lamports,
/// or a balance would overflow. A withdrawal that completes moves the
/// user's `n` tokens into the pool's token account and pays the user `n`
/// lamports from the pool.
pub proof fn withdraw_exchanges_one_for_one(l: Ledger, n: u64)
    requires
        !l.shared_token_account,
    ensures
        apply_plan(l, withdraw_plan(n)) is None <==> !(n <= l.user_tokens && fits(
            l.pool_tokens + n,
        ) && n <= l.pool_lamports && fits(l.user_lamports + n)),
        apply_plan(l, withdraw_plan(n)) matches Some(m) ==> {
            &&& m.user_lamports == l.user_lamports + n
            &&& m.pool_lamports == l.pool_lamports - n
            &&& m.user_tokens == l.user_tokens - n
            &&& m.pool_tokens == l.pool_tokens + n
            &&& m.supply == l.supply
        },
{
    lemma_withdraw_steps(l, n);
}

/// Where one token account is handed in both as the user's and as the
/// pool's, a withdrawal of `n` lamports that completes moves no token and
/// still pays the user `n` lamports from the pool.
pub proof fn withdraw_through_one_token_account_moves_no_tokens(l: Ledger, n: u64)
    requires
        l.shared_token_account,
    ensures
        apply_plan(l, withdraw_plan(n)) is None <==> !(n <= l.user_tokens && n <= l.pool_lamports
            && fits(l.user_lamports + n)),
        apply_plan(l, withdraw_plan(n)) matches Some(m) ==> {
            &&& m.user_lamports == l.user_lamports + n
            &&& m.pool_lamports == l.pool_lamports - n
            &&& m.user_tokens == l.user_tokens
            &&& m.pool_tokens == l.pool_tokens
            &&& m.supply == l.supply
        },
{
    lemma_withdraw_steps(l, n);
}

/// Neither instruction creates or destroys lamports: what the user and the
/// pool hold together is the same before and after.
pub proof fn lamports_are_conserved(l: Ledger, bump: u8, n: u64)
    ensures
        apply_plan(l, deposit_plan(bump, n)) matches Some(m) ==> m.user_lamports + m.pool_lamports
            == l.user_lamports + l.pool_lamports,
        apply_plan(l, withdraw_plan(n)) matches Some(m) ==> m.user_lamports + m.pool_lamports
            == l.user_lamports + l.pool_lamports,
{
    lemma_deposit_steps(l, bump, n);
    lemma_withdraw_steps(l, n);
}

/// Deposits and withdrawals that complete keep the pool's tokens backed.
pub proof fn instructions_keep_backing(l: Ledger, reserve: int, bump: u8, n: u64)
    requires
        backed(l, reserve),
    ensures
        apply_plan(l, deposit_plan(bump, n)) matches Some(m) ==> backed(m, reserve),
        apply_plan(l, withdraw_plan(n)) matches Some(m) ==> backed(m, reserve),
{
    lemma_deposit_steps(l, bump, n);
    lemma_withdraw_steps(l, n);
}

/// A pool that has just been created, with no token minted yet, is backed.
pub proof fn new_pool_is_backed(l: Ledger)
    requires
        l.supply == 0,
        l.user_tokens == 0,
        l.pool_tokens == 0,
        !l.shared_token_account,
    ensures
        backed(l, l.pool_lamports as int),
{
}

/// Where the user's and the pool's token accounts are two accounts, a user
/// who deposits `n` lamports and then withdraws `n` lamports ends with the
/// lamports and tokens they started with; the pool ends with its lamports
/// as before, and the `n` tokens sit in its token account. Where the token
/// balances stay within the supply, no shortage or overflow stops the
/// withdrawal.
pub proof fn deposit_then_withdraw_restores(l: Ledger, bump: u8, n: u64)
    requires
        !l.shared_token_account,
        apply_plan(l, deposit_plan(bump, n)) is Some,
    ensures
        apply_plan(apply_plan(l, deposit_plan(bump, n))->0, withdraw_plan(n)) matches Some(m)
            ==> {
            &&& m.user_lamports == l.user_lamports
            &&& m.pool_lamports == l.pool_lamports
            &&& m.user_tokens == l.user_tokens
            &&& m.pool_tokens == l.pool_tokens + n
            &&& m.supply == l.supply + n
        },
        apply_plan(l, deposit_plan(bump, n))->0.pool_tokens + n <= u64::MAX ==> apply_plan(
            apply_plan(l, deposit_plan(bump, n))->0,
            withdraw_plan(n),
        ) is Some,
        l.user_tokens + l.pool_tokens <= l.supply ==> apply_plan(
            apply_plan(l, deposit_plan(bump, n))->0,
            withdraw_plan(n),
        ) is Some,
{
    lemma_deposit_steps(l, bump, n);
    let m = apply_plan(l, deposit_plan(bump, n))->0;
    lemma_withdraw_steps(m, n);
}

/// The balances the instructions `ixs` leave if they all complete, in
/// order, on a pool whose account holds `pool`, or `None` where a shortage
/// or an overflow makes one of them fail.
pub open spec fn apply_instructions(l: Ledger, pool: DepositPool, ixs: Seq<PoolInstruction>) -> Option<Ledger>
    decreases ixs.len(),
{
    if ixs.len() == 0 {
        Some(l)
    } else {
        match apply_plan(l, steps_of(pool, ixs[0])) {
            Some(next) => apply_instructions(next, pool_after(pool, ixs[0]), ixs.drop_first()),
            None => None,
        }
    }
}

/// Over any run of deposits and withdrawals that completes, the pool's
/// tokens stay backed and the user and the pool together hold the lamports
/// they started with.
pub proof fn instruction_runs_keep_backing(l: Ledger, reserve: int, pool: DepositPool, ixs: Seq<PoolInstruction>)
    requires
        backed(l, reserve),
    ensures
        apply_instructions(l, pool, ixs) matches Some(m) ==> {
            &&& backed(m, reserve)
            &&& m.user_lamports + m.pool_lamports == l.user_lamports + l.pool_lamports
        },
    decreases ixs.len(),
{
    if ixs.len() > 0 {
        let ix = ixs[0];
        match ix {
            PoolInstruction::Deposit { n } => {
                instructions_keep_backing(l, reserve, pool.bump, n);
                lamports_are_conserved(l, pool.bump, n);
            },
            PoolInstruction::Withdraw { n } => {
                instructions_keep_backing(l, reserve, pool.bump, n);
                lamports_are_conserved(l, pool.bump, n);
            },
        }
        if let Some(next) = apply_plan(l, steps_of(pool, ix)) {
            instruction_runs_keep_backing(next, reserve, pool_after(pool, ix), ixs.drop_first());
        }
    }
}

} // verus!
