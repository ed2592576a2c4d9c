//! The claim processor: sum the pending amounts of one wallet across all
//! three stages of a project, record them as released, and describe the
//! transfer the external token ledger should carry out.
//!
//! The external facts a claim depends on — the token's decimal count and the
//! balance this ledger holds on the token — are supplied by the host, which
//! queries the token ledger before calling in. All checks precede all writes,
//! so a refused claim leaves every record exactly as it was.

use crate::error::VestingError;
use crate::ledger::{
    calc_pending, find, lemma_user_index, lemma_user_index_same_wallets, user_index, UserInfo,
};
use crate::project::{ProjectInfo, Stage};
use crate::schedule::{
    lemma_released_plus_pending_fits, lemma_unlocked_at_in_range, pending_at, VestingParameter,
};
use crate::store::{
    find_project, lemma_project_index, lemma_project_index_same_ids, project_index,
    projects_unchanged_except, VestingState,
};
use vstd::arithmetic::mul::lemma_mul_increases;
use vstd::prelude::*;

verus! {

/// One outbound transfer instruction: ask the external token ledger to move
/// `amount` of the token's smallest unit to `recipient`. The library only
/// requests the move; the host carries it out.
#[derive(Debug, PartialEq, Eq)]
pub struct TransferMsg {
    /// Handle of the external token to move.
    pub token_addr: String,
    /// The wallet to pay.
    pub recipient: String,
    /// How much to move, in the token's smallest unit.
    pub amount: u128,
}

/// Ten to the `e`th, for converting whole tokens to a token's smallest unit.
pub open spec fn pow10(e: nat) -> nat
    decreases e,
{
    if e == 0 {
        1
    } else {
        10 * pow10((e - 1) as nat)
    }
}

/// Powers of ten are at least one.
pub proof fn lemma_pow10_positive(e: nat)
    ensures
        pow10(e) >= 1,
    decreases e,
{
    if e > 0 {
        lemma_pow10_positive((e - 1) as nat);
    }
}

/// Powers of ten grow with the exponent.
pub proof fn lemma_pow10_monotonic(a: nat, b: nat)
    requires
        a <= b,
    ensures
        pow10(a) <= pow10(b),
    decreases b,
{
    lemma_pow10_positive(a);
    if a < b {
        lemma_pow10_monotonic(a, (b - 1) as nat);
        lemma_pow10_positive((b - 1) as nat);
    }
}

/// Ten to the `e`th as a `u128`, or nothing where that overflows.
pub fn pow10_checked(e: u32) -> (r: Option<u128>)
    ensures
        match r {
            Some(v) => v == pow10(e as nat),
            None => pow10(e as nat) > u128::MAX,
        },
{
    let mut acc: u128 = 1;
    let mut i: u32 = 0;
    while i < e
        invariant
            0 <= i <= e,
            acc == pow10(i as nat),
        decreases e - i,
    {
        if acc > u128::MAX / 10 {
            proof {
                lemma_pow10_monotonic((i + 1) as nat, e as nat);
            }
            return None;
        }
        acc = acc * 10;
        i += 1;
    }
    Some(acc)
}

/// The pending amount one stage contributes to a claim by wallet `w` at time
/// `now`: zero when the wallet has no record there.
pub open spec fn stage_claim_amount(p: ProjectInfo, stage: Stage, w: Seq<char>, now: u64) -> int {
    let s = p.spec_stage_users(stage);
    let i = user_index(s, w);
    if i == -1 {
        0
    } else {
        pending_at(
            s[i].total_amount,
            s[i].released_amount,
            p.spec_stage_param(stage),
            p.config.start_time,
            now,
        )
    }
}

/// What a claim by wallet `w` at time `now` pays out over all three stages,
/// in whole tokens.
pub open spec fn claim_total(p: ProjectInfo, w: Seq<char>, now: u64) -> int {
    stage_claim_amount(p, Stage::Seed, w, now) + stage_claim_amount(p, Stage::Presale, w, now)
        + stage_claim_amount(p, Stage::Ido, w, now)
}

/// One stage's records after a claim: the claiming wallet's record, if any,
/// has its released amount raised by exactly its pending amount.
pub open spec fn claimed_users(
    s: Seq<UserInfo>,
    w: Seq<char>,
    param: VestingParameter,
    start_time: u64,
    now: u64,
) -> Seq<UserInfo> {
    let i = user_index(s, w);
    if i == -1 {
        s
    } else {
        s.update(
            i,
            (UserInfo {
                released_amount: (s[i].released_amount + pending_at(
                    s[i].total_amount,
                    s[i].released_amount,
                    param,
                    start_time,
                    now,
                )) as u64,
                ..s[i]
            }),
        )
    }
}

/// `post` is `pre` after wallet `w`'s claim at `now` was committed: every
/// stage's records are [`claimed_users`] of the old ones, and the
/// configuration and schedules are untouched.
pub open spec fn claim_committed(pre: ProjectInfo, post: ProjectInfo, w: Seq<char>, now: u64) -> bool {
    &&& post.project_id == pre.project_id
    &&& post.config == pre.config
    &&& post.seed_param == pre.seed_param
    &&& post.presale_param == pre.presale_param
    &&& post.ido_param == pre.ido_param
    &&& post.seed_users@ == claimed_users(
        pre.seed_users@,
        w,
        pre.seed_param,
        pre.config.start_time,
        now,
    )
    &&& post.presale_users@ == claimed_users(
        pre.presale_users@,
        w,
        pre.presale_param,
        pre.config.start_time,
        now,
    )
    &&& post.ido_users@ == claimed_users(
        pre.ido_users@,
        w,
        pre.ido_param,
        pre.config.start_time,
        now,
    )
}

/// What a claim does, given the token's decimal count and the balance the
/// host found on the token ledger. The claim is one atomic unit of work:
/// every check precedes every write, so each refusal leaves the store
/// untouched — in particular an insufficient balance rolls nothing forward.
pub open spec fn claim_post(
    pre: VestingState,
    post: VestingState,
    sender: String,
    project_id: u64,
    now: u64,
    decimals: u32,
    balance: u128,
    r: Result<TransferMsg, VestingError>,
) -> bool {
    let j = project_index(pre.projects@, project_id);
    if j == -1 {
        r == Err::<TransferMsg, VestingError>(VestingError::NotFound) && post == pre
    } else {
        let p = pre.projects@[j];
        let total = claim_total(p, sender@, now);
        let converted = total * pow10(decimals as nat);
        if total == 0 {
            r == Err::<TransferMsg, VestingError>(VestingError::NoPendingTokens) && post == pre
        } else if converted > u128::MAX {
            r == Err::<TransferMsg, VestingError>(VestingError::InvalidParameter) && post == pre
        } else if (balance as int) < converted {
            r == Err::<TransferMsg, VestingError>(VestingError::InsufficientBalance) && post == pre
        } else {
            &&& r == Ok::<TransferMsg, VestingError>(
                TransferMsg {
                    token_addr: p.config.token_addr,
                    recipient: sender,
                    amount: converted as u128,
                },
            )
            &&& post.owner == pre.owner
            &&& projects_unchanged_except(pre.projects@, post.projects@, j)
            &&& claim_committed(p, post.projects@[j], sender@, now)
        }
    }
}

/// Claim every pending token of `sender` in one project: record the per-stage
/// pending amounts as released and return the transfer the host should carry
/// out, converted to the token's smallest unit.
pub fn try_claimpendingtokens(
    state: &mut VestingState,
    sender: String,
    project_id: u64,
    now: u64,
    decimals: u32,
    balance: u128,
) -> (r: Result<TransferMsg, VestingError>)
    requires
        old(state).wf(),
    ensures
        claim_post(*old(state), *final(state), sender, project_id, now, decimals, balance, r),
        final(state).wf(),
{
    let j = match find_project(&state.projects, project_id) {
        None => {
            return Err(VestingError::NotFound);
        },
        Some(j) => j,
    };
    proof {
        assert(state.projects@[j as int].params_wf());
    }
    let start_time = state.projects[j].config.start_time;

    let seed_idx: Option<usize>;
    let seed_amt: u64;
    match find(&state.projects[j].seed_users, &sender) {
        None => {
            seed_idx = None;
            seed_amt = 0;
        },
        Some(i) => {
            seed_idx = Some(i);
            seed_amt = calc_pending(
                &state.projects[j].seed_users[i],
                &state.projects[j].seed_param,
                start_time,
                now,
            );
        },
    }

    let presale_idx: Option<usize>;
    let presale_amt: u64;
    match find(&state.projects[j].presale_users, &sender) {
        None => {
            presale_idx = None;
            presale_amt = 0;
        },
        Some(i) => {
            presale_idx = Some(i);
            presale_amt = calc_pending(
                &state.projects[j].presale_users[i],
                &state.projects[j].presale_param,
                start_time,
                now,
            );
        },
    }

    let ido_idx: Option<usize>;
    let ido_amt: u64;
    match find(&state.projects[j].ido_users, &sender) {
        None => {
            ido_idx = None;
            ido_amt = 0;
        },
        Some(i) => {
            ido_idx = Some(i);
            ido_amt = calc_pending(
                &state.projects[j].ido_users[i],
                &state.projects[j].ido_param,
                start_time,
                now,
            );
        },
    }

    let total: u128 = seed_amt as u128 + presale_amt as u128 + ido_amt as u128;
    assert(total == claim_total(state.projects@[j as int], sender@, now));
    if total == 0 {
        return Err(VestingError::NoPendingTokens);
    }

    let factor = match pow10_checked(decimals) {
        None => {
            proof {
                lemma_mul_increases(total as int, pow10(decimals as nat) as int);
            }
            return Err(VestingError::InvalidParameter);
        },
        Some(v) => v,
    };
    let converted = match total.checked_mul(factor) {
        None => {
            return Err(VestingError::InvalidParameter);
        },
        Some(c) => c,
    };
    if balance < converted {
        return Err(VestingError::InsufficientBalance);
    }

    let token_addr = state.projects[j].config.token_addr.clone();
    let p = &mut state.projects[j];
    match seed_idx {
        Some(i) => {
            proof {
                lemma_released_plus_pending_fits(
                    old(state).projects@[j as int].seed_users@[i as int].total_amount,
                    old(state).projects@[j as int].seed_users@[i as int].released_amount,
                    old(state).projects@[j as int].seed_param,
                    start_time,
                    now,
                );
            }
            let record = &mut p.seed_users[i];
            record.released_amount = record.released_amount + seed_amt;
        },
        None => {},
    }
    match presale_idx {
        Some(i) => {
            proof {
                lemma_released_plus_pending_fits(
                    old(state).projects@[j as int].presale_users@[i as int].total_amount,
                    old(state).projects@[j as int].presale_users@[i as int].released_amount,
                    old(state).projects@[j as int].presale_param,
                    start_time,
                    now,
                );
            }
            let record = &mut p.presale_users[i];
            record.released_amount = record.released_amount + presale_amt;
        },
        None => {},
    }
    match ido_idx {
        Some(i) => {
            proof {
                lemma_released_plus_pending_fits(
                    old(state).projects@[j as int].ido_users@[i as int].total_amount,
                    old(state).projects@[j as int].ido_users@[i as int].released_amount,
                    old(state).projects@[j as int].ido_param,
                    start_time,
                    now,
                );
            }
            let record = &mut p.ido_users[i];
            record.released_amount = record.released_amount + ido_amt;
        },
        None => {},
    }
    proof {
        assert(final(state).projects@[j as int].seed_users@ =~= claimed_users(
            old(state).projects@[j as int].seed_users@,
            sender@,
            old(state).projects@[j as int].seed_param,
            start_time,
            now,
        ));
        assert(final(state).projects@[j as int].presale_users@ =~= claimed_users(
            old(state).projects@[j as int].presale_users@,
            sender@,
            old(state).projects@[j as int].presale_param,
            start_time,
            now,
        ));
        assert(final(state).projects@[j as int].ido_users@ =~= claimed_users(
            old(state).projects@[j as int].ido_users@,
            sender@,
            old(state).projects@[j as int].ido_param,
            start_time,
            now,
        ));
    }
    Ok(TransferMsg { token_addr, recipient: sender, amount: converted })
}

/// After a claim, the claiming wallet's record in one stage has nothing
/// pending left at the same time: its released amount came to exactly the
/// unlocked total, or already exceeded it.
proof fn lemma_claimed_users_nothing_pending(
    s: Seq<UserInfo>,
    w: Seq<char>,
    param: VestingParameter,
    start_time: u64,
    now: u64,
)
    requires
        param.wf(),
    ensures
        user_index(claimed_users(s, w, param, start_time, now), w) == user_index(s, w),
        user_index(s, w) != -1 ==> {
            let c = claimed_users(s, w, param, start_time, now);
            let i = user_index(s, w);
            pending_at(c[i].total_amount, c[i].released_amount, param, start_time, now) == 0
        },
{
    let i = user_index(s, w);
    lemma_user_index(s, w);
    if i != -1 {
        let c = claimed_users(s, w, param, start_time, now);
        assert forall|k: int| 0 <= k < s.len() implies s[k].wallet_address@
            == c[k].wallet_address@ by {}
        lemma_user_index_same_wallets(s, c, w);
        lemma_unlocked_at_in_range(s[i].total_amount, param, start_time, now);
        lemma_released_plus_pending_fits(
            s[i].total_amount,
            s[i].released_amount,
            param,
            start_time,
            now,
        );
    }
}

/// A claim only ever raises a record's released amount, and keeps it within
/// the allocation whenever it was within it before.
pub proof fn lemma_claim_raises_released_within_total(
    s: Seq<UserInfo>,
    w: Seq<char>,
    param: VestingParameter,
    start_time: u64,
    now: u64,
)
    requires
        param.wf(),
    ensures
        ({
            let c = claimed_users(s, w, param, start_time, now);
            &&& c.len() == s.len()
            &&& forall|k: int|
                0 <= k < s.len() ==> c[k].released_amount >= s[k].released_amount
                    && c[k].total_amount == s[k].total_amount
            &&& forall|k: int|
                0 <= k < s.len() && s[k].released_amount <= s[k].total_amount
                    ==> c[k].released_amount <= c[k].total_amount
        }),
{
    let i = user_index(s, w);
    lemma_user_index(s, w);
    if i != -1 {
        lemma_unlocked_at_in_range(s[i].total_amount, param, start_time, now);
        lemma_released_plus_pending_fits(
            s[i].total_amount,
            s[i].released_amount,
            param,
            start_time,
            now,
        );
    }
}

/// The law behind a claim's idempotence: once a claim is committed, an
/// immediate second claim by the same wallet against the same project at the
/// same time finds nothing pending in any stage.
pub proof fn lemma_second_claim_finds_nothing(
    pre: ProjectInfo,
    post: ProjectInfo,
    w: Seq<char>,
    now: u64,
)
    requires
        pre.params_wf(),
        claim_committed(pre, post, w, now),
    ensures
        claim_total(post, w, now) == 0,
{
    lemma_claimed_users_nothing_pending(pre.seed_users@, w, pre.seed_param, pre.config.start_time, now);
    lemma_claimed_users_nothing_pending(
        pre.presale_users@,
        w,
        pre.presale_param,
        pre.config.start_time,
        now,
    );
    lemma_claimed_users_nothing_pending(
        pre.ido_users@,
        w,
        pre.ido_param,
        pre.config.start_time,
        now,
    );
}

/// A successful claim cannot be repeated: whatever decimal count and balance
/// the host supplies the second time, an immediate second claim by the same
/// wallet at the same time is refused with `NoPendingTokens` and changes
/// nothing.
pub proof fn lemma_reclaim_rejected(
    pre: VestingState,
    mid: VestingState,
    post: VestingState,
    sender: String,
    project_id: u64,
    now: u64,
    decimals1: u32,
    balance1: u128,
    decimals2: u32,
    balance2: u128,
    m: TransferMsg,
    r2: Result<TransferMsg, VestingError>,
)
    requires
        pre.wf(),
        claim_post(pre, mid, sender, project_id, now, decimals1, balance1, Ok(m)),
        claim_post(mid, post, sender, project_id, now, decimals2, balance2, r2),
    ensures
        r2 == Err::<TransferMsg, VestingError>(VestingError::NoPendingTokens),
        post == mid,
{
    let j = project_index(pre.projects@, project_id);
    lemma_project_index(pre.projects@, project_id);
    assert forall|k: int| 0 <= k < pre.projects@.len() implies pre.projects@[k].project_id
        == mid.projects@[k].project_id by {}
    lemma_project_index_same_ids(pre.projects@, mid.projects@, project_id);
    assert(pre.projects@[j].params_wf());
    lemma_second_claim_finds_nothing(pre.projects@[j], mid.projects@[j], sender@, now);
}

/// The total a claim by `wallet` against one project would pay out at `now`,
/// in whole tokens, without committing anything — the dry-run query.
pub fn query_pendingtokens(
    state: &VestingState,
    wallet: &String,
    project_id: u64,
    now: u64,
) -> (r: Result<u128, VestingError>)
    requires
        state.wf(),
    ensures
        match r {
            Ok(total) => {
                &&& project_index(state.projects@, project_id) != -1
                &&& total == claim_total(
                    state.projects@[project_index(state.projects@, project_id)],
                    wallet@,
                    now,
                )
            },
            Err(e) => {
                &&& e == VestingError::NotFound
                &&& project_index(state.projects@, project_id) == -1
            },
        },
{
    let j = match find_project(&state.projects, project_id) {
        None => {
            return Err(VestingError::NotFound);
        },
        Some(j) => j,
    };
    proof {
        assert(state.projects@[j as int].params_wf());
    }
    let p = &state.projects[j];
    let start_time = p.config.start_time;
    let seed_amt: u64 = match find(&p.seed_users, wallet) {
        None => 0,
        Some(i) => calc_pending(&p.seed_users[i], &p.seed_param, start_time, now),
    };
    let presale_amt: u64 = match find(&p.presale_users, wallet) {
        None => 0,
        Some(i) => calc_pending(&p.presale_users[i], &p.presale_param, start_time, now),
    };
    let ido_amt: u64 = match find(&p.ido_users, wallet) {
        None => 0,
        Some(i) => calc_pending(&p.ido_users[i], &p.ido_param, start_time, now),
    };
    Ok(seed_amt as u128 + presale_amt as u128 + ido_amt as u128)
}

} // verus!
