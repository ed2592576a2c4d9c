//! Per-stage allocation records: one [`UserInfo`] per wallet, with lookup,
//! accumulate-or-insert, and the pending-amount computation for one record.

use crate::schedule::{calc_unlocked, pending_at, VestingParameter};
use vstd::prelude::*;

verus! {

/// One wallet's allocation within one stage of a project.
///
/// Under normal operation `released_amount <= total_amount` and
/// `released_amount` only grows: a claim raises it by exactly the pending
/// amount, which the unlock formula keeps below the allocation. A destructive
/// bulk overwrite of a stage's records can break that relation; the
/// pending-amount computation then reads the record as having nothing left to
/// release.
#[derive(Debug)]
pub struct UserInfo {
    /// The wallet the allocation belongs to.
    pub wallet_address: String,
    /// The allocation, in whole tokens.
    pub total_amount: u64,
    /// How much of the allocation has been released so far, in whole tokens.
    pub released_amount: u64,
}

/// Index of the first record that belongs to wallet `w`, or `-1` when no
/// record does.
pub open spec fn user_index(s: Seq<UserInfo>, w: Seq<char>) -> int
    decreases s.len(),
{
    if s.len() == 0 {
        -1
    } else if s[0].wallet_address@ == w {
        0
    } else {
        let tail = user_index(s.subrange(1, s.len() as int), w);
        if tail == -1 {
            -1
        } else {
            tail + 1
        }
    }
}

/// What [`user_index`] returns: `-1` exactly when the wallet is absent, and
/// otherwise the first index that carries it.
pub proof fn lemma_user_index(s: Seq<UserInfo>, w: Seq<char>)
    ensures
        user_index(s, w) == -1 <==> (forall|k: int| 0 <= k < s.len() ==> s[k].wallet_address@ != w),
        user_index(s, w) != -1 ==> 0 <= user_index(s, w) < s.len(),
        user_index(s, w) != -1 ==> s[user_index(s, w)].wallet_address@ == w,
        user_index(s, w) != -1 ==> (forall|k: int|
            0 <= k < user_index(s, w) ==> s[k].wallet_address@ != w),
    decreases s.len(),
{
    if s.len() != 0 && s[0].wallet_address@ != w {
        let tail = s.subrange(1, s.len() as int);
        lemma_user_index(tail, w);
        let r = user_index(s, w);
        if user_index(tail, w) == -1 {
            assert forall|k: int| 0 <= k < s.len() implies s[k].wallet_address@ != w by {
                if k > 0 {
                    assert(tail[k - 1] == s[k]);
                }
            }
        } else {
            assert(s[r] == tail[r - 1]);
            assert forall|k: int| 0 <= k < r implies s[k].wallet_address@ != w by {
                if k > 0 {
                    assert(tail[k - 1] == s[k]);
                }
            }
        }
    }
}

/// Two record lists whose wallets agree slot for slot agree on every lookup.
pub proof fn lemma_user_index_same_wallets(s1: Seq<UserInfo>, s2: Seq<UserInfo>, w: Seq<char>)
    requires
        s1.len() == s2.len(),
        forall|k: int| 0 <= k < s1.len() ==> s1[k].wallet_address@ == s2[k].wallet_address@,
    ensures
        user_index(s1, w) == user_index(s2, w),
    decreases s1.len(),
{
    if s1.len() != 0 {
        let t1 = s1.subrange(1, s1.len() as int);
        let t2 = s2.subrange(1, s2.len() as int);
        assert forall|k: int| 0 <= k < t1.len() implies t1[k].wallet_address@
            == t2[k].wallet_address@ by {
            assert(t1[k] == s1[k + 1]);
            assert(t2[k] == s2[k + 1]);
        }
        lemma_user_index_same_wallets(t1, t2, w);
    }
}

/// Lookup by wallet: the index of the wallet's record, or nothing when the
/// wallet has no allocation in this stage (which is not an error).
pub fn find(users: &Vec<UserInfo>, wallet: &String) -> (r: Option<usize>)
    ensures
        match r {
            Some(i) => {
                &&& user_index(users@, wallet@) == i
                &&& i < users@.len()
                &&& users@[i as int].wallet_address@ == wallet@
            },
            None => user_index(users@, wallet@) == -1,
        },
{
    proof {
        lemma_user_index(users@, wallet@);
    }
    let n = users.len();
    let mut i: usize = 0;
    while i < n
        invariant
            n == users@.len(),
            0 <= i <= n,
            forall|k: int| 0 <= k < i ==> users@[k].wallet_address@ != wallet@,
            user_index(users@, wallet@) == -1 <==> (forall|k: int|
                0 <= k < n ==> users@[k].wallet_address@ != wallet@),
            user_index(users@, wallet@) != -1 ==> 0 <= user_index(users@, wallet@) < n,
            user_index(users@, wallet@) != -1 ==> users@[user_index(
                users@,
                wallet@,
            )].wallet_address@ == wallet@,
            user_index(users@, wallet@) != -1 ==> (forall|k: int|
                0 <= k < user_index(users@, wallet@) ==> users@[k].wallet_address@ != wallet@),
        decreases n - i,
    {
        if users[i].wallet_address == *wallet {
            return Some(i);
        }
        i += 1;
    }
    None
}

/// Whether accumulating `amount` onto wallet `w`'s record stays within `u64`.
/// Trivially true when the wallet is not recorded yet.
pub open spec fn upsert_fits(s: Seq<UserInfo>, w: Seq<char>, amount: u64) -> bool {
    user_index(s, w) != -1 ==> s[user_index(s, w)].total_amount + amount <= u64::MAX
}

/// The records after accumulating `amount` onto `wallet`: the wallet's first
/// record grows by `amount`, or a fresh record with nothing released is
/// appended when the wallet had none.
pub open spec fn upserted(s: Seq<UserInfo>, wallet: String, amount: u64) -> Seq<UserInfo> {
    let i = user_index(s, wallet@);
    if i == -1 {
        s.push(UserInfo { wallet_address: wallet, total_amount: amount, released_amount: 0 })
    } else {
        s.update(
            i,
            (UserInfo { total_amount: (s[i].total_amount + amount) as u64, ..s[i] }),
        )
    }
}

/// Executable check that [`upsert_fits`] holds, for a host that must refuse
/// an accumulation before attempting it.
pub fn check_upsert_fits(users: &Vec<UserInfo>, wallet: &String, amount: u64) -> (r: bool)
    ensures
        r == upsert_fits(users@, wallet@, amount),
{
    match find(users, wallet) {
        None => true,
        Some(i) => amount <= u64::MAX - users[i].total_amount,
    }
}

/// Accumulate-or-insert: grow the wallet's allocation by `amount`, creating
/// the record if the wallet has none. Repeated calls accumulate.
pub fn check_add_userinfo(users: &mut Vec<UserInfo>, wallet: String, amount: u64)
    requires
        upsert_fits(old(users)@, wallet@, amount),
    ensures
        final(users)@ == upserted(old(users)@, wallet, amount),
{
    match find(users, &wallet) {
        None => {
            users.push(UserInfo { wallet_address: wallet, total_amount: amount, released_amount: 0 });
        },
        Some(i) => {
            let record = &mut users[i];
            record.total_amount = record.total_amount + amount;
            assert(final(users)@ =~= upserted(old(users)@, wallet, amount));
        },
    }
}

/// Pending amount of one record: unlocked-to-date under the stage's schedule
/// minus what the record says is already released, and zero when the record
/// claims more than is unlocked.
pub fn calc_pending(user: &UserInfo, param: &VestingParameter, start_time: u64, now: u64) -> (r:
    u64)
    requires
        param.wf(),
    ensures
        r == pending_at(user.total_amount, user.released_amount, *param, start_time, now),
{
    let unlocked = calc_unlocked(user.total_amount, param, start_time, now);
    if unlocked >= user.released_amount {
        unlocked - user.released_amount
    } else {
        0
    }
}

} // verus!
