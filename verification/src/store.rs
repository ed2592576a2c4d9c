//! The store: one global owner identity and one table of projects, keyed by
//! `project_id`, plus every administrative operation on it.
//!
//! Every operation follows the same discipline: find the project, check the
//! caller's authority, and only then write. A refused operation leaves the
//! store exactly as it found it.

use crate::error::VestingError;
use crate::ledger::{check_add_userinfo, upsert_fits, upserted, UserInfo};
use crate::project::{
    default_ido_param, default_presale_param, default_seed_param, spec_default_ido_param,
    spec_default_presale_param, spec_default_seed_param, stage_users_replaced, Config, ProjectInfo,
    Stage,
};
use crate::schedule::VestingParameter;
use vstd::prelude::*;

verus! {

/// The whole persisted state: the global owner and every project.
///
/// The host adapter loads it at the start of an operation and stores it back
/// afterwards; within one operation the library mutates it in memory.
#[derive(Debug)]
pub struct VestingState {
    /// The process-wide owner, with authority over every project.
    pub owner: String,
    /// Every project ever created; projects are never deleted.
    pub projects: Vec<ProjectInfo>,
}

impl VestingState {
    /// Every stored schedule is usable. Operations that store schedules check
    /// them first, so each operation both assumes and preserves this.
    pub open spec fn wf(self) -> bool {
        forall|k: int| 0 <= k < self.projects@.len() ==> self.projects@[k].params_wf()
    }

    /// Executable form of [`Self::wf`], for a host that received a state from
    /// elsewhere and must refuse an unusable one.
    pub fn check_wf(&self) -> (r: bool)
        ensures
            r == self.wf(),
    {
        let n = self.projects.len();
        let mut k: usize = 0;
        while k < n
            invariant
                n == self.projects@.len(),
                0 <= k <= n,
                forall|i: int| 0 <= i < k ==> self.projects@[i].params_wf(),
            decreases n - k,
        {
            let p = &self.projects[k];
            if !(p.seed_param.soon_pct <= 100 && 1 <= p.seed_param.linear_duration
                && p.presale_param.soon_pct <= 100 && 1 <= p.presale_param.linear_duration
                && p.ido_param.soon_pct <= 100 && 1 <= p.ido_param.linear_duration) {
                return false;
            }
            k += 1;
        }
        true
    }
}

/// Index of the first project with key `project_id`, or `-1` when none has it.
pub open spec fn project_index(s: Seq<ProjectInfo>, project_id: u64) -> int
    decreases s.len(),
{
    if s.len() == 0 {
        -1
    } else if s[0].project_id == project_id {
        0
    } else {
        let tail = project_index(s.subrange(1, s.len() as int), project_id);
        if tail == -1 {
            -1
        } else {
            tail + 1
        }
    }
}

/// What [`project_index`] returns: `-1` exactly when the key is absent, and
/// otherwise the first index that carries it.
pub proof fn lemma_project_index(s: Seq<ProjectInfo>, project_id: u64)
    ensures
        project_index(s, project_id) == -1 <==> (forall|k: int|
            0 <= k < s.len() ==> s[k].project_id != project_id),
        project_index(s, project_id) != -1 ==> 0 <= project_index(s, project_id) < s.len(),
        project_index(s, project_id) != -1 ==> s[project_index(s, project_id)].project_id
            == project_id,
        project_index(s, project_id) != -1 ==> (forall|k: int|
            0 <= k < project_index(s, project_id) ==> s[k].project_id != project_id),
    decreases s.len(),
{
    if s.len() != 0 && s[0].project_id != project_id {
        let tail = s.subrange(1, s.len() as int);
        lemma_project_index(tail, project_id);
        let r = project_index(s, project_id);
        if project_index(tail, project_id) == -1 {
            assert forall|k: int| 0 <= k < s.len() implies s[k].project_id != project_id by {
                if k > 0 {
                    assert(tail[k - 1] == s[k]);
                }
            }
        } else {
            assert(s[r] == tail[r - 1]);
            assert forall|k: int| 0 <= k < r implies s[k].project_id != project_id by {
                if k > 0 {
                    assert(tail[k - 1] == s[k]);
                }
            }
        }
    }
}

/// Two tables whose projects carry the same keys slot for slot agree on
/// every lookup.
pub proof fn lemma_project_index_same_ids(s1: Seq<ProjectInfo>, s2: Seq<ProjectInfo>, project_id: u64)
    requires
        s1.len() == s2.len(),
        forall|k: int| 0 <= k < s1.len() ==> s1[k].project_id == s2[k].project_id,
    ensures
        project_index(s1, project_id) == project_index(s2, project_id),
    decreases s1.len(),
{
    if s1.len() != 0 {
        let t1 = s1.subrange(1, s1.len() as int);
        let t2 = s2.subrange(1, s2.len() as int);
        assert forall|k: int| 0 <= k < t1.len() implies t1[k].project_id == t2[k].project_id by {
            assert(t1[k] == s1[k + 1]);
            assert(t2[k] == s2[k + 1]);
        }
        lemma_project_index_same_ids(t1, t2, project_id);
    }
}

/// Lookup by key: the index of the project, or nothing when the key is
/// unknown.
pub fn find_project(projects: &Vec<ProjectInfo>, project_id: u64) -> (r: Option<usize>)
    ensures
        match r {
            Some(j) => {
                &&& project_index(projects@, project_id) == j
                &&& j < projects@.len()
                &&& projects@[j as int].project_id == project_id
            },
            None => project_index(projects@, project_id) == -1,
        },
{
    proof {
        lemma_project_index(projects@, project_id);
    }
    let n = projects.len();
    let mut k: usize = 0;
    while k < n
        invariant
            n == projects@.len(),
            0 <= k <= n,
            forall|i: int| 0 <= i < k ==> projects@[i].project_id != project_id,
            project_index(projects@, project_id) == -1 <==> (forall|i: int|
                0 <= i < n ==> projects@[i].project_id != project_id),
            project_index(projects@, project_id) != -1 ==> 0 <= project_index(projects@, project_id) < n,
            project_index(projects@, project_id) != -1 ==> projects@[project_index(
                projects@,
                project_id,
            )].project_id == project_id,
            project_index(projects@, project_id) != -1 ==> (forall|i: int|
                0 <= i < project_index(projects@, project_id) ==> projects@[i].project_id
                    != project_id),
        decreases n - k,
    {
        if projects[k].project_id == project_id {
            return Some(k);
        }
        k += 1;
    }
    None
}

/// An action against the project at index `j` is permitted to the global
/// owner and to that project's own owner, and to nobody else.
pub open spec fn authorized(state: VestingState, j: int, sender: Seq<char>) -> bool {
    sender == state.owner@ || sender == state.projects@[j].config.owner@
}

/// All projects other than the one at index `j` are carried over unchanged.
pub open spec fn projects_unchanged_except(
    pre: Seq<ProjectInfo>,
    post: Seq<ProjectInfo>,
    j: int,
) -> bool {
    &&& post.len() == pre.len()
    &&& forall|k: int| 0 <= k < pre.len() && k != j ==> post[k] == pre[k]
}

/// A fresh store: the given owner — the supplied administrator where the
/// host validated one, else the caller itself — and no projects.
pub fn instantiate(admin: Option<String>, sender: String) -> (r: VestingState)
    ensures
        r.owner == (match admin {
            Some(a) => a,
            None => sender,
        }),
        r.projects@.len() == 0,
        r.wf(),
{
    let owner = match admin {
        Some(a) => a,
        None => sender,
    };
    VestingState { owner, projects: Vec::new() }
}

/// What changing the global owner does: permitted only to the current global
/// owner; on success only the owner changes.
pub open spec fn setconfig_post(
    pre: VestingState,
    post: VestingState,
    sender: Seq<char>,
    admin: String,
    r: Result<(), VestingError>,
) -> bool {
    if sender == pre.owner@ {
        &&& r == Ok::<(), VestingError>(())
        &&& post.owner == admin
        &&& post.projects == pre.projects
    } else {
        &&& r == Err::<(), VestingError>(VestingError::Unauthorized)
        &&& post == pre
    }
}

/// Hand global ownership to `admin`. Only the current global owner may.
pub fn try_setconfig(state: &mut VestingState, sender: &String, admin: String) -> (r: Result<
    (),
    VestingError,
>)
    ensures
        setconfig_post(*old(state), *final(state), sender@, admin, r),
        old(state).wf() ==> final(state).wf(),
{
    if !(*sender == state.owner) {
        return Err(VestingError::Unauthorized);
    }
    state.owner = admin;
    Ok(())
}

/// The parameter list a project may be created with: empty, to take the
/// documented defaults, or exactly one usable schedule per stage.
pub open spec fn valid_param_list(l: Seq<VestingParameter>) -> bool {
    ||| l.len() == 0
    ||| (l.len() == 3 && l[0].wf() && l[1].wf() && l[2].wf())
}

/// The schedules a project creation stores: the documented defaults for an
/// empty list, else the supplied ones, in stage order.
pub open spec fn chosen_params(l: Seq<VestingParameter>) -> (
    VestingParameter,
    VestingParameter,
    VestingParameter,
) {
    if l.len() == 0 {
        (spec_default_seed_param(), spec_default_presale_param(), spec_default_ido_param())
    } else {
        (l[0], l[1], l[2])
    }
}

/// What creating a project does: permitted only to the global owner, refused
/// for a key already in use or an unusable parameter list; on success one
/// project is appended, configured as supplied, with no allocation records.
pub open spec fn addproject_post(
    pre: VestingState,
    post: VestingState,
    sender: Seq<char>,
    project_id: u64,
    admin: String,
    token_addr: String,
    vesting_params: Seq<VestingParameter>,
    start_time: u64,
    r: Result<(), VestingError>,
) -> bool {
    if sender != pre.owner@ {
        r == Err::<(), VestingError>(VestingError::Unauthorized) && post == pre
    } else if project_index(pre.projects@, project_id) != -1 {
        r == Err::<(), VestingError>(VestingError::DuplicateProject) && post == pre
    } else if !valid_param_list(vesting_params) {
        r == Err::<(), VestingError>(VestingError::InvalidParameter) && post == pre
    } else {
        let params = chosen_params(vesting_params);
        let created = post.projects@.last();
        &&& r == Ok::<(), VestingError>(())
        &&& post.owner == pre.owner
        &&& post.projects@.len() == pre.projects@.len() + 1
        &&& forall|k: int| 0 <= k < pre.projects@.len() ==> post.projects@[k] == pre.projects@[k]
        &&& created.project_id == project_id
        &&& created.config == (Config { owner: admin, token_addr, start_time })
        &&& created.seed_param == params.0
        &&& created.presale_param == params.1
        &&& created.ido_param == params.2
        &&& created.seed_users@.len() == 0
        &&& created.presale_users@.len() == 0
        &&& created.ido_users@.len() == 0
    }
}

/// Create a project under a fresh key. Only the global owner may; an empty
/// parameter list takes the documented default schedules.
pub fn try_addproject(
    state: &mut VestingState,
    sender: &String,
    project_id: u64,
    admin: String,
    token_addr: String,
    vesting_params: Vec<VestingParameter>,
    start_time: u64,
) -> (r: Result<(), VestingError>)
    ensures
        addproject_post(
            *old(state),
            *final(state),
            sender@,
            project_id,
            admin,
            token_addr,
            vesting_params@,
            start_time,
            r,
        ),
        old(state).wf() ==> final(state).wf(),
{
    if !(*sender == state.owner) {
        return Err(VestingError::Unauthorized);
    }
    if find_project(&state.projects, project_id).is_some() {
        return Err(VestingError::DuplicateProject);
    }
    let (seed_param, presale_param, ido_param) = if vesting_params.len() == 0 {
        (default_seed_param(), default_presale_param(), default_ido_param())
    } else if vesting_params.len() == 3 {
        let s = vesting_params[0];
        let p = vesting_params[1];
        let i = vesting_params[2];
        if !(s.soon_pct <= 100 && 1 <= s.linear_duration && p.soon_pct <= 100
            && 1 <= p.linear_duration && i.soon_pct <= 100 && 1 <= i.linear_duration) {
            return Err(VestingError::InvalidParameter);
        }
        (s, p, i)
    } else {
        return Err(VestingError::InvalidParameter);
    };
    let created = ProjectInfo {
        project_id,
        config: Config { owner: admin, token_addr, start_time },
        seed_param,
        presale_param,
        ido_param,
        seed_users: Vec::new(),
        presale_users: Vec::new(),
        ido_users: Vec::new(),
    };
    state.projects.push(created);
    Ok(())
}

/// What starting release does: the project must exist and the caller must be
/// authorized for it; on success only that project's start time changes.
pub open spec fn startrelease_post(
    pre: VestingState,
    post: VestingState,
    sender: Seq<char>,
    project_id: u64,
    start_time: u64,
    r: Result<(), VestingError>,
) -> bool {
    let j = project_index(pre.projects@, project_id);
    if j == -1 {
        r == Err::<(), VestingError>(VestingError::NotFound) && post == pre
    } else if !authorized(pre, j, sender) {
        r == Err::<(), VestingError>(VestingError::Unauthorized) && post == pre
    } else {
        &&& r == Ok::<(), VestingError>(())
        &&& post.owner == pre.owner
        &&& post.projects@ == pre.projects@.update(
            j,
            (ProjectInfo {
                config: Config { start_time, ..pre.projects@[j].config },
                ..pre.projects@[j]
            }),
        )
    }
}

/// Set a project's release start time, activating the unlock formula for all
/// later claims against it.
pub fn try_startrelease(
    state: &mut VestingState,
    sender: &String,
    project_id: u64,
    start_time: u64,
) -> (r: Result<(), VestingError>)
    ensures
        startrelease_post(*old(state), *final(state), sender@, project_id, start_time, r),
        old(state).wf() ==> final(state).wf(),
{
    let j = match find_project(&state.projects, project_id) {
        None => {
            return Err(VestingError::NotFound);
        },
        Some(j) => j,
    };
    if !(*sender == state.owner || *sender == state.projects[j].config.owner) {
        return Err(VestingError::Unauthorized);
    }
    let p = &mut state.projects[j];
    p.config.start_time = start_time;
    proof {
        assert(final(state).projects@ =~= old(state).projects@.update(
            j as int,
            (ProjectInfo {
                config: Config { start_time, ..old(state).projects@[j as int].config },
                ..old(state).projects@[j as int]
            }),
        ));
    }
    Ok(())
}

/// What replacing a project's configuration does: the project must exist and
/// the caller must be authorized for it; on success that project's owner,
/// token handle and start time are the supplied ones and nothing else moves.
pub open spec fn setprojectconfig_post(
    pre: VestingState,
    post: VestingState,
    sender: Seq<char>,
    project_id: u64,
    admin: String,
    token_addr: String,
    start_time: u64,
    r: Result<(), VestingError>,
) -> bool {
    let j = project_index(pre.projects@, project_id);
    if j == -1 {
        r == Err::<(), VestingError>(VestingError::NotFound) && post == pre
    } else if !authorized(pre, j, sender) {
        r == Err::<(), VestingError>(VestingError::Unauthorized) && post == pre
    } else {
        &&& r == Ok::<(), VestingError>(())
        &&& post.owner == pre.owner
        &&& post.projects@ == pre.projects@.update(
            j,
            (ProjectInfo {
                config: Config { owner: admin, token_addr, start_time },
                ..pre.projects@[j]
            }),
        )
    }
}

/// Replace a project's configuration wholesale: its owner, its token handle
/// and its release start.
pub fn try_setprojectconfig(
    state: &mut VestingState,
    sender: &String,
    project_id: u64,
    admin: String,
    token_addr: String,
    start_time: u64,
) -> (r: Result<(), VestingError>)
    ensures
        setprojectconfig_post(
            *old(state),
            *final(state),
            sender@,
            project_id,
            admin,
            token_addr,
            start_time,
            r,
        ),
        old(state).wf() ==> final(state).wf(),
{
    let j = match find_project(&state.projects, project_id) {
        None => {
            return Err(VestingError::NotFound);
        },
        Some(j) => j,
    };
    if !(*sender == state.owner || *sender == state.projects[j].config.owner) {
        return Err(VestingError::Unauthorized);
    }
    let p = &mut state.projects[j];
    p.config = Config { owner: admin, token_addr, start_time };
    proof {
        assert(final(state).projects@ =~= old(state).projects@.update(
            j as int,
            (ProjectInfo {
                config: Config {
                    owner: admin,
                    token_addr,
                    start_time,
                },
                ..old(state).projects@[j as int]
            }),
        ));
    }
    Ok(())
}

/// What replacing a project's schedules does: the project must exist, the
/// caller must be authorized for it, and the list must hold one usable
/// schedule per stage, in stage order; on success exactly those are stored.
pub open spec fn setvestingparameters_post(
    pre: VestingState,
    post: VestingState,
    sender: Seq<char>,
    project_id: u64,
    params: Seq<VestingParameter>,
    r: Result<(), VestingError>,
) -> bool {
    let j = project_index(pre.projects@, project_id);
    if j == -1 {
        r == Err::<(), VestingError>(VestingError::NotFound) && post == pre
    } else if !authorized(pre, j, sender) {
        r == Err::<(), VestingError>(VestingError::Unauthorized) && post == pre
    } else if !(params.len() == 3 && params[0].wf() && params[1].wf() && params[2].wf()) {
        r == Err::<(), VestingError>(VestingError::InvalidParameter) && post == pre
    } else {
        &&& r == Ok::<(), VestingError>(())
        &&& post.owner == pre.owner
        &&& post.projects@ == pre.projects@.update(
            j,
            (ProjectInfo {
                seed_param: params[0],
                presale_param: params[1],
                ido_param: params[2],
                ..pre.projects@[j]
            }),
        )
    }
}

/// Replace a project's three schedules. The list must hold exactly one usable
/// schedule per stage, in stage order.
pub fn try_setvestingparameters(
    state: &mut VestingState,
    sender: &String,
    project_id: u64,
    params: Vec<VestingParameter>,
) -> (r: Result<(), VestingError>)
    ensures
        setvestingparameters_post(*old(state), *final(state), sender@, project_id, params@, r),
        old(state).wf() ==> final(state).wf(),
{
    let j = match find_project(&state.projects, project_id) {
        None => {
            return Err(VestingError::NotFound);
        },
        Some(j) => j,
    };
    if !(*sender == state.owner || *sender == state.projects[j].config.owner) {
        return Err(VestingError::Unauthorized);
    }
    if params.len() != 3 {
        return Err(VestingError::InvalidParameter);
    }
    let seed = params[0];
    let presale = params[1];
    let ido = params[2];
    if !(seed.soon_pct <= 100 && 1 <= seed.linear_duration && presale.soon_pct <= 100
        && 1 <= presale.linear_duration && ido.soon_pct <= 100 && 1 <= ido.linear_duration) {
        return Err(VestingError::InvalidParameter);
    }
    let p = &mut state.projects[j];
    p.seed_param = seed;
    p.presale_param = presale;
    p.ido_param = ido;
    proof {
        assert(final(state).projects@ =~= old(state).projects@.update(
            j as int,
            (ProjectInfo {
                seed_param: seed,
                presale_param: presale,
                ido_param: ido,
                ..old(state).projects@[j as int]
            }),
        ));
    }
    Ok(())
}

/// What replacing a whole project record does: the project must exist, the
/// caller must be authorized for it, and the new record's schedules must be
/// usable; on success the record replaces the one under the key.
pub open spec fn setprojectinfo_post(
    pre: VestingState,
    post: VestingState,
    sender: Seq<char>,
    project_id: u64,
    project_info: ProjectInfo,
    r: Result<(), VestingError>,
) -> bool {
    let j = project_index(pre.projects@, project_id);
    if j == -1 {
        r == Err::<(), VestingError>(VestingError::NotFound) && post == pre
    } else if !authorized(pre, j, sender) {
        r == Err::<(), VestingError>(VestingError::Unauthorized) && post == pre
    } else if !project_info.params_wf() {
        r == Err::<(), VestingError>(VestingError::InvalidParameter) && post == pre
    } else {
        &&& r == Ok::<(), VestingError>(())
        &&& post.owner == pre.owner
        &&& post.projects@ == pre.projects@.update(j, project_info)
    }
}

/// Replace a whole project record — configuration, schedules and every
/// stage's allocation records — under the existing key. Intentionally
/// destructive: the new records are not validated against the old ones.
pub fn try_setprojectinfo(
    state: &mut VestingState,
    sender: &String,
    project_id: u64,
    project_info: ProjectInfo,
) -> (r: Result<(), VestingError>)
    ensures
        setprojectinfo_post(*old(state), *final(state), sender@, project_id, project_info, r),
        old(state).wf() ==> final(state).wf(),
{
    let j = match find_project(&state.projects, project_id) {
        None => {
            return Err(VestingError::NotFound);
        },
        Some(j) => j,
    };
    if !(*sender == state.owner || *sender == state.projects[j].config.owner) {
        return Err(VestingError::Unauthorized);
    }
    if !(project_info.seed_param.soon_pct <= 100 && 1 <= project_info.seed_param.linear_duration
        && project_info.presale_param.soon_pct <= 100
        && 1 <= project_info.presale_param.linear_duration
        && project_info.ido_param.soon_pct <= 100
        && 1 <= project_info.ido_param.linear_duration) {
        return Err(VestingError::InvalidParameter);
    }
    let p = &mut state.projects[j];
    *p = project_info;
    proof {
        assert(final(state).projects@ =~= old(state).projects@.update(j as int, project_info));
    }
    Ok(())
}

/// Whether registering `amount` more for wallet `w` stays within `u64`, on
/// the path that would actually reach the wallet's record. Trivially true
/// when the operation would be refused before writing.
pub open spec fn adduser_fits(
    pre: VestingState,
    sender: Seq<char>,
    project_id: u64,
    stage: Stage,
    w: Seq<char>,
    amount: u64,
) -> bool {
    let j = project_index(pre.projects@, project_id);
    j != -1 && authorized(pre, j, sender) ==> upsert_fits(
        pre.projects@[j].spec_stage_users(stage),
        w,
        amount,
    )
}

/// Executable form of [`adduser_fits`], for a host that must refuse an
/// allocation before attempting it.
pub fn check_adduser_fits(
    state: &VestingState,
    sender: &String,
    project_id: u64,
    stage: Stage,
    wallet: &String,
    amount: u64,
) -> (r: bool)
    ensures
        r == adduser_fits(*state, sender@, project_id, stage, wallet@, amount),
{
    match find_project(&state.projects, project_id) {
        None => true,
        Some(j) => {
            if *sender == state.owner || *sender == state.projects[j].config.owner {
                crate::ledger::check_upsert_fits(state.projects[j].stage_users(stage), wallet, amount)
            } else {
                true
            }
        },
    }
}

/// What registering an allocation does: the project must exist and the caller
/// must be authorized for it; on success the wallet's record in the given
/// stage grows by `amount` — or is created with `amount` and nothing released
/// — and nothing else moves.
pub open spec fn adduser_post(
    pre: VestingState,
    post: VestingState,
    sender: Seq<char>,
    project_id: u64,
    stage: Stage,
    wallet: String,
    amount: u64,
    r: Result<(), VestingError>,
) -> bool {
    let j = project_index(pre.projects@, project_id);
    if j == -1 {
        r == Err::<(), VestingError>(VestingError::NotFound) && post == pre
    } else if !authorized(pre, j, sender) {
        r == Err::<(), VestingError>(VestingError::Unauthorized) && post == pre
    } else {
        &&& r == Ok::<(), VestingError>(())
        &&& post.owner == pre.owner
        &&& projects_unchanged_except(pre.projects@, post.projects@, j)
        &&& stage_users_replaced(
            pre.projects@[j],
            post.projects@[j],
            stage,
            upserted(pre.projects@[j].spec_stage_users(stage), wallet, amount),
        )
    }
}

/// Register `amount` more tokens for `wallet` in one stage of a project,
/// creating the record if the wallet has none. Repeated calls accumulate.
pub fn try_adduser(
    state: &mut VestingState,
    sender: &String,
    project_id: u64,
    wallet: String,
    stage: Stage,
    amount: u64,
) -> (r: Result<(), VestingError>)
    requires
        adduser_fits(*old(state), sender@, project_id, stage, wallet@, amount),
    ensures
        adduser_post(*old(state), *final(state), sender@, project_id, stage, wallet, amount, r),
        old(state).wf() ==> final(state).wf(),
{
    let j = match find_project(&state.projects, project_id) {
        None => {
            return Err(VestingError::NotFound);
        },
        Some(j) => j,
    };
    if !(*sender == state.owner || *sender == state.projects[j].config.owner) {
        return Err(VestingError::Unauthorized);
    }
    let p = &mut state.projects[j];
    match stage {
        Stage::Seed => check_add_userinfo(&mut p.seed_users, wallet, amount),
        Stage::Presale => check_add_userinfo(&mut p.presale_users, wallet, amount),
        Stage::Ido => check_add_userinfo(&mut p.ido_users, wallet, amount),
    }
    Ok(())
}

/// Register a seed-stage allocation; see [`try_adduser`].
pub fn try_addseeduser(
    state: &mut VestingState,
    sender: &String,
    project_id: u64,
    wallet: String,
    amount: u64,
) -> (r: Result<(), VestingError>)
    requires
        adduser_fits(*old(state), sender@, project_id, Stage::Seed, wallet@, amount),
    ensures
        adduser_post(
            *old(state),
            *final(state),
            sender@,
            project_id,
            Stage::Seed,
            wallet,
            amount,
            r,
        ),
        old(state).wf() ==> final(state).wf(),
{
    try_adduser(state, sender, project_id, wallet, Stage::Seed, amount)
}

/// Register a presale-stage allocation; see [`try_adduser`].
pub fn try_addpresaleuser(
    state: &mut VestingState,
    sender: &String,
    project_id: u64,
    wallet: String,
    amount: u64,
) -> (r: Result<(), VestingError>)
    requires
        adduser_fits(*old(state), sender@, project_id, Stage::Presale, wallet@, amount),
    ensures
        adduser_post(
            *old(state),
            *final(state),
            sender@,
            project_id,
            Stage::Presale,
            wallet,
            amount,
            r,
        ),
        old(state).wf() ==> final(state).wf(),
{
    try_adduser(state, sender, project_id, wallet, Stage::Presale, amount)
}

/// Register an IDO-stage allocation; see [`try_adduser`].
pub fn try_addidouser(
    state: &mut VestingState,
    sender: &String,
    project_id: u64,
    wallet: String,
    amount: u64,
) -> (r: Result<(), VestingError>)
    requires
        adduser_fits(*old(state), sender@, project_id, Stage::Ido, wallet@, amount),
    ensures
        adduser_post(
            *old(state),
            *final(state),
            sender@,
            project_id,
            Stage::Ido,
            wallet,
            amount,
            r,
        ),
        old(state).wf() ==> final(state).wf(),
{
    try_adduser(state, sender, project_id, wallet, Stage::Ido, amount)
}

/// `p` with one stage's records replaced by the vector `users`.
pub open spec fn with_stage_users(p: ProjectInfo, stage: Stage, users: Vec<UserInfo>) -> ProjectInfo {
    match stage {
        Stage::Seed => ProjectInfo { seed_users: users, ..p },
        Stage::Presale => ProjectInfo { presale_users: users, ..p },
        Stage::Ido => ProjectInfo { ido_users: users, ..p },
    }
}

/// What overwriting a stage's records does: the project must exist and the
/// caller must be authorized for it; on success the supplied records replace
/// that stage's wholesale, unvalidated, and nothing else moves.
pub open spec fn setusers_post(
    pre: VestingState,
    post: VestingState,
    sender: Seq<char>,
    project_id: u64,
    stage: Stage,
    user_infos: Vec<UserInfo>,
    r: Result<(), VestingError>,
) -> bool {
    let j = project_index(pre.projects@, project_id);
    if j == -1 {
        r == Err::<(), VestingError>(VestingError::NotFound) && post == pre
    } else if !authorized(pre, j, sender) {
        r == Err::<(), VestingError>(VestingError::Unauthorized) && post == pre
    } else {
        &&& r == Ok::<(), VestingError>(())
        &&& post.owner == pre.owner
        &&& post.projects@ == pre.projects@.update(
            j,
            with_stage_users(pre.projects@[j], stage, user_infos),
        )
    }
}

/// Overwrite one stage's records wholesale — a bulk administrative
/// correction. Intentionally destructive: the new records are not validated
/// against the old ones.
pub fn set_stage_users(
    state: &mut VestingState,
    sender: &String,
    project_id: u64,
    stage: Stage,
    user_infos: Vec<UserInfo>,
) -> (r: Result<(), VestingError>)
    ensures
        setusers_post(*old(state), *final(state), sender@, project_id, stage, user_infos, r),
        old(state).wf() ==> final(state).wf(),
{
    let j = match find_project(&state.projects, project_id) {
        None => {
            return Err(VestingError::NotFound);
        },
        Some(j) => j,
    };
    if !(*sender == state.owner || *sender == state.projects[j].config.owner) {
        return Err(VestingError::Unauthorized);
    }
    let p = &mut state.projects[j];
    match stage {
        Stage::Seed => {
            p.seed_users = user_infos;
        },
        Stage::Presale => {
            p.presale_users = user_infos;
        },
        Stage::Ido => {
            p.ido_users = user_infos;
        },
    }
    proof {
        assert(final(state).projects@ =~= old(state).projects@.update(
            j as int,
            with_stage_users(old(state).projects@[j as int], stage, user_infos),
        ));
    }
    Ok(())
}

/// Overwrite the seed-stage records; see [`set_stage_users`].
pub fn try_setseedusers(
    state: &mut VestingState,
    sender: &String,
    project_id: u64,
    user_infos: Vec<UserInfo>,
) -> (r: Result<(), VestingError>)
    ensures
        setusers_post(
            *old(state),
            *final(state),
            sender@,
            project_id,
            Stage::Seed,
            user_infos,
            r,
        ),
        old(state).wf() ==> final(state).wf(),
{
    set_stage_users(state, sender, project_id, Stage::Seed, user_infos)
}

/// Overwrite the presale-stage records; see [`set_stage_users`].
pub fn try_setpresaleusers(
    state: &mut VestingState,
    sender: &String,
    project_id: u64,
    user_infos: Vec<UserInfo>,
) -> (r: Result<(), VestingError>)
    ensures
        setusers_post(
            *old(state),
            *final(state),
            sender@,
            project_id,
            Stage::Presale,
            user_infos,
            r,
        ),
        old(state).wf() ==> final(state).wf(),
{
    set_stage_users(state, sender, project_id, Stage::Presale, user_infos)
}

/// Overwrite the IDO-stage records; see [`set_stage_users`].
pub fn try_setidousers(
    state: &mut VestingState,
    sender: &String,
    project_id: u64,
    user_infos: Vec<UserInfo>,
) -> (r: Result<(), VestingError>)
    ensures
        setusers_post(
            *old(state),
            *final(state),
            sender@,
            project_id,
            Stage::Ido,
            user_infos,
            r,
        ),
        old(state).wf() ==> final(state).wf(),
{
    set_stage_users(state, sender, project_id, Stage::Ido, user_infos)
}

/// The project under a key, to answer a host query.
pub fn query_getprojectinfo(state: &VestingState, project_id: u64) -> (r: Result<
    &ProjectInfo,
    VestingError,
>)
    ensures
        match r {
            Ok(p) => {
                &&& project_index(state.projects@, project_id) != -1
                &&& *p == state.projects@[project_index(state.projects@, project_id)]
            },
            Err(e) => {
                &&& e == VestingError::NotFound
                &&& project_index(state.projects@, project_id) == -1
            },
        },
{
    match find_project(&state.projects, project_id) {
        None => Err(VestingError::NotFound),
        Some(j) => Ok(&state.projects[j]),
    }
}

/// A project's configuration, to answer a host query.
pub fn query_getconfig(state: &VestingState, project_id: u64) -> (r: Result<&Config, VestingError>)
    ensures
        match r {
            Ok(c) => {
                &&& project_index(state.projects@, project_id) != -1
                &&& *c == state.projects@[project_index(state.projects@, project_id)].config
            },
            Err(e) => {
                &&& e == VestingError::NotFound
                &&& project_index(state.projects@, project_id) == -1
            },
        },
{
    match find_project(&state.projects, project_id) {
        None => Err(VestingError::NotFound),
        Some(j) => Ok(&state.projects[j].config),
    }
}

/// Every project, to answer a host query.
pub fn query_getallprojectinfo(state: &VestingState) -> (r: &Vec<ProjectInfo>)
    ensures
        r@ == state.projects@,
{
    &state.projects
}

} // verus!
