//! One project: its configuration, one release schedule per stage, and one
//! set of allocation records per stage.

use crate::ledger::UserInfo;
use crate::schedule::VestingParameter;
use vstd::prelude::*;

verus! {

/// The three fundraising rounds. Each has its own schedule and its own
/// allocation records.
#[derive(Clone, Copy, PartialEq, Eq, Structural, Debug)]
pub enum Stage {
    Seed,
    Presale,
    Ido,
}

/// A project's configuration: who administers it, which external token it
/// pays out, and when release started (zero: not started).
#[derive(Debug)]
pub struct Config {
    /// The project's own administrator, with authority limited to it.
    pub owner: String,
    /// Handle of the external token the project pays out.
    pub token_addr: String,
    /// When release started, in seconds; zero means it has not.
    pub start_time: u64,
}

/// One project of the store.
#[derive(Debug)]
pub struct ProjectInfo {
    /// The store-wide key of the project.
    pub project_id: u64,
    /// Administrator, token handle and release start.
    pub config: Config,
    /// Release schedule of the seed stage.
    pub seed_param: VestingParameter,
    /// Release schedule of the presale stage.
    pub presale_param: VestingParameter,
    /// Release schedule of the IDO stage.
    pub ido_param: VestingParameter,
    /// Allocation records of the seed stage.
    pub seed_users: Vec<UserInfo>,
    /// Allocation records of the presale stage.
    pub presale_users: Vec<UserInfo>,
    /// Allocation records of the IDO stage.
    pub ido_users: Vec<UserInfo>,
}

impl ProjectInfo {
    /// All three schedules are usable. Every operation that stores a schedule
    /// checks it, so a store built through this library satisfies this.
    pub open spec fn params_wf(self) -> bool {
        self.seed_param.wf() && self.presale_param.wf() && self.ido_param.wf()
    }

    /// The schedule of one stage.
    pub open spec fn spec_stage_param(self, stage: Stage) -> VestingParameter {
        match stage {
            Stage::Seed => self.seed_param,
            Stage::Presale => self.presale_param,
            Stage::Ido => self.ido_param,
        }
    }

    /// The allocation records of one stage.
    pub open spec fn spec_stage_users(self, stage: Stage) -> Seq<UserInfo> {
        match stage {
            Stage::Seed => self.seed_users@,
            Stage::Presale => self.presale_users@,
            Stage::Ido => self.ido_users@,
        }
    }

    /// The schedule of one stage.
    pub fn stage_param(&self, stage: Stage) -> (r: &VestingParameter)
        ensures
            *r == self.spec_stage_param(stage),
    {
        match stage {
            Stage::Seed => &self.seed_param,
            Stage::Presale => &self.presale_param,
            Stage::Ido => &self.ido_param,
        }
    }

    /// The allocation records of one stage.
    pub fn stage_users(&self, stage: Stage) -> (r: &Vec<UserInfo>)
        ensures
            r@ == self.spec_stage_users(stage),
    {
        match stage {
            Stage::Seed => &self.seed_users,
            Stage::Presale => &self.presale_users,
            Stage::Ido => &self.ido_users,
        }
    }
}

/// `post` is `pre` with one stage's records replaced by `users` and all else
/// carried over unchanged.
pub open spec fn stage_users_replaced(
    pre: ProjectInfo,
    post: ProjectInfo,
    stage: Stage,
    users: Seq<UserInfo>,
) -> bool {
    &&& post.project_id == pre.project_id
    &&& post.config == pre.config
    &&& post.seed_param == pre.seed_param
    &&& post.presale_param == pre.presale_param
    &&& post.ido_param == pre.ido_param
    &&& post.spec_stage_users(stage) == users
    &&& forall|other: Stage| other != stage ==> post.spec_stage_users(other) == pre.spec_stage_users(other)
}

/// Seconds in thirty days, the cliff all default schedules use.
pub const SECONDS_PER_MONTH: u64 = 60 * 60 * 24 * 30;

/// Default seed-stage schedule: 15% at once, one month cliff, six months linear.
pub fn default_seed_param() -> (r: VestingParameter)
    ensures
        r == spec_default_seed_param(),
{
    VestingParameter {
        soon_pct: 15,
        cliff_duration: SECONDS_PER_MONTH,
        linear_duration: 6 * SECONDS_PER_MONTH,
    }
}

/// What [`default_seed_param`] returns.
pub open spec fn spec_default_seed_param() -> VestingParameter {
    VestingParameter {
        soon_pct: 15,
        cliff_duration: SECONDS_PER_MONTH,
        linear_duration: (6 * SECONDS_PER_MONTH) as u64,
    }
}

/// Default presale-stage schedule: 20% at once, one month cliff, five months
/// linear.
pub fn default_presale_param() -> (r: VestingParameter)
    ensures
        r == spec_default_presale_param(),
{
    VestingParameter {
        soon_pct: 20,
        cliff_duration: SECONDS_PER_MONTH,
        linear_duration: 5 * SECONDS_PER_MONTH,
    }
}

/// What [`default_presale_param`] returns.
pub open spec fn spec_default_presale_param() -> VestingParameter {
    VestingParameter {
        soon_pct: 20,
        cliff_duration: SECONDS_PER_MONTH,
        linear_duration: (5 * SECONDS_PER_MONTH) as u64,
    }
}

/// Default IDO-stage schedule: 25% at once, one month cliff, four months
/// linear.
pub fn default_ido_param() -> (r: VestingParameter)
    ensures
        r == spec_default_ido_param(),
{
    VestingParameter {
        soon_pct: 25,
        cliff_duration: SECONDS_PER_MONTH,
        linear_duration: 4 * SECONDS_PER_MONTH,
    }
}

/// What [`default_ido_param`] returns.
pub open spec fn spec_default_ido_param() -> VestingParameter {
    VestingParameter {
        soon_pct: 25,
        cliff_duration: SECONDS_PER_MONTH,
        linear_duration: (4 * SECONDS_PER_MONTH) as u64,
    }
}

} // verus!
