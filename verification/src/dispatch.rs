//! The command dispatcher: one entry point that maps each command of the
//! host-facing interface to its operation, plus the authorization law that
//! holds across all of them.

use crate::claim::{claim_post, try_claimpendingtokens, TransferMsg};
use crate::error::VestingError;
use crate::ledger::UserInfo;
use crate::project::{ProjectInfo, Stage};
use crate::schedule::VestingParameter;
use crate::store::{
    adduser_fits, adduser_post, addproject_post, project_index, setconfig_post,
    setprojectconfig_post, setprojectinfo_post, setusers_post, setvestingparameters_post,
    startrelease_post, try_addproject, try_adduser, try_setconfig, try_setprojectconfig,
    try_setprojectinfo, try_setvestingparameters, try_startrelease, set_stage_users, VestingState,
};
use vstd::prelude::*;

verus! {

/// One request of the host-facing interface. The host parses its wire
/// message into this, and packages into [`Command::ClaimPendingTokens`] the
/// two answers of the external token ledger a claim depends on.
#[derive(Debug)]
pub enum Command {
    SetConfig { admin: String },
    AddUser { project_id: u64, wallet: String, stage: Stage, amount: u64 },
    StartRelease { project_id: u64, start_time: u64 },
    AddProject {
        project_id: u64,
        admin: String,
        token_addr: String,
        vesting_params: Vec<VestingParameter>,
        start_time: u64,
    },
    SetProjectInfo { project_id: u64, project_info: ProjectInfo },
    SetProjectConfig { project_id: u64, admin: String, token_addr: String, start_time: u64 },
    SetVestingParameters { project_id: u64, params: Vec<VestingParameter> },
    SetSeedUsers { project_id: u64, user_infos: Vec<UserInfo> },
    AddSeedUser { project_id: u64, wallet: String, amount: u64 },
    SetPresaleUsers { project_id: u64, user_infos: Vec<UserInfo> },
    AddPresaleUser { project_id: u64, wallet: String, amount: u64 },
    SetIDOUsers { project_id: u64, user_infos: Vec<UserInfo> },
    AddIDOUser { project_id: u64, wallet: String, amount: u64 },
    ClaimPendingTokens { project_id: u64, decimals: u32, balance: u128 },
}

/// The arithmetic precondition of a command: registering an allocation must
/// not grow a record past `u64`. Every other command always fits.
pub open spec fn command_fits(pre: VestingState, sender: Seq<char>, msg: Command) -> bool {
    match msg {
        Command::AddUser { project_id, wallet, stage, amount } => adduser_fits(
            pre,
            sender,
            project_id,
            stage,
            wallet@,
            amount,
        ),
        Command::AddSeedUser { project_id, wallet, amount } => adduser_fits(
            pre,
            sender,
            project_id,
            Stage::Seed,
            wallet@,
            amount,
        ),
        Command::AddPresaleUser { project_id, wallet, amount } => adduser_fits(
            pre,
            sender,
            project_id,
            Stage::Presale,
            wallet@,
            amount,
        ),
        Command::AddIDOUser { project_id, wallet, amount } => adduser_fits(
            pre,
            sender,
            project_id,
            Stage::Ido,
            wallet@,
            amount,
        ),
        _ => true,
    }
}

/// Executable form of [`command_fits`], for a host that must refuse a
/// command before attempting it.
pub fn check_command_fits(state: &VestingState, sender: &String, msg: &Command) -> (r: bool)
    ensures
        r == command_fits(*state, sender@, *msg),
{
    match msg {
        Command::AddUser { project_id, wallet, stage, amount } => crate::store::check_adduser_fits(
            state,
            sender,
            *project_id,
            *stage,
            wallet,
            *amount,
        ),
        Command::AddSeedUser { project_id, wallet, amount } => crate::store::check_adduser_fits(
            state,
            sender,
            *project_id,
            Stage::Seed,
            wallet,
            *amount,
        ),
        Command::AddPresaleUser { project_id, wallet, amount } => crate::store::check_adduser_fits(
            state,
            sender,
            *project_id,
            Stage::Presale,
            wallet,
            *amount,
        ),
        Command::AddIDOUser { project_id, wallet, amount } => crate::store::check_adduser_fits(
            state,
            sender,
            *project_id,
            Stage::Ido,
            wallet,
            *amount,
        ),
        _ => true,
    }
}

/// What [`execute`] does for each command: exactly what the command's own
/// operation does, with an administrative success carrying no transfer and a
/// successful claim carrying the transfer to perform.
pub open spec fn execute_post(
    pre: VestingState,
    post: VestingState,
    sender: String,
    now: u64,
    msg: Command,
    r: Result<Option<TransferMsg>, VestingError>,
) -> bool {
    match msg {
        Command::SetConfig { admin } => match r {
            Ok(opt) => opt is None && setconfig_post(pre, post, sender@, admin, Ok(())),
            Err(e) => setconfig_post(pre, post, sender@, admin, Err(e)),
        },
        Command::AddUser { project_id, wallet, stage, amount } => match r {
            Ok(opt) => opt is None && adduser_post(
                pre,
                post,
                sender@,
                project_id,
                stage,
                wallet,
                amount,
                Ok(()),
            ),
            Err(e) => adduser_post(pre, post, sender@, project_id, stage, wallet, amount, Err(e)),
        },
        Command::StartRelease { project_id, start_time } => match r {
            Ok(opt) => opt is None && startrelease_post(
                pre,
                post,
                sender@,
                project_id,
                start_time,
                Ok(()),
            ),
            Err(e) => startrelease_post(pre, post, sender@, project_id, start_time, Err(e)),
        },
        Command::AddProject { project_id, admin, token_addr, vesting_params, start_time } => match r {
            Ok(opt) => opt is None && addproject_post(
                pre,
                post,
                sender@,
                project_id,
                admin,
                token_addr,
                vesting_params@,
                start_time,
                Ok(()),
            ),
            Err(e) => addproject_post(
                pre,
                post,
                sender@,
                project_id,
                admin,
                token_addr,
                vesting_params@,
                start_time,
                Err(e),
            ),
        },
        Command::SetProjectInfo { project_id, project_info } => match r {
            Ok(opt) => opt is None && setprojectinfo_post(
                pre,
                post,
                sender@,
                project_id,
                project_info,
                Ok(()),
            ),
            Err(e) => setprojectinfo_post(pre, post, sender@, project_id, project_info, Err(e)),
        },
        Command::SetProjectConfig { project_id, admin, token_addr, start_time } => match r {
            Ok(opt) => opt is None && setprojectconfig_post(
                pre,
                post,
                sender@,
                project_id,
                admin,
                token_addr,
                start_time,
                Ok(()),
            ),
            Err(e) => setprojectconfig_post(
                pre,
                post,
                sender@,
                project_id,
                admin,
                token_addr,
                start_time,
                Err(e),
            ),
        },
        Command::SetVestingParameters { project_id, params } => match r {
            Ok(opt) => opt is None && setvestingparameters_post(
                pre,
                post,
                sender@,
                project_id,
                params@,
                Ok(()),
            ),
            Err(e) => setvestingparameters_post(pre, post, sender@, project_id, params@, Err(e)),
        },
        Command::SetSeedUsers { project_id, user_infos } => match r {
            Ok(opt) => opt is None && setusers_post(
                pre,
                post,
                sender@,
                project_id,
                Stage::Seed,
                user_infos,
                Ok(()),
            ),
            Err(e) => setusers_post(pre, post, sender@, project_id, Stage::Seed, user_infos, Err(e)),
        },
        Command::AddSeedUser { project_id, wallet, amount } => match r {
            Ok(opt) => opt is None && adduser_post(
                pre,
                post,
                sender@,
                project_id,
                Stage::Seed,
                wallet,
                amount,
                Ok(()),
            ),
            Err(e) => adduser_post(
                pre,
                post,
                sender@,
                project_id,
                Stage::Seed,
                wallet,
                amount,
                Err(e),
            ),
        },
        Command::SetPresaleUsers { project_id, user_infos } => match r {
            Ok(opt) => opt is None && setusers_post(
                pre,
                post,
                sender@,
                project_id,
                Stage::Presale,
                user_infos,
                Ok(()),
            ),
            Err(e) => setusers_post(
                pre,
                post,
                sender@,
                project_id,
                Stage::Presale,
                user_infos,
                Err(e),
            ),
        },
        Command::AddPresaleUser { project_id, wallet, amount } => match r {
            Ok(opt) => opt is None && adduser_post(
                pre,
                post,
                sender@,
                project_id,
                Stage::Presale,
                wallet,
                amount,
                Ok(()),
            ),
            Err(e) => adduser_post(
                pre,
                post,
                sender@,
                project_id,
                Stage::Presale,
                wallet,
                amount,
                Err(e),
            ),
        },
        Command::SetIDOUsers { project_id, user_infos } => match r {
            Ok(opt) => opt is None && setusers_post(
                pre,
                post,
                sender@,
                project_id,
                Stage::Ido,
                user_infos,
                Ok(()),
            ),
            Err(e) => setusers_post(pre, post, sender@, project_id, Stage::Ido, user_infos, Err(e)),
        },
        Command::AddIDOUser { project_id, wallet, amount } => match r {
            Ok(opt) => opt is None && adduser_post(
                pre,
                post,
                sender@,
                project_id,
                Stage::Ido,
                wallet,
                amount,
                Ok(()),
            ),
            Err(e) => adduser_post(
                pre,
                post,
                sender@,
                project_id,
                Stage::Ido,
                wallet,
                amount,
                Err(e),
            ),
        },
        Command::ClaimPendingTokens { project_id, decimals, balance } => match r {
            Ok(opt) => opt matches Some(m) && claim_post(
                pre,
                post,
                sender,
                project_id,
                now,
                decimals,
                balance,
                Ok(m),
            ),
            Err(e) => claim_post(pre, post, sender, project_id, now, decimals, balance, Err(e)),
        },
    }
}

/// Dispatch one command against the store. `now` is the host's clock; for a
/// claim, the command carries the host's answers from the token ledger.
pub fn execute(state: &mut VestingState, sender: String, now: u64, msg: Command) -> (r: Result<
    Option<TransferMsg>,
    VestingError,
>)
    requires
        old(state).wf(),
        command_fits(*old(state), sender@, msg),
    ensures
        execute_post(*old(state), *final(state), sender, now, msg, r),
        final(state).wf(),
{
    match msg {
        Command::SetConfig { admin } => match try_setconfig(state, &sender, admin) {
            Ok(()) => Ok(None),
            Err(e) => Err(e),
        },
        Command::AddUser { project_id, wallet, stage, amount } => match try_adduser(
            state,
            &sender,
            project_id,
            wallet,
            stage,
            amount,
        ) {
            Ok(()) => Ok(None),
            Err(e) => Err(e),
        },
        Command::StartRelease { project_id, start_time } => match try_startrelease(
            state,
            &sender,
            project_id,
            start_time,
        ) {
            Ok(()) => Ok(None),
            Err(e) => Err(e),
        },
        Command::AddProject {
            project_id,
            admin,
            token_addr,
            vesting_params,
            start_time,
        } => match try_addproject(
            state,
            &sender,
            project_id,
            admin,
            token_addr,
            vesting_params,
            start_time,
        ) {
            Ok(()) => Ok(None),
            Err(e) => Err(e),
        },
        Command::SetProjectInfo { project_id, project_info } => match try_setprojectinfo(
            state,
            &sender,
            project_id,
            project_info,
        ) {
            Ok(()) => Ok(None),
            Err(e) => Err(e),
        },
        Command::SetProjectConfig {
            project_id,
            admin,
            token_addr,
            start_time,
        } => match try_setprojectconfig(state, &sender, project_id, admin, token_addr, start_time) {
            Ok(()) => Ok(None),
            Err(e) => Err(e),
        },
        Command::SetVestingParameters { project_id, params } => match try_setvestingparameters(
            state,
            &sender,
            project_id,
            params,
        ) {
            Ok(()) => Ok(None),
            Err(e) => Err(e),
        },
        Command::SetSeedUsers { project_id, user_infos } => match set_stage_users(
            state,
            &sender,
            project_id,
            Stage::Seed,
            user_infos,
        ) {
            Ok(()) => Ok(None),
            Err(e) => Err(e),
        },
        Command::AddSeedUser { project_id, wallet, amount } => match try_adduser(
            state,
            &sender,
            project_id,
            wallet,
            Stage::Seed,
            amount,
        ) {
            Ok(()) => Ok(None),
            Err(e) => Err(e),
        },
        Command::SetPresaleUsers { project_id, user_infos } => match set_stage_users(
            state,
            &sender,
            project_id,
            Stage::Presale,
            user_infos,
        ) {
            Ok(()) => Ok(None),
            Err(e) => Err(e),
        },
        Command::AddPresaleUser { project_id, wallet, amount } => match try_adduser(
            state,
            &sender,
            project_id,
            wallet,
            Stage::Presale,
            amount,
        ) {
            Ok(()) => Ok(None),
            Err(e) => Err(e),
        },
        Command::SetIDOUsers { project_id, user_infos } => match set_stage_users(
            state,
            &sender,
            project_id,
            Stage::Ido,
            user_infos,
        ) {
            Ok(()) => Ok(None),
            Err(e) => Err(e),
        },
        Command::AddIDOUser { project_id, wallet, amount } => match try_adduser(
            state,
            &sender,
            project_id,
            wallet,
            Stage::Ido,
            amount,
        ) {
            Ok(()) => Ok(None),
            Err(e) => Err(e),
        },
        Command::ClaimPendingTokens { project_id, decimals, balance } => match try_claimpendingtokens(
            state,
            sender,
            project_id,
            now,
            decimals,
            balance,
        ) {
            Ok(m) => Ok(Some(m)),
            Err(e) => Err(e),
        },
    }
}

/// The project whose own owner may authorize a command, if any: the global
/// owner may issue every command, but changing the global owner and creating
/// a project answer to the global owner alone.
pub open spec fn command_guard_project(msg: Command) -> Option<u64> {
    match msg {
        Command::SetConfig { .. } => None,
        Command::AddUser { project_id, .. } => Some(project_id),
        Command::StartRelease { project_id, .. } => Some(project_id),
        Command::AddProject { .. } => None,
        Command::SetProjectInfo { project_id, .. } => Some(project_id),
        Command::SetProjectConfig { project_id, .. } => Some(project_id),
        Command::SetVestingParameters { project_id, .. } => Some(project_id),
        Command::SetSeedUsers { project_id, .. } => Some(project_id),
        Command::AddSeedUser { project_id, .. } => Some(project_id),
        Command::SetPresaleUsers { project_id, .. } => Some(project_id),
        Command::AddPresaleUser { project_id, .. } => Some(project_id),
        Command::SetIDOUsers { project_id, .. } => Some(project_id),
        Command::AddIDOUser { project_id, .. } => Some(project_id),
        Command::ClaimPendingTokens { project_id, .. } => Some(project_id),
    }
}

/// Authorization is a hard stop. A caller that is neither the global owner
/// nor the owner of any project cannot change the store through any
/// administrative command: the store comes out exactly as it went in, and the
/// command is refused — with `Unauthorized` whenever the project it addresses
/// exists (a command against an absent project is refused as `NotFound`,
/// still without a write). A claim is exempt by design: it needs no
/// authority, since it only pays a wallet its own pending tokens.
pub proof fn lemma_unauthorized_caller_changes_nothing(
    pre: VestingState,
    post: VestingState,
    sender: String,
    now: u64,
    msg: Command,
    r: Result<Option<TransferMsg>, VestingError>,
)
    requires
        execute_post(pre, post, sender, now, msg, r),
        !(msg is ClaimPendingTokens),
        sender@ != pre.owner@,
        match command_guard_project(msg) {
            None => true,
            Some(project_id) => {
                let j = project_index(pre.projects@, project_id);
                j != -1 ==> sender@ != pre.projects@[j].config.owner@
            },
        },
    ensures
        post == pre,
        r is Err,
        match command_guard_project(msg) {
            None => r == Err::<Option<TransferMsg>, VestingError>(VestingError::Unauthorized),
            Some(project_id) => {
                &&& project_index(pre.projects@, project_id) != -1 ==> r == Err::<
                    Option<TransferMsg>,
                    VestingError,
                >(VestingError::Unauthorized)
                &&& project_index(pre.projects@, project_id) == -1 ==> r == Err::<
                    Option<TransferMsg>,
                    VestingError,
                >(VestingError::NotFound)
            },
        },
{
    match command_guard_project(msg) {
        None => {},
        Some(project_id) => {
            crate::store::lemma_project_index(pre.projects@, project_id);
        },
    }
}

} // verus!
