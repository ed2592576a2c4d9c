use vesting::claim::{pow10_checked, try_claimpendingtokens, query_pendingtokens};
use vesting::dispatch::{execute, Command};
use vesting::error::VestingError;
use vesting::ledger::{check_add_userinfo, check_upsert_fits, find, UserInfo};
use vesting::project::{Stage, SECONDS_PER_MONTH};
use vesting::schedule::{calc_unlocked, VestingParameter};
use vesting::store::{
    instantiate, query_getallprojectinfo, query_getconfig, query_getprojectinfo, try_addproject,
    try_addseeduser, try_adduser, try_setconfig, try_setprojectconfig, try_setvestingparameters,
    try_setseedusers, try_startrelease, VestingState,
};

fn owner_name() -> String {
    "alice".to_string()
}

fn fresh_state() -> VestingState {
    instantiate(None, owner_name())
}

fn state_with_project(project_id: u64) -> VestingState {
    let mut state = fresh_state();
    let r = try_addproject(
        &mut state,
        &owner_name(),
        project_id,
        "bob".to_string(),
        "token".to_string(),
        Vec::new(),
        0,
    );
    assert_eq!(r, Ok(()));
    state
}

#[test]
fn instantiate_uses_given_admin() {
    let s = instantiate(Some("carol".to_string()), "alice".to_string());
    assert_eq!(s.owner, "carol".to_string());
    assert_eq!(s.projects.len(), 0);
}

#[test]
fn instantiate_falls_back_to_sender() {
    let s = fresh_state();
    assert_eq!(s.owner, "alice".to_string());
}

#[test]
fn unlock_formula_example_schedule() {
    let param = VestingParameter {
        soon_pct: 15,
        cliff_duration: 2592000,
        linear_duration: 15552000,
    };
    let start: u64 = 1000000;
    // Release not started at all: start_time zero.
    assert_eq!(calc_unlocked(1000, &param, 0, start + 999999999), 0);
    // Exactly at start: no time has passed yet.
    assert_eq!(calc_unlocked(1000, &param, start, start), 0);
    // One second in: the immediate 15% is unlocked.
    assert_eq!(calc_unlocked(1000, &param, start, start + 1), 150);
    // Exactly at the cliff: still only the immediate part.
    assert_eq!(calc_unlocked(1000, &param, start, start + 2592000), 150);
    // Half way through the linear phase: 150 + 7776000 * 850 / 15552000.
    assert_eq!(calc_unlocked(1000, &param, start, start + 2592000 + 7776000), 575);
    // Past the end of the linear phase: capped at the whole allocation.
    assert_eq!(
        calc_unlocked(1000, &param, start, start + 2592000 + 15552000 + 1),
        1000
    );
}

#[test]
fn unlock_is_monotonic_over_sampled_times() {
    let param = VestingParameter {
        soon_pct: 30,
        cliff_duration: 1000,
        linear_duration: 7,
    };
    let start: u64 = 5;
    let mut previous: u64 = 0;
    for now in 0..3000u64 {
        let unlocked = calc_unlocked(900, &param, start, now);
        assert!(unlocked >= previous);
        assert!(unlocked <= 900);
        previous = unlocked;
    }
}

#[test]
fn upsert_accumulates_on_fresh_wallet() {
    let mut users: Vec<UserInfo> = Vec::new();
    check_add_userinfo(&mut users, "wallet1".to_string(), 100);
    check_add_userinfo(&mut users, "wallet1".to_string(), 50);
    assert_eq!(users.len(), 1);
    assert_eq!(users[0].wallet_address, "wallet1".to_string());
    assert_eq!(users[0].total_amount, 150);
    assert_eq!(users[0].released_amount, 0);
}

#[test]
fn upsert_keeps_wallets_apart() {
    let mut users: Vec<UserInfo> = Vec::new();
    check_add_userinfo(&mut users, "wallet1".to_string(), 7);
    check_add_userinfo(&mut users, "wallet2".to_string(), 9);
    check_add_userinfo(&mut users, "wallet1".to_string(), 1);
    assert_eq!(users.len(), 2);
    assert_eq!(users[0].total_amount, 8);
    assert_eq!(users[1].total_amount, 9);
    assert_eq!(find(&users, &"wallet2".to_string()), Some(1));
    assert_eq!(find(&users, &"nobody".to_string()), None);
}

#[test]
fn upsert_fits_guard_detects_overflow() {
    let mut users: Vec<UserInfo> = Vec::new();
    check_add_userinfo(&mut users, "wallet1".to_string(), u64::MAX - 3);
    assert!(check_upsert_fits(&users, &"wallet1".to_string(), 3));
    assert!(!check_upsert_fits(&users, &"wallet1".to_string(), 4));
    assert!(check_upsert_fits(&users, &"other".to_string(), u64::MAX));
}

#[test]
fn addproject_stores_exact_default_schedules() {
    let state = state_with_project(1);
    let p = query_getprojectinfo(&state, 1).unwrap();
    assert_eq!(SECONDS_PER_MONTH, 2592000);
    assert_eq!(p.seed_param.soon_pct, 15);
    assert_eq!(p.seed_param.cliff_duration, 2592000);
    assert_eq!(p.seed_param.linear_duration, 15552000);
    assert_eq!(p.presale_param.soon_pct, 20);
    assert_eq!(p.presale_param.cliff_duration, 2592000);
    assert_eq!(p.presale_param.linear_duration, 12960000);
    assert_eq!(p.ido_param.soon_pct, 25);
    assert_eq!(p.ido_param.cliff_duration, 2592000);
    assert_eq!(p.ido_param.linear_duration, 10368000);
    assert_eq!(p.config.owner, "bob".to_string());
    assert_eq!(p.config.token_addr, "token".to_string());
    assert_eq!(p.config.start_time, 0);
}

#[test]
fn addproject_rejects_duplicate_key() {
    let mut state = state_with_project(1);
    let r = try_addproject(
        &mut state,
        &owner_name(),
        1,
        "bob".to_string(),
        "token".to_string(),
        Vec::new(),
        0,
    );
    assert_eq!(r, Err(VestingError::DuplicateProject));
    assert_eq!(state.projects.len(), 1);
}

#[test]
fn addproject_rejects_bad_parameter_lists() {
    let mut state = fresh_state();
    let two = vec![
        VestingParameter { soon_pct: 10, cliff_duration: 1, linear_duration: 1 },
        VestingParameter { soon_pct: 10, cliff_duration: 1, linear_duration: 1 },
    ];
    let r = try_addproject(
        &mut state,
        &owner_name(),
        1,
        "bob".to_string(),
        "token".to_string(),
        two,
        0,
    );
    assert_eq!(r, Err(VestingError::InvalidParameter));

    let zero_linear = vec![
        VestingParameter { soon_pct: 10, cliff_duration: 1, linear_duration: 0 },
        VestingParameter { soon_pct: 10, cliff_duration: 1, linear_duration: 1 },
        VestingParameter { soon_pct: 10, cliff_duration: 1, linear_duration: 1 },
    ];
    let r = try_addproject(
        &mut state,
        &owner_name(),
        1,
        "bob".to_string(),
        "token".to_string(),
        zero_linear,
        0,
    );
    assert_eq!(r, Err(VestingError::InvalidParameter));
    assert_eq!(state.projects.len(), 0);
}

#[test]
fn setvestingparameters_rejects_out_of_range_percentage() {
    let mut state = state_with_project(1);
    let bad_pct = vec![
        VestingParameter { soon_pct: 101, cliff_duration: 1, linear_duration: 1 },
        VestingParameter { soon_pct: 10, cliff_duration: 1, linear_duration: 1 },
        VestingParameter { soon_pct: 10, cliff_duration: 1, linear_duration: 1 },
    ];
    let r = try_setvestingparameters(&mut state, &owner_name(), 1, bad_pct);
    assert_eq!(r, Err(VestingError::InvalidParameter));
    let good = vec![
        VestingParameter { soon_pct: 100, cliff_duration: 1, linear_duration: 1 },
        VestingParameter { soon_pct: 0, cliff_duration: 0, linear_duration: 2 },
        VestingParameter { soon_pct: 50, cliff_duration: 5, linear_duration: 3 },
    ];
    let r = try_setvestingparameters(&mut state, &owner_name(), 1, good);
    assert_eq!(r, Ok(()));
    let p = query_getprojectinfo(&state, 1).unwrap();
    assert_eq!(p.presale_param.linear_duration, 2);
}

#[test]
fn operations_on_missing_project_fail_notfound() {
    let mut state = fresh_state();
    assert_eq!(
        try_startrelease(&mut state, &owner_name(), 9, 10),
        Err(VestingError::NotFound)
    );
    assert_eq!(
        query_getconfig(&state, 9).err(),
        Some(VestingError::NotFound)
    );
    assert_eq!(
        query_pendingtokens(&state, &"w".to_string(), 9, 0).err(),
        Some(VestingError::NotFound)
    );
}

#[test]
fn unauthorized_caller_changes_nothing() {
    let mut state = state_with_project(1);
    let mallory = "mallory".to_string();
    assert_eq!(
        try_startrelease(&mut state, &mallory, 1, 77),
        Err(VestingError::Unauthorized)
    );
    assert_eq!(
        try_addseeduser(&mut state, &mallory, 1, "w".to_string(), 5),
        Err(VestingError::Unauthorized)
    );
    assert_eq!(
        try_setconfig(&mut state, &mallory, "mallory".to_string()),
        Err(VestingError::Unauthorized)
    );
    assert_eq!(
        try_setprojectconfig(&mut state, &mallory, 1, "m".to_string(), "t".to_string(), 3),
        Err(VestingError::Unauthorized)
    );
    assert_eq!(state.owner, "alice".to_string());
    let p = query_getprojectinfo(&state, 1).unwrap();
    assert_eq!(p.config.owner, "bob".to_string());
    assert_eq!(p.config.start_time, 0);
    assert_eq!(p.seed_users.len(), 0);
}

#[test]
fn project_owner_may_administer_own_project() {
    let mut state = state_with_project(1);
    let bob = "bob".to_string();
    assert_eq!(try_startrelease(&mut state, &bob, 1, 42), Ok(()));
    let p = query_getprojectinfo(&state, 1).unwrap();
    assert_eq!(p.config.start_time, 42);
    // But bob has no global authority.
    assert_eq!(
        try_addproject(
            &mut state,
            &bob,
            2,
            "bob".to_string(),
            "token".to_string(),
            Vec::new(),
            0,
        ),
        Err(VestingError::Unauthorized)
    );
}

#[test]
fn setconfig_hands_over_global_ownership() {
    let mut state = fresh_state();
    assert_eq!(
        try_setconfig(&mut state, &owner_name(), "carol".to_string()),
        Ok(())
    );
    assert_eq!(state.owner, "carol".to_string());
    // The old owner is now locked out.
    assert_eq!(
        try_setconfig(&mut state, &owner_name(), "alice".to_string()),
        Err(VestingError::Unauthorized)
    );
}

#[test]
fn setseedusers_overwrites_wholesale() {
    let mut state = state_with_project(1);
    let records = vec![
        UserInfo { wallet_address: "w1".to_string(), total_amount: 10, released_amount: 4 },
        UserInfo { wallet_address: "w2".to_string(), total_amount: 20, released_amount: 0 },
    ];
    assert_eq!(try_setseedusers(&mut state, &owner_name(), 1, records), Ok(()));
    let p = query_getprojectinfo(&state, 1).unwrap();
    assert_eq!(p.seed_users.len(), 2);
    assert_eq!(p.seed_users[0].released_amount, 4);
}

#[test]
fn pow10_converts_and_overflows() {
    assert_eq!(pow10_checked(0), Some(1));
    assert_eq!(pow10_checked(6), Some(1000000));
    assert_eq!(pow10_checked(38), Some(10u128.pow(38)));
    assert_eq!(pow10_checked(39), None);
}

#[test]
fn claim_pays_out_and_cannot_be_repeated() {
    let mut state = state_with_project(1);
    let start: u64 = 1000;
    assert_eq!(
        try_adduser(&mut state, &owner_name(), 1, "w".to_string(), Stage::Seed, 1000),
        Ok(())
    );
    assert_eq!(try_startrelease(&mut state, &owner_name(), 1, start), Ok(()));
    let now = start + 1;
    // One second in: 15% of the seed allocation is claimable.
    assert_eq!(query_pendingtokens(&state, &"w".to_string(), 1, now), Ok(150));
    let r = try_claimpendingtokens(&mut state, "w".to_string(), 1, now, 2, 1000000);
    let msg = r.unwrap();
    assert_eq!(msg.amount, 15000); // 150 whole tokens at 2 decimals
    assert_eq!(msg.recipient, "w".to_string());
    assert_eq!(msg.token_addr, "token".to_string());
    let p = query_getprojectinfo(&state, 1).unwrap();
    assert_eq!(p.seed_users[0].released_amount, 150);
    // An immediate second claim finds nothing.
    assert_eq!(
        try_claimpendingtokens(&mut state, "w".to_string(), 1, now, 2, 1000000),
        Err(VestingError::NoPendingTokens)
    );
}

#[test]
fn claim_sums_over_all_three_stages() {
    let mut state = state_with_project(1);
    let start: u64 = 50;
    try_adduser(&mut state, &owner_name(), 1, "w".to_string(), Stage::Seed, 100).unwrap();
    try_adduser(&mut state, &owner_name(), 1, "w".to_string(), Stage::Presale, 100).unwrap();
    try_adduser(&mut state, &owner_name(), 1, "w".to_string(), Stage::Ido, 100).unwrap();
    try_startrelease(&mut state, &owner_name(), 1, start).unwrap();
    // One second in: 15 + 20 + 25 whole tokens immediately unlocked.
    assert_eq!(query_pendingtokens(&state, &"w".to_string(), 1, start + 1), Ok(60));
    let msg = try_claimpendingtokens(&mut state, "w".to_string(), 1, start + 1, 0, 60).unwrap();
    assert_eq!(msg.amount, 60);
    let p = query_getprojectinfo(&state, 1).unwrap();
    assert_eq!(p.seed_users[0].released_amount, 15);
    assert_eq!(p.presale_users[0].released_amount, 20);
    assert_eq!(p.ido_users[0].released_amount, 25);
}

#[test]
fn claim_with_insufficient_balance_commits_nothing() {
    let mut state = state_with_project(1);
    let start: u64 = 50;
    try_adduser(&mut state, &owner_name(), 1, "w".to_string(), Stage::Seed, 100).unwrap();
    try_adduser(&mut state, &owner_name(), 1, "w".to_string(), Stage::Presale, 100).unwrap();
    try_adduser(&mut state, &owner_name(), 1, "w".to_string(), Stage::Ido, 100).unwrap();
    try_startrelease(&mut state, &owner_name(), 1, start).unwrap();
    // 60 whole tokens pending but the ledger holds only 59 smallest units.
    let r = try_claimpendingtokens(&mut state, "w".to_string(), 1, start + 1, 0, 59);
    assert_eq!(r, Err(VestingError::InsufficientBalance));
    let p = query_getprojectinfo(&state, 1).unwrap();
    assert_eq!(p.seed_users[0].released_amount, 0);
    assert_eq!(p.presale_users[0].released_amount, 0);
    assert_eq!(p.ido_users[0].released_amount, 0);
    // The pending amount is still claimable afterwards.
    assert_eq!(
        query_pendingtokens(&state, &"w".to_string(), 1, start + 1),
        Ok(60)
    );
}

#[test]
fn claim_before_release_finds_nothing() {
    let mut state = state_with_project(1);
    try_adduser(&mut state, &owner_name(), 1, "w".to_string(), Stage::Seed, 100).unwrap();
    // start_time is still zero: release has not started.
    assert_eq!(
        try_claimpendingtokens(&mut state, "w".to_string(), 1, 123456, 6, u128::MAX),
        Err(VestingError::NoPendingTokens)
    );
}

#[test]
fn claim_by_stranger_finds_nothing() {
    let mut state = state_with_project(1);
    try_adduser(&mut state, &owner_name(), 1, "w".to_string(), Stage::Seed, 100).unwrap();
    try_startrelease(&mut state, &owner_name(), 1, 10).unwrap();
    assert_eq!(
        try_claimpendingtokens(&mut state, "stranger".to_string(), 1, 11, 6, u128::MAX),
        Err(VestingError::NoPendingTokens)
    );
}

#[test]
fn claim_with_oversized_decimals_is_refused() {
    let mut state = state_with_project(1);
    try_adduser(&mut state, &owner_name(), 1, "w".to_string(), Stage::Seed, 100).unwrap();
    try_startrelease(&mut state, &owner_name(), 1, 10).unwrap();
    let r = try_claimpendingtokens(&mut state, "w".to_string(), 1, 11, 40, u128::MAX);
    assert_eq!(r, Err(VestingError::InvalidParameter));
    let p = query_getprojectinfo(&state, 1).unwrap();
    assert_eq!(p.seed_users[0].released_amount, 0);
}

#[test]
fn execute_dispatches_commands() {
    let mut state = fresh_state();
    let r = execute(
        &mut state,
        "alice".to_string(),
        0,
        Command::AddProject {
            project_id: 3,
            admin: "bob".to_string(),
            token_addr: "token".to_string(),
            vesting_params: Vec::new(),
            start_time: 0,
        },
    );
    assert_eq!(r, Ok(None));
    let r = execute(
        &mut state,
        "bob".to_string(),
        0,
        Command::AddSeedUser { project_id: 3, wallet: "w".to_string(), amount: 200 },
    );
    assert_eq!(r, Ok(None));
    let r = execute(
        &mut state,
        "bob".to_string(),
        0,
        Command::StartRelease { project_id: 3, start_time: 500 },
    );
    assert_eq!(r, Ok(None));
    let r = execute(
        &mut state,
        "w".to_string(),
        501,
        Command::ClaimPendingTokens { project_id: 3, decimals: 1, balance: 1000 },
    );
    let msg = r.unwrap().unwrap();
    assert_eq!(msg.amount, 300); // 15% of 200, at one decimal
    let r = execute(
        &mut state,
        "mallory".to_string(),
        0,
        Command::SetIDOUsers { project_id: 3, user_infos: Vec::new() },
    );
    assert_eq!(r, Err(VestingError::Unauthorized));
}

#[test]
fn queries_report_the_whole_store() {
    let mut state = state_with_project(1);
    try_addproject(
        &mut state,
        &owner_name(),
        2,
        "dan".to_string(),
        "token2".to_string(),
        Vec::new(),
        9,
    )
    .unwrap();
    let all = query_getallprojectinfo(&state);
    assert_eq!(all.len(), 2);
    assert_eq!(all[1].project_id, 2);
    let c = query_getconfig(&state, 2).unwrap();
    assert_eq!(c.owner, "dan".to_string());
    assert_eq!(c.start_time, 9);
}

#[test]
fn setprojectinfo_replaces_whole_record() {
    let mut state = state_with_project(1);
    let replacement = vesting::project::ProjectInfo {
        project_id: 1,
        config: vesting::project::Config {
            owner: "erin".to_string(),
            token_addr: "token9".to_string(),
            start_time: 77,
        },
        seed_param: VestingParameter { soon_pct: 1, cliff_duration: 2, linear_duration: 3 },
        presale_param: VestingParameter { soon_pct: 4, cliff_duration: 5, linear_duration: 6 },
        ido_param: VestingParameter { soon_pct: 7, cliff_duration: 8, linear_duration: 9 },
        seed_users: vec![UserInfo {
            wallet_address: "w".to_string(),
            total_amount: 11,
            released_amount: 2,
        }],
        presale_users: Vec::new(),
        ido_users: Vec::new(),
    };
    assert_eq!(
        vesting::store::try_setprojectinfo(&mut state, &owner_name(), 1, replacement),
        Ok(())
    );
    let p = query_getprojectinfo(&state, 1).unwrap();
    assert_eq!(p.config.owner, "erin".to_string());
    assert_eq!(p.config.start_time, 77);
    assert_eq!(p.seed_param.soon_pct, 1);
    assert_eq!(p.seed_users[0].total_amount, 11);

    // A record with an unusable schedule is refused.
    let bad = vesting::project::ProjectInfo {
        project_id: 1,
        config: vesting::project::Config {
            owner: "erin".to_string(),
            token_addr: "token9".to_string(),
            start_time: 77,
        },
        seed_param: VestingParameter { soon_pct: 1, cliff_duration: 2, linear_duration: 0 },
        presale_param: VestingParameter { soon_pct: 4, cliff_duration: 5, linear_duration: 6 },
        ido_param: VestingParameter { soon_pct: 7, cliff_duration: 8, linear_duration: 9 },
        seed_users: Vec::new(),
        presale_users: Vec::new(),
        ido_users: Vec::new(),
    };
    assert_eq!(
        vesting::store::try_setprojectinfo(&mut state, &"erin".to_string(), 1, bad),
        Err(VestingError::InvalidParameter)
    );
}

#[test]
fn error_descriptions_name_each_failure() {
    assert_eq!(VestingError::Unauthorized.describe(), "unauthorized");
    assert_eq!(VestingError::NotFound.describe(), "project not found");
    assert_eq!(VestingError::DuplicateProject.describe(), "duplicate project");
    assert_eq!(
        VestingError::NoPendingTokens.describe(),
        "no pending tokens to claim"
    );
    assert_eq!(
        VestingError::InsufficientBalance.describe(),
        "insufficient balance on the token ledger"
    );
    assert_eq!(VestingError::InvalidParameter.describe(), "invalid parameter");
}
