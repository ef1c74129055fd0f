use solana_pool::{
    add_reward, add_stake, claim_reward, claim_transfer, initialize_pool, remove_stake,
    reward_payout, reward_transfer, stake_transfer, unstake_transfer, AddReward, AddStake,
    ClaimReward, ErrorCode, InitializePool, InitializePoolArgs, Phase, Pool, PoolSeeds, Pubkey,
    RemoveStake, Ticket, TokenAccount, TokenTransfer, TransferError,
};

fn key(n: u128) -> Pubkey {
    Pubkey { hi: 0, lo: n }
}

const ADMIN: u128 = 1;
const MINT: u128 = 2;
const VAULT: u128 = 3;
const POOL: u128 = 4;
const ALICE: u128 = 10;
const BOB: u128 = 11;
const ALICE_WALLET: u128 = 20;
const BOB_WALLET: u128 = 21;

fn sample_pool() -> Pool {
    let ctx = InitializePool { admin: key(ADMIN), stake_mint: key(MINT), stake_vault: key(VAULT), now: 0 };
    let args = InitializePoolArgs {
        bump: 254,
        topup_duration: 100,
        lockup_duration: 200,
        target_amount: 1000,
        reward_amount: 100,
    };
    initialize_pool(&ctx, &args).unwrap()
}

fn deposit_ctx(pool: Pool, staker: u128, wallet: u128, balance: u64, ticket: Option<Ticket>, now: i64) -> AddStake {
    AddStake {
        pool,
        pool_key: key(POOL),
        staker: key(staker),
        ticket,
        source_wallet: TokenAccount { key: key(wallet), amount: balance },
        now,
    }
}

fn withdraw_ctx(pool: Pool, staker: u128, wallet: u128, vault: u64, ticket: Option<Ticket>, now: i64) -> RemoveStake {
    RemoveStake {
        pool,
        pool_key: key(POOL),
        staker: key(staker),
        ticket,
        stake_vault_amount: vault,
        target_wallet: key(wallet),
        now,
    }
}

fn claim_ctx(pool: Pool, staker: u128, wallet: u128, vault: u64, ticket: Option<Ticket>, now: i64) -> ClaimReward {
    ClaimReward {
        pool,
        pool_key: key(POOL),
        staker: key(staker),
        ticket,
        stake_vault_amount: vault,
        target_wallet: key(wallet),
        now,
    }
}

fn staked_pool(acquired: u64) -> Pool {
    let mut pool = sample_pool();
    pool.stake_acquired_amount = acquired;
    pool
}

fn ticket_of(staker: u128, staked: u64) -> Ticket {
    Ticket { authority: key(staker), pool: key(POOL), staked_amount: staked, bump: 7 }
}

#[test]
fn initialize_pool_sets_genesis_and_zeroes_counters() {
    let ctx = InitializePool { admin: key(ADMIN), stake_mint: key(MINT), stake_vault: key(VAULT), now: 1234 };
    let args = InitializePoolArgs {
        bump: 9,
        topup_duration: 100,
        lockup_duration: 200,
        target_amount: 1000,
        reward_amount: 100,
    };
    let pool = initialize_pool(&ctx, &args).unwrap();
    assert_eq!(
        pool,
        Pool {
            admin: key(ADMIN),
            bump: 9,
            genesis: 1234,
            topup_duration: 100,
            lockup_duration: 200,
            stake_acquired_amount: 0,
            stake_target_amount: 1000,
            reward_amount: 100,
            deposited_reward_amount: 0,
            stake_mint: key(MINT),
            stake_vault: key(VAULT),
        }
    );
    assert!(pool.is_well_formed());
}

#[test]
fn initialize_pool_rejects_topup_longer_than_lockup() {
    let ctx = InitializePool { admin: key(ADMIN), stake_mint: key(MINT), stake_vault: key(VAULT), now: 0 };
    let args = InitializePoolArgs {
        bump: 9,
        topup_duration: 201,
        lockup_duration: 200,
        target_amount: 1000,
        reward_amount: 100,
    };
    assert_eq!(initialize_pool(&ctx, &args), Err(ErrorCode::TopupLongerThanLockup));
}

#[test]
fn initialize_pool_accepts_equal_durations() {
    let ctx = InitializePool { admin: key(ADMIN), stake_mint: key(MINT), stake_vault: key(VAULT), now: 0 };
    let args = InitializePoolArgs {
        bump: 9,
        topup_duration: 200,
        lockup_duration: 200,
        target_amount: 1,
        reward_amount: 0,
    };
    assert!(initialize_pool(&ctx, &args).is_ok());
}

#[test]
fn phases_follow_the_two_boundaries() {
    let pool = sample_pool();
    assert_eq!(pool.phase(-5), Phase::Topup);
    assert_eq!(pool.phase(99), Phase::Topup);
    assert_eq!(pool.phase(100), Phase::Locked);
    assert_eq!(pool.phase(200), Phase::Locked);
    assert_eq!(pool.phase(201), Phase::Expired);
    assert!(pool.can_topup(99));
    assert!(!pool.can_topup(100));
    assert!(!pool.is_expired(200));
    assert!(pool.is_expired(201));
}

#[test]
fn phases_do_not_wrap_at_the_end_of_time() {
    let mut pool = sample_pool();
    pool.genesis = i64::MAX;
    pool.topup_duration = i64::MAX;
    pool.lockup_duration = i64::MAX;
    assert!(pool.can_topup(i64::MAX));
    assert!(!pool.is_expired(i64::MAX));
    assert_eq!(pool.phase(i64::MAX), Phase::Topup);
    pool.genesis = i64::MIN;
    pool.topup_duration = -1;
    pool.lockup_duration = -1;
    assert!(!pool.can_topup(i64::MIN));
    assert!(pool.is_expired(i64::MIN));
}

#[test]
fn well_formedness_is_tested_field_by_field() {
    let mut pool = sample_pool();
    assert!(pool.is_well_formed());
    pool.stake_acquired_amount = 1001;
    assert!(!pool.is_well_formed());
    pool.stake_acquired_amount = 1000;
    pool.deposited_reward_amount = 101;
    assert!(!pool.is_well_formed());
    pool.deposited_reward_amount = 100;
    assert!(pool.is_well_formed());
    pool.topup_duration = 201;
    assert!(!pool.is_well_formed());
}

#[test]
fn default_ticket_is_empty() {
    let ticket = Ticket::default();
    assert_eq!(ticket, Ticket { authority: key(0), pool: key(0), staked_amount: 0, bump: 0 });
    assert!(ticket.is_owned_by(key(0), key(0)));
    assert!(!ticket.is_owned_by(key(POOL), key(0)));
    assert!(!ticket.is_owned_by(key(0), key(ALICE)));
}

#[test]
fn single_staker_collects_stake_and_whole_reward() {
    let pool = sample_pool();

    let mut deposit = deposit_ctx(pool, ALICE, ALICE_WALLET, 5000, None, 10);
    let asked = stake_transfer(&deposit, 1000).unwrap();
    assert_eq!(
        asked,
        TokenTransfer { amount: 1000, from: key(ALICE_WALLET), to: key(VAULT), amount_before: 5000, signers: None }
    );
    assert_eq!(add_stake(&mut deposit, 1000, 7, Ok(4000)), Ok(()));
    assert_eq!(deposit.pool.stake_acquired_amount, 1000);
    assert_eq!(deposit.ticket, Some(ticket_of(ALICE, 1000)));
    assert_eq!(deposit.source_wallet.amount, 4000);

    let mut second = deposit_ctx(deposit.pool, ALICE, ALICE_WALLET, 4000, deposit.ticket, 50);
    let before = second;
    assert_eq!(stake_transfer(&second, 500), Err(ErrorCode::PoolIsFull));
    assert_eq!(add_stake(&mut second, 500, 7, Ok(3500)), Err(ErrorCode::PoolIsFull));
    assert_eq!(second, before);

    let mut funding = AddReward {
        pool: second.pool,
        source_wallet: TokenAccount { key: key(ADMIN), amount: 100 },
        now: 150,
    };
    assert_eq!(reward_transfer(&funding, 100).unwrap().amount, 100);
    assert_eq!(add_reward(&mut funding, 100, Ok(0)), Ok(()));
    assert_eq!(funding.pool.deposited_reward_amount, 100);

    let mut early = claim_ctx(funding.pool, ALICE, ALICE_WALLET, 1100, second.ticket, 200);
    assert_eq!(claim_reward(&mut early, Ok(0)), Err(ErrorCode::PoolIsNotExpired));

    let mut claim = claim_ctx(funding.pool, ALICE, ALICE_WALLET, 1100, second.ticket, 201);
    let payment = claim_transfer(&claim).unwrap();
    assert_eq!(payment.amount, 1100);
    assert_eq!(payment.from, key(VAULT));
    assert_eq!(payment.to, key(ALICE_WALLET));
    assert_eq!(payment.signers, Some(PoolSeeds { pool: key(POOL), admin: key(ADMIN), bump: 254 }));
    assert_eq!(claim_reward(&mut claim, Ok(0)), Ok(()));
    assert_eq!(claim.ticket, None);
    assert_eq!(claim.stake_vault_amount, 0);
    assert_eq!(claim.pool, funding.pool);
    assert_eq!(claim.pool.stake_acquired_amount, 1000);
}

#[test]
fn two_stakers_share_the_reward_in_proportion() {
    let pool = sample_pool();
    let mut alice = deposit_ctx(pool, ALICE, ALICE_WALLET, 300, None, 1);
    assert_eq!(add_stake(&mut alice, 300, 1, Ok(0)), Ok(()));
    let mut bob = deposit_ctx(alice.pool, BOB, BOB_WALLET, 700, None, 2);
    assert_eq!(add_stake(&mut bob, 700, 2, Ok(0)), Ok(()));
    assert_eq!(bob.pool.stake_acquired_amount, 1000);

    let mut funding =
        AddReward { pool: bob.pool, source_wallet: TokenAccount { key: key(ADMIN), amount: 500 }, now: 3 };
    assert_eq!(add_reward(&mut funding, 100, Ok(400)), Ok(()));
    assert_eq!(funding.pool.deposited_reward_amount, 100);

    // 3/10 and 7/10 have no finite binary expansion: each share is rounded
    // down to a multiple of 2^-64 before it is multiplied by the reward, so
    // each part of the reward falls just short of 30 and of 70.
    let mut first = claim_ctx(funding.pool, ALICE, ALICE_WALLET, 1100, alice.ticket, 201);
    assert_eq!(claim_transfer(&first).unwrap().amount, 329);
    assert_eq!(claim_reward(&mut first, Ok(1100 - 329)), Ok(()));
    assert_eq!(first.ticket, None);

    let mut second = claim_ctx(first.pool, BOB, BOB_WALLET, first.stake_vault_amount, bob.ticket, 201);
    assert_eq!(claim_transfer(&second).unwrap().amount, 769);
    assert_eq!(claim_reward(&mut second, Ok(1100 - 329 - 769)), Ok(()));
    assert_eq!(second.ticket, None);
    assert_eq!(second.stake_vault_amount, 2);
}

#[test]
fn shares_that_are_binary_fractions_are_paid_exactly() {
    assert_eq!(reward_payout(250, 1000, 100), Ok(275));
    assert_eq!(reward_payout(750, 1000, 100), Ok(825));
    assert_eq!(reward_payout(500, 1000, 101), Ok(550));
    assert_eq!(reward_payout(1000, 1000, 100), Ok(1100));
}

#[test]
fn payout_is_stake_plus_floor_of_fixed_point_share() {
    // share = floor(2^64 / 3) = 6148914691236517205 (0x5555_5555_5555_5555);
    // 6148914691236517205 * 90 / 2^64 = 29.99..., so the reward gives 29.
    assert_eq!(reward_payout(1, 3, 90), Ok(30));
    assert_eq!(reward_payout(300, 1000, 100), Ok(329));
    assert_eq!(reward_payout(700, 1000, 100), Ok(769));
    assert_eq!(reward_payout(0, 1000, 100), Ok(0));
    assert_eq!(reward_payout(7, 7, 0), Ok(7));
    assert_eq!(reward_payout(1, u64::MAX, u64::MAX), Ok(1));
    assert_eq!(reward_payout(u64::MAX - 5, u64::MAX, 5), Ok(u64::MAX - 1));
}

#[test]
fn payout_that_leaves_u64_is_an_overflow() {
    assert_eq!(reward_payout(u64::MAX, u64::MAX, 1), Err(ErrorCode::IntegerOverflow));
    assert_eq!(reward_payout(u64::MAX, u64::MAX, 0), Ok(u64::MAX));
    assert_eq!(reward_payout(u64::MAX, 1, u64::MAX), Err(ErrorCode::IntegerOverflow));
    assert_eq!(reward_payout(2, 1, u64::MAX), Err(ErrorCode::IntegerOverflow));
    assert_eq!(reward_payout(2, 1, 10), Ok(22));
}

#[test]
fn deposit_is_clamped_to_remaining_capacity() {
    let mut ctx = deposit_ctx(staked_pool(900), ALICE, ALICE_WALLET, 5000, None, 10);
    let asked = stake_transfer(&ctx, 500).unwrap();
    assert_eq!(asked.amount, 100);
    assert_eq!(add_stake(&mut ctx, 500, 3, Ok(4900)), Ok(()));
    assert_eq!(ctx.pool.stake_acquired_amount, 1000);
    assert_eq!(ctx.ticket, Some(Ticket { authority: key(ALICE), pool: key(POOL), staked_amount: 100, bump: 3 }));
    assert_eq!(ctx.source_wallet.amount, 4900);
    assert!(ctx.pool.is_well_formed());
}

#[test]
fn further_deposit_adds_to_the_ticket_and_keeps_its_bump() {
    let mut ctx = deposit_ctx(staked_pool(400), ALICE, ALICE_WALLET, 50, Some(ticket_of(ALICE, 150)), 10);
    assert_eq!(add_stake(&mut ctx, 50, 99, Ok(0)), Ok(()));
    assert_eq!(ctx.ticket, Some(ticket_of(ALICE, 200)));
    assert_eq!(ctx.pool.stake_acquired_amount, 450);
}

#[test]
fn deposit_needs_the_funds_in_the_wallet() {
    let mut ctx = deposit_ctx(sample_pool(), ALICE, ALICE_WALLET, 99, None, 10);
    let before = ctx;
    assert_eq!(stake_transfer(&ctx, 100), Err(ErrorCode::NotEnoughFunds));
    assert_eq!(add_stake(&mut ctx, 100, 1, Ok(0)), Err(ErrorCode::NotEnoughFunds));
    assert_eq!(ctx, before);
}

#[test]
fn deposit_of_zero_is_turned_down_as_full() {
    let ctx = deposit_ctx(sample_pool(), ALICE, ALICE_WALLET, 99, None, 10);
    assert_eq!(stake_transfer(&ctx, 0), Err(ErrorCode::PoolIsFull));
}

#[test]
fn deposit_after_topup_fails_with_pool_is_locked() {
    for now in [100, 150, 200, 201, i64::MAX] {
        let mut ctx = deposit_ctx(staked_pool(10), ALICE, ALICE_WALLET, 500, None, now);
        let before = ctx;
        assert_eq!(stake_transfer(&ctx, 100), Err(ErrorCode::PoolIsLocked));
        assert_eq!(add_stake(&mut ctx, 100, 1, Ok(400)), Err(ErrorCode::PoolIsLocked));
        assert_eq!(ctx, before);
    }
}

#[test]
fn deposit_on_a_foreign_ticket_is_unauthorised() {
    let mut ctx = deposit_ctx(sample_pool(), ALICE, ALICE_WALLET, 500, Some(ticket_of(BOB, 5)), 10);
    assert_eq!(add_stake(&mut ctx, 100, 1, Ok(400)), Err(ErrorCode::InvalidAuthority));
    let mut other_pool = ticket_of(ALICE, 5);
    other_pool.pool = key(77);
    let mut ctx = deposit_ctx(sample_pool(), ALICE, ALICE_WALLET, 500, Some(other_pool), 10);
    assert_eq!(add_stake(&mut ctx, 100, 1, Ok(400)), Err(ErrorCode::InvalidAuthority));
}

#[test]
fn deposit_into_a_pool_above_its_target_is_an_overflow() {
    let ctx = deposit_ctx(staked_pool(1001), ALICE, ALICE_WALLET, 500, None, 10);
    assert_eq!(stake_transfer(&ctx, 100), Err(ErrorCode::IntegerOverflow));
}

#[test]
fn deposit_that_overflows_the_ticket_is_an_overflow() {
    let mut pool = sample_pool();
    pool.stake_target_amount = u64::MAX;
    let ctx = deposit_ctx(pool, ALICE, ALICE_WALLET, 500, Some(ticket_of(ALICE, u64::MAX - 5)), 10);
    assert_eq!(stake_transfer(&ctx, 6), Err(ErrorCode::IntegerOverflow));
    assert_eq!(stake_transfer(&ctx, 5).unwrap().amount, 5);
}

#[test]
fn transfer_of_another_amount_fails_the_deposit() {
    for after in [4001, 3999, 5000, 0, 6001, u64::MAX] {
        let mut ctx = deposit_ctx(sample_pool(), ALICE, ALICE_WALLET, 5000, None, 10);
        let before = ctx;
        assert_eq!(add_stake(&mut ctx, 1000, 7, Ok(after)), Err(ErrorCode::InvalidAmountTransferred));
        assert_eq!(ctx, before);
    }
}

#[test]
fn failed_transfer_fails_the_deposit() {
    let mut ctx = deposit_ctx(sample_pool(), ALICE, ALICE_WALLET, 5000, None, 10);
    let before = ctx;
    assert_eq!(
        add_stake(&mut ctx, 1000, 7, Err(TransferError::InsufficientBalance)),
        Err(ErrorCode::NotEnoughFunds)
    );
    assert_eq!(add_stake(&mut ctx, 1000, 7, Err(TransferError::Unauthorized)), Err(ErrorCode::InvalidAuthority));
    assert_eq!(ctx, before);
}

#[test]
fn guard_compares_the_balance_before_and_after() {
    let transfer =
        TokenTransfer { amount: 40, from: key(ALICE_WALLET), to: key(VAULT), amount_before: 100, signers: None };
    assert!(transfer.is_needed());
    assert_eq!(transfer.make(Ok(60)), Ok(()));
    assert_eq!(transfer.make(Ok(140)), Ok(()));
    assert_eq!(transfer.make(Ok(61)), Err(ErrorCode::InvalidAmountTransferred));
    assert_eq!(transfer.make(Ok(59)), Err(ErrorCode::InvalidAmountTransferred));
    assert_eq!(transfer.make(Ok(100)), Err(ErrorCode::InvalidAmountTransferred));
    assert_eq!(transfer.make(Err(TransferError::InsufficientBalance)), Err(ErrorCode::NotEnoughFunds));
    assert_eq!(transfer.make(Err(TransferError::Unauthorized)), Err(ErrorCode::InvalidAuthority));
    assert_eq!(transfer.settled_balance(Ok(60)), 60);
    assert_eq!(transfer.settled_balance(Err(TransferError::Unauthorized)), 100);
}

#[test]
fn guard_reads_no_report_for_a_transfer_of_zero() {
    let transfer =
        TokenTransfer { amount: 0, from: key(VAULT), to: key(ALICE_WALLET), amount_before: 100, signers: None };
    assert!(!transfer.is_needed());
    assert_eq!(transfer.make(Ok(3)), Ok(()));
    assert_eq!(transfer.make(Err(TransferError::Unauthorized)), Ok(()));
    assert_eq!(transfer.settled_balance(Ok(3)), 100);
}

#[test]
fn withdrawal_is_clamped_to_the_ticket() {
    let mut ctx = withdraw_ctx(staked_pool(1000), ALICE, ALICE_WALLET, 1000, Some(ticket_of(ALICE, 300)), 10);
    let asked = unstake_transfer(&ctx, 100).unwrap();
    assert_eq!(
        asked,
        TokenTransfer {
            amount: 100,
            from: key(VAULT),
            to: key(ALICE_WALLET),
            amount_before: 1000,
            signers: Some(PoolSeeds { pool: key(POOL), admin: key(ADMIN), bump: 254 }),
        }
    );
    assert_eq!(remove_stake(&mut ctx, 100, Ok(900)), Ok(()));
    assert_eq!(ctx.ticket, Some(ticket_of(ALICE, 200)));
    assert_eq!(ctx.pool.stake_acquired_amount, 900);
    assert_eq!(ctx.stake_vault_amount, 900);

    assert_eq!(unstake_transfer(&ctx, 5000).unwrap().amount, 200);
    assert_eq!(remove_stake(&mut ctx, 5000, Ok(700)), Ok(()));
    assert_eq!(ctx.ticket, None);
    assert_eq!(ctx.pool.stake_acquired_amount, 700);
}

#[test]
fn withdrawal_of_zero_changes_nothing() {
    let mut ctx = withdraw_ctx(staked_pool(1000), ALICE, ALICE_WALLET, 1000, Some(ticket_of(ALICE, 300)), 10);
    let before = ctx;
    assert_eq!(unstake_transfer(&ctx, 0).unwrap().amount, 0);
    assert_eq!(remove_stake(&mut ctx, 0, Ok(12345)), Ok(()));
    assert_eq!(ctx, before);
    assert_eq!(remove_stake(&mut ctx, 0, Err(TransferError::Unauthorized)), Ok(()));
    assert_eq!(ctx, before);
}

#[test]
fn withdrawal_after_topup_fails_with_pool_is_locked() {
    for now in [100, 101, 200, 201] {
        let mut ctx = withdraw_ctx(staked_pool(1000), ALICE, ALICE_WALLET, 1000, Some(ticket_of(ALICE, 300)), now);
        let before = ctx;
        assert_eq!(unstake_transfer(&ctx, 100), Err(ErrorCode::PoolIsLocked));
        assert_eq!(remove_stake(&mut ctx, 100, Ok(900)), Err(ErrorCode::PoolIsLocked));
        assert_eq!(remove_stake(&mut ctx, 0, Ok(1000)), Err(ErrorCode::PoolIsLocked));
        assert_eq!(ctx, before);
    }
}

#[test]
fn withdrawal_needs_the_callers_ticket() {
    let mut ctx = withdraw_ctx(staked_pool(1000), ALICE, ALICE_WALLET, 1000, None, 10);
    assert_eq!(remove_stake(&mut ctx, 100, Ok(900)), Err(ErrorCode::InvalidAuthority));
    let mut ctx = withdraw_ctx(staked_pool(1000), ALICE, ALICE_WALLET, 1000, Some(ticket_of(BOB, 300)), 10);
    assert_eq!(remove_stake(&mut ctx, 100, Ok(900)), Err(ErrorCode::InvalidAuthority));
}

#[test]
fn withdrawal_of_more_than_the_pool_acquired_is_an_overflow() {
    let mut ctx = withdraw_ctx(staked_pool(50), ALICE, ALICE_WALLET, 1000, Some(ticket_of(ALICE, 300)), 10);
    let before = ctx;
    assert_eq!(remove_stake(&mut ctx, 100, Ok(900)), Err(ErrorCode::IntegerOverflow));
    assert_eq!(ctx, before);
}

#[test]
fn transfer_of_another_amount_fails_the_withdrawal() {
    let mut ctx = withdraw_ctx(staked_pool(1000), ALICE, ALICE_WALLET, 1000, Some(ticket_of(ALICE, 300)), 10);
    let before = ctx;
    assert_eq!(remove_stake(&mut ctx, 100, Ok(901)), Err(ErrorCode::InvalidAmountTransferred));
    assert_eq!(remove_stake(&mut ctx, 100, Ok(1000)), Err(ErrorCode::InvalidAmountTransferred));
    assert_eq!(ctx, before);
}

#[test]
fn claim_needs_an_expired_pool_and_the_callers_ticket() {
    let pool = staked_pool(1000);
    let mut locked = claim_ctx(pool, ALICE, ALICE_WALLET, 1100, Some(ticket_of(ALICE, 300)), 100);
    assert_eq!(claim_reward(&mut locked, Ok(0)), Err(ErrorCode::PoolIsNotExpired));
    let mut topup = claim_ctx(pool, ALICE, ALICE_WALLET, 1100, Some(ticket_of(ALICE, 300)), 5);
    assert_eq!(claim_reward(&mut topup, Ok(0)), Err(ErrorCode::PoolIsNotExpired));
    let mut missing = claim_ctx(pool, ALICE, ALICE_WALLET, 1100, None, 201);
    assert_eq!(claim_reward(&mut missing, Ok(0)), Err(ErrorCode::InvalidAuthority));
    let mut foreign = claim_ctx(pool, ALICE, ALICE_WALLET, 1100, Some(ticket_of(BOB, 300)), 201);
    assert_eq!(claim_transfer(&foreign), Err(ErrorCode::InvalidAuthority));
    assert_eq!(claim_reward(&mut foreign, Ok(0)), Err(ErrorCode::InvalidAuthority));
}

#[test]
fn transfer_of_another_amount_fails_the_claim() {
    let mut ctx = claim_ctx(staked_pool(1000), ALICE, ALICE_WALLET, 1100, Some(ticket_of(ALICE, 1000)), 201);
    let before = ctx;
    assert_eq!(claim_reward(&mut ctx, Ok(1)), Err(ErrorCode::InvalidAmountTransferred));
    assert_eq!(claim_reward(&mut ctx, Err(TransferError::InsufficientBalance)), Err(ErrorCode::NotEnoughFunds));
    assert_eq!(ctx, before);
}

#[test]
fn claim_that_overflows_is_reported() {
    let mut pool = sample_pool();
    pool.stake_target_amount = u64::MAX;
    pool.stake_acquired_amount = u64::MAX;
    let mut ctx = claim_ctx(pool, ALICE, ALICE_WALLET, u64::MAX, Some(ticket_of(ALICE, u64::MAX)), 201);
    let before = ctx;
    assert_eq!(claim_transfer(&ctx), Err(ErrorCode::IntegerOverflow));
    assert_eq!(claim_reward(&mut ctx, Ok(0)), Err(ErrorCode::IntegerOverflow));
    assert_eq!(ctx, before);
}

#[test]
fn funding_is_clamped_to_budget_and_wallet() {
    let mut pool = sample_pool();
    pool.deposited_reward_amount = 60;
    let mut ctx = AddReward { pool, source_wallet: TokenAccount { key: key(ADMIN), amount: 500 }, now: 150 };
    let asked = reward_transfer(&ctx, 70).unwrap();
    assert_eq!(
        asked,
        TokenTransfer { amount: 40, from: key(ADMIN), to: key(VAULT), amount_before: 500, signers: None }
    );
    assert_eq!(add_reward(&mut ctx, 70, Ok(460)), Ok(()));
    assert_eq!(ctx.pool.deposited_reward_amount, 100);
    assert_eq!(ctx.source_wallet.amount, 460);
    assert!(ctx.pool.is_well_formed());

    let poor = AddReward { pool, source_wallet: TokenAccount { key: key(ADMIN), amount: 15 }, now: 200 };
    assert_eq!(reward_transfer(&poor, 70).unwrap().amount, 15);
    let modest = AddReward { pool, source_wallet: TokenAccount { key: key(ADMIN), amount: 500 }, now: 0 };
    assert_eq!(reward_transfer(&modest, 8).unwrap().amount, 8);
}

#[test]
fn funding_that_moves_nothing_has_not_enough_rewards() {
    let mut full = sample_pool();
    full.deposited_reward_amount = 100;
    let mut ctx = AddReward { pool: full, source_wallet: TokenAccount { key: key(ADMIN), amount: 500 }, now: 150 };
    let before = ctx;
    assert_eq!(add_reward(&mut ctx, 70, Ok(430)), Err(ErrorCode::NotEnoughRewards));
    assert_eq!(ctx, before);
    let empty = AddReward { pool: sample_pool(), source_wallet: TokenAccount { key: key(ADMIN), amount: 0 }, now: 1 };
    assert_eq!(reward_transfer(&empty, 70), Err(ErrorCode::NotEnoughRewards));
    let nothing = AddReward { pool: sample_pool(), source_wallet: TokenAccount { key: key(ADMIN), amount: 9 }, now: 1 };
    assert_eq!(reward_transfer(&nothing, 0), Err(ErrorCode::NotEnoughRewards));
    // The clamp is looked at before the phase.
    let late = AddReward { pool: full, source_wallet: TokenAccount { key: key(ADMIN), amount: 500 }, now: 201 };
    assert_eq!(reward_transfer(&late, 70), Err(ErrorCode::NotEnoughRewards));
}

#[test]
fn funding_after_expiry_fails_with_pool_is_expired() {
    let mut ctx =
        AddReward { pool: sample_pool(), source_wallet: TokenAccount { key: key(ADMIN), amount: 500 }, now: 201 };
    let before = ctx;
    assert_eq!(add_reward(&mut ctx, 70, Ok(430)), Err(ErrorCode::PoolIsExpired));
    assert_eq!(ctx, before);
    ctx.now = 200;
    assert_eq!(add_reward(&mut ctx, 70, Ok(430)), Ok(()));
}

#[test]
fn funding_of_an_overfunded_pool_is_an_overflow() {
    let mut pool = sample_pool();
    pool.deposited_reward_amount = 101;
    let ctx = AddReward { pool, source_wallet: TokenAccount { key: key(ADMIN), amount: 500 }, now: 1 };
    assert_eq!(reward_transfer(&ctx, 70), Err(ErrorCode::IntegerOverflow));
}

#[test]
fn transfer_of_another_amount_fails_the_funding() {
    let mut ctx =
        AddReward { pool: sample_pool(), source_wallet: TokenAccount { key: key(ADMIN), amount: 500 }, now: 1 };
    let before = ctx;
    assert_eq!(add_reward(&mut ctx, 70, Ok(431)), Err(ErrorCode::InvalidAmountTransferred));
    assert_eq!(add_reward(&mut ctx, 70, Ok(500)), Err(ErrorCode::InvalidAmountTransferred));
    assert_eq!(ctx, before);
}

#[test]
fn tickets_add_up_to_the_stake_acquired() {
    let mut pool = sample_pool();
    let mut tickets: Vec<Option<Ticket>> = vec![None, None];
    let stakers = [ALICE, BOB];
    let moves: [(usize, bool, u64); 6] =
        [(0, true, 300), (1, true, 500), (0, false, 100), (1, true, 900), (0, false, 200), (1, false, 50)];
    for (who, deposit, amount) in moves {
        if deposit {
            let mut ctx = deposit_ctx(pool, stakers[who], ALICE_WALLET, 10_000, tickets[who], 10);
            let moved = stake_transfer(&ctx, amount).unwrap().amount;
            assert_eq!(add_stake(&mut ctx, amount, 1, Ok(10_000 - moved)), Ok(()));
            pool = ctx.pool;
            tickets[who] = ctx.ticket;
        } else {
            let mut ctx = withdraw_ctx(pool, stakers[who], ALICE_WALLET, 10_000, tickets[who], 10);
            let moved = unstake_transfer(&ctx, amount).unwrap().amount;
            assert_eq!(remove_stake(&mut ctx, amount, Ok(10_000 - moved)), Ok(()));
            pool = ctx.pool;
            tickets[who] = ctx.ticket;
        }
        let total: u64 = tickets.iter().map(|t| t.map_or(0, |t| t.staked_amount)).sum();
        assert_eq!(total, pool.stake_acquired_amount);
        assert!(pool.is_well_formed());
    }
    assert_eq!(tickets[0], None);
    assert_eq!(pool.stake_acquired_amount, 750);
}

#[test]
fn reward_share_is_the_exact_share_or_one_less() {
    let cases: [(u64, u64, u64); 8] = [
        (300, 1000, 100),
        (700, 1000, 100),
        (1, 3, 90),
        (2, 3, 90),
        (1, 7, 7_000_000),
        (123_456_789, 987_654_321, 1_000_000_007),
        (u64::MAX / 3, u64::MAX, u64::MAX / 2),
        (5, 10, 1),
    ];
    for (staked, acquired, reward) in cases {
        let exact = (u128::from(staked) * u128::from(reward) / u128::from(acquired)) as u64;
        let paid = reward_payout(staked, acquired, reward).unwrap() - staked;
        assert!(paid == exact || paid + 1 == exact, "{} of {} with {}", staked, acquired, reward);
        assert!(paid <= reward);
    }
}

#[test]
fn sole_staker_is_owed_stake_and_reward() {
    assert_eq!(reward_payout(1, 1, 0), Ok(1));
    assert_eq!(reward_payout(3, 3, 1000), Ok(1003));
    assert_eq!(reward_payout(u64::MAX - 10, u64::MAX - 10, 10), Ok(u64::MAX));
    assert_eq!(reward_payout(u64::MAX - 10, u64::MAX - 10, 11), Err(ErrorCode::IntegerOverflow));
}

#[test]
fn claims_never_pay_out_more_than_stake_and_reward_together() {
    let stakes: [u64; 4] = [123, 456, 1, 420];
    let acquired: u64 = stakes.iter().sum();
    let reward: u64 = 777;
    let mut paid: u64 = 0;
    for staked in stakes {
        paid += reward_payout(staked, acquired, reward).unwrap();
    }
    assert!(paid <= acquired + reward);
    assert!(paid + 4 >= acquired + reward);
}
