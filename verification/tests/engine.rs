//! End-to-end tests of the four command handlers and the dispatcher,
//! driving the engine exactly as a host would: record handles in the
//! documented order, command buffers on the wire format, and custody
//! requests answered before commits.

use reward_ledger::custody::CustodyRequest;
use reward_ledger::error::ProcessError;
use reward_ledger::identity::{Identity, RecordHandle};
use reward_ledger::instruction::Command;
use reward_ledger::processor::{EngineConfig, Processor};
use reward_ledger::state::{GameInfo, Player, GAME_INFO_LEN, PLAYER_LEN};

fn id(b: u8) -> Identity {
    Identity::new(vec![b; 32]).unwrap()
}

fn cfg() -> EngineConfig {
    EngineConfig {
        program_id: id(9),
        token_program_id: id(8),
        custody_seed: b"game_seed".to_vec(),
    }
}

fn handle(key: u8, owner: u8, is_signer: bool, data: Vec<u8>) -> RecordHandle {
    RecordHandle { key: id(key), owner: id(owner), is_signer, data }
}

/// An initialized pool record slot with administrator `admin` and custody
/// account `custody`.
fn pool_slot(admin: u8, custody: u8) -> Vec<u8> {
    let g = GameInfo { is_initialized: true, admin: id(admin), spl_token_account: id(custody) };
    let mut buf = vec![0u8; GAME_INFO_LEN];
    g.pack_into_slice(&mut buf);
    buf
}

/// An initialized participant record slot.
fn player_slot(owner: u8, reward: u64, upline: Option<u8>) -> Vec<u8> {
    let p = Player {
        is_initialized: true,
        owner: id(owner),
        reward_to_claim: reward,
        upline: upline.map(id),
    };
    let mut buf = vec![0u8; PLAYER_LEN];
    p.pack_into_slice(&mut buf);
    buf
}

fn balance_of(slot: &[u8]) -> u64 {
    Player::unpack_from_slice(slot).unwrap().reward_to_claim
}

/// The delegate the host would derive for the engine's identity and seed.
fn expected_delegate() -> (Identity, u8) {
    let program = solana_program::pubkey::Pubkey::new_from_array([9u8; 32]);
    let (pda, bump) =
        solana_program::pubkey::Pubkey::find_program_address(&[b"game_seed"], &program);
    (Identity::new(pda.to_bytes().to_vec()).unwrap(), bump)
}

#[test]
fn init_instruction() {
    let cfg = cfg();
    // Handles: signing admin, pool record, pre-funded custody account
    // (owned by the custodian program), the custodian program.
    let mut accounts = vec![
        handle(1, 0, true, Vec::new()),
        handle(2, 9, false, vec![0u8; GAME_INFO_LEN]),
        handle(3, 8, false, Vec::new()),
        handle(8, 0, false, Vec::new()),
    ];

    let req = Processor::process_init(&cfg, &accounts).unwrap();
    let (delegate, _bump) = expected_delegate();
    match req {
        CustodyRequest::SetAuthority { account, current_authority, new_authority } => {
            assert_eq!(account, id(3));
            assert_eq!(current_authority, id(1));
            assert_eq!(new_authority, delegate);
        }
        other => panic!("expected a SetAuthority request, got {:?}", other),
    }

    // The request failed: nothing is committed.
    let res = Processor::commit_init(&mut accounts[1], &id(1), &id(3), false);
    assert_eq!(res.unwrap_err(), ProcessError::TransferFailed);
    assert_eq!(accounts[1].data, vec![0u8; GAME_INFO_LEN]);

    // The request succeeded: the pool record is committed.
    Processor::commit_init(&mut accounts[1], &id(1), &id(3), true).unwrap();
    let pool = GameInfo::unpack_from_slice(accounts[1].data.as_slice()).unwrap();
    assert!(pool.is_initialized);
    assert_eq!(pool.admin, id(1));
    assert_eq!(pool.spl_token_account, id(3));

    // A second initialization is refused.
    assert_eq!(
        Processor::process_init(&cfg, &accounts).unwrap_err(),
        ProcessError::AlreadyInitialized
    );
}

#[test]
fn init_validation_failures() {
    let cfg = cfg();
    let fresh = || {
        vec![
            handle(1, 0, true, Vec::new()),
            handle(2, 9, false, vec![0u8; GAME_INFO_LEN]),
            handle(3, 8, false, Vec::new()),
            handle(8, 0, false, Vec::new()),
        ]
    };

    // The administrator must sign.
    let mut unsigned = fresh();
    unsigned[0].is_signer = false;
    assert_eq!(
        Processor::process_init(&cfg, &unsigned).unwrap_err(),
        ProcessError::MissingAuthorization
    );

    // The pool record must be bound to this engine.
    let mut foreign_pool = fresh();
    foreign_pool[1].owner = id(7);
    assert_eq!(
        Processor::process_init(&cfg, &foreign_pool).unwrap_err(),
        ProcessError::WrongOwner
    );

    // The custody account must be owned by the custodian program.
    let mut foreign_custody = fresh();
    foreign_custody[2].owner = id(7);
    assert_eq!(
        Processor::process_init(&cfg, &foreign_custody).unwrap_err(),
        ProcessError::WrongOwner
    );

    // The custodian program handle must be the configured one.
    let mut wrong_token_program = fresh();
    wrong_token_program[3].key = id(7);
    assert_eq!(
        Processor::process_init(&cfg, &wrong_token_program).unwrap_err(),
        ProcessError::WrongOwner
    );

    // Too few handles.
    let mut two = fresh();
    two.truncate(2);
    assert_eq!(
        Processor::process_init(&cfg, &two).unwrap_err(),
        ProcessError::MissingRecordHandle
    );
}

#[test]
fn init_with_overlong_seed_finds_no_delegate() {
    // The host's derivation refuses seeds over its 32-byte cap, so no
    // custody delegate exists for such a configuration.
    let cfg = EngineConfig {
        program_id: id(9),
        token_program_id: id(8),
        custody_seed: vec![0u8; 33],
    };
    let accounts = vec![
        handle(1, 0, true, Vec::new()),
        handle(2, 9, false, vec![0u8; GAME_INFO_LEN]),
        handle(3, 8, false, Vec::new()),
        handle(8, 0, false, Vec::new()),
    ];
    assert_eq!(
        Processor::process_init(&cfg, &accounts).unwrap_err(),
        ProcessError::DelegateUnavailable
    );
}

#[test]
fn register_player() {
    let cfg = cfg();
    // Participant one registers without a referrer: signing holder, the
    // participant record slot, the pool record.
    let mut accounts = vec![
        handle(11, 0, true, Vec::new()),
        handle(21, 9, false, vec![0u8; PLAYER_LEN]),
        handle(2, 9, false, pool_slot(1, 3)),
    ];
    Processor::process_register(&cfg, &mut accounts).unwrap();
    let p1 = Player::unpack_from_slice(accounts[1].data.as_slice()).unwrap();
    assert!(p1.is_initialized);
    assert_eq!(p1.owner, id(11));
    assert_eq!(p1.reward_to_claim, 0);
    assert_eq!(p1.upline, None);

    // Participant two registers under participant one.
    let mut accounts2 = vec![
        handle(12, 0, true, Vec::new()),
        handle(22, 9, false, vec![0u8; PLAYER_LEN]),
        handle(2, 9, false, pool_slot(1, 3)),
        handle(21, 9, false, accounts[1].data.clone()),
    ];
    Processor::process_register(&cfg, &mut accounts2).unwrap();
    let p2 = Player::unpack_from_slice(accounts2[1].data.as_slice()).unwrap();
    assert_eq!(p2.owner, id(12));
    assert_eq!(p2.upline, Some(id(21)));

    // Registering the same record again is refused, with or without a
    // referrer in the command.
    let before = accounts2[1].data.clone();
    assert_eq!(
        Processor::process_register(&cfg, &mut accounts2).unwrap_err(),
        ProcessError::AlreadyInitialized
    );
    assert_eq!(accounts2[1].data, before);
}

#[test]
fn register_validation_failures() {
    let cfg = cfg();

    // The holder must sign.
    let mut unsigned = vec![
        handle(11, 0, false, Vec::new()),
        handle(21, 9, false, vec![0u8; PLAYER_LEN]),
        handle(2, 9, false, pool_slot(1, 3)),
    ];
    assert_eq!(
        Processor::process_register(&cfg, &mut unsigned).unwrap_err(),
        ProcessError::MissingAuthorization
    );

    // The participant record must be bound to this engine.
    let mut foreign = vec![
        handle(11, 0, true, Vec::new()),
        handle(21, 7, false, vec![0u8; PLAYER_LEN]),
        handle(2, 9, false, pool_slot(1, 3)),
    ];
    assert_eq!(
        Processor::process_register(&cfg, &mut foreign).unwrap_err(),
        ProcessError::WrongOwner
    );

    // A referrer handle equal to the participant record is refused.
    let mut own_upline = vec![
        handle(11, 0, true, Vec::new()),
        handle(21, 9, false, vec![0u8; PLAYER_LEN]),
        handle(2, 9, false, pool_slot(1, 3)),
        handle(21, 9, false, vec![0u8; PLAYER_LEN]),
    ];
    assert_eq!(
        Processor::process_register(&cfg, &mut own_upline).unwrap_err(),
        ProcessError::SelfReferral
    );

    // A participant slot of the wrong size cannot hold the record.
    let mut short_slot = vec![
        handle(11, 0, true, Vec::new()),
        handle(21, 9, false, vec![0u8; 10]),
        handle(2, 9, false, pool_slot(1, 3)),
    ];
    assert_eq!(
        Processor::process_register(&cfg, &mut short_slot).unwrap_err(),
        ProcessError::InvalidRecordData
    );

    // Too few handles.
    let mut two = vec![
        handle(11, 0, true, Vec::new()),
        handle(21, 9, false, vec![0u8; PLAYER_LEN]),
    ];
    assert_eq!(
        Processor::process_register(&cfg, &mut two).unwrap_err(),
        ProcessError::MissingRecordHandle
    );
}

#[test]
fn add_reward() {
    let cfg = cfg();
    // Distribute 100 to participant two, who registered under participant
    // one: 90 accrues to the participant, 10 to the referrer.
    let mut accounts = vec![
        handle(1, 0, true, Vec::new()),
        handle(2, 9, false, pool_slot(1, 3)),
        handle(22, 9, false, player_slot(12, 0, Some(21))),
        handle(21, 9, false, player_slot(11, 0, None)),
    ];
    Processor::process_add_reward(&cfg, &mut accounts, 100).unwrap();
    assert_eq!(balance_of(accounts[2].data.as_slice()), 90);
    assert_eq!(balance_of(accounts[3].data.as_slice()), 10);

    // Distribute 100 to participant one, who has no referrer: the full
    // amount accrues.
    let mut accounts_p1 = vec![
        handle(1, 0, true, Vec::new()),
        handle(2, 9, false, pool_slot(1, 3)),
        handle(21, 9, false, accounts[3].data.clone()),
    ];
    Processor::process_add_reward(&cfg, &mut accounts_p1, 100).unwrap();
    assert_eq!(balance_of(accounts_p1[2].data.as_slice()), 110);

    // Truncating split: 101 splits into 90 and 10, dropping one unit.
    let mut accounts_odd = vec![
        handle(1, 0, true, Vec::new()),
        handle(2, 9, false, pool_slot(1, 3)),
        handle(22, 9, false, player_slot(12, 0, Some(21))),
        handle(21, 9, false, player_slot(11, 0, None)),
    ];
    Processor::process_add_reward(&cfg, &mut accounts_odd, 101).unwrap();
    assert_eq!(balance_of(accounts_odd[2].data.as_slice()), 90);
    assert_eq!(balance_of(accounts_odd[3].data.as_slice()), 10);
}

#[test]
fn add_reward_validation_failures() {
    let cfg = cfg();
    let fresh = || {
        vec![
            handle(1, 0, true, Vec::new()),
            handle(2, 9, false, pool_slot(1, 3)),
            handle(22, 9, false, player_slot(12, 5, Some(21))),
            handle(21, 9, false, player_slot(11, 5, None)),
        ]
    };

    // The signer must be the pool's administrator.
    let mut not_admin = fresh();
    not_admin[0].key = id(4);
    assert_eq!(
        Processor::process_add_reward(&cfg, &mut not_admin, 100).unwrap_err(),
        ProcessError::Unauthorized
    );

    // The administrator must sign.
    let mut unsigned = fresh();
    unsigned[0].is_signer = false;
    assert_eq!(
        Processor::process_add_reward(&cfg, &mut unsigned, 100).unwrap_err(),
        ProcessError::MissingAuthorization
    );

    // The pool must be initialized.
    let mut uninit_pool = fresh();
    uninit_pool[1].data = vec![0u8; GAME_INFO_LEN];
    assert_eq!(
        Processor::process_add_reward(&cfg, &mut uninit_pool, 100).unwrap_err(),
        ProcessError::NotInitialized
    );

    // The participant must be registered.
    let mut uninit_player = fresh();
    uninit_player[2].data = vec![0u8; PLAYER_LEN];
    assert_eq!(
        Processor::process_add_reward(&cfg, &mut uninit_player, 100).unwrap_err(),
        ProcessError::NotInitialized
    );

    // The referrer handle must match the stored referrer.
    let mut wrong_upline = fresh();
    wrong_upline[3].key = id(5);
    assert_eq!(
        Processor::process_add_reward(&cfg, &mut wrong_upline, 100).unwrap_err(),
        ProcessError::InvalidUpline
    );

    // A referrer on record asks for a fourth handle.
    let mut missing_upline = fresh();
    missing_upline.truncate(3);
    assert_eq!(
        Processor::process_add_reward(&cfg, &mut missing_upline, 100).unwrap_err(),
        ProcessError::MissingRecordHandle
    );
}

#[test]
fn add_reward_overflow_leaves_both_balances() {
    let cfg = cfg();
    // The participant's accrual would overflow: nothing changes.
    let mut accounts = vec![
        handle(1, 0, true, Vec::new()),
        handle(2, 9, false, pool_slot(1, 3)),
        handle(22, 9, false, player_slot(12, u64::MAX - 10, Some(21))),
        handle(21, 9, false, player_slot(11, 7, None)),
    ];
    assert_eq!(
        Processor::process_add_reward(&cfg, &mut accounts, 100).unwrap_err(),
        ProcessError::RewardAmountOverflow
    );
    assert_eq!(balance_of(accounts[2].data.as_slice()), u64::MAX - 10);
    assert_eq!(balance_of(accounts[3].data.as_slice()), 7);

    // The referrer's accrual would overflow: nothing changes, not even the
    // participant's balance.
    let mut accounts2 = vec![
        handle(1, 0, true, Vec::new()),
        handle(2, 9, false, pool_slot(1, 3)),
        handle(22, 9, false, player_slot(12, 0, Some(21))),
        handle(21, 9, false, player_slot(11, u64::MAX - 5, None)),
    ];
    assert_eq!(
        Processor::process_add_reward(&cfg, &mut accounts2, 100).unwrap_err(),
        ProcessError::RewardAmountOverflow
    );
    assert_eq!(balance_of(accounts2[2].data.as_slice()), 0);
    assert_eq!(balance_of(accounts2[3].data.as_slice()), u64::MAX - 5);

    // Without a referrer the single accrual is checked too.
    let mut accounts3 = vec![
        handle(1, 0, true, Vec::new()),
        handle(2, 9, false, pool_slot(1, 3)),
        handle(21, 9, false, player_slot(11, u64::MAX, None)),
    ];
    assert_eq!(
        Processor::process_add_reward(&cfg, &mut accounts3, 1).unwrap_err(),
        ProcessError::RewardAmountOverflow
    );
    assert_eq!(balance_of(accounts3[2].data.as_slice()), u64::MAX);
}

#[test]
fn claim_reward() {
    let cfg = cfg();
    // Handles: signing owner, pool record, participant record, the pool's
    // custody account, the delegate's account, the claimant's destination
    // account, the custodian program.
    let (delegate, bump) = expected_delegate();
    let mut accounts = vec![
        handle(11, 0, true, Vec::new()),
        handle(2, 9, false, pool_slot(1, 3)),
        handle(21, 9, false, player_slot(11, 110, None)),
        handle(3, 8, false, Vec::new()),
        handle(0, 0, false, Vec::new()),
        handle(31, 8, false, Vec::new()),
        handle(8, 0, false, Vec::new()),
    ];
    let req = Processor::process_claim_reward(&cfg, &accounts).unwrap();
    match req {
        CustodyRequest::Transfer { source, destination, authority, authority_bump, amount } => {
            assert_eq!(source, id(3));
            assert_eq!(destination, id(31));
            assert_eq!(authority, delegate);
            assert_eq!(authority_bump, bump);
            assert_eq!(amount, 110);
        }
        other => panic!("expected a Transfer request, got {:?}", other),
    }
    // The balance stays untouched until the transfer is reported.
    assert_eq!(balance_of(accounts[2].data.as_slice()), 110);

    // A refused transfer commits nothing and fails the command.
    assert_eq!(
        Processor::commit_claim(&mut accounts[2], false).unwrap_err(),
        ProcessError::TransferFailed
    );
    assert_eq!(balance_of(accounts[2].data.as_slice()), 110);

    // A successful transfer zeroes the balance and keeps the rest.
    Processor::commit_claim(&mut accounts[2], true).unwrap();
    let after = Player::unpack_from_slice(accounts[2].data.as_slice()).unwrap();
    assert_eq!(after.reward_to_claim, 0);
    assert!(after.is_initialized);
    assert_eq!(after.owner, id(11));

    // With the balance at zero there is nothing to claim.
    assert_eq!(
        Processor::process_claim_reward(&cfg, &accounts).unwrap_err(),
        ProcessError::UnclaimableAmount
    );
}

#[test]
fn claim_validation_failures() {
    let cfg = cfg();
    let fresh = || {
        vec![
            handle(11, 0, true, Vec::new()),
            handle(2, 9, false, pool_slot(1, 3)),
            handle(21, 9, false, player_slot(11, 110, None)),
            handle(3, 8, false, Vec::new()),
            handle(0, 0, false, Vec::new()),
            handle(31, 8, false, Vec::new()),
            handle(8, 0, false, Vec::new()),
        ]
    };

    // A claim by anyone but the record's owner is refused, even though
    // every other field is valid.
    let mut thief = fresh();
    thief[0].key = id(12);
    assert_eq!(
        Processor::process_claim_reward(&cfg, &thief).unwrap_err(),
        ProcessError::Unauthorized
    );

    // The owner must sign.
    let mut unsigned = fresh();
    unsigned[0].is_signer = false;
    assert_eq!(
        Processor::process_claim_reward(&cfg, &unsigned).unwrap_err(),
        ProcessError::MissingAuthorization
    );

    // The custody handle must be the account bound at initialization.
    let mut wrong_custody = fresh();
    wrong_custody[3].key = id(4);
    assert_eq!(
        Processor::process_claim_reward(&cfg, &wrong_custody).unwrap_err(),
        ProcessError::InvalidRecordData
    );

    // The custodian program handle must be the configured one.
    let mut wrong_token_program = fresh();
    wrong_token_program[6].key = id(4);
    assert_eq!(
        Processor::process_claim_reward(&cfg, &wrong_token_program).unwrap_err(),
        ProcessError::WrongOwner
    );

    // The pool record is read strictly here: a malformed buffer is an
    // error, not a default.
    let mut garbled = fresh();
    garbled[1].data = vec![9u8; GAME_INFO_LEN];
    assert_eq!(
        Processor::process_claim_reward(&cfg, &garbled).unwrap_err(),
        ProcessError::InvalidRecordData
    );
}

#[test]
fn scenario_full_flow() {
    let cfg = cfg();
    let (delegate, _bump) = expected_delegate();

    // Initialize(admin = 1, custody = 3).
    let mut init_accounts = vec![
        handle(1, 0, true, Vec::new()),
        handle(2, 9, false, vec![0u8; GAME_INFO_LEN]),
        handle(3, 8, false, Vec::new()),
        handle(8, 0, false, Vec::new()),
    ];
    let req = Processor::process(&cfg, &mut init_accounts, &[0]).unwrap();
    match req {
        Some(CustodyRequest::SetAuthority { new_authority, .. }) => {
            assert_eq!(new_authority, delegate)
        }
        other => panic!("expected a SetAuthority request, got {:?}", other),
    }
    Processor::commit_init(&mut init_accounts[1], &id(1), &id(3), true).unwrap();
    let pool = init_accounts[1].data.clone();

    // Register(p1, referrer = None).
    let mut reg1 = vec![
        handle(11, 0, true, Vec::new()),
        handle(21, 9, false, vec![0u8; PLAYER_LEN]),
        handle(2, 9, false, pool.clone()),
    ];
    assert!(Processor::process(&cfg, &mut reg1, &[1]).unwrap().is_none());
    let p1 = reg1[1].data.clone();

    // Register(p2, referrer = p1).
    let mut reg2 = vec![
        handle(12, 0, true, Vec::new()),
        handle(22, 9, false, vec![0u8; PLAYER_LEN]),
        handle(2, 9, false, pool.clone()),
        handle(21, 9, false, p1.clone()),
    ];
    assert!(Processor::process(&cfg, &mut reg2, &[1]).unwrap().is_none());
    let p2 = reg2[1].data.clone();

    // DistributeReward(p2, 100): p1 accrues 10, p2 accrues 90.
    let mut add100 = Command::AddReward { reward_amount: 100 }.pack();
    let mut dist = vec![
        handle(1, 0, true, Vec::new()),
        handle(2, 9, false, pool.clone()),
        handle(22, 9, false, p2),
        handle(21, 9, false, p1),
    ];
    assert!(Processor::process(&cfg, &mut dist, add100.as_slice()).unwrap().is_none());
    assert_eq!(balance_of(dist[2].data.as_slice()), 90);
    assert_eq!(balance_of(dist[3].data.as_slice()), 10);
    let p1 = dist[3].data.clone();

    // DistributeReward(p1, 100): p1 accrues the full amount, to 110.
    add100 = Command::AddReward { reward_amount: 100 }.pack();
    let mut dist2 = vec![
        handle(1, 0, true, Vec::new()),
        handle(2, 9, false, pool.clone()),
        handle(21, 9, false, p1),
    ];
    assert!(Processor::process(&cfg, &mut dist2, add100.as_slice()).unwrap().is_none());
    assert_eq!(balance_of(dist2[2].data.as_slice()), 110);
    let p1 = dist2[2].data.clone();

    // Claim(p1): a transfer of 110 is requested, then the balance drops to
    // zero on the custodian's success.
    let mut claim = vec![
        handle(11, 0, true, Vec::new()),
        handle(2, 9, false, pool.clone()),
        handle(21, 9, false, p1),
        handle(3, 8, false, Vec::new()),
        handle(0, 0, false, Vec::new()),
        handle(31, 8, false, Vec::new()),
        handle(8, 0, false, Vec::new()),
    ];
    let req = Processor::process(&cfg, &mut claim, &[3]).unwrap();
    match req {
        Some(CustodyRequest::Transfer { amount, source, .. }) => {
            assert_eq!(amount, 110);
            assert_eq!(source, id(3));
        }
        other => panic!("expected a Transfer request, got {:?}", other),
    }
    Processor::commit_claim(&mut claim[2], true).unwrap();
    assert_eq!(balance_of(claim[2].data.as_slice()), 0);

    // An unrecognised command buffer is refused outright.
    assert_eq!(
        Processor::process(&cfg, &mut claim, &[7]).unwrap_err(),
        ProcessError::InvalidCommand
    );
}
