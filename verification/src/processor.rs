//! The state-transition engine: the four command handlers, their shared
//! validation chain, and the dispatcher that routes a decoded command.
//!
//! Every handler re-reads, mutates and re-persists whole records within one
//! command.  A failing check aborts the command with no mutation.  The two
//! handlers that direct the custodian (initialize and claim) first validate
//! and return the request to perform; the host performs it and then commits
//! the record mutation through the matching `commit` function, so a refused
//! request commits nothing.

use vstd::prelude::*;

use crate::custody::{delegate_of, derive_custody_delegate, CustodyRequest, CustodyRequestView};
use crate::error::ProcessError;
use crate::identity::{Identity, RecordHandle};
use crate::instruction::{command_dec, Command};
use crate::state::{
    game_dec, game_dec_tolerant, game_enc, player_dec, player_dec_tolerant, player_enc, GameInfo,
    GameRecView, Player, PlayerRecView, GAME_INFO_LEN, PLAYER_LEN,
};

verus! {

/// The engine's fixed configuration, passed in at construction rather than
/// held in module-level constants: the engine's own identity, the identity
/// of the external custodian program, and the seed the custody delegate is
/// derived from.
#[derive(Debug)]
pub struct EngineConfig {
    /// The ledger engine's own program identity.
    pub program_id: Identity,
    /// The external custodian program's identity.
    pub token_program_id: Identity,
    /// The fixed seed the custody delegate is derived from.
    pub custody_seed: Vec<u8>,
}

/// The share of a distributed amount that accrues to the participant:
/// 90 percent, truncated by integer division.
pub open spec fn participant_share(amount: u64) -> int {
    amount * 90 / 100
}

/// The share of a distributed amount that accrues to the referrer:
/// 10 percent, truncated by integer division.
pub open spec fn referrer_share(amount: u64) -> int {
    amount * 10 / 100
}

/// Whether `post` is `pre` with exactly the record at `i` rewritten to hold
/// `data`, all its other fields kept.
pub open spec fn only_data_updated(
    pre: Seq<RecordHandle>,
    post: Seq<RecordHandle>,
    i: int,
    data: Seq<u8>,
) -> bool {
    &&& post.len() == pre.len()
    &&& forall|j: int| 0 <= j < pre.len() && j != i ==> post[j] == pre[j]
    &&& post[i].key == pre[i].key
    &&& post[i].owner == pre[i].owner
    &&& post[i].is_signer == pre[i].is_signer
    &&& post[i].data@ == data
}

/// Whether `post` is `pre` with exactly the records at `i` and `j` rewritten
/// to hold `data_i` and `data_j`, all their other fields kept.
pub open spec fn only_data_updated_2(
    pre: Seq<RecordHandle>,
    post: Seq<RecordHandle>,
    i: int,
    data_i: Seq<u8>,
    j: int,
    data_j: Seq<u8>,
) -> bool {
    &&& post.len() == pre.len()
    &&& forall|k: int| 0 <= k < pre.len() && k != i && k != j ==> post[k] == pre[k]
    &&& post[i].key == pre[i].key
    &&& post[i].owner == pre[i].owner
    &&& post[i].is_signer == pre[i].is_signer
    &&& post[i].data@ == data_i
    &&& post[j].key == pre[j].key
    &&& post[j].owner == pre[j].owner
    &&& post[j].is_signer == pre[j].is_signer
    &&& post[j].data@ == data_j
}

/// The registration transition.  Record handles stand in the documented
/// order: the signing participant, the participant record to initialize,
/// the pool record, and optionally the referrer's participant record; a
/// referrer is supplied exactly when four handles are presented.  The first
/// failing check decides the error.
pub open spec fn spec_register(cfg: EngineConfig, accounts: Seq<RecordHandle>) -> Result<
    PlayerRecView,
    ProcessError,
> {
    if accounts.len() < 1 {
        Err(ProcessError::MissingRecordHandle)
    } else if !accounts[0].is_signer {
        Err(ProcessError::MissingAuthorization)
    } else if accounts.len() < 2 {
        Err(ProcessError::MissingRecordHandle)
    } else if accounts[1].owner@ != cfg.program_id@ {
        Err(ProcessError::WrongOwner)
    } else if player_dec_tolerant(accounts[1].data@).is_initialized {
        Err(ProcessError::AlreadyInitialized)
    } else if accounts.len() < 3 {
        Err(ProcessError::MissingRecordHandle)
    } else if accounts[2].owner@ != cfg.program_id@ {
        Err(ProcessError::WrongOwner)
    } else if accounts.len() == 4 && accounts[3].owner@ != cfg.program_id@ {
        Err(ProcessError::WrongOwner)
    } else if accounts.len() == 4 && accounts[3].key@ == accounts[1].key@ {
        Err(ProcessError::SelfReferral)
    } else if accounts[1].data@.len() != PLAYER_LEN {
        Err(ProcessError::InvalidRecordData)
    } else {
        Ok(
            PlayerRecView {
                is_initialized: true,
                owner: accounts[0].key@,
                reward_to_claim: 0u64,
                upline: if accounts.len() == 4 {
                    Some(accounts[3].key@)
                } else {
                    None
                },
            },
        )
    }
}

/// The distribution transition.  Record handles stand in the documented
/// order: the signing administrator, the pool record, the participant
/// record, and — exactly when the participant has a referrer — the
/// referrer's participant record.  The first failing check decides the
/// error.
pub open spec fn spec_add_reward(
    cfg: EngineConfig,
    accounts: Seq<RecordHandle>,
    reward_amount: u64,
) -> Result<(PlayerRecView, Option<PlayerRecView>), ProcessError> {
    if accounts.len() < 1 {
        Err(ProcessError::MissingRecordHandle)
    } else if !accounts[0].is_signer {
        Err(ProcessError::MissingAuthorization)
    } else if accounts.len() < 2 {
        Err(ProcessError::MissingRecordHandle)
    } else if accounts[1].owner@ != cfg.program_id@ {
        Err(ProcessError::WrongOwner)
    } else if accounts.len() < 3 {
        Err(ProcessError::MissingRecordHandle)
    } else if accounts[2].owner@ != cfg.program_id@ {
        Err(ProcessError::WrongOwner)
    } else if !game_dec_tolerant(accounts[1].data@).is_initialized {
        Err(ProcessError::NotInitialized)
    } else if game_dec_tolerant(accounts[1].data@).admin != accounts[0].key@ {
        Err(ProcessError::Unauthorized)
    } else if !player_dec_tolerant(accounts[2].data@).is_initialized {
        Err(ProcessError::NotInitialized)
    } else {
        let p = player_dec_tolerant(accounts[2].data@);
        match p.upline {
            Some(stored_upline) => {
                if accounts.len() < 4 {
                    Err(ProcessError::MissingRecordHandle)
                } else if accounts[3].owner@ != cfg.program_id@ {
                    Err(ProcessError::WrongOwner)
                } else if !player_dec_tolerant(accounts[3].data@).is_initialized {
                    Err(ProcessError::NotInitialized)
                } else if accounts[3].key@ != stored_upline {
                    Err(ProcessError::InvalidUpline)
                } else {
                    let u = player_dec_tolerant(accounts[3].data@);
                    if p.reward_to_claim + participant_share(reward_amount) > u64::MAX {
                        Err(ProcessError::RewardAmountOverflow)
                    } else if u.reward_to_claim + referrer_share(reward_amount) > u64::MAX {
                        Err(ProcessError::RewardAmountOverflow)
                    } else {
                        Ok(
                            (
                                PlayerRecView {
                                    reward_to_claim: (p.reward_to_claim + participant_share(
                                        reward_amount,
                                    )) as u64,
                                    ..p
                                },
                                Some(
                                    PlayerRecView {
                                        reward_to_claim: (u.reward_to_claim + referrer_share(
                                            reward_amount,
                                        )) as u64,
                                        ..u
                                    },
                                ),
                            ),
                        )
                    }
                }
            },
            None => {
                if p.reward_to_claim + reward_amount > u64::MAX {
                    Err(ProcessError::RewardAmountOverflow)
                } else {
                    Ok(
                        (
                            PlayerRecView {
                                reward_to_claim: (p.reward_to_claim + reward_amount) as u64,
                                ..p
                            },
                            None,
                        ),
                    )
                }
            },
        }
    }
}

/// The initialization transition.  Record handles stand in the documented
/// order: the signing administrator, the pool record, the pre-funded
/// custody account, and the custodian program.  The first failing check
/// decides the error.  On success the engine asks the host to reassign the
/// custody account's control authority to the engine's derived delegate;
/// the pool record is committed only after that request succeeds.
pub open spec fn spec_init(cfg: EngineConfig, accounts: Seq<RecordHandle>) -> Result<
    CustodyRequestView,
    ProcessError,
> {
    if accounts.len() < 1 {
        Err(ProcessError::MissingRecordHandle)
    } else if !accounts[0].is_signer {
        Err(ProcessError::MissingAuthorization)
    } else if accounts.len() < 2 {
        Err(ProcessError::MissingRecordHandle)
    } else if accounts[1].owner@ != cfg.program_id@ {
        Err(ProcessError::WrongOwner)
    } else if game_dec_tolerant(accounts[1].data@).is_initialized {
        Err(ProcessError::AlreadyInitialized)
    } else if accounts.len() < 3 {
        Err(ProcessError::MissingRecordHandle)
    } else if accounts[2].owner@ != cfg.token_program_id@ {
        Err(ProcessError::WrongOwner)
    } else if delegate_of(cfg.program_id@, cfg.custody_seed@) is None {
        Err(ProcessError::DelegateUnavailable)
    } else if accounts.len() < 4 {
        Err(ProcessError::MissingRecordHandle)
    } else if accounts[3].key@ != cfg.token_program_id@ {
        Err(ProcessError::WrongOwner)
    } else {
        Ok(
            CustodyRequestView::SetAuthority {
                account: accounts[2].key@,
                current_authority: accounts[0].key@,
                new_authority: delegate_of(cfg.program_id@, cfg.custody_seed@)->Some_0.0,
            },
        )
    }
}

/// The claim transition.  Record handles stand in the documented order: the
/// signing owner, the pool record, the participant record, the pool's
/// custody account, the derived delegate's account, the claimant's
/// destination account, and the custodian program.  The first failing check
/// decides the error.  On success the engine asks the host to transfer the
/// whole reward balance; the balance is zeroed only after that request
/// succeeds.
pub open spec fn spec_claim(cfg: EngineConfig, accounts: Seq<RecordHandle>) -> Result<
    CustodyRequestView,
    ProcessError,
> {
    if accounts.len() < 1 {
        Err(ProcessError::MissingRecordHandle)
    } else if !accounts[0].is_signer {
        Err(ProcessError::MissingAuthorization)
    } else if accounts.len() < 2 {
        Err(ProcessError::MissingRecordHandle)
    } else if accounts[1].owner@ != cfg.program_id@ {
        Err(ProcessError::WrongOwner)
    } else if game_dec(accounts[1].data@) is None {
        Err(ProcessError::InvalidRecordData)
    } else if !game_dec(accounts[1].data@)->Some_0.is_initialized {
        Err(ProcessError::NotInitialized)
    } else if accounts.len() < 3 {
        Err(ProcessError::MissingRecordHandle)
    } else if accounts[2].owner@ != cfg.program_id@ {
        Err(ProcessError::WrongOwner)
    } else if player_dec(accounts[2].data@) is None {
        Err(ProcessError::InvalidRecordData)
    } else if !player_dec(accounts[2].data@)->Some_0.is_initialized {
        Err(ProcessError::NotInitialized)
    } else if player_dec(accounts[2].data@)->Some_0.owner != accounts[0].key@ {
        Err(ProcessError::Unauthorized)
    } else if player_dec(accounts[2].data@)->Some_0.reward_to_claim == 0 {
        Err(ProcessError::UnclaimableAmount)
    } else if accounts.len() < 5 {
        Err(ProcessError::MissingRecordHandle)
    } else if delegate_of(cfg.program_id@, cfg.custody_seed@) is None {
        Err(ProcessError::DelegateUnavailable)
    } else if accounts[3].key@ != game_dec(accounts[1].data@)->Some_0.spl_token_account {
        Err(ProcessError::InvalidRecordData)
    } else if accounts.len() < 7 {
        Err(ProcessError::MissingRecordHandle)
    } else if accounts[6].key@ != cfg.token_program_id@ {
        Err(ProcessError::WrongOwner)
    } else {
        Ok(
            CustodyRequestView::Transfer {
                source: accounts[3].key@,
                destination: accounts[5].key@,
                authority: delegate_of(cfg.program_id@, cfg.custody_seed@)->Some_0.0,
                authority_bump: delegate_of(cfg.program_id@, cfg.custody_seed@)->Some_0.1,
                amount: player_dec(accounts[2].data@)->Some_0.reward_to_claim,
            },
        )
    }
}

/// Law: the two truncated shares never exceed the distributed amount, and
/// together they fall short of it by at most one unit — the change dropped
/// by dividing twice, which is deliberate wire-level behaviour.
pub proof fn lemma_split_conserves(amount: u64)
    ensures
        participant_share(amount) + referrer_share(amount) <= amount,
        amount - 1 <= participant_share(amount) + referrer_share(amount),
{
    let a = amount as int;
    vstd::arithmetic::div_mod::lemma_fundamental_div_mod(a * 90, 100);
    vstd::arithmetic::div_mod::lemma_fundamental_div_mod(a * 10, 100);
    vstd::arithmetic::div_mod::lemma_mod_bound(a * 90, 100);
    vstd::arithmetic::div_mod::lemma_mod_bound(a * 10, 100);
}

/// Both shares of a distributed amount stay within the amount itself.
proof fn lemma_share_bounds(amount: u64)
    ensures
        0 <= participant_share(amount) <= amount,
        0 <= referrer_share(amount) <= amount,
{
    assert(amount * 90 <= amount * 100) by (nonlinear_arith);
    assert(amount * 10 <= amount * 100) by (nonlinear_arith);
    vstd::arithmetic::div_mod::lemma_div_is_ordered(amount * 90, amount * 100, 100);
    vstd::arithmetic::div_mod::lemma_div_is_ordered(amount * 10, amount * 100, 100);
    vstd::arithmetic::div_mod::lemma_div_multiples_vanish(amount as int, 100);
    vstd::arithmetic::div_mod::lemma_div_pos_is_pos(amount * 90, 100);
    vstd::arithmetic::div_mod::lemma_div_pos_is_pos(amount * 10, 100);
}

/// The participant's 90-percent share, computed without overflow.
fn participant_share_of(amount: u64) -> (r: u64)
    ensures
        r == participant_share(amount),
{
    proof {
        lemma_share_bounds(amount);
    }
    let wide: u128 = (amount as u128) * 90;
    (wide / 100) as u64
}

/// The referrer's 10-percent share, computed without overflow.
fn referrer_share_of(amount: u64) -> (r: u64)
    ensures
        r == referrer_share(amount),
{
    proof {
        lemma_share_bounds(amount);
    }
    let wide: u128 = (amount as u128) * 10;
    (wide / 100) as u64
}

/// The state-transition engine.
pub struct Processor;

impl Processor {
    /// Registers the signing participant: binds the caller as owner, zeroes
    /// the reward balance, and fixes the optional referrer, all in one
    /// write.  A referrer is supplied exactly when four handles are
    /// presented.  On any failure no record changes.
    pub fn process_register(cfg: &EngineConfig, accounts: &mut Vec<RecordHandle>) -> (r: Result<
        (),
        ProcessError,
    >)
        ensures
            match spec_register(*cfg, old(accounts)@) {
                Ok(pv) => r is Ok && only_data_updated(
                    old(accounts)@,
                    final(accounts)@,
                    1,
                    player_enc(pv),
                ),
                Err(e) => r == Err::<(), ProcessError>(e) && final(accounts)@ == old(accounts)@,
            },
    {
        let n: usize = accounts.len();
        if n < 1 {
            return Err(ProcessError::MissingRecordHandle);
        }
        if !accounts[0].is_signer {
            return Err(ProcessError::MissingAuthorization);
        }
        if n < 2 {
            return Err(ProcessError::MissingRecordHandle);
        }
        if !(accounts[1].owner == cfg.program_id) {
            return Err(ProcessError::WrongOwner);
        }
        let player_data = Player::unpack_unchecked(accounts[1].data.as_slice());
        if player_data.is_initialized() {
            return Err(ProcessError::AlreadyInitialized);
        }
        if n < 3 {
            return Err(ProcessError::MissingRecordHandle);
        }
        if !(accounts[2].owner == cfg.program_id) {
            return Err(ProcessError::WrongOwner);
        }
        let upline: Option<Identity> = if n == 4 {
            if !(accounts[3].owner == cfg.program_id) {
                return Err(ProcessError::WrongOwner);
            }
            if accounts[3].key == accounts[1].key {
                return Err(ProcessError::SelfReferral);
            }
            Some(accounts[3].key.dup())
        } else {
            None
        };
        let new_player = Player {
            is_initialized: true,
            owner: accounts[0].key.dup(),
            reward_to_claim: 0u64,
            upline,
        };
        let slot = &mut accounts[1];
        let res = new_player.pack(&mut slot.data);
        match res {
            Ok(()) => {
                proof {
                    assert(only_data_updated(
                        old(accounts)@,
                        accounts@,
                        1,
                        player_enc(spec_register(*cfg, old(accounts)@)->Ok_0),
                    ));
                }
                Ok(())
            },
            Err(e) => {
                proof {
                    assert(accounts@ =~= old(accounts)@);
                }
                Err(e)
            },
        }
    }

    /// Decodes a command buffer and routes it to its handler: the engine's
    /// sole entry point.  Registration and distribution mutate records in
    /// place and return no request; initialization and claim mutate nothing
    /// and return the custody request the host must perform before
    /// committing through the matching `commit` function.  An unrecognised
    /// buffer, like any failing check, changes nothing.
    pub fn process(
        cfg: &EngineConfig,
        accounts: &mut Vec<RecordHandle>,
        instruction_data: &[u8],
    ) -> (r: Result<Option<CustodyRequest>, ProcessError>)
        ensures
            match command_dec(instruction_data@) {
                None => r matches Err(e) && e == ProcessError::InvalidCommand && final(accounts)@
                    == old(accounts)@,
                Some(Command::Init) => final(accounts)@ == old(accounts)@ && match spec_init(
                    *cfg,
                    old(accounts)@,
                ) {
                    Ok(reqv) => r matches Ok(Some(req)) && req@ == reqv,
                    Err(e) => r matches Err(e2) && e2 == e,
                },
                Some(Command::Register) => match spec_register(*cfg, old(accounts)@) {
                    Ok(pv) => r matches Ok(o) && o is None && only_data_updated(
                        old(accounts)@,
                        final(accounts)@,
                        1,
                        player_enc(pv),
                    ),
                    Err(e) => r matches Err(e2) && e2 == e && final(accounts)@ == old(accounts)@,
                },
                Some(Command::AddReward { reward_amount }) => match spec_add_reward(
                    *cfg,
                    old(accounts)@,
                    reward_amount,
                ) {
                    Ok((pv, uv)) => r matches Ok(o) && o is None && match uv {
                        Some(uv) => only_data_updated_2(
                            old(accounts)@,
                            final(accounts)@,
                            2,
                            player_enc(pv),
                            3,
                            player_enc(uv),
                        ),
                        None => only_data_updated(
                            old(accounts)@,
                            final(accounts)@,
                            2,
                            player_enc(pv),
                        ),
                    },
                    Err(e) => r matches Err(e2) && e2 == e && final(accounts)@ == old(accounts)@,
                },
                Some(Command::Claim) => final(accounts)@ == old(accounts)@ && match spec_claim(
                    *cfg,
                    old(accounts)@,
                ) {
                    Ok(reqv) => r matches Ok(Some(req)) && req@ == reqv,
                    Err(e) => r matches Err(e2) && e2 == e,
                },
            },
    {
        let command = match Command::unpack(instruction_data) {
            Ok(c) => c,
            Err(e) => {
                return Err(ProcessError::from(e));
            },
        };
        match command {
            Command::Init => {
                match Self::process_init(cfg, accounts) {
                    Ok(req) => Ok(Some(req)),
                    Err(e) => Err(e),
                }
            },
            Command::Register => {
                match Self::process_register(cfg, accounts) {
                    Ok(()) => Ok(None),
                    Err(e) => Err(e),
                }
            },
            Command::AddReward { reward_amount } => {
                match Self::process_add_reward(cfg, accounts, reward_amount) {
                    Ok(()) => Ok(None),
                    Err(e) => Err(e),
                }
            },
            Command::Claim => {
                match Self::process_claim_reward(cfg, accounts) {
                    Ok(req) => Ok(Some(req)),
                    Err(e) => Err(e),
                }
            },
        }
    }

    /// Validates an initialization and returns the custody request to
    /// perform: reassign the custody account's control authority to the
    /// engine's derived delegate, signed by the administrator.  No record
    /// changes here; after the host reports the request's outcome, the pool
    /// record is committed through [`Processor::commit_init`].
    pub fn process_init(cfg: &EngineConfig, accounts: &Vec<RecordHandle>) -> (r: Result<
        CustodyRequest,
        ProcessError,
    >)
        ensures
            match spec_init(*cfg, accounts@) {
                Ok(reqv) => r matches Ok(req) && req@ == reqv,
                Err(e) => r matches Err(e2) && e2 == e,
            },
    {
        let n: usize = accounts.len();
        if n < 1 {
            return Err(ProcessError::MissingRecordHandle);
        }
        if !accounts[0].is_signer {
            return Err(ProcessError::MissingAuthorization);
        }
        if n < 2 {
            return Err(ProcessError::MissingRecordHandle);
        }
        if !(accounts[1].owner == cfg.program_id) {
            return Err(ProcessError::WrongOwner);
        }
        let game = GameInfo::unpack_unchecked(accounts[1].data.as_slice());
        if game.is_initialized() {
            return Err(ProcessError::AlreadyInitialized);
        }
        if n < 3 {
            return Err(ProcessError::MissingRecordHandle);
        }
        if !(accounts[2].owner == cfg.token_program_id) {
            return Err(ProcessError::WrongOwner);
        }
        let delegate = derive_custody_delegate(&cfg.program_id, cfg.custody_seed.as_slice());
        let (delegate_id, _bump) = match delegate {
            Some(pair) => pair,
            None => {
                return Err(ProcessError::DelegateUnavailable);
            },
        };
        if n < 4 {
            return Err(ProcessError::MissingRecordHandle);
        }
        if !(accounts[3].key == cfg.token_program_id) {
            return Err(ProcessError::WrongOwner);
        }
        Ok(
            CustodyRequest::SetAuthority {
                account: accounts[2].key.dup(),
                current_authority: accounts[0].key.dup(),
                new_authority: delegate_id,
            },
        )
    }

    /// Commits an initialization once the host reports the authority
    /// reassignment's outcome: on success writes the initialized pool
    /// record, binding the administrator and the custody account; on a
    /// refused request, or a pool slot of the wrong size, changes nothing
    /// and fails.
    pub fn commit_init(
        pool: &mut RecordHandle,
        admin: &Identity,
        custody_account: &Identity,
        authority_assigned: bool,
    ) -> (r: Result<(), ProcessError>)
        ensures
            !authority_assigned ==> r == Err::<(), ProcessError>(ProcessError::TransferFailed)
                && *final(pool) == *old(pool),
            authority_assigned && old(pool).data@.len() != GAME_INFO_LEN ==> r == Err::<
                (),
                ProcessError,
            >(ProcessError::InvalidRecordData) && *final(pool) == *old(pool),
            authority_assigned && old(pool).data@.len() == GAME_INFO_LEN ==> r is Ok && final(pool).key == old(pool).key && final(pool).owner == old(pool).owner && final(pool).is_signer
                == old(pool).is_signer && final(pool).data@ == game_enc(
                GameRecView {
                    is_initialized: true,
                    admin: admin@,
                    spl_token_account: custody_account@,
                },
            ),
    {
        if !authority_assigned {
            return Err(ProcessError::TransferFailed);
        }
        let record = GameInfo {
            is_initialized: true,
            admin: admin.dup(),
            spl_token_account: custody_account.dup(),
        };
        record.pack(&mut pool.data)
    }

    /// Validates a claim and returns the custody request to perform:
    /// transfer the whole reward balance from the pool's custody account to
    /// the claimant's destination account, authorized by the engine's
    /// derived delegate.  No record changes here; after the host reports
    /// the request's outcome, the balance is committed through
    /// [`Processor::commit_claim`].
    pub fn process_claim_reward(cfg: &EngineConfig, accounts: &Vec<RecordHandle>) -> (r: Result<
        CustodyRequest,
        ProcessError,
    >)
        ensures
            match spec_claim(*cfg, accounts@) {
                Ok(reqv) => r matches Ok(req) && req@ == reqv,
                Err(e) => r matches Err(e2) && e2 == e,
            },
    {
        let n: usize = accounts.len();
        if n < 1 {
            return Err(ProcessError::MissingRecordHandle);
        }
        if !accounts[0].is_signer {
            return Err(ProcessError::MissingAuthorization);
        }
        if n < 2 {
            return Err(ProcessError::MissingRecordHandle);
        }
        if !(accounts[1].owner == cfg.program_id) {
            return Err(ProcessError::WrongOwner);
        }
        let game = match GameInfo::unpack(accounts[1].data.as_slice()) {
            Ok(g) => g,
            Err(e) => {
                return Err(e);
            },
        };
        if n < 3 {
            return Err(ProcessError::MissingRecordHandle);
        }
        if !(accounts[2].owner == cfg.program_id) {
            return Err(ProcessError::WrongOwner);
        }
        let player = match Player::unpack(accounts[2].data.as_slice()) {
            Ok(p) => p,
            Err(e) => {
                return Err(e);
            },
        };
        if !(player.owner == accounts[0].key) {
            return Err(ProcessError::Unauthorized);
        }
        if player.reward_to_claim == 0 {
            return Err(ProcessError::UnclaimableAmount);
        }
        if n < 5 {
            return Err(ProcessError::MissingRecordHandle);
        }
        let delegate = derive_custody_delegate(&cfg.program_id, cfg.custody_seed.as_slice());
        let (delegate_id, bump) = match delegate {
            Some(pair) => pair,
            None => {
                return Err(ProcessError::DelegateUnavailable);
            },
        };
        if !(accounts[3].key == game.spl_token_account) {
            return Err(ProcessError::InvalidRecordData);
        }
        if n < 7 {
            return Err(ProcessError::MissingRecordHandle);
        }
        if !(accounts[6].key == cfg.token_program_id) {
            return Err(ProcessError::WrongOwner);
        }
        Ok(
            CustodyRequest::Transfer {
                source: accounts[3].key.dup(),
                destination: accounts[5].key.dup(),
                authority: delegate_id,
                authority_bump: bump,
                amount: player.reward_to_claim,
            },
        )
    }

    /// Commits a claim once the host reports the transfer's outcome: the
    /// reward balance is zeroed exactly when the transfer succeeded.  On a
    /// refused transfer, or a participant buffer the strict decoding
    /// refuses, changes nothing and fails.
    pub fn commit_claim(player: &mut RecordHandle, transfer_succeeded: bool) -> (r: Result<
        (),
        ProcessError,
    >)
        ensures
            !transfer_succeeded ==> r == Err::<(), ProcessError>(ProcessError::TransferFailed)
                && *final(player) == *old(player),
            transfer_succeeded && player_dec(old(player).data@) is None ==> r == Err::<
                (),
                ProcessError,
            >(ProcessError::InvalidRecordData) && *final(player) == *old(player),
            transfer_succeeded && player_dec(old(player).data@) is Some ==> r is Ok && final(player).key == old(player).key && final(player).owner == old(player).owner && final(player).is_signer == old(player).is_signer && final(player).data@ == player_enc(
                PlayerRecView { reward_to_claim: 0u64, ..player_dec(old(player).data@)->Some_0 },
            ),
    {
        if !transfer_succeeded {
            return Err(ProcessError::TransferFailed);
        }
        let mut rec = match Player::unpack_from_slice(player.data.as_slice()) {
            Ok(p) => p,
            Err(e) => {
                return Err(e);
            },
        };
        rec.reward_to_claim = 0;
        let res = rec.pack(&mut player.data);
        match res {
            Ok(()) => Ok(()),
            Err(_) => {
                proof {
                    assert(false);
                }
                Err(ProcessError::InvalidRecordData)
            },
        }
    }

    /// Distributes a reward under the administrator's signature.  With a
    /// referrer on record, the matching referrer handle must be presented
    /// and the amount splits 90 percent to the participant and 10 percent
    /// to the referrer, each by truncating integer division; without one,
    /// the full amount accrues to the participant.  Accruals are
    /// overflow-checked, and on any failure no record changes.
    pub fn process_add_reward(
        cfg: &EngineConfig,
        accounts: &mut Vec<RecordHandle>,
        reward_amount: u64,
    ) -> (r: Result<(), ProcessError>)
        ensures
            match spec_add_reward(*cfg, old(accounts)@, reward_amount) {
                Ok((pv, uv)) => r is Ok && match uv {
                    Some(uv) => only_data_updated_2(
                        old(accounts)@,
                        final(accounts)@,
                        2,
                        player_enc(pv),
                        3,
                        player_enc(uv),
                    ),
                    None => only_data_updated(old(accounts)@, final(accounts)@, 2, player_enc(pv)),
                },
                Err(e) => r == Err::<(), ProcessError>(e) && final(accounts)@ == old(accounts)@,
            },
    {
        let n: usize = accounts.len();
        if n < 1 {
            return Err(ProcessError::MissingRecordHandle);
        }
        if !accounts[0].is_signer {
            return Err(ProcessError::MissingAuthorization);
        }
        if n < 2 {
            return Err(ProcessError::MissingRecordHandle);
        }
        if !(accounts[1].owner == cfg.program_id) {
            return Err(ProcessError::WrongOwner);
        }
        if n < 3 {
            return Err(ProcessError::MissingRecordHandle);
        }
        if !(accounts[2].owner == cfg.program_id) {
            return Err(ProcessError::WrongOwner);
        }
        let game = GameInfo::unpack_unchecked(accounts[1].data.as_slice());
        if !game.is_initialized() {
            return Err(ProcessError::NotInitialized);
        }
        if !(game.admin == accounts[0].key) {
            return Err(ProcessError::Unauthorized);
        }
        let mut player = Player::unpack_unchecked(accounts[2].data.as_slice());
        if !player.is_initialized() {
            return Err(ProcessError::NotInitialized);
        }
        let has_upline = match &player.upline {
            Some(_) => true,
            None => false,
        };
        if has_upline {
            if n < 4 {
                return Err(ProcessError::MissingRecordHandle);
            }
            if !(accounts[3].owner == cfg.program_id) {
                return Err(ProcessError::WrongOwner);
            }
            let mut upline = Player::unpack_unchecked(accounts[3].data.as_slice());
            if !upline.is_initialized() {
                return Err(ProcessError::NotInitialized);
            }
            let matches_stored = match &player.upline {
                Some(stored) => accounts[3].key == *stored,
                None => false,
            };
            if !matches_stored {
                return Err(ProcessError::InvalidUpline);
            }
            let player_share = participant_share_of(reward_amount);
            let upline_share = referrer_share_of(reward_amount);
            let new_player_reward = match player.reward_to_claim.checked_add(player_share) {
                Some(v) => v,
                None => {
                    return Err(ProcessError::RewardAmountOverflow);
                },
            };
            let new_upline_reward = match upline.reward_to_claim.checked_add(upline_share) {
                Some(v) => v,
                None => {
                    return Err(ProcessError::RewardAmountOverflow);
                },
            };
            player.reward_to_claim = new_player_reward;
            upline.reward_to_claim = new_upline_reward;
            let player_slot = &mut accounts[2];
            let res_player = player.pack(&mut player_slot.data);
            match res_player {
                Ok(()) => (),
                Err(_) => {
                    proof {
                        assert(false);
                    }
                    return Err(ProcessError::InvalidRecordData);
                },
            }
            let upline_slot = &mut accounts[3];
            let res_upline = upline.pack(&mut upline_slot.data);
            match res_upline {
                Ok(()) => Ok(()),
                Err(_) => {
                    proof {
                        assert(false);
                    }
                    Err(ProcessError::InvalidRecordData)
                },
            }
        } else {
            let new_player_reward = match player.reward_to_claim.checked_add(reward_amount) {
                Some(v) => v,
                None => {
                    return Err(ProcessError::RewardAmountOverflow);
                },
            };
            player.reward_to_claim = new_player_reward;
            let player_slot = &mut accounts[2];
            let res_player = player.pack(&mut player_slot.data);
            match res_player {
                Ok(()) => Ok(()),
                Err(_) => {
                    proof {
                        assert(false);
                    }
                    Err(ProcessError::InvalidRecordData)
                },
            }
        }
    }
}

/// Law: whenever a distribution to a participant with a referrer succeeds,
/// the participant accrues exactly `amount * 90 / 100`, the referrer
/// accrues exactly `amount * 10 / 100` (each truncated by integer
/// division), and both additions were checked to fit the 64-bit balance.
pub proof fn lemma_reward_split_with_referrer(
    cfg: EngineConfig,
    accounts: Seq<RecordHandle>,
    amount: u64,
)
    requires
        spec_add_reward(cfg, accounts, amount) is Ok,
        player_dec_tolerant(accounts[2].data@).upline is Some,
    ensures
        ({
            let (pv, uv) = spec_add_reward(cfg, accounts, amount)->Ok_0;
            &&& pv.reward_to_claim == player_dec_tolerant(accounts[2].data@).reward_to_claim
                + amount * 90 / 100
            &&& player_dec_tolerant(accounts[2].data@).reward_to_claim + amount * 90 / 100
                <= u64::MAX
            &&& uv matches Some(urec) && urec.reward_to_claim == player_dec_tolerant(
                accounts[3].data@,
            ).reward_to_claim + amount * 10 / 100
            &&& player_dec_tolerant(accounts[3].data@).reward_to_claim + amount * 10 / 100
                <= u64::MAX
        }),
{
}

/// Law: whenever a distribution to a participant without a referrer
/// succeeds, the full amount accrues to the participant, under the same
/// overflow check, and no second record is touched.
pub proof fn lemma_reward_full_without_referrer(
    cfg: EngineConfig,
    accounts: Seq<RecordHandle>,
    amount: u64,
)
    requires
        spec_add_reward(cfg, accounts, amount) is Ok,
        player_dec_tolerant(accounts[2].data@).upline is None,
    ensures
        ({
            let (pv, uv) = spec_add_reward(cfg, accounts, amount)->Ok_0;
            &&& pv.reward_to_claim == player_dec_tolerant(accounts[2].data@).reward_to_claim
                + amount
            &&& player_dec_tolerant(accounts[2].data@).reward_to_claim + amount <= u64::MAX
            &&& uv is None
        }),
{
}

/// Law: a registration aimed at an already-initialized participant record
/// fails with `AlreadyInitialized`, whatever else the command carries.
/// The checks that precede it in the validation order — an authorized
/// signer and a record bound to the engine — must pass for this error to
/// be the one reported: a missing signature, for one, fails first with
/// `MissingAuthorization`.
pub proof fn lemma_register_already_initialized(cfg: EngineConfig, accounts: Seq<RecordHandle>)
    requires
        accounts.len() >= 2,
        accounts[0].is_signer,
        accounts[1].owner@ == cfg.program_id@,
        player_dec_tolerant(accounts[1].data@).is_initialized,
    ensures
        spec_register(cfg, accounts) == Err::<PlayerRecView, ProcessError>(
            ProcessError::AlreadyInitialized,
        ),
{
}

/// Law: a registration whose referrer handle is the participant record
/// itself fails with `SelfReferral`, whenever the checks that precede it in
/// the validation order pass.
pub proof fn lemma_register_self_referral_rejected(cfg: EngineConfig, accounts: Seq<RecordHandle>)
    requires
        accounts.len() == 4,
        accounts[0].is_signer,
        accounts[1].owner@ == cfg.program_id@,
        !player_dec_tolerant(accounts[1].data@).is_initialized,
        accounts[2].owner@ == cfg.program_id@,
        accounts[3].owner@ == cfg.program_id@,
        accounts[3].key@ == accounts[1].key@,
    ensures
        spec_register(cfg, accounts) == Err::<PlayerRecView, ProcessError>(
            ProcessError::SelfReferral,
        ),
{
}

/// Law: a claim signed by an identity other than the participant record's
/// owner fails with `Unauthorized`, however valid every other field is.
pub proof fn lemma_claim_by_non_owner_rejected(cfg: EngineConfig, accounts: Seq<RecordHandle>)
    requires
        accounts.len() >= 3,
        accounts[0].is_signer,
        accounts[1].owner@ == cfg.program_id@,
        game_dec(accounts[1].data@) matches Some(g) && g.is_initialized,
        accounts[2].owner@ == cfg.program_id@,
        player_dec(accounts[2].data@) matches Some(p) && p.is_initialized,
        player_dec(accounts[2].data@)->Some_0.owner != accounts[0].key@,
    ensures
        spec_claim(cfg, accounts) == Err::<CustodyRequestView, ProcessError>(
            ProcessError::Unauthorized,
        ),
{
}

} // verus!
