//! The two persistent record shapes and their fixed-layout binary codec.
//!
//! A pool record occupies 65 bytes: an initialized flag (one byte, 0 or 1),
//! the administrator identity (32 bytes) and the custody account identity
//! (32 bytes).  A participant record occupies 77 bytes: an initialized flag
//! (one byte), the owner identity (32 bytes), the reward balance (8 bytes,
//! little endian), a referrer presence tag (4 bytes, `[0,0,0,0]` for absent
//! and `[1,0,0,0]` for present) and a 32-byte referrer payload area, unused
//! when the referrer is absent.

use vstd::prelude::*;
use vstd::bytes::{spec_u64_from_le_bytes, spec_u64_to_le_bytes};
use vstd::bytes::{lemma_auto_spec_u64_to_from_le_bytes, u64_from_le_bytes, u64_to_le_bytes};
use vstd::slice::{slice_index_get, slice_subrange, slice_to_vec};

use crate::error::ProcessError;
use crate::identity::{zero_identity_seq, Identity, IDENTITY_LEN};

verus! {

/// Byte length of an encoded pool record.
pub const GAME_INFO_LEN: usize = 65;

/// Byte length of an encoded participant record.
pub const PLAYER_LEN: usize = 77;

/// The mathematical shape of a pool record.
#[verifier::ext_equal]
pub ghost struct GameRecView {
    pub is_initialized: bool,
    pub admin: Seq<u8>,
    pub spl_token_account: Seq<u8>,
}

/// The mathematical shape of a participant record.
#[verifier::ext_equal]
pub ghost struct PlayerRecView {
    pub is_initialized: bool,
    pub owner: Seq<u8>,
    pub reward_to_claim: u64,
    pub upline: Option<Seq<u8>>,
}

/// Whether a pool-record value has identity fields of the right width.
pub open spec fn game_wf(g: GameRecView) -> bool {
    &&& g.admin.len() == IDENTITY_LEN
    &&& g.spl_token_account.len() == IDENTITY_LEN
}

/// Whether a participant-record value has identity fields of the right width.
pub open spec fn player_wf(p: PlayerRecView) -> bool {
    &&& p.owner.len() == IDENTITY_LEN
    &&& (p.upline matches Some(u) ==> u.len() == IDENTITY_LEN)
}

/// The single byte a boolean encodes to.
pub open spec fn enc_bool(b: bool) -> Seq<u8> {
    if b {
        seq![1u8]
    } else {
        seq![0u8]
    }
}

/// The zero-valued pool record, the decoding of a freshly allocated slot.
pub open spec fn game_default() -> GameRecView {
    GameRecView {
        is_initialized: false,
        admin: zero_identity_seq(),
        spl_token_account: zero_identity_seq(),
    }
}

/// The zero-valued participant record.
pub open spec fn player_default() -> PlayerRecView {
    PlayerRecView { is_initialized: false, owner: zero_identity_seq(), reward_to_claim: 0u64, upline: None }
}

/// The 65 bytes a pool record encodes to.
pub open spec fn game_enc(g: GameRecView) -> Seq<u8> {
    enc_bool(g.is_initialized) + g.admin + g.spl_token_account
}

/// The strict decoding of a pool-record buffer: `None` on a size mismatch or
/// a malformed boolean byte.
pub open spec fn game_dec(s: Seq<u8>) -> Option<GameRecView> {
    if s.len() == GAME_INFO_LEN && (s[0] == 0u8 || s[0] == 1u8) {
        Some(
            GameRecView {
                is_initialized: s[0] == 1u8,
                admin: s.subrange(1, 33),
                spl_token_account: s.subrange(33, 65),
            },
        )
    } else {
        None
    }
}

/// The tolerant decoding of a pool-record buffer: a buffer the strict
/// decoding refuses stands for the zero-valued record.
pub open spec fn game_dec_tolerant(s: Seq<u8>) -> GameRecView {
    match game_dec(s) {
        Some(g) => g,
        None => game_default(),
    }
}

/// The 77 bytes a participant record encodes to.  An absent referrer leaves
/// the payload area zero.
pub open spec fn player_enc(p: PlayerRecView) -> Seq<u8> {
    enc_bool(p.is_initialized) + p.owner + spec_u64_to_le_bytes(p.reward_to_claim) + (match p
        .upline {
        None => seq![0u8, 0u8, 0u8, 0u8] + zero_identity_seq(),
        Some(u) => seq![1u8, 0u8, 0u8, 0u8] + u,
    })
}

/// The strict decoding of a participant-record buffer: `None` on a size
/// mismatch, a malformed boolean byte or a malformed presence tag.
pub open spec fn player_dec(s: Seq<u8>) -> Option<PlayerRecView> {
    if s.len() == PLAYER_LEN && (s[0] == 0u8 || s[0] == 1u8) && (s[41] == 0u8 || s[41] == 1u8)
        && s[42] == 0u8 && s[43] == 0u8 && s[44] == 0u8 {
        Some(
            PlayerRecView {
                is_initialized: s[0] == 1u8,
                owner: s.subrange(1, 33),
                reward_to_claim: spec_u64_from_le_bytes(s.subrange(33, 41)),
                upline: if s[41] == 1u8 {
                    Some(s.subrange(45, 77))
                } else {
                    None
                },
            },
        )
    } else {
        None
    }
}

/// The tolerant decoding of a participant-record buffer.
pub open spec fn player_dec_tolerant(s: Seq<u8>) -> PlayerRecView {
    match player_dec(s) {
        Some(p) => p,
        None => player_default(),
    }
}

/// Whether a participant-record buffer leaves the referrer payload area zero
/// when the presence tag says the referrer is absent.  Encoding always
/// produces such a buffer.
pub open spec fn player_canonical(s: Seq<u8>) -> bool {
    s.len() == PLAYER_LEN && s[41] == 0u8 ==> s.subrange(45, 77) == zero_identity_seq()
}

/// The pool record: the singleton the administrator and custody account are
/// registered in.
#[derive(Debug)]
pub struct GameInfo {
    /// Whether the pool has been initialized.
    pub is_initialized: bool,
    /// The identity authorized to distribute rewards.
    pub admin: Identity,
    /// The custody account the pool draws claims from.
    pub spl_token_account: Identity,
}

impl View for GameInfo {
    type V = GameRecView;

    open spec fn view(&self) -> GameRecView {
        GameRecView {
            is_initialized: self.is_initialized,
            admin: self.admin@,
            spl_token_account: self.spl_token_account@,
        }
    }
}

/// A participant record.
#[derive(Debug)]
pub struct Player {
    /// Whether the participant has registered.
    pub is_initialized: bool,
    /// The identity that registered the record and may claim its balance.
    pub owner: Identity,
    /// The accumulated, unclaimed reward.
    pub reward_to_claim: u64,
    /// The immediate referrer's record address, fixed at registration.
    pub upline: Option<Identity>,
}

impl View for Player {
    type V = PlayerRecView;

    open spec fn view(&self) -> PlayerRecView {
        PlayerRecView {
            is_initialized: self.is_initialized,
            owner: self.owner@,
            reward_to_claim: self.reward_to_claim,
            upline: match self.upline {
                Some(u) => Some(u@),
                None => None,
            },
        }
    }
}

/// Reads the 32 identity bytes that start at `start`.
fn read_identity(src: &[u8], start: usize) -> (r: Identity)
    requires
        start + IDENTITY_LEN <= src@.len(),
    ensures
        r@ == src@.subrange(start as int, start as int + IDENTITY_LEN),
{
    // Realizing the slice's length as a `usize` shows that `start +
    // IDENTITY_LEN`, which the precondition bounds by it, cannot overflow.
    let _len: usize = src.len();
    let part = slice_subrange(src, start, start + IDENTITY_LEN);
    let v = slice_to_vec(part);
    match Identity::new(v) {
        Some(id) => id,
        None => {
            proof {
                assert(false);
            }
            Identity::zero()
        },
    }
}

impl GameInfo {
    /// Whether the record has been initialized.
    pub fn is_initialized(&self) -> (r: bool)
        ensures
            r == self@.is_initialized,
    {
        self.is_initialized
    }

    /// Encodes the record over the full 65-byte slot.
    pub fn pack_into_slice(&self, dst: &mut Vec<u8>)
        requires
            old(dst)@.len() == GAME_INFO_LEN,
        ensures
            final(dst)@ == game_enc(self@),
            final(dst)@.len() == GAME_INFO_LEN,
    {
        let mut out: Vec<u8> = Vec::new();
        out.push(if self.is_initialized {
            1u8
        } else {
            0u8
        });
        let mut a = self.admin.to_vec();
        out.append(&mut a);
        let mut t = self.spl_token_account.to_vec();
        out.append(&mut t);
        proof {
            assert(out@ =~= game_enc(self@));
        }
        *dst = out;
    }

    /// Encodes the record, first checking that the slot has exactly the
    /// declared size.
    pub fn pack(&self, dst: &mut Vec<u8>) -> (r: Result<(), ProcessError>)
        ensures
            match r {
                Ok(()) => old(dst)@.len() == GAME_INFO_LEN && final(dst)@ == game_enc(self@),
                Err(e) => old(dst)@.len() != GAME_INFO_LEN && *final(dst) == *old(dst) && e
                    == ProcessError::InvalidRecordData,
            },
    {
        if dst.len() != GAME_INFO_LEN {
            return Err(ProcessError::InvalidRecordData);
        }
        self.pack_into_slice(dst);
        Ok(())
    }

    /// Strictly decodes a pool record: the buffer must have exactly the
    /// declared size and a well-formed boolean byte.
    pub fn unpack_from_slice(src: &[u8]) -> (r: Result<GameInfo, ProcessError>)
        ensures
            match r {
                Ok(g) => game_dec(src@) == Some(g@),
                Err(e) => game_dec(src@) is None && e == ProcessError::InvalidRecordData,
            },
    {
        if src.len() != GAME_INFO_LEN {
            return Err(ProcessError::InvalidRecordData);
        }
        let flag = *slice_index_get(src, 0);
        if flag > 1 {
            return Err(ProcessError::InvalidRecordData);
        }
        let admin = read_identity(src, 1);
        let spl_token_account = read_identity(src, 33);
        Ok(GameInfo { is_initialized: flag == 1, admin, spl_token_account })
    }

    /// Tolerantly decodes a pool record: a buffer the strict decoding
    /// refuses stands for the zero-valued record, for slots that have not
    /// been initialized yet.
    pub fn unpack_unchecked(src: &[u8]) -> (r: GameInfo)
        ensures
            r@ == game_dec_tolerant(src@),
    {
        match Self::unpack_from_slice(src) {
            Ok(g) => g,
            Err(_) => GameInfo {
                is_initialized: false,
                admin: Identity::zero(),
                spl_token_account: Identity::zero(),
            },
        }
    }

    /// Strictly decodes a pool record and requires it to be initialized.
    pub fn unpack(src: &[u8]) -> (r: Result<GameInfo, ProcessError>)
        ensures
            match r {
                Ok(g) => game_dec(src@) == Some(g@) && g@.is_initialized,
                Err(e) => match game_dec(src@) {
                    Some(g) => !g.is_initialized && e == ProcessError::NotInitialized,
                    None => e == ProcessError::InvalidRecordData,
                },
            },
    {
        let g = Self::unpack_from_slice(src)?;
        if !g.is_initialized {
            return Err(ProcessError::NotInitialized);
        }
        Ok(g)
    }
}

impl Player {
    /// Whether the record has been initialized.
    pub fn is_initialized(&self) -> (r: bool)
        ensures
            r == self@.is_initialized,
    {
        self.is_initialized
    }

    /// Encodes the record over the full 77-byte slot.  An absent referrer
    /// leaves the payload area zero.
    pub fn pack_into_slice(&self, dst: &mut Vec<u8>)
        requires
            old(dst)@.len() == PLAYER_LEN,
        ensures
            final(dst)@ == player_enc(self@),
            final(dst)@.len() == PLAYER_LEN,
    {
        proof {
            lemma_auto_spec_u64_to_from_le_bytes();
        }
        let mut out: Vec<u8> = Vec::new();
        out.push(if self.is_initialized {
            1u8
        } else {
            0u8
        });
        let mut o = self.owner.to_vec();
        out.append(&mut o);
        let mut rb = u64_to_le_bytes(self.reward_to_claim);
        out.append(&mut rb);
        match &self.upline {
            None => {
                out.push(0u8);
                out.push(0u8);
                out.push(0u8);
                out.push(0u8);
                let mut pad = Identity::zero().to_vec();
                out.append(&mut pad);
            },
            Some(u) => {
                out.push(1u8);
                out.push(0u8);
                out.push(0u8);
                out.push(0u8);
                let mut ub = u.to_vec();
                out.append(&mut ub);
            },
        }
        proof {
            assert(out@ =~= player_enc(self@));
        }
        *dst = out;
    }

    /// Encodes the record, first checking that the slot has exactly the
    /// declared size.
    pub fn pack(&self, dst: &mut Vec<u8>) -> (r: Result<(), ProcessError>)
        ensures
            match r {
                Ok(()) => old(dst)@.len() == PLAYER_LEN && final(dst)@ == player_enc(self@),
                Err(e) => old(dst)@.len() != PLAYER_LEN && *final(dst) == *old(dst) && e
                    == ProcessError::InvalidRecordData,
            },
    {
        if dst.len() != PLAYER_LEN {
            return Err(ProcessError::InvalidRecordData);
        }
        self.pack_into_slice(dst);
        Ok(())
    }

    /// Strictly decodes a participant record: the buffer must have exactly
    /// the declared size, a well-formed boolean byte and a well-formed
    /// presence tag.
    pub fn unpack_from_slice(src: &[u8]) -> (r: Result<Player, ProcessError>)
        ensures
            match r {
                Ok(p) => player_dec(src@) == Some(p@),
                Err(e) => player_dec(src@) is None && e == ProcessError::InvalidRecordData,
            },
    {
        if src.len() != PLAYER_LEN {
            return Err(ProcessError::InvalidRecordData);
        }
        let flag = *slice_index_get(src, 0);
        if flag > 1 {
            return Err(ProcessError::InvalidRecordData);
        }
        let tag0 = *slice_index_get(src, 41);
        let tag1 = *slice_index_get(src, 42);
        let tag2 = *slice_index_get(src, 43);
        let tag3 = *slice_index_get(src, 44);
        if tag0 > 1 || tag1 != 0 || tag2 != 0 || tag3 != 0 {
            return Err(ProcessError::InvalidRecordData);
        }
        let owner = read_identity(src, 1);
        let reward_to_claim = u64_from_le_bytes(slice_subrange(src, 33, 41));
        let upline = if tag0 == 1 {
            Some(read_identity(src, 45))
        } else {
            None
        };
        Ok(Player { is_initialized: flag == 1, owner, reward_to_claim, upline })
    }

    /// Tolerantly decodes a participant record: a buffer the strict decoding
    /// refuses stands for the zero-valued record, for slots that have not
    /// been initialized yet.
    pub fn unpack_unchecked(src: &[u8]) -> (r: Player)
        ensures
            r@ == player_dec_tolerant(src@),
    {
        match Self::unpack_from_slice(src) {
            Ok(p) => p,
            Err(_) => Player {
                is_initialized: false,
                owner: Identity::zero(),
                reward_to_claim: 0u64,
                upline: None,
            },
        }
    }

    /// Strictly decodes a participant record and requires it to be
    /// initialized.
    pub fn unpack(src: &[u8]) -> (r: Result<Player, ProcessError>)
        ensures
            match r {
                Ok(p) => player_dec(src@) == Some(p@) && p@.is_initialized,
                Err(e) => match player_dec(src@) {
                    Some(p) => !p.is_initialized && e == ProcessError::NotInitialized,
                    None => e == ProcessError::InvalidRecordData,
                },
            },
    {
        let p = Self::unpack_from_slice(src)?;
        if !p.is_initialized {
            return Err(ProcessError::NotInitialized);
        }
        Ok(p)
    }
}

/// Law: decoding an encoded pool record gives the record back, for every
/// well-formed record value.
pub proof fn lemma_game_record_round_trip(g: GameRecView)
    requires
        game_wf(g),
    ensures
        game_dec(game_enc(g)) == Some(g),
{
    let s = game_enc(g);
    assert(s.subrange(1, 33) =~= g.admin);
    assert(s.subrange(33, 65) =~= g.spl_token_account);
    assert(game_dec(s)->Some_0 =~= g);
}

/// Law: encoding a strictly decoded pool-record buffer gives the buffer
/// back, for every buffer the strict decoding accepts.
pub proof fn lemma_game_bytes_round_trip(s: Seq<u8>)
    requires
        game_dec(s) is Some,
    ensures
        game_enc(game_dec(s)->Some_0) == s,
{
    assert(game_enc(game_dec(s)->Some_0) =~= s);
}

/// Law: decoding an encoded participant record gives the record back, for
/// every well-formed record value.
pub proof fn lemma_player_record_round_trip(p: PlayerRecView)
    requires
        player_wf(p),
    ensures
        player_dec(player_enc(p)) == Some(p),
{
    lemma_auto_spec_u64_to_from_le_bytes();
    let s = player_enc(p);
    assert(s.subrange(1, 33) =~= p.owner);
    assert(s.subrange(33, 41) =~= spec_u64_to_le_bytes(p.reward_to_claim));
    match p.upline {
        Some(u) => {
            assert(s.subrange(45, 77) =~= u);
        },
        None => {},
    }
    assert(player_dec(s)->Some_0 =~= p);
}

/// Law: encoding a strictly decoded participant-record buffer gives the
/// buffer back, for every accepted buffer whose referrer payload area is
/// zero when the referrer is absent.  A buffer with an absent tag and stray
/// payload bytes decodes, but re-encodes with a zeroed payload area.
pub proof fn lemma_player_bytes_round_trip(s: Seq<u8>)
    requires
        player_dec(s) is Some,
        player_canonical(s),
    ensures
        player_enc(player_dec(s)->Some_0) == s,
{
    lemma_auto_spec_u64_to_from_le_bytes();
    assert(player_enc(player_dec(s)->Some_0) =~= s);
}

} // verus!
