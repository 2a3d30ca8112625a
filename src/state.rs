//! The escrow record, its lifecycle predicates and its stored form.
use vstd::prelude::*;
use crate::error::ProcessError;
use crate::bytes::{
    le_bytes, le_value, i64_bits, i64_of_bits, push_u64_le, push_i64_le, read_u64_le,
    read_i64_le, push_all, read_array32, read_array64, lemma_le_bytes_len, lemma_le_round_trip,
    lemma_pow256_8, lemma_i64_round_trip,
};

verus! {

/// A 32-byte identity or account address.
pub type Pubkey = [u8; 32];

/// Number of bytes of a stored record.
pub const ESCROW_LEN: usize = 290;

/// Where an escrow stands in its lifecycle.
#[derive(Debug, Copy, Clone, PartialEq, Eq, Structural)]
pub enum EscrowState {
    Uninitialized,
    Created,
    Funded,
    Released,
    Refunded,
    Disputed,
    Closed,
}

/// One escrow agreement between a seller and a buyer.
#[derive(Debug, Copy, Clone)]
pub struct Escrow {
    pub is_initialized: bool,
    pub seller_pubkey: Pubkey,
    pub buyer_pubkey: Pubkey,
    pub seller_token_account: Pubkey,
    pub buyer_token_account: Pubkey,
    pub escrow_token_account: Pubkey,
    pub amount: u64,
    pub state: EscrowState,
    pub creation_timestamp: i64,
    pub release_timestamp: i64,
    pub dispute_time_window: i64,
    pub listing_id: [u8; 32],
    pub transaction_signature: [u8; 64],
}

/// An escrow record with its byte fields as sequences.
pub struct EscrowView {
    pub is_initialized: bool,
    pub seller_pubkey: Seq<u8>,
    pub buyer_pubkey: Seq<u8>,
    pub seller_token_account: Seq<u8>,
    pub buyer_token_account: Seq<u8>,
    pub escrow_token_account: Seq<u8>,
    pub amount: u64,
    pub state: EscrowState,
    pub creation_timestamp: i64,
    pub release_timestamp: i64,
    pub dispute_time_window: i64,
    pub listing_id: Seq<u8>,
    pub transaction_signature: Seq<u8>,
}

impl EscrowView {
    /// Every byte field has its fixed length.
    pub open spec fn valid(self) -> bool {
        &&& self.seller_pubkey.len() == 32
        &&& self.buyer_pubkey.len() == 32
        &&& self.seller_token_account.len() == 32
        &&& self.buyer_token_account.len() == 32
        &&& self.escrow_token_account.len() == 32
        &&& self.listing_id.len() == 32
        &&& self.transaction_signature.len() == 64
    }
}

impl View for Escrow {
    type V = EscrowView;

    open spec fn view(&self) -> EscrowView {
        EscrowView {
            is_initialized: self.is_initialized,
            seller_pubkey: self.seller_pubkey@,
            buyer_pubkey: self.buyer_pubkey@,
            seller_token_account: self.seller_token_account@,
            buyer_token_account: self.buyer_token_account@,
            escrow_token_account: self.escrow_token_account@,
            amount: self.amount,
            state: self.state,
            creation_timestamp: self.creation_timestamp,
            release_timestamp: self.release_timestamp,
            dispute_time_window: self.dispute_time_window,
            listing_id: self.listing_id@,
            transaction_signature: self.transaction_signature@,
        }
    }
}

/// Funds may leave the holding account: always while funded, and after a
/// dispute once the release time has come.
pub open spec fn release_allowed(state: EscrowState, release_timestamp: i64, now: i64) -> bool {
    state == EscrowState::Funded || (state == EscrowState::Disputed && now >= release_timestamp)
}

/// A dispute may be raised while funded and before the window after
/// creation has passed.
pub open spec fn dispute_allowed(
    state: EscrowState,
    creation_timestamp: i64,
    dispute_time_window: i64,
    now: i64,
) -> bool {
    state == EscrowState::Funded && now < creation_timestamp + dispute_time_window
}

impl Escrow {
    pub fn can_release(&self, current_timestamp: i64) -> (r: bool)
        ensures
            r == release_allowed(self.state, self.release_timestamp, current_timestamp),
    {
        match self.state {
            EscrowState::Funded => true,
            EscrowState::Disputed => current_timestamp >= self.release_timestamp,
            _ => false,
        }
    }

    pub fn can_refund(&self, current_timestamp: i64) -> (r: bool)
        ensures
            r == release_allowed(self.state, self.release_timestamp, current_timestamp),
    {
        match self.state {
            EscrowState::Funded => true,
            EscrowState::Disputed => current_timestamp >= self.release_timestamp,
            _ => false,
        }
    }

    pub fn can_dispute(&self, current_timestamp: i64) -> (r: bool)
        ensures
            r == dispute_allowed(
                self.state,
                self.creation_timestamp,
                self.dispute_time_window,
                current_timestamp,
            ),
    {
        match self.state {
            EscrowState::Funded => (current_timestamp as i128) < (self.creation_timestamp as i128)
                + (self.dispute_time_window as i128),
            _ => false,
        }
    }
}

pub open spec fn state_tag(s: EscrowState) -> u8 {
    match s {
        EscrowState::Uninitialized => 0,
        EscrowState::Created => 1,
        EscrowState::Funded => 2,
        EscrowState::Released => 3,
        EscrowState::Refunded => 4,
        EscrowState::Disputed => 5,
        EscrowState::Closed => 6,
    }
}

pub open spec fn state_of_tag(t: u8) -> EscrowState {
    if t == 1 {
        EscrowState::Created
    } else if t == 2 {
        EscrowState::Funded
    } else if t == 3 {
        EscrowState::Released
    } else if t == 4 {
        EscrowState::Refunded
    } else if t == 5 {
        EscrowState::Disputed
    } else if t == 6 {
        EscrowState::Closed
    } else {
        EscrowState::Uninitialized
    }
}

/// The stored form of a record: its fields in declaration order, a flag as
/// one byte, a state as its position in the lifecycle list, integers as
/// eight little-endian bytes, byte strings as they are.
pub open spec fn record_bytes(v: EscrowView) -> Seq<u8> {
    seq![if v.is_initialized { 1u8 } else { 0u8 }] + v.seller_pubkey + v.buyer_pubkey
        + v.seller_token_account + v.buyer_token_account + v.escrow_token_account + le_bytes(
        v.amount as nat,
        8,
    ) + seq![state_tag(v.state)] + le_bytes(i64_bits(v.creation_timestamp), 8) + le_bytes(
        i64_bits(v.release_timestamp),
        8,
    ) + le_bytes(i64_bits(v.dispute_time_window), 8) + v.listing_id + v.transaction_signature
}

/// Bytes that hold a record: the right length, a flag byte of 0 or 1 and a
/// known state.
pub open spec fn record_well_formed(s: Seq<u8>) -> bool {
    s.len() == ESCROW_LEN && s[0] <= 1 && s[169] <= 6
}

/// The record that `s` holds, if it holds one.
pub open spec fn parse_record(s: Seq<u8>) -> Option<EscrowView> {
    if record_well_formed(s) {
        Some(
            EscrowView {
                is_initialized: s[0] == 1,
                seller_pubkey: s.subrange(1, 33),
                buyer_pubkey: s.subrange(33, 65),
                seller_token_account: s.subrange(65, 97),
                buyer_token_account: s.subrange(97, 129),
                escrow_token_account: s.subrange(129, 161),
                amount: le_value(s.subrange(161, 169)) as u64,
                state: state_of_tag(s[169]),
                creation_timestamp: i64_of_bits(le_value(s.subrange(170, 178))) as i64,
                release_timestamp: i64_of_bits(le_value(s.subrange(178, 186))) as i64,
                dispute_time_window: i64_of_bits(le_value(s.subrange(186, 194))) as i64,
                listing_id: s.subrange(194, 226),
                transaction_signature: s.subrange(226, 290),
            },
        )
    } else {
        None
    }
}

/// Reading the stored form of a record gives the record back.
pub proof fn lemma_record_round_trip(v: EscrowView)
    requires
        v.valid(),
    ensures
        record_bytes(v).len() == ESCROW_LEN,
        parse_record(record_bytes(v)) == Some(v),
{
    let s = record_bytes(v);
    lemma_le_bytes_len(v.amount as nat, 8);
    lemma_le_bytes_len(i64_bits(v.creation_timestamp), 8);
    lemma_le_bytes_len(i64_bits(v.release_timestamp), 8);
    lemma_le_bytes_len(i64_bits(v.dispute_time_window), 8);
    lemma_pow256_8();
    lemma_le_round_trip(v.amount as nat, 8);
    lemma_i64_round_trip(v.creation_timestamp);
    lemma_i64_round_trip(v.release_timestamp);
    lemma_i64_round_trip(v.dispute_time_window);
    lemma_le_round_trip(i64_bits(v.creation_timestamp), 8);
    lemma_le_round_trip(i64_bits(v.release_timestamp), 8);
    lemma_le_round_trip(i64_bits(v.dispute_time_window), 8);
    assert(s.subrange(1, 33) =~= v.seller_pubkey);
    assert(s.subrange(33, 65) =~= v.buyer_pubkey);
    assert(s.subrange(65, 97) =~= v.seller_token_account);
    assert(s.subrange(97, 129) =~= v.buyer_token_account);
    assert(s.subrange(129, 161) =~= v.escrow_token_account);
    assert(s.subrange(161, 169) =~= le_bytes(v.amount as nat, 8));
    assert(s[169] == state_tag(v.state));
    assert(s.subrange(170, 178) =~= le_bytes(i64_bits(v.creation_timestamp), 8));
    assert(s.subrange(178, 186) =~= le_bytes(i64_bits(v.release_timestamp), 8));
    assert(s.subrange(186, 194) =~= le_bytes(i64_bits(v.dispute_time_window), 8));
    assert(s.subrange(194, 226) =~= v.listing_id);
    assert(s.subrange(226, 290) =~= v.transaction_signature);
    assert(parse_record(s).unwrap() == v);
}

impl Escrow {
    /// The stored form of this record.
    pub fn pack(&self) -> (r: Vec<u8>)
        ensures
            r@ == record_bytes(self@),
            r@.len() == ESCROW_LEN,
    {
        let mut out: Vec<u8> = Vec::new();
        out.push(if self.is_initialized { 1u8 } else { 0u8 });
        push_all(&mut out, self.seller_pubkey.as_slice());
        push_all(&mut out, self.buyer_pubkey.as_slice());
        push_all(&mut out, self.seller_token_account.as_slice());
        push_all(&mut out, self.buyer_token_account.as_slice());
        push_all(&mut out, self.escrow_token_account.as_slice());
        push_u64_le(&mut out, self.amount);
        let tag: u8 = match self.state {
            EscrowState::Uninitialized => 0,
            EscrowState::Created => 1,
            EscrowState::Funded => 2,
            EscrowState::Released => 3,
            EscrowState::Refunded => 4,
            EscrowState::Disputed => 5,
            EscrowState::Closed => 6,
        };
        out.push(tag);
        push_i64_le(&mut out, self.creation_timestamp);
        push_i64_le(&mut out, self.release_timestamp);
        push_i64_le(&mut out, self.dispute_time_window);
        push_all(&mut out, self.listing_id.as_slice());
        push_all(&mut out, self.transaction_signature.as_slice());
        assert(out@ =~= record_bytes(self@));
        proof {
            lemma_record_round_trip(self@);
        }
        out
    }

    /// The record held by `data`; `InvalidAccountData` when it holds none.
    pub fn unpack(data: &Vec<u8>) -> (r: Result<Escrow, ProcessError>)
        ensures
            match r {
                Ok(e) => parse_record(data@) == Some(e@),
                Err(err) => parse_record(data@) is None && err == ProcessError::InvalidAccountData,
            },
    {
        if data.len() != ESCROW_LEN || data[0] > 1 || data[169] > 6 {
            return Err(ProcessError::InvalidAccountData);
        }
        let t = data[169];
        let state = if t == 1 {
            EscrowState::Created
        } else if t == 2 {
            EscrowState::Funded
        } else if t == 3 {
            EscrowState::Released
        } else if t == 4 {
            EscrowState::Refunded
        } else if t == 5 {
            EscrowState::Disputed
        } else if t == 6 {
            EscrowState::Closed
        } else {
            EscrowState::Uninitialized
        };
        let e = Escrow {
            is_initialized: data[0] == 1,
            seller_pubkey: read_array32(data, 1),
            buyer_pubkey: read_array32(data, 33),
            seller_token_account: read_array32(data, 65),
            buyer_token_account: read_array32(data, 97),
            escrow_token_account: read_array32(data, 129),
            amount: read_u64_le(data, 161),
            state,
            creation_timestamp: read_i64_le(data, 170),
            release_timestamp: read_i64_le(data, 178),
            dispute_time_window: read_i64_le(data, 186),
            listing_id: read_array32(data, 194),
            transaction_signature: read_array64(data, 226),
        };
        assert(parse_record(data@).unwrap() == e@);
        Ok(e)
    }
}

} // verus!
