//! The five operation requests, their wire form and request builders.
use vstd::prelude::*;
use vstd::utf8::{valid_utf8, decode_utf8, encode_utf8, encode_utf8_valid_utf8, encode_utf8_decode_utf8};
use crate::bytes::{
    le_bytes, le_value, i64_bits, i64_of_bits, push_le, push_u64_le, push_i64_le, push_all,
    push_tail, read_le, read_u64_le, read_i64_le, read_array32, read_array64,
    lemma_le_bytes_len, lemma_le_round_trip, lemma_pow256_8, lemma_i64_round_trip, pow256,
};
use crate::state::Pubkey;

verus! {

/// A request for one escrow operation.
#[derive(Debug, Clone)]
pub enum EscrowInstruction {
    /// Opens an escrow; seller and buyer both consent.
    Initialize {
        amount: u64,
        release_timestamp: i64,
        dispute_time_window: i64,
        listing_id: [u8; 32],
    },
    /// Moves the amount from the buyer into the holding account.
    Fund { transaction_signature: [u8; 64] },
    /// Pays the held amount to the seller.
    Release { transaction_signature: [u8; 64] },
    /// Returns the held amount to the buyer.
    Refund { transaction_signature: [u8; 64] },
    /// Freezes the escrow pending outside resolution.
    Dispute { reason: String },
}

/// A request with its byte fields as sequences and its text as characters.
pub enum InstructionView {
    Initialize {
        amount: u64,
        release_timestamp: i64,
        dispute_time_window: i64,
        listing_id: Seq<u8>,
    },
    Fund { transaction_signature: Seq<u8> },
    Release { transaction_signature: Seq<u8> },
    Refund { transaction_signature: Seq<u8> },
    Dispute { reason: Seq<char> },
}

impl View for EscrowInstruction {
    type V = InstructionView;

    open spec fn view(&self) -> InstructionView {
        match self {
            EscrowInstruction::Initialize {
                amount,
                release_timestamp,
                dispute_time_window,
                listing_id,
            } => InstructionView::Initialize {
                amount: *amount,
                release_timestamp: *release_timestamp,
                dispute_time_window: *dispute_time_window,
                listing_id: listing_id@,
            },
            EscrowInstruction::Fund { transaction_signature } => InstructionView::Fund {
                transaction_signature: transaction_signature@,
            },
            EscrowInstruction::Release { transaction_signature } => InstructionView::Release {
                transaction_signature: transaction_signature@,
            },
            EscrowInstruction::Refund { transaction_signature } => InstructionView::Refund {
                transaction_signature: transaction_signature@,
            },
            EscrowInstruction::Dispute { reason } => InstructionView::Dispute { reason: reason@ },
        }
    }
}

impl InstructionView {
    /// Fixed-size fields have their lengths and a reason's text fits a
    /// 32-bit length prefix.
    pub open spec fn valid(self) -> bool {
        match self {
            InstructionView::Initialize { listing_id, .. } => listing_id.len() == 32,
            InstructionView::Fund { transaction_signature } => transaction_signature.len() == 64,
            InstructionView::Release { transaction_signature } => transaction_signature.len()
                == 64,
            InstructionView::Refund { transaction_signature } => transaction_signature.len()
                == 64,
            InstructionView::Dispute { reason } => encode_utf8(reason).len() <= u32::MAX,
        }
    }
}

/// The wire form: a one-byte variant index, then the fields in order,
/// integers as little-endian bytes, byte arrays as they are, and text as a
/// four-byte length followed by its UTF-8 bytes.
pub open spec fn instruction_bytes(v: InstructionView) -> Seq<u8> {
    match v {
        InstructionView::Initialize {
            amount,
            release_timestamp,
            dispute_time_window,
            listing_id,
        } => seq![0u8] + le_bytes(amount as nat, 8) + le_bytes(i64_bits(release_timestamp), 8)
            + le_bytes(i64_bits(dispute_time_window), 8) + listing_id,
        InstructionView::Fund { transaction_signature } => seq![1u8] + transaction_signature,
        InstructionView::Release { transaction_signature } => seq![2u8] + transaction_signature,
        InstructionView::Refund { transaction_signature } => seq![3u8] + transaction_signature,
        InstructionView::Dispute { reason } => seq![4u8] + le_bytes(
            encode_utf8(reason).len(),
            4,
        ) + encode_utf8(reason),
    }
}

/// The request that `s` holds, if it holds exactly one.
pub open spec fn parse_instruction(s: Seq<u8>) -> Option<InstructionView> {
    if s.len() == 0 {
        None
    } else if s[0] == 0 {
        if s.len() == 57 {
            Some(
                InstructionView::Initialize {
                    amount: le_value(s.subrange(1, 9)) as u64,
                    release_timestamp: i64_of_bits(le_value(s.subrange(9, 17))) as i64,
                    dispute_time_window: i64_of_bits(le_value(s.subrange(17, 25))) as i64,
                    listing_id: s.subrange(25, 57),
                },
            )
        } else {
            None
        }
    } else if 1 <= s[0] <= 3 {
        if s.len() == 65 {
            let sig = s.subrange(1, 65);
            Some(
                if s[0] == 1 {
                    InstructionView::Fund { transaction_signature: sig }
                } else if s[0] == 2 {
                    InstructionView::Release { transaction_signature: sig }
                } else {
                    InstructionView::Refund { transaction_signature: sig }
                },
            )
        } else {
            None
        }
    } else if s[0] == 4 {
        if s.len() >= 5 && s.len() == 5 + le_value(s.subrange(1, 5)) && valid_utf8(
            s.subrange(5, s.len() as int),
        ) {
            Some(InstructionView::Dispute { reason: decode_utf8(s.subrange(5, s.len() as int)) })
        } else {
            None
        }
    } else {
        None
    }
}

/// Decoding the wire form of a request gives the request back.
pub proof fn lemma_instruction_round_trip(v: InstructionView)
    requires
        v.valid(),
    ensures
        parse_instruction(instruction_bytes(v)) == Some(v),
{
    let s = instruction_bytes(v);
    lemma_pow256_8();
    match v {
        InstructionView::Initialize {
            amount,
            release_timestamp,
            dispute_time_window,
            listing_id,
        } => {
            lemma_le_bytes_len(amount as nat, 8);
            lemma_le_bytes_len(i64_bits(release_timestamp), 8);
            lemma_le_bytes_len(i64_bits(dispute_time_window), 8);
            lemma_le_round_trip(amount as nat, 8);
            lemma_i64_round_trip(release_timestamp);
            lemma_i64_round_trip(dispute_time_window);
            lemma_le_round_trip(i64_bits(release_timestamp), 8);
            lemma_le_round_trip(i64_bits(dispute_time_window), 8);
            assert(s.subrange(1, 9) =~= le_bytes(amount as nat, 8));
            assert(s.subrange(9, 17) =~= le_bytes(i64_bits(release_timestamp), 8));
            assert(s.subrange(17, 25) =~= le_bytes(i64_bits(dispute_time_window), 8));
            assert(s.subrange(25, 57) =~= listing_id);
        },
        InstructionView::Fund { transaction_signature } => {
            assert(s.subrange(1, 65) =~= transaction_signature);
        },
        InstructionView::Release { transaction_signature } => {
            assert(s.subrange(1, 65) =~= transaction_signature);
        },
        InstructionView::Refund { transaction_signature } => {
            assert(s.subrange(1, 65) =~= transaction_signature);
        },
        InstructionView::Dispute { reason } => {
            let text = encode_utf8(reason);
            reveal_with_fuel(pow256, 5);
            lemma_le_bytes_len(text.len(), 4);
            lemma_le_round_trip(text.len(), 4);
            encode_utf8_valid_utf8(reason);
            encode_utf8_decode_utf8(reason);
            assert(s.subrange(1, 5) =~= le_bytes(text.len(), 4));
            assert(s.subrange(5, s.len() as int) =~= text);
        },
    }
}

/// Relies on `String::from_utf8`: it accepts exactly the valid UTF-8 byte
/// strings and decodes them.
#[verifier::external_body]
fn text_from_utf8(b: Vec<u8>) -> (r: Option<String>)
    ensures
        match r {
            Some(s) => valid_utf8(b@) && s@ == decode_utf8(b@),
            None => !valid_utf8(b@),
        },
{
    String::from_utf8(b).ok()
}

impl EscrowInstruction {
    /// Decodes a request; `None` unless `data` holds exactly one request.
    pub fn unpack(data: &Vec<u8>) -> (r: Option<EscrowInstruction>)
        ensures
            match r {
                Some(ins) => parse_instruction(data@) == Some(ins@),
                None => parse_instruction(data@) is None,
            },
    {
        let n = data.len();
        if n == 0 {
            return None;
        }
        let tag = data[0];
        if tag == 0 {
            if n != 57 {
                return None;
            }
            let ins = EscrowInstruction::Initialize {
                amount: read_u64_le(data, 1),
                release_timestamp: read_i64_le(data, 9),
                dispute_time_window: read_i64_le(data, 17),
                listing_id: read_array32(data, 25),
            };
            Some(ins)
        } else if 1 <= tag && tag <= 3 {
            if n != 65 {
                return None;
            }
            let sig = read_array64(data, 1);
            if tag == 1 {
                Some(EscrowInstruction::Fund { transaction_signature: sig })
            } else if tag == 2 {
                Some(EscrowInstruction::Release { transaction_signature: sig })
            } else {
                Some(EscrowInstruction::Refund { transaction_signature: sig })
            }
        } else if tag == 4 {
            if n < 5 {
                return None;
            }
            let len = read_le(data, 1, 4);
            if n as u64 - 5 != len {
                return None;
            }
            let mut text: Vec<u8> = Vec::new();
            push_tail(&mut text, data, 5);
            assert(text@ =~= data@.subrange(5, n as int));
            match text_from_utf8(text) {
                Some(reason) => Some(EscrowInstruction::Dispute { reason }),
                None => None,
            }
        } else {
            None
        }
    }

    /// Encodes a request.
    pub fn pack(&self) -> (r: Vec<u8>)
        requires
            self@.valid(),
        ensures
            r@ == instruction_bytes(self@),
    {
        let mut out: Vec<u8> = Vec::new();
        match self {
            EscrowInstruction::Initialize {
                amount,
                release_timestamp,
                dispute_time_window,
                listing_id,
            } => {
                out.push(0u8);
                push_u64_le(&mut out, *amount);
                push_i64_le(&mut out, *release_timestamp);
                push_i64_le(&mut out, *dispute_time_window);
                push_all(&mut out, listing_id.as_slice());
            },
            EscrowInstruction::Fund { transaction_signature } => {
                out.push(1u8);
                push_all(&mut out, transaction_signature.as_slice());
            },
            EscrowInstruction::Release { transaction_signature } => {
                out.push(2u8);
                push_all(&mut out, transaction_signature.as_slice());
            },
            EscrowInstruction::Refund { transaction_signature } => {
                out.push(3u8);
                push_all(&mut out, transaction_signature.as_slice());
            },
            EscrowInstruction::Dispute { reason } => {
                out.push(4u8);
                let text = reason.as_str().as_bytes();
                push_le(&mut out, text.len() as u64, 4);
                push_all(&mut out, text);
            },
        }
        assert(out@ =~= instruction_bytes(self@));
        out
    }
}

/// One account of a request: its address, whether its holder must consent
/// and whether the operation writes it.
#[derive(Debug, Copy, Clone)]
pub struct AccountMeta {
    pub pubkey: Pubkey,
    pub is_signer: bool,
    pub is_writable: bool,
}

/// A request addressed to the escrow program, with its accounts in the
/// order the operation reads them.
#[derive(Debug)]
pub struct Instruction {
    pub program_id: Pubkey,
    pub accounts: Vec<AccountMeta>,
    pub data: Vec<u8>,
}

/// An account entry of a request.
pub open spec fn meta(pubkey: Pubkey, is_signer: bool, is_writable: bool) -> AccountMeta {
    AccountMeta { pubkey, is_signer, is_writable }
}

/// Address of the host's rent account.
pub open spec fn rent_sysvar_key() -> Seq<u8> {
    seq![
        6u8, 167, 213, 23, 25, 44, 92, 81, 33, 140, 201, 76, 61, 74, 241, 127, 88, 218, 238, 8,
        155, 161, 253, 68, 227, 219, 217, 138, 0, 0, 0, 0,
    ]
}

/// Address of the host's clock account.
pub open spec fn clock_sysvar_key() -> Seq<u8> {
    seq![
        6u8, 167, 213, 23, 24, 199, 116, 201, 40, 86, 99, 152, 105, 29, 94, 182, 139, 94, 184, 163,
        155, 75, 109, 92, 115, 85, 91, 33, 0, 0, 0, 0,
    ]
}

/// Address of the host's system program: all zero bytes.
pub open spec fn system_program_key() -> Seq<u8> {
    Seq::new(32, |i: int| 0u8)
}

pub fn rent_sysvar_id() -> (r: Pubkey)
    ensures
        r@ == rent_sysvar_key(),
{
    let r: Pubkey = [
        6, 167, 213, 23, 25, 44, 92, 81, 33, 140, 201, 76, 61, 74, 241, 127, 88, 218, 238, 8, 155,
        161, 253, 68, 227, 219, 217, 138, 0, 0, 0, 0,
    ];
    assert(r@ =~= rent_sysvar_key());
    r
}

pub fn clock_sysvar_id() -> (r: Pubkey)
    ensures
        r@ == clock_sysvar_key(),
{
    let r: Pubkey = [
        6, 167, 213, 23, 24, 199, 116, 201, 40, 86, 99, 152, 105, 29, 94, 182, 139, 94, 184, 163,
        155, 75, 109, 92, 115, 85, 91, 33, 0, 0, 0, 0,
    ];
    assert(r@ =~= clock_sysvar_key());
    r
}

pub fn system_program_id() -> (r: Pubkey)
    ensures
        r@ == system_program_key(),
{
    let r: Pubkey = [0u8; 32];
    assert(r@ =~= system_program_key());
    r
}

impl EscrowInstruction {
    /// Builds an Initialize request.
    pub fn initialize(
        program_id: &Pubkey,
        seller: &Pubkey,
        escrow_account: &Pubkey,
        seller_token_account: &Pubkey,
        buyer: &Pubkey,
        buyer_token_account: &Pubkey,
        escrow_token_account: &Pubkey,
        amount: u64,
        release_timestamp: i64,
        dispute_time_window: i64,
        listing_id: [u8; 32],
    ) -> (r: Instruction)
        ensures
            r.program_id == *program_id,
            r.accounts@.len() == 8,
            r.accounts@[0] == meta(*seller, true, false),
            r.accounts@[1] == meta(*escrow_account, false, true),
            r.accounts@[2] == meta(*seller_token_account, false, false),
            r.accounts@[3] == meta(*buyer, true, false),
            r.accounts@[4] == meta(*buyer_token_account, false, false),
            r.accounts@[5] == meta(*escrow_token_account, false, false),
            r.accounts@[6].pubkey@ == rent_sysvar_key(),
            !r.accounts@[6].is_signer && !r.accounts@[6].is_writable,
            r.accounts@[7].pubkey@ == system_program_key(),
            !r.accounts@[7].is_signer && !r.accounts@[7].is_writable,
            r.data@ == instruction_bytes(
                InstructionView::Initialize {
                    amount,
                    release_timestamp,
                    dispute_time_window,
                    listing_id: listing_id@,
                },
            ),
    {
        let data = EscrowInstruction::Initialize {
            amount,
            release_timestamp,
            dispute_time_window,
            listing_id,
        }.pack();
        let mut accounts: Vec<AccountMeta> = Vec::new();
        accounts.push(AccountMeta { pubkey: *seller, is_signer: true, is_writable: false });
        accounts.push(AccountMeta { pubkey: *escrow_account, is_signer: false, is_writable: true });
        accounts.push(
            AccountMeta { pubkey: *seller_token_account, is_signer: false, is_writable: false },
        );
        accounts.push(AccountMeta { pubkey: *buyer, is_signer: true, is_writable: false });
        accounts.push(
            AccountMeta { pubkey: *buyer_token_account, is_signer: false, is_writable: false },
        );
        accounts.push(
            AccountMeta { pubkey: *escrow_token_account, is_signer: false, is_writable: false },
        );
        accounts.push(AccountMeta { pubkey: rent_sysvar_id(), is_signer: false, is_writable: false });
        accounts.push(
            AccountMeta { pubkey: system_program_id(), is_signer: false, is_writable: false },
        );
        Instruction { program_id: *program_id, accounts, data }
    }

    /// Builds a Fund request.
    pub fn fund(
        program_id: &Pubkey,
        buyer: &Pubkey,
        escrow_account: &Pubkey,
        buyer_token_account: &Pubkey,
        escrow_token_account: &Pubkey,
        token_program: &Pubkey,
        transaction_signature: [u8; 64],
    ) -> (r: Instruction)
        ensures
            r.program_id == *program_id,
            r.accounts@ == seq![
                meta(*buyer, true, false),
                meta(*escrow_account, false, true),
                meta(*buyer_token_account, false, true),
                meta(*escrow_token_account, false, true),
                meta(*token_program, false, false),
            ],
            r.data@ == instruction_bytes(
                InstructionView::Fund { transaction_signature: transaction_signature@ },
            ),
    {
        let data = EscrowInstruction::Fund { transaction_signature }.pack();
        let mut accounts: Vec<AccountMeta> = Vec::new();
        accounts.push(AccountMeta { pubkey: *buyer, is_signer: true, is_writable: false });
        accounts.push(AccountMeta { pubkey: *escrow_account, is_signer: false, is_writable: true });
        accounts.push(
            AccountMeta { pubkey: *buyer_token_account, is_signer: false, is_writable: true },
        );
        accounts.push(
            AccountMeta { pubkey: *escrow_token_account, is_signer: false, is_writable: true },
        );
        accounts.push(AccountMeta { pubkey: *token_program, is_signer: false, is_writable: false });
        assert(accounts@ =~= seq![
            meta(*buyer, true, false),
            meta(*escrow_account, false, true),
            meta(*buyer_token_account, false, true),
            meta(*escrow_token_account, false, true),
            meta(*token_program, false, false),
        ]);
        Instruction { program_id: *program_id, accounts, data }
    }

    /// The accounts of a Release or Refund request.
    fn payout_accounts(
        seller: &Pubkey,
        escrow_account: &Pubkey,
        escrow_token_account: &Pubkey,
        recipient_token_account: &Pubkey,
        token_program: &Pubkey,
    ) -> (r: Vec<AccountMeta>)
        ensures
            r@.len() == 6,
            r@[0] == meta(*seller, true, false),
            r@[1] == meta(*escrow_account, false, true),
            r@[2] == meta(*escrow_token_account, false, true),
            r@[3] == meta(*recipient_token_account, false, true),
            r@[4] == meta(*token_program, false, false),
            r@[5].pubkey@ == clock_sysvar_key(),
            !r@[5].is_signer && !r@[5].is_writable,
    {
        let mut accounts: Vec<AccountMeta> = Vec::new();
        accounts.push(AccountMeta { pubkey: *seller, is_signer: true, is_writable: false });
        accounts.push(AccountMeta { pubkey: *escrow_account, is_signer: false, is_writable: true });
        accounts.push(
            AccountMeta { pubkey: *escrow_token_account, is_signer: false, is_writable: true },
        );
        accounts.push(
            AccountMeta { pubkey: *recipient_token_account, is_signer: false, is_writable: true },
        );
        accounts.push(AccountMeta { pubkey: *token_program, is_signer: false, is_writable: false });
        accounts.push(
            AccountMeta { pubkey: clock_sysvar_id(), is_signer: false, is_writable: false },
        );
        accounts
    }

    /// Builds a Release request.
    pub fn release(
        program_id: &Pubkey,
        seller: &Pubkey,
        escrow_account: &Pubkey,
        escrow_token_account: &Pubkey,
        seller_token_account: &Pubkey,
        token_program: &Pubkey,
        transaction_signature: [u8; 64],
    ) -> (r: Instruction)
        ensures
            r.program_id == *program_id,
            r.accounts@.len() == 6,
            r.accounts@[0] == meta(*seller, true, false),
            r.accounts@[1] == meta(*escrow_account, false, true),
            r.accounts@[2] == meta(*escrow_token_account, false, true),
            r.accounts@[3] == meta(*seller_token_account, false, true),
            r.accounts@[4] == meta(*token_program, false, false),
            r.accounts@[5].pubkey@ == clock_sysvar_key(),
            !r.accounts@[5].is_signer && !r.accounts@[5].is_writable,
            r.data@ == instruction_bytes(
                InstructionView::Release { transaction_signature: transaction_signature@ },
            ),
    {
        let data = EscrowInstruction::Release { transaction_signature }.pack();
        let accounts = Self::payout_accounts(
            seller,
            escrow_account,
            escrow_token_account,
            seller_token_account,
            token_program,
        );
        Instruction { program_id: *program_id, accounts, data }
    }

    /// Builds a Refund request.
    pub fn refund(
        program_id: &Pubkey,
        seller: &Pubkey,
        escrow_account: &Pubkey,
        escrow_token_account: &Pubkey,
        buyer_token_account: &Pubkey,
        token_program: &Pubkey,
        transaction_signature: [u8; 64],
    ) -> (r: Instruction)
        ensures
            r.program_id == *program_id,
            r.accounts@.len() == 6,
            r.accounts@[0] == meta(*seller, true, false),
            r.accounts@[1] == meta(*escrow_account, false, true),
            r.accounts@[2] == meta(*escrow_token_account, false, true),
            r.accounts@[3] == meta(*buyer_token_account, false, true),
            r.accounts@[4] == meta(*token_program, false, false),
            r.accounts@[5].pubkey@ == clock_sysvar_key(),
            !r.accounts@[5].is_signer && !r.accounts@[5].is_writable,
            r.data@ == instruction_bytes(
                InstructionView::Refund { transaction_signature: transaction_signature@ },
            ),
    {
        let data = EscrowInstruction::Refund { transaction_signature }.pack();
        let accounts = Self::payout_accounts(
            seller,
            escrow_account,
            escrow_token_account,
            buyer_token_account,
            token_program,
        );
        Instruction { program_id: *program_id, accounts, data }
    }

    /// Builds a Dispute request.
    pub fn dispute(program_id: &Pubkey, buyer: &Pubkey, escrow_account: &Pubkey, reason: String) -> (r:
        Instruction)
        requires
            encode_utf8(reason@).len() <= u32::MAX,
        ensures
            r.program_id == *program_id,
            r.accounts@.len() == 3,
            r.accounts@[0] == meta(*buyer, true, false),
            r.accounts@[1] == meta(*escrow_account, false, true),
            r.accounts@[2].pubkey@ == clock_sysvar_key(),
            !r.accounts@[2].is_signer && !r.accounts@[2].is_writable,
            r.data@ == instruction_bytes(InstructionView::Dispute { reason: reason@ }),
    {
        let data = EscrowInstruction::Dispute { reason }.pack();
        let mut accounts: Vec<AccountMeta> = Vec::new();
        accounts.push(AccountMeta { pubkey: *buyer, is_signer: true, is_writable: false });
        accounts.push(AccountMeta { pubkey: *escrow_account, is_signer: false, is_writable: true });
        accounts.push(
            AccountMeta { pubkey: clock_sysvar_id(), is_signer: false, is_writable: false },
        );
        Instruction { program_id: *program_id, accounts, data }
    }
}

} // verus!
