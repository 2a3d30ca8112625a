//! The decisions taken for each escrow operation. Each one reads the accounts
//! handed over, the escrow account's data and what the host attests (signers,
//! time, rent), and either refuses with an error or says what the escrow
//! account's data becomes and which token transfer the host must perform
//! first. The host performs the transfer and stores the new data only when
//! the transfer succeeds.
use vstd::prelude::*;
use crate::bytes::{push_all, push_tail, same_bytes};
use crate::error::{EscrowError, ProcessError};
use crate::instruction::{AccountMeta, EscrowInstruction, Instruction, InstructionView, meta, parse_instruction};
use crate::token::{spl_token_key, token_transfer, transfer_data};
use crate::state::{
    Escrow, EscrowState, EscrowView, Pubkey, ESCROW_LEN, record_bytes, parse_record,
    release_allowed, dispute_allowed, lemma_record_round_trip,
};

verus! {

/// One account of an operation, in the position the operation expects it:
/// its address, and whether its holder consented to the call.
#[derive(Debug, Copy, Clone)]
pub struct AccountInput {
    pub key: Pubkey,
    pub is_signer: bool,
}

/// A token transfer the host performs before storing the escrow's new data:
/// `instruction` is the token program's request for it. When `signer_seeds`
/// is not empty, the authority is the escrow's derived signing authority and
/// the host signs for it with these seeds.
#[derive(Debug)]
pub struct TokenTransfer {
    pub token_program: Pubkey,
    pub source: Pubkey,
    pub destination: Pubkey,
    pub authority: Pubkey,
    pub amount: u64,
    pub signer_seeds: Vec<Vec<u8>>,
    pub instruction: Instruction,
}

/// A token transfer with its byte fields as sequences.
pub struct TransferView {
    pub token_program: Seq<u8>,
    pub source: Seq<u8>,
    pub destination: Seq<u8>,
    pub authority: Seq<u8>,
    pub amount: u64,
    pub signer_seeds: Seq<Seq<u8>>,
    pub request_program: Pubkey,
    pub request_accounts: Seq<AccountMeta>,
    pub request_data: Seq<u8>,
}

impl View for TokenTransfer {
    type V = TransferView;

    open spec fn view(&self) -> TransferView {
        TransferView {
            token_program: self.token_program@,
            source: self.source@,
            destination: self.destination@,
            authority: self.authority@,
            amount: self.amount,
            signer_seeds: self.signer_seeds@.map_values(|s: Vec<u8>| s@),
            request_program: self.instruction.program_id,
            request_accounts: self.instruction.accounts@,
            request_data: self.instruction.data@,
        }
    }
}

/// What an accepted operation does: the escrow account's new data, and the
/// transfer that must succeed before it is stored.
#[derive(Debug)]
pub struct Effect {
    pub escrow_data: Vec<u8>,
    pub transfer: Option<TokenTransfer>,
}

/// An accepted operation's effect with its bytes as sequences.
pub struct EffectView {
    pub escrow_data: Seq<u8>,
    pub transfer: Option<TransferView>,
}

impl View for Effect {
    type V = EffectView;

    open spec fn view(&self) -> EffectView {
        EffectView {
            escrow_data: self.escrow_data@,
            transfer: match self.transfer {
                Some(t) => Some(t@),
                None => None,
            },
        }
    }
}

/// An operation's result with an accepted effect taken to its view.
pub open spec fn result_view(r: Result<Effect, ProcessError>) -> Result<EffectView, ProcessError> {
    match r {
        Ok(e) => Ok(e@),
        Err(x) => Err(x),
    }
}

/// The ASCII bytes of "escrow", the domain tag of the derived authority.
pub open spec fn escrow_tag() -> Seq<u8> {
    seq![101u8, 115u8, 99u8, 114u8, 111u8, 119u8]
}

/// The seeds from which the escrow's signing authority is derived: the
/// domain tag, the seller, the buyer, the listing and a zero nonce byte.
pub open spec fn authority_seed_spec(e: EscrowView) -> Seq<Seq<u8>> {
    seq![escrow_tag(), e.seller_pubkey, e.buyer_pubkey, e.listing_id, seq![0u8]]
}

fn bytes_of(a: &[u8]) -> (r: Vec<u8>)
    ensures
        r@ == a@,
{
    let mut v: Vec<u8> = Vec::new();
    push_all(&mut v, a);
    assert(v@ =~= a@);
    v
}

/// The seeds of the escrow's signing authority.
pub fn authority_seeds(escrow: &Escrow) -> (r: Vec<Vec<u8>>)
    ensures
        r@.map_values(|s: Vec<u8>| s@) == authority_seed_spec(escrow@),
{
    let mut seeds: Vec<Vec<u8>> = Vec::new();
    let tag: Vec<u8> = vec![101u8, 115u8, 99u8, 114u8, 111u8, 119u8];
    assert(tag@ =~= escrow_tag());
    seeds.push(tag);
    seeds.push(bytes_of(escrow.seller_pubkey.as_slice()));
    seeds.push(bytes_of(escrow.buyer_pubkey.as_slice()));
    seeds.push(bytes_of(escrow.listing_id.as_slice()));
    let nonce: Vec<u8> = vec![0u8];
    assert(nonce@ =~= seq![0u8]);
    seeds.push(nonce);
    assert(seeds@.map_values(|s: Vec<u8>| s@) =~= authority_seed_spec(escrow@));
    seeds
}

/// The record with a new state and transfer reference, all else kept.
pub open spec fn advanced(e: EscrowView, state: EscrowState, signature: Seq<u8>) -> EscrowView {
    EscrowView { state, transaction_signature: signature, ..e }
}

/// A storage slot already holds an initialized record.
pub open spec fn slot_in_use(data: Seq<u8>) -> bool {
    data.len() > 0 && data[0] != 0
}

/// The record that Initialize writes.
pub open spec fn created_record(
    accounts: Seq<AccountInput>,
    now: i64,
    amount: u64,
    release_timestamp: i64,
    dispute_time_window: i64,
    listing_id: Seq<u8>,
) -> EscrowView {
    EscrowView {
        is_initialized: true,
        seller_pubkey: accounts[0].key@,
        buyer_pubkey: accounts[3].key@,
        seller_token_account: accounts[2].key@,
        buyer_token_account: accounts[4].key@,
        escrow_token_account: accounts[5].key@,
        amount,
        state: EscrowState::Created,
        creation_timestamp: now,
        release_timestamp,
        dispute_time_window,
        listing_id,
        transaction_signature: Seq::new(64, |i: int| 0u8),
    }
}

/// Initialize. Accounts: seller (consents), escrow record, seller's payout
/// account, buyer (consents), buyer's funding account, holding account, and
/// two host accounts (rent, system).
pub open spec fn initialize_outcome(
    accounts: Seq<AccountInput>,
    data: Seq<u8>,
    rent_exempt: bool,
    now: i64,
    amount: u64,
    release_timestamp: i64,
    dispute_time_window: i64,
    listing_id: Seq<u8>,
) -> Result<EffectView, ProcessError> {
    if accounts.len() < 8 {
        Err(ProcessError::NotEnoughAccountKeys)
    } else if !accounts[0].is_signer || !accounts[3].is_signer {
        Err(ProcessError::Escrow(EscrowError::Unauthorized))
    } else if !rent_exempt {
        Err(ProcessError::Escrow(EscrowError::NotRentExempt))
    } else if release_timestamp <= now {
        Err(ProcessError::Escrow(EscrowError::ReleaseTimeNotReached))
    } else if slot_in_use(data) {
        Err(ProcessError::Escrow(EscrowError::EscrowAlreadyInitialized))
    } else if data.len() < ESCROW_LEN {
        Err(ProcessError::AccountDataTooSmall)
    } else {
        Ok(
            EffectView {
                escrow_data: record_bytes(
                    created_record(
                        accounts,
                        now,
                        amount,
                        release_timestamp,
                        dispute_time_window,
                        listing_id,
                    ),
                ) + data.subrange(ESCROW_LEN as int, data.len() as int),
                transfer: None,
            },
        )
    }
}

/// Fund. Accounts: buyer (consents), escrow record, buyer's funding account,
/// holding account, token program.
pub open spec fn fund_outcome(accounts: Seq<AccountInput>, data: Seq<u8>, signature: Seq<u8>) -> Result<
    EffectView,
    ProcessError,
> {
    if accounts.len() < 5 {
        Err(ProcessError::NotEnoughAccountKeys)
    } else if !accounts[0].is_signer {
        Err(ProcessError::Escrow(EscrowError::Unauthorized))
    } else {
        match parse_record(data) {
            None => Err(ProcessError::InvalidAccountData),
            Some(e) => if e.buyer_pubkey != accounts[0].key@ {
                Err(ProcessError::Escrow(EscrowError::Unauthorized))
            } else if e.state != EscrowState::Created {
                Err(ProcessError::Escrow(EscrowError::InvalidEscrowState))
            } else if e.buyer_token_account != accounts[2].key@ || e.escrow_token_account
                != accounts[3].key@ {
                Err(ProcessError::Escrow(EscrowError::InvalidTokenAccount))
            } else if accounts[4].key@ != spl_token_key() {
                Err(ProcessError::IncorrectProgramId)
            } else {
                Ok(
                    EffectView {
                        escrow_data: record_bytes(advanced(e, EscrowState::Funded, signature)),
                        transfer: Some(
                            TransferView {
                                token_program: accounts[4].key@,
                                source: accounts[2].key@,
                                destination: accounts[3].key@,
                                authority: accounts[0].key@,
                                amount: e.amount,
                                signer_seeds: Seq::empty(),
                                request_program: accounts[4].key,
                                request_accounts: seq![
                                    meta(accounts[2].key, false, true),
                                    meta(accounts[3].key, false, true),
                                    meta(accounts[0].key, true, false),
                                ],
                                request_data: transfer_data(e.amount),
                            },
                        ),
                    },
                )
            },
        }
    }
}

/// Release (`to_seller`) or Refund. Accounts: seller (consents), escrow
/// record, holding account, recipient's account (the seller's payout account
/// on release, the buyer's funding account on refund), token program, clock.
pub open spec fn payout_outcome(
    accounts: Seq<AccountInput>,
    data: Seq<u8>,
    now: i64,
    signature: Seq<u8>,
    to_seller: bool,
) -> Result<EffectView, ProcessError> {
    if accounts.len() < 6 {
        Err(ProcessError::NotEnoughAccountKeys)
    } else if !accounts[0].is_signer {
        Err(ProcessError::Escrow(EscrowError::Unauthorized))
    } else {
        match parse_record(data) {
            None => Err(ProcessError::InvalidAccountData),
            Some(e) => if e.seller_pubkey != accounts[0].key@ {
                Err(ProcessError::Escrow(EscrowError::Unauthorized))
            } else if !release_allowed(e.state, e.release_timestamp, now) {
                Err(ProcessError::Escrow(EscrowError::InvalidEscrowState))
            } else if (if to_seller {
                e.seller_token_account
            } else {
                e.buyer_token_account
            }) != accounts[3].key@ || e.escrow_token_account != accounts[2].key@ {
                Err(ProcessError::Escrow(EscrowError::InvalidTokenAccount))
            } else if accounts[4].key@ != spl_token_key() {
                Err(ProcessError::IncorrectProgramId)
            } else {
                Ok(
                    EffectView {
                        escrow_data: record_bytes(
                            advanced(
                                e,
                                if to_seller {
                                    EscrowState::Released
                                } else {
                                    EscrowState::Refunded
                                },
                                signature,
                            ),
                        ),
                        transfer: Some(
                            TransferView {
                                token_program: accounts[4].key@,
                                source: accounts[2].key@,
                                destination: accounts[3].key@,
                                authority: accounts[1].key@,
                                amount: e.amount,
                                signer_seeds: authority_seed_spec(e),
                                request_program: accounts[4].key,
                                request_accounts: seq![
                                    meta(accounts[2].key, false, true),
                                    meta(accounts[3].key, false, true),
                                    meta(accounts[1].key, true, false),
                                ],
                                request_data: transfer_data(e.amount),
                            },
                        ),
                    },
                )
            },
        }
    }
}

/// Dispute. Accounts: buyer (consents), escrow record, clock.
pub open spec fn dispute_outcome(accounts: Seq<AccountInput>, data: Seq<u8>, now: i64) -> Result<
    EffectView,
    ProcessError,
> {
    if accounts.len() < 3 {
        Err(ProcessError::NotEnoughAccountKeys)
    } else if !accounts[0].is_signer {
        Err(ProcessError::Escrow(EscrowError::Unauthorized))
    } else {
        match parse_record(data) {
            None => Err(ProcessError::InvalidAccountData),
            Some(e) => if e.buyer_pubkey != accounts[0].key@ {
                Err(ProcessError::Escrow(EscrowError::Unauthorized))
            } else if !dispute_allowed(e.state, e.creation_timestamp, e.dispute_time_window, now) {
                Err(ProcessError::Escrow(EscrowError::InvalidEscrowState))
            } else {
                Ok(
                    EffectView {
                        escrow_data: record_bytes(
                            advanced(e, EscrowState::Disputed, e.transaction_signature),
                        ),
                        transfer: None,
                    },
                )
            },
        }
    }
}

/// What the host attests for one operation besides the accounts: the
/// current time, and whether the escrow account meets the host's minimum
/// balance for its size.
#[derive(Debug, Copy, Clone)]
pub struct HostInputs {
    pub current_timestamp: i64,
    pub rent_exempt: bool,
}

/// The outcome of one request.
pub open spec fn process_outcome(
    accounts: Seq<AccountInput>,
    data: Seq<u8>,
    instruction_data: Seq<u8>,
    host: HostInputs,
) -> Result<EffectView, ProcessError> {
    match parse_instruction(instruction_data) {
        None => Err(ProcessError::Escrow(EscrowError::InvalidInstruction)),
        Some(InstructionView::Initialize {
            amount,
            release_timestamp,
            dispute_time_window,
            listing_id,
        }) => initialize_outcome(
            accounts,
            data,
            host.rent_exempt,
            host.current_timestamp,
            amount,
            release_timestamp,
            dispute_time_window,
            listing_id,
        ),
        Some(InstructionView::Fund { transaction_signature }) => fund_outcome(
            accounts,
            data,
            transaction_signature,
        ),
        Some(InstructionView::Release { transaction_signature }) => payout_outcome(
            accounts,
            data,
            host.current_timestamp,
            transaction_signature,
            true,
        ),
        Some(InstructionView::Refund { transaction_signature }) => payout_outcome(
            accounts,
            data,
            host.current_timestamp,
            transaction_signature,
            false,
        ),
        Some(InstructionView::Dispute { .. }) => dispute_outcome(
            accounts,
            data,
            host.current_timestamp,
        ),
    }
}

/// The escrow operations.
pub struct Processor;

impl Processor {
    /// Decodes a request and decides it.
    pub fn process(
        _program_id: &Pubkey,
        accounts: &Vec<AccountInput>,
        escrow_data: &Vec<u8>,
        instruction_data: &Vec<u8>,
        host: &HostInputs,
    ) -> (r: Result<Effect, ProcessError>)
        ensures
            result_view(r) == process_outcome(accounts@, escrow_data@, instruction_data@, *host),
    {
        match EscrowInstruction::unpack(instruction_data) {
            None => Err(ProcessError::Escrow(EscrowError::InvalidInstruction)),
            Some(EscrowInstruction::Initialize {
                amount,
                release_timestamp,
                dispute_time_window,
                listing_id,
            }) => Self::process_initialize(
                accounts,
                escrow_data,
                host.rent_exempt,
                host.current_timestamp,
                amount,
                release_timestamp,
                dispute_time_window,
                listing_id,
            ),
            Some(EscrowInstruction::Fund { transaction_signature }) => Self::process_fund(
                accounts,
                escrow_data,
                transaction_signature,
            ),
            Some(EscrowInstruction::Release { transaction_signature }) => Self::process_release(
                accounts,
                escrow_data,
                host.current_timestamp,
                transaction_signature,
            ),
            Some(EscrowInstruction::Refund { transaction_signature }) => Self::process_refund(
                accounts,
                escrow_data,
                host.current_timestamp,
                transaction_signature,
            ),
            Some(EscrowInstruction::Dispute { reason }) => Self::process_dispute(
                accounts,
                escrow_data,
                host.current_timestamp,
                &reason,
            ),
        }
    }

    /// Opens an escrow in Created state in an unused slot.
    pub fn process_initialize(
        accounts: &Vec<AccountInput>,
        escrow_data: &Vec<u8>,
        rent_exempt: bool,
        current_timestamp: i64,
        amount: u64,
        release_timestamp: i64,
        dispute_time_window: i64,
        listing_id: [u8; 32],
    ) -> (r: Result<Effect, ProcessError>)
        ensures
            result_view(r) == initialize_outcome(
                accounts@,
                escrow_data@,
                rent_exempt,
                current_timestamp,
                amount,
                release_timestamp,
                dispute_time_window,
                listing_id@,
            ),
    {
        if accounts.len() < 8 {
            return Err(ProcessError::NotEnoughAccountKeys);
        }
        let seller = accounts[0];
        let seller_token_account = accounts[2];
        let buyer = accounts[3];
        let buyer_token_account = accounts[4];
        let escrow_token_account = accounts[5];
        if !seller.is_signer || !buyer.is_signer {
            return Err(ProcessError::Escrow(EscrowError::Unauthorized));
        }
        if !rent_exempt {
            return Err(ProcessError::Escrow(EscrowError::NotRentExempt));
        }
        if release_timestamp <= current_timestamp {
            return Err(ProcessError::Escrow(EscrowError::ReleaseTimeNotReached));
        }
        if escrow_data.len() > 0 && escrow_data[0] != 0 {
            return Err(ProcessError::Escrow(EscrowError::EscrowAlreadyInitialized));
        }
        if escrow_data.len() < ESCROW_LEN {
            return Err(ProcessError::AccountDataTooSmall);
        }
        let escrow = Escrow {
            is_initialized: true,
            seller_pubkey: seller.key,
            buyer_pubkey: buyer.key,
            seller_token_account: seller_token_account.key,
            buyer_token_account: buyer_token_account.key,
            escrow_token_account: escrow_token_account.key,
            amount,
            state: EscrowState::Created,
            creation_timestamp: current_timestamp,
            release_timestamp,
            dispute_time_window,
            listing_id,
            transaction_signature: [0u8; 64],
        };
        assert(escrow@ == created_record(
            accounts@,
            current_timestamp,
            amount,
            release_timestamp,
            dispute_time_window,
            listing_id@,
        )) by {
            assert(escrow.transaction_signature@ =~= Seq::new(64, |i: int| 0u8));
        }
        let mut data = escrow.pack();
        push_tail(&mut data, escrow_data, ESCROW_LEN);
        Ok(Effect { escrow_data: data, transfer: None })
    }

    /// Moves the amount from the buyer's funding account into the holding account.
    pub fn process_fund(
        accounts: &Vec<AccountInput>,
        escrow_data: &Vec<u8>,
        transaction_signature: [u8; 64],
    ) -> (r: Result<Effect, ProcessError>)
        ensures
            result_view(r) == fund_outcome(accounts@, escrow_data@, transaction_signature@),
    {
        if accounts.len() < 5 {
            return Err(ProcessError::NotEnoughAccountKeys);
        }
        let buyer = accounts[0];
        let buyer_token_account = accounts[2];
        let escrow_token_account = accounts[3];
        let token_program = accounts[4];
        if !buyer.is_signer {
            return Err(ProcessError::Escrow(EscrowError::Unauthorized));
        }
        let mut escrow = match Escrow::unpack(escrow_data) {
            Ok(e) => e,
            Err(x) => return Err(x),
        };
        if !same_bytes(escrow.buyer_pubkey.as_slice(), buyer.key.as_slice()) {
            return Err(ProcessError::Escrow(EscrowError::Unauthorized));
        }
        if escrow.state != EscrowState::Created {
            return Err(ProcessError::Escrow(EscrowError::InvalidEscrowState));
        }
        if !same_bytes(escrow.buyer_token_account.as_slice(), buyer_token_account.key.as_slice()) {
            return Err(ProcessError::Escrow(EscrowError::InvalidTokenAccount));
        }
        if !same_bytes(escrow.escrow_token_account.as_slice(), escrow_token_account.key.as_slice()) {
            return Err(ProcessError::Escrow(EscrowError::InvalidTokenAccount));
        }
        let instruction = match token_transfer(
            &token_program.key,
            &buyer_token_account.key,
            &escrow_token_account.key,
            &buyer.key,
            escrow.amount,
        ) {
            Some(ix) => ix,
            None => return Err(ProcessError::IncorrectProgramId),
        };
        let transfer = TokenTransfer {
            token_program: token_program.key,
            source: buyer_token_account.key,
            destination: escrow_token_account.key,
            authority: buyer.key,
            amount: escrow.amount,
            signer_seeds: Vec::new(),
            instruction,
        };
        escrow.state = EscrowState::Funded;
        escrow.transaction_signature = transaction_signature;
        let r = Effect { escrow_data: escrow.pack(), transfer: Some(transfer) };
        assert(r@.transfer.unwrap().signer_seeds =~= Seq::empty());
        Ok(r)
    }

    /// Pays the held amount to the seller's payout account.
    pub fn process_release(
        accounts: &Vec<AccountInput>,
        escrow_data: &Vec<u8>,
        current_timestamp: i64,
        transaction_signature: [u8; 64],
    ) -> (r: Result<Effect, ProcessError>)
        ensures
            result_view(r) == payout_outcome(
                accounts@,
                escrow_data@,
                current_timestamp,
                transaction_signature@,
                true,
            ),
    {
        Self::pay_out(accounts, escrow_data, current_timestamp, transaction_signature, true)
    }

    /// Returns the held amount to the buyer's funding account; the seller asks for it.
    pub fn process_refund(
        accounts: &Vec<AccountInput>,
        escrow_data: &Vec<u8>,
        current_timestamp: i64,
        transaction_signature: [u8; 64],
    ) -> (r: Result<Effect, ProcessError>)
        ensures
            result_view(r) == payout_outcome(
                accounts@,
                escrow_data@,
                current_timestamp,
                transaction_signature@,
                false,
            ),
    {
        Self::pay_out(accounts, escrow_data, current_timestamp, transaction_signature, false)
    }

    /// Moves the escrowed amount out of the holding account, to the seller
    /// (`to_seller`) or back to the buyer, under the derived authority.
    fn pay_out(
        accounts: &Vec<AccountInput>,
        escrow_data: &Vec<u8>,
        current_timestamp: i64,
        transaction_signature: [u8; 64],
        to_seller: bool,
    ) -> (r: Result<Effect, ProcessError>)
        ensures
            result_view(r) == payout_outcome(
                accounts@,
                escrow_data@,
                current_timestamp,
                transaction_signature@,
                to_seller,
            ),
    {
        if accounts.len() < 6 {
            return Err(ProcessError::NotEnoughAccountKeys);
        }
        let seller = accounts[0];
        let escrow_account = accounts[1];
        let escrow_token_account = accounts[2];
        let recipient_token_account = accounts[3];
        let token_program = accounts[4];
        if !seller.is_signer {
            return Err(ProcessError::Escrow(EscrowError::Unauthorized));
        }
        let mut escrow = match Escrow::unpack(escrow_data) {
            Ok(e) => e,
            Err(x) => return Err(x),
        };
        if !same_bytes(escrow.seller_pubkey.as_slice(), seller.key.as_slice()) {
            return Err(ProcessError::Escrow(EscrowError::Unauthorized));
        }
        let allowed = if to_seller {
            escrow.can_release(current_timestamp)
        } else {
            escrow.can_refund(current_timestamp)
        };
        if !allowed {
            return Err(ProcessError::Escrow(EscrowError::InvalidEscrowState));
        }
        let expected_recipient = if to_seller {
            escrow.seller_token_account
        } else {
            escrow.buyer_token_account
        };
        if !same_bytes(expected_recipient.as_slice(), recipient_token_account.key.as_slice()) {
            return Err(ProcessError::Escrow(EscrowError::InvalidTokenAccount));
        }
        if !same_bytes(escrow.escrow_token_account.as_slice(), escrow_token_account.key.as_slice()) {
            return Err(ProcessError::Escrow(EscrowError::InvalidTokenAccount));
        }
        let instruction = match token_transfer(
            &token_program.key,
            &escrow_token_account.key,
            &recipient_token_account.key,
            &escrow_account.key,
            escrow.amount,
        ) {
            Some(ix) => ix,
            None => return Err(ProcessError::IncorrectProgramId),
        };
        let transfer = TokenTransfer {
            token_program: token_program.key,
            source: escrow_token_account.key,
            destination: recipient_token_account.key,
            authority: escrow_account.key,
            amount: escrow.amount,
            signer_seeds: authority_seeds(&escrow),
            instruction,
        };
        escrow.state = if to_seller {
            EscrowState::Released
        } else {
            EscrowState::Refunded
        };
        escrow.transaction_signature = transaction_signature;
        Ok(Effect { escrow_data: escrow.pack(), transfer: Some(transfer) })
    }

    /// Freezes a funded escrow within its dispute window; `reason` is not stored.
    pub fn process_dispute(
        accounts: &Vec<AccountInput>,
        escrow_data: &Vec<u8>,
        current_timestamp: i64,
        reason: &String,
    ) -> (r: Result<Effect, ProcessError>)
        ensures
            result_view(r) == dispute_outcome(accounts@, escrow_data@, current_timestamp),
    {
        if accounts.len() < 3 {
            return Err(ProcessError::NotEnoughAccountKeys);
        }
        let buyer = accounts[0];
        if !buyer.is_signer {
            return Err(ProcessError::Escrow(EscrowError::Unauthorized));
        }
        let mut escrow = match Escrow::unpack(escrow_data) {
            Ok(e) => e,
            Err(x) => return Err(x),
        };
        if !same_bytes(escrow.buyer_pubkey.as_slice(), buyer.key.as_slice()) {
            return Err(ProcessError::Escrow(EscrowError::Unauthorized));
        }
        if !escrow.can_dispute(current_timestamp) {
            return Err(ProcessError::Escrow(EscrowError::InvalidEscrowState));
        }
        escrow.state = EscrowState::Disputed;
        Ok(Effect { escrow_data: escrow.pack(), transfer: None })
    }
}

} // verus!
