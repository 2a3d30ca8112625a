//! Properties of the escrow lifecycle that hold across every request.
use vstd::prelude::*;
use crate::error::{EscrowError, ProcessError};
use crate::instruction::{InstructionView, parse_instruction};
use crate::processor::{AccountInput, HostInputs, process_outcome, slot_in_use, created_record, advanced};
use crate::state::{EscrowState, EscrowView, release_allowed, dispute_allowed, ESCROW_LEN, parse_record, record_bytes, lemma_record_round_trip};

verus! {

/// The steps a stored record may take: Created to Funded; Funded to
/// Disputed, Released or Refunded; Disputed to Released or Refunded.
pub open spec fn forward_step(from: EscrowState, to: EscrowState) -> bool {
    ||| from == EscrowState::Created && to == EscrowState::Funded
    ||| from == EscrowState::Funded && (to == EscrowState::Disputed || to
        == EscrowState::Released || to == EscrowState::Refunded)
    ||| from == EscrowState::Disputed && (to == EscrowState::Released || to
        == EscrowState::Refunded)
}

/// The record at the start of an escrow account's data.
pub open spec fn stored_record(data: Seq<u8>) -> Option<EscrowView> {
    if data.len() >= ESCROW_LEN {
        parse_record(data.subrange(0, ESCROW_LEN as int))
    } else {
        None
    }
}

pub open spec fn requests_initialize(instruction_data: Seq<u8>) -> bool {
    parse_instruction(instruction_data) matches Some(InstructionView::Initialize { .. })
}

/// The party whose consent a request on a stored record needs: the seller
/// for Release and Refund, the buyer otherwise.
pub open spec fn required_party(v: InstructionView, e: EscrowView) -> Seq<u8> {
    match v {
        InstructionView::Release { .. } => e.seller_pubkey,
        InstructionView::Refund { .. } => e.seller_pubkey,
        _ => e.buyer_pubkey,
    }
}

/// How many accounts a request reads.
pub open spec fn accounts_needed(v: InstructionView) -> nat {
    match v {
        InstructionView::Initialize { .. } => 8,
        InstructionView::Fund { .. } => 5,
        InstructionView::Release { .. } => 6,
        InstructionView::Refund { .. } => 6,
        InstructionView::Dispute { .. } => 3,
    }
}

/// What an accepted request stores, read back as a record.
proof fn lemma_stored_after(
    accounts: Seq<AccountInput>,
    data: Seq<u8>,
    instruction_data: Seq<u8>,
    host: HostInputs,
)
    requires
        process_outcome(accounts, data, instruction_data, host) is Ok,
    ensures
        ({
            let n = stored_record(
                process_outcome(accounts, data, instruction_data, host).unwrap().escrow_data,
            );
            &&& n is Some
            &&& match parse_instruction(instruction_data) {
                Some(InstructionView::Initialize {
                    amount,
                    release_timestamp,
                    dispute_time_window,
                    listing_id,
                }) => !slot_in_use(data) && n == Some(
                    created_record(
                        accounts,
                        host.current_timestamp,
                        amount,
                        release_timestamp,
                        dispute_time_window,
                        listing_id,
                    ),
                ),
                Some(InstructionView::Fund { transaction_signature }) => n == Some(
                    advanced(parse_record(data).unwrap(), EscrowState::Funded, transaction_signature),
                ),
                Some(InstructionView::Release { transaction_signature }) => n == Some(
                    advanced(parse_record(data).unwrap(), EscrowState::Released, transaction_signature),
                ),
                Some(InstructionView::Refund { transaction_signature }) => n == Some(
                    advanced(parse_record(data).unwrap(), EscrowState::Refunded, transaction_signature),
                ),
                Some(InstructionView::Dispute { .. }) => n == Some(
                    advanced(
                        parse_record(data).unwrap(),
                        EscrowState::Disputed,
                        parse_record(data).unwrap().transaction_signature,
                    ),
                ),
                None => false,
            }
        }),
{
    let eff = process_outcome(accounts, data, instruction_data, host).unwrap();
    match parse_instruction(instruction_data) {
        Some(InstructionView::Initialize {
            amount,
            release_timestamp,
            dispute_time_window,
            listing_id,
        }) => {
            let c = created_record(
                accounts,
                host.current_timestamp,
                amount,
                release_timestamp,
                dispute_time_window,
                listing_id,
            );
            assert(listing_id =~= instruction_data.subrange(25, 57));
            lemma_record_round_trip(c);
            assert(eff.escrow_data.subrange(0, ESCROW_LEN as int) =~= record_bytes(c));
        },
        Some(InstructionView::Fund { transaction_signature }) => {
            lemma_record_round_trip(
                advanced(parse_record(data).unwrap(), EscrowState::Funded, transaction_signature),
            );
            assert(eff.escrow_data.subrange(0, ESCROW_LEN as int) =~= eff.escrow_data);
        },
        Some(InstructionView::Release { transaction_signature }) => {
            lemma_record_round_trip(
                advanced(parse_record(data).unwrap(), EscrowState::Released, transaction_signature),
            );
            assert(eff.escrow_data.subrange(0, ESCROW_LEN as int) =~= eff.escrow_data);
        },
        Some(InstructionView::Refund { transaction_signature }) => {
            lemma_record_round_trip(
                advanced(parse_record(data).unwrap(), EscrowState::Refunded, transaction_signature),
            );
            assert(eff.escrow_data.subrange(0, ESCROW_LEN as int) =~= eff.escrow_data);
        },
        Some(InstructionView::Dispute { .. }) => {
            let o = parse_record(data).unwrap();
            lemma_record_round_trip(advanced(o, EscrowState::Disputed, o.transaction_signature));
            assert(eff.escrow_data.subrange(0, ESCROW_LEN as int) =~= eff.escrow_data);
        },
        None => {},
    }
}

/// An accepted request either opens a record in Created state in an unused
/// slot, or moves a stored record exactly one step forward along the
/// lifecycle: never backward, never past Funded without passing it.
pub proof fn lemma_lifecycle_moves_forward(
    accounts: Seq<AccountInput>,
    data: Seq<u8>,
    instruction_data: Seq<u8>,
    host: HostInputs,
)
    requires
        process_outcome(accounts, data, instruction_data, host) is Ok,
    ensures
        ({
            let n = stored_record(
                process_outcome(accounts, data, instruction_data, host).unwrap().escrow_data,
            );
            &&& n is Some
            &&& requests_initialize(instruction_data) ==> !slot_in_use(data) && n.unwrap().state
                == EscrowState::Created
            &&& !requests_initialize(instruction_data) ==> parse_record(data) is Some
                && forward_step(parse_record(data).unwrap().state, n.unwrap().state)
        }),
{
    lemma_stored_after(accounts, data, instruction_data, host);
}

/// An accepted request had the consent of the party it needs: both parties
/// for Initialize, the stored buyer for Fund and Dispute, the stored seller
/// for Release and Refund.
pub proof fn lemma_accepted_has_consent(
    accounts: Seq<AccountInput>,
    data: Seq<u8>,
    instruction_data: Seq<u8>,
    host: HostInputs,
)
    requires
        process_outcome(accounts, data, instruction_data, host) is Ok,
    ensures
        parse_instruction(instruction_data) is Some,
        requests_initialize(instruction_data) ==> accounts[0].is_signer && accounts[3].is_signer,
        !requests_initialize(instruction_data) ==> parse_record(data) is Some
            && accounts[0].is_signer && accounts[0].key@ == required_party(
            parse_instruction(instruction_data).unwrap(),
            parse_record(data).unwrap(),
        ),
{
}

/// A request on a stored record whose first account is not the party it
/// needs, or did not consent, fails with `Unauthorized` and stores nothing,
/// whatever state the record is in.
pub proof fn lemma_wrong_party_refused(
    accounts: Seq<AccountInput>,
    data: Seq<u8>,
    instruction_data: Seq<u8>,
    host: HostInputs,
)
    requires
        parse_instruction(instruction_data) is Some,
        !requests_initialize(instruction_data),
        accounts.len() >= accounts_needed(parse_instruction(instruction_data).unwrap()),
        parse_record(data) is Some,
        !accounts[0].is_signer || accounts[0].key@ != required_party(
            parse_instruction(instruction_data).unwrap(),
            parse_record(data).unwrap(),
        ),
    ensures
        process_outcome(accounts, data, instruction_data, host) == Err::<
            crate::processor::EffectView,
            ProcessError,
        >(ProcessError::Escrow(EscrowError::Unauthorized)),
{
}

/// Initialize without the consent of both parties fails with `Unauthorized`.
pub proof fn lemma_initialize_needs_both(
    accounts: Seq<AccountInput>,
    data: Seq<u8>,
    instruction_data: Seq<u8>,
    host: HostInputs,
)
    requires
        requests_initialize(instruction_data),
        accounts.len() >= 8,
        !accounts[0].is_signer || !accounts[3].is_signer,
    ensures
        process_outcome(accounts, data, instruction_data, host) == Err::<
            crate::processor::EffectView,
            ProcessError,
        >(ProcessError::Escrow(EscrowError::Unauthorized)),
{
}

/// Once a record is Released or Refunded, no Fund, Release, Refund or
/// Dispute request on it is accepted.
pub proof fn lemma_completed_is_final(
    accounts: Seq<AccountInput>,
    data: Seq<u8>,
    instruction_data: Seq<u8>,
    host: HostInputs,
)
    requires
        parse_record(data) is Some,
        parse_record(data).unwrap().state == EscrowState::Released || parse_record(
            data,
        ).unwrap().state == EscrowState::Refunded,
        !requests_initialize(instruction_data),
    ensures
        process_outcome(accounts, data, instruction_data, host) is Err,
{
}

/// No accepted request on an initialized record changes its parties, its
/// amount, its three accounts, its listing or its timing terms.
pub proof fn lemma_terms_fixed(
    accounts: Seq<AccountInput>,
    data: Seq<u8>,
    instruction_data: Seq<u8>,
    host: HostInputs,
)
    requires
        parse_record(data) is Some,
        parse_record(data).unwrap().is_initialized,
        process_outcome(accounts, data, instruction_data, host) is Ok,
    ensures
        ({
            let o = parse_record(data).unwrap();
            let n = stored_record(
                process_outcome(accounts, data, instruction_data, host).unwrap().escrow_data,
            ).unwrap();
            &&& n.seller_pubkey == o.seller_pubkey
            &&& n.buyer_pubkey == o.buyer_pubkey
            &&& n.amount == o.amount
            &&& n.seller_token_account == o.seller_token_account
            &&& n.buyer_token_account == o.buyer_token_account
            &&& n.escrow_token_account == o.escrow_token_account
            &&& n.listing_id == o.listing_id
            &&& n.creation_timestamp == o.creation_timestamp
            &&& n.release_timestamp == o.release_timestamp
            &&& n.dispute_time_window == o.dispute_time_window
        }),
{
    lemma_stored_after(accounts, data, instruction_data, host);
}

/// The time and state gates of each request on a stored record, asked by
/// the party it needs: Fund only from Created; Release and Refund only when
/// `release_allowed` holds, so never from Created, Released or Refunded, and
/// from Disputed only once the release time has come; Dispute only when
/// `dispute_allowed` holds. Otherwise the request fails with
/// `InvalidEscrowState` and stores nothing.
pub proof fn lemma_untimely_refused(
    accounts: Seq<AccountInput>,
    data: Seq<u8>,
    instruction_data: Seq<u8>,
    host: HostInputs,
)
    requires
        parse_instruction(instruction_data) is Some,
        !requests_initialize(instruction_data),
        accounts.len() >= accounts_needed(parse_instruction(instruction_data).unwrap()),
        parse_record(data) is Some,
        accounts[0].is_signer,
        accounts[0].key@ == required_party(
            parse_instruction(instruction_data).unwrap(),
            parse_record(data).unwrap(),
        ),
        !request_timely(
            parse_instruction(instruction_data).unwrap(),
            parse_record(data).unwrap(),
            host.current_timestamp,
        ),
    ensures
        process_outcome(accounts, data, instruction_data, host) == Err::<
            crate::processor::EffectView,
            ProcessError,
        >(ProcessError::Escrow(EscrowError::InvalidEscrowState)),
{
}

/// Whether a request's state and time gate admits it on record `e` at `now`.
pub open spec fn request_timely(v: InstructionView, e: EscrowView, now: i64) -> bool {
    match v {
        InstructionView::Initialize { .. } => true,
        InstructionView::Fund { .. } => e.state == EscrowState::Created,
        InstructionView::Release { .. } => release_allowed(e.state, e.release_timestamp, now),
        InstructionView::Refund { .. } => release_allowed(e.state, e.release_timestamp, now),
        InstructionView::Dispute { .. } => dispute_allowed(
            e.state,
            e.creation_timestamp,
            e.dispute_time_window,
            now,
        ),
    }
}

/// Initialize on a slot that holds an initialized record, whatever its
/// state, fails with `EscrowAlreadyInitialized` once both parties consent,
/// the slot is rent-exempt and the release time lies ahead: no record ever
/// goes back to Created.
pub proof fn lemma_reinitialize_refused(
    accounts: Seq<AccountInput>,
    data: Seq<u8>,
    instruction_data: Seq<u8>,
    host: HostInputs,
)
    requires
        requests_initialize(instruction_data),
        accounts.len() >= 8,
        accounts[0].is_signer && accounts[3].is_signer,
        host.rent_exempt,
        parse_instruction(instruction_data).unwrap() matches InstructionView::Initialize {
            release_timestamp,
            ..
        } && release_timestamp > host.current_timestamp,
        parse_record(data) is Some,
        parse_record(data).unwrap().is_initialized,
    ensures
        process_outcome(accounts, data, instruction_data, host) == Err::<
            crate::processor::EffectView,
            ProcessError,
        >(ProcessError::Escrow(EscrowError::EscrowAlreadyInitialized)),
{
}

} // verus!
