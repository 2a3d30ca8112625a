//! The token program's transfer request, as the token program builds it.
use vstd::prelude::*;
use crate::bytes::le_bytes;
use crate::instruction::{AccountMeta, Instruction, meta};
use crate::state::Pubkey;
use solana_program::pubkey::Pubkey as HostKey;

verus! {

/// Address of the SPL Token program.
pub open spec fn spl_token_key() -> Seq<u8> {
    seq![
        6u8, 221, 246, 225, 215, 101, 161, 147, 217, 203, 225, 70, 206, 235, 121, 172, 28, 180,
        133, 237, 95, 91, 55, 145, 58, 140, 245, 133, 126, 255, 0, 169,
    ]
}

/// Address of the SPL Token program.
pub fn spl_token_program_id() -> (r: Pubkey)
    ensures
        r@ == spl_token_key(),
{
    let r: Pubkey = [
        6, 221, 246, 225, 215, 101, 161, 147, 217, 203, 225, 70, 206, 235, 121, 172, 28, 180, 133,
        237, 95, 91, 55, 145, 58, 140, 245, 133, 126, 255, 0, 169,
    ];
    assert(r@ =~= spl_token_key());
    r
}

/// The data of a token transfer request: variant index 3, then the amount
/// as eight little-endian bytes.
pub open spec fn transfer_data(amount: u64) -> Seq<u8> {
    seq![3u8] + le_bytes(amount as nat, 8)
}

/// Relies on `spl_token::instruction::transfer` with no multisignature
/// signers: it refuses any program but SPL Token's, and otherwise addresses
/// that program with the source and destination writable, the authority as
/// consenting, and the transfer data.
#[verifier::external_body]
pub(crate) fn token_transfer(
    token_program: &Pubkey,
    source: &Pubkey,
    destination: &Pubkey,
    authority: &Pubkey,
    amount: u64,
) -> (r: Option<Instruction>)
    ensures
        r is Some <==> token_program@ == spl_token_key(),
        r matches Some(ix) ==> ix.program_id == *token_program && ix.accounts@ == seq![
            meta(*source, false, true),
            meta(*destination, false, true),
            meta(*authority, true, false),
        ] && ix.data@ == transfer_data(amount),
{
    let k = |p: &Pubkey| HostKey::new_from_array(*p);
    let ix = spl_token::instruction::transfer(&k(token_program), &k(source), &k(destination), &k(authority), &[], amount).ok()?;
    Some(Instruction {
        program_id: ix.program_id.to_bytes(),
        accounts: ix.accounts.iter().map(|m| AccountMeta { pubkey: m.pubkey.to_bytes(), is_signer: m.is_signer, is_writable: m.is_writable }).collect(),
        data: ix.data,
    })
}

} // verus!
