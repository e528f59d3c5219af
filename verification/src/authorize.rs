//! The authorization protocol of an increment.
//!
//! A counter advances only inside a transaction of two instructions: a
//! secp256k1 instruction, which the runtime has verified before anything of
//! the transaction runs, and the increment right after it. The increment
//! checks that it stands second, that the instruction in front of it is
//! addressed to the secp256k1 program and holds one recovery entry, that the
//! recovered address is the counter's signer address, and that the signed
//! message is the counter's nonce. The first check that fails decides the
//! error; the counter changes only when every check has passed.

use crate::error::ErrorCodes;
use crate::error::IncrementError;
use crate::nonce::lemma_nonce_bytes_injective;
use crate::nonce::nonce_bytes;
use crate::nonce::nonce_to_bytes;
use crate::payload::address_field;
use crate::payload::bytes_equal;
use crate::payload::declares_single_entry;
use crate::payload::has_single_entry;
use crate::payload::message_field;
use crate::payload::recovered_address;
use crate::payload::signed_message;
use crate::state::Counter;
use crate::sysvar::current_index;
use crate::sysvar::decoded_instruction;
use crate::sysvar::instructions_sysvar_id;
use crate::sysvar::load_current_index_checked;
use crate::sysvar::load_instruction_at_checked;
use crate::sysvar::secp256k1_id;
use crate::sysvar::secp256k1_program_id;
use crate::sysvar::InstructionView;
use crate::sysvar::SysvarAccount;
use vstd::prelude::*;

verus! {

/// The position that the increment must have in its transaction.
pub const INCREMENT_INDEX: u16 = 1;

/// What the protocol decides for a counter, the position of the increment in
/// its transaction, and the program id and data of the instruction in front.
///
/// The checks run in this order, and the first that fails gives the error.
/// Data that ends before byte 32 holds no address and fails the address
/// check; data that ends before byte 97 holds no message and fails the nonce
/// check.
pub open spec fn increment_verdict(
    counter: Counter,
    position: u16,
    program_id: Seq<u8>,
    data: Seq<u8>,
) -> Result<(), ErrorCodes> {
    if position != INCREMENT_INDEX {
        Err(ErrorCodes::InstructionAtWrongIndex)
    } else if program_id != secp256k1_program_id() || !declares_single_entry(data) {
        Err(ErrorCodes::InvalidSecpInstruction)
    } else if address_field(data) != Some(counter.signer_address@) {
        Err(ErrorCodes::InvalidSecpSignature)
    } else if message_field(data) != Some(nonce_bytes(counter.nonce)) {
        Err(ErrorCodes::InvalidSecpNonce)
    } else {
        Ok(())
    }
}

/// The counter that a transaction leaves behind: advanced where the verdict
/// is `Ok`, untouched otherwise.
pub open spec fn counter_after(
    counter: Counter,
    position: u16,
    program_id: Seq<u8>,
    data: Seq<u8>,
) -> Counter {
    if increment_verdict(counter, position, program_id, data) is Ok {
        counter.advanced()
    } else {
        counter
    }
}

/// What `increment` returns for a counter and the account handed in as the
/// instructions sysvar, given by its address and data.
pub open spec fn increment_outcome(counter: Counter, key: Seq<u8>, data: Seq<u8>) -> Result<
    (),
    IncrementError,
> {
    if key != instructions_sysvar_id() {
        Err(IncrementError::UnsupportedSysvar)
    } else if current_index(data) != INCREMENT_INDEX {
        Err(IncrementError::Rejected(ErrorCodes::InstructionAtWrongIndex))
    } else {
        match decoded_instruction(INCREMENT_INDEX - 1, data) {
            None => Err(IncrementError::InvalidAccountData),
            Some((program_id, payload)) => match increment_verdict(
                counter,
                INCREMENT_INDEX,
                program_id,
                payload,
            ) {
                Ok(()) => Ok(()),
                Err(code) => Err(IncrementError::Rejected(code)),
            },
        }
    }
}

/// Runs the protocol for an increment at `position` whose preceding
/// instruction is `companion`, and advances the counter if it passes.
///
/// The counter must have room for the increment where the protocol passes.
pub fn increment_at(counter: &mut Counter, position: u16, companion: &InstructionView) -> (result:
    Result<(), ErrorCodes>)
    requires
        increment_verdict(*old(counter), position, companion.program_id@, companion.data@) is Ok
            ==> old(counter).can_advance(),
    ensures
        result == increment_verdict(
            *old(counter),
            position,
            companion.program_id@,
            companion.data@,
        ),
        *final(counter) == counter_after(
            *old(counter),
            position,
            companion.program_id@,
            companion.data@,
        ),
{
    if position != INCREMENT_INDEX {
        return Err(ErrorCodes::InstructionAtWrongIndex);
    }
    let secp_id: [u8; 32] = secp256k1_id();
    if !bytes_equal(companion.program_id.as_slice(), secp_id.as_slice()) {
        return Err(ErrorCodes::InvalidSecpInstruction);
    }
    let data: &[u8] = companion.data.as_slice();
    if !has_single_entry(data) {
        return Err(ErrorCodes::InvalidSecpInstruction);
    }
    let address_matches: bool = match recovered_address(data) {
        Some(address) => bytes_equal(address, counter.signer_address.as_slice()),
        None => false,
    };
    if !address_matches {
        return Err(ErrorCodes::InvalidSecpSignature);
    }
    let expected: [u8; 8] = nonce_to_bytes(counter.nonce);
    let message_matches: bool = match signed_message(data) {
        Some(message) => bytes_equal(message, expected.as_slice()),
        None => false,
    };
    if !message_matches {
        return Err(ErrorCodes::InvalidSecpNonce);
    }
    counter.nonce = counter.nonce + 1;
    counter.count = counter.count + 1;
    Ok(())
}

/// Reads the increment's position and the instruction in front of it from
/// the account handed in as the instructions sysvar, runs the protocol, and
/// advances the counter if it passes.
///
/// The account must hold a current index if it has the sysvar's address, and
/// the counter must have room for one more increment.
pub fn increment(counter: &mut Counter, sysvar: &SysvarAccount) -> (result: Result<
    (),
    IncrementError,
>)
    requires
        sysvar.holds_current_index(),
        old(counter).can_advance(),
    ensures
        result == increment_outcome(*old(counter), sysvar.key@, sysvar.data@),
        *final(counter) == if result is Ok {
            old(counter).advanced()
        } else {
            *old(counter)
        },
{
    let position: u16 = match load_current_index_checked(sysvar) {
        Ok(index) => index,
        Err(_) => {
            return Err(IncrementError::UnsupportedSysvar);
        },
    };
    if position != INCREMENT_INDEX {
        return Err(IncrementError::Rejected(ErrorCodes::InstructionAtWrongIndex));
    }
    let companion: InstructionView = match load_instruction_at_checked(
        (position - 1) as usize,
        sysvar,
    ) {
        Ok(instruction) => instruction,
        Err(_) => {
            return Err(IncrementError::InvalidAccountData);
        },
    };
    match increment_at(counter, position, &companion) {
        Ok(()) => Ok(()),
        Err(code) => Err(IncrementError::Rejected(code)),
    }
}

/// An increment that is not the second instruction of its transaction is
/// refused for its position, whatever stands in front of it, and the counter
/// stays as it was.
pub proof fn lemma_wrong_position(
    counter: Counter,
    position: u16,
    program_id: Seq<u8>,
    data: Seq<u8>,
)
    requires
        position != INCREMENT_INDEX,
    ensures
        increment_verdict(counter, position, program_id, data) == Err::<(), ErrorCodes>(
            ErrorCodes::InstructionAtWrongIndex,
        ),
        counter_after(counter, position, program_id, data) == counter,
{
}

/// At the right position, an instruction in front that is addressed to any
/// program but the secp256k1 program is refused as no secp256k1 instruction.
pub proof fn lemma_foreign_program(counter: Counter, program_id: Seq<u8>, data: Seq<u8>)
    requires
        program_id != secp256k1_program_id(),
    ensures
        increment_verdict(counter, INCREMENT_INDEX, program_id, data) == Err::<(), ErrorCodes>(
            ErrorCodes::InvalidSecpInstruction,
        ),
        counter_after(counter, INCREMENT_INDEX, program_id, data) == counter,
{
}

/// At the right position, data shorter than two bytes, or with a first byte
/// other than one, is refused as no secp256k1 instruction.
pub proof fn lemma_not_single_entry(counter: Counter, program_id: Seq<u8>, data: Seq<u8>)
    requires
        data.len() < 2 || data[0] != 1,
    ensures
        increment_verdict(counter, INCREMENT_INDEX, program_id, data) == Err::<(), ErrorCodes>(
            ErrorCodes::InvalidSecpInstruction,
        ),
        counter_after(counter, INCREMENT_INDEX, program_id, data) == counter,
{
}

/// A secp256k1 instruction with one entry whose address field is not the
/// counter's signer address is refused for its signature, whatever message
/// it carries and whatever the counter's nonce is.
pub proof fn lemma_address_binding(counter: Counter, data: Seq<u8>)
    requires
        declares_single_entry(data),
        address_field(data) != Some(counter.signer_address@),
    ensures
        increment_verdict(counter, INCREMENT_INDEX, secp256k1_program_id(), data) == Err::<
            (),
            ErrorCodes,
        >(ErrorCodes::InvalidSecpSignature),
        counter_after(counter, INCREMENT_INDEX, secp256k1_program_id(), data) == counter,
{
}

/// A secp256k1 instruction with one entry and the signer's address whose
/// message is not the encoding of the counter's nonce is refused for its
/// nonce.
pub proof fn lemma_nonce_binding(counter: Counter, data: Seq<u8>)
    requires
        declares_single_entry(data),
        address_field(data) == Some(counter.signer_address@),
        message_field(data) != Some(nonce_bytes(counter.nonce)),
    ensures
        increment_verdict(counter, INCREMENT_INDEX, secp256k1_program_id(), data) == Err::<
            (),
            ErrorCodes,
        >(ErrorCodes::InvalidSecpNonce),
        counter_after(counter, INCREMENT_INDEX, secp256k1_program_id(), data) == counter,
{
}

/// A transaction that was accepted is refused for its nonce when it is
/// submitted again: the counter has moved on to the next nonce, and no two
/// nonces share an encoding.
pub proof fn lemma_replay_rejected(
    counter: Counter,
    position: u16,
    program_id: Seq<u8>,
    data: Seq<u8>,
)
    requires
        counter.can_advance(),
        increment_verdict(counter, position, program_id, data) is Ok,
    ensures
        increment_verdict(counter_after(counter, position, program_id, data), position, program_id, data)
            == Err::<(), ErrorCodes>(ErrorCodes::InvalidSecpNonce),
{
    let next = counter.advanced();
    assert(next.nonce == counter.nonce + 1);
    if nonce_bytes(next.nonce) == nonce_bytes(counter.nonce) {
        lemma_nonce_bytes_injective(next.nonce, counter.nonce);
    }
}

/// A secp256k1 instruction with one entry, the signer's address and the
/// encoding of the counter's nonce as its message, right in front of the
/// increment, is accepted: count and nonce go up by one and the signer
/// address stays. The same transaction is refused for its nonce from then on.
pub proof fn lemma_accepted(counter: Counter, data: Seq<u8>)
    requires
        counter.can_advance(),
        declares_single_entry(data),
        address_field(data) == Some(counter.signer_address@),
        message_field(data) == Some(nonce_bytes(counter.nonce)),
    ensures
        increment_verdict(counter, INCREMENT_INDEX, secp256k1_program_id(), data) is Ok,
        ({
            let after = counter_after(counter, INCREMENT_INDEX, secp256k1_program_id(), data);
            &&& after.count == counter.count + 1
            &&& after.nonce == counter.nonce + 1
            &&& after.signer_address == counter.signer_address
            &&& increment_verdict(after, INCREMENT_INDEX, secp256k1_program_id(), data) == Err::<
                (),
                ErrorCodes,
            >(ErrorCodes::InvalidSecpNonce)
        }),
{
    lemma_replay_rejected(counter, INCREMENT_INDEX, secp256k1_program_id(), data);
}

/// Whatever a transaction holds, the signer address of the counter stays,
/// count and nonce never go down, and they go up together: a counter whose
/// nonce is its count keeps it so.
pub proof fn lemma_counter_steps(
    counter: Counter,
    position: u16,
    program_id: Seq<u8>,
    data: Seq<u8>,
)
    requires
        counter.can_advance(),
    ensures
        ({
            let after = counter_after(counter, position, program_id, data);
            &&& after.signer_address == counter.signer_address
            &&& after.nonce >= counter.nonce
            &&& after.count - counter.count == after.nonce - counter.nonce
            &&& counter.count == counter.nonce ==> after.count == after.nonce
        }),
{
}

/// Under the sysvar's address, `increment` decides as the protocol does for
/// the index that the data holds and the instruction decoded from its first
/// place. Without such an instruction it still refuses a wrong index first.
pub proof fn lemma_outcome_is_verdict(counter: Counter, data: Seq<u8>)
    requires
        data.len() >= 2,
    ensures
        increment_outcome(counter, instructions_sysvar_id(), data) == match decoded_instruction(
            0,
            data,
        ) {
            Some((program_id, payload)) => match increment_verdict(
                counter,
                current_index(data) as u16,
                program_id,
                payload,
            ) {
                Ok(()) => Ok::<(), IncrementError>(()),
                Err(code) => Err(IncrementError::Rejected(code)),
            },
            None => if current_index(data) == INCREMENT_INDEX {
                Err(IncrementError::InvalidAccountData)
            } else {
                Err(IncrementError::Rejected(ErrorCodes::InstructionAtWrongIndex))
            },
        },
{
}

} // verus!
