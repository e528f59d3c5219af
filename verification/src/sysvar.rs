//! What the increment learns from its transaction: its own position, and the
//! instruction in front of it.
//!
//! Both are read from the instructions sysvar by `solana_program`. The account
//! is held here as plain values, its address and its data, and handed to
//! `solana_program` for every reading.

use solana_program::account_info::AccountInfo;
use solana_program::program_error::ProgramError;
use solana_program::pubkey::Pubkey;
use solana_program::sysvar::instructions;
use vstd::prelude::*;

verus! {

/// `solana_program`'s error type. Nothing is read from a value of it.
#[verifier::external_type_specification]
#[verifier::external_body]
pub struct ExProgramError(ProgramError);

/// The account that a transaction hands in as the instructions sysvar.
#[derive(Clone, Debug, PartialEq, Eq)]
pub struct SysvarAccount {
    /// Address of the account.
    pub key: [u8; 32],
    /// Data of the account.
    pub data: Vec<u8>,
}

/// What the increment reads of another instruction of its transaction.
#[derive(Clone, Debug, PartialEq, Eq)]
pub struct InstructionView {
    /// Address of the program that the instruction is addressed to.
    pub program_id: [u8; 32],
    /// Data of the instruction.
    pub data: Vec<u8>,
}

/// Address of the secp256k1 program,
/// `KeccakSecp256k11111111111111111111111111111` in base 58.
pub open spec fn secp256k1_program_id() -> Seq<u8> {
    seq![
        4u8, 198, 252, 32, 240, 80, 204, 240, 85, 132, 215, 33, 28, 159, 140, 245,
        158, 193, 71, 133, 187, 22, 106, 30, 40, 48, 232, 18, 32, 0, 0, 0,
    ]
}

/// Address of the instructions sysvar,
/// `Sysvar1nstructions1111111111111111111111111` in base 58.
pub open spec fn instructions_sysvar_id() -> Seq<u8> {
    seq![
        6u8, 167, 213, 23, 24, 123, 209, 102, 53, 218, 212, 4, 85, 253, 194, 192,
        193, 36, 198, 143, 33, 86, 117, 165, 219, 186, 203, 95, 8, 0, 0, 0,
    ]
}

/// The index of the running instruction as the sysvar's data holds it: in its
/// last two bytes, low byte first.
pub open spec fn current_index(data: Seq<u8>) -> int
    recommends
        data.len() >= 2,
{
    data[data.len() - 2] as int + 256 * (data[data.len() - 1] as int)
}

/// The instruction that `solana_program` decodes from sysvar data at an index,
/// as its program id and its data; `None` where it reports an error.
pub uninterp spec fn decoded_instruction(index: int, data: Seq<u8>) -> Option<(Seq<u8>, Seq<u8>)>;

impl SysvarAccount {
    /// Whether the current index can be read: an account under the sysvar's
    /// address has to hold the two bytes of the index.
    pub open spec fn holds_current_index(&self) -> bool {
        self.key@ == instructions_sysvar_id() ==> self.data@.len() >= 2
    }
}

/// Calls `solana_program::secp256k1_program::id`, which returns the constant
/// address that the crate declares for the secp256k1 program. The contract
/// gives the 32 bytes of that address.
#[verifier::external_body]
pub(crate) fn secp256k1_id() -> (id: [u8; 32])
    ensures
        id@ == secp256k1_program_id(),
{
    solana_program::secp256k1_program::id().to_bytes()
}

/// Calls `solana_program::sysvar::instructions::load_current_index_checked` on
/// an `AccountInfo` made of the account's address and a copy of its data. That
/// function fails for every address but the sysvar's, and else reads the last
/// two bytes of the data as a little-endian `u16`; it panics where there are
/// fewer than two bytes, which `requires` leaves out. Its borrow of the data
/// cannot fail, since nothing else holds the `AccountInfo`.
#[verifier::external_body]
pub(crate) fn load_current_index_checked(account: &SysvarAccount) -> (loaded: Result<
    u16,
    ProgramError,
>)
    requires
        account.holds_current_index(),
    ensures
        loaded is Ok <==> account.key@ == instructions_sysvar_id(),
        loaded matches Ok(index) ==> index as int == current_index(account.data@),
{
    let key = Pubkey::new_from_array(account.key);
    let mut lamports: u64 = 0;
    let mut data = account.data.clone();
    let info = AccountInfo::new(&key, false, false, &mut lamports, &mut data, &key, false, 0);
    instructions::load_current_index_checked(&info)
}

/// Calls `solana_program::sysvar::instructions::load_instruction_at_checked` on
/// an `AccountInfo` made of the account's address and a copy of its data. That
/// function fails for every address but the sysvar's, and else decodes the
/// instruction at `index` from the data alone. The contract names what it
/// decodes; of the decoded instruction it hands on the program id and the data.
#[verifier::external_body]
pub(crate) fn load_instruction_at_checked(index: usize, account: &SysvarAccount) -> (loaded:
    Result<InstructionView, ProgramError>)
    ensures
        account.key@ != instructions_sysvar_id() ==> loaded is Err,
        account.key@ == instructions_sysvar_id() ==> match loaded {
            Ok(instruction) => decoded_instruction(index as int, account.data@) == Some(
                (instruction.program_id@, instruction.data@),
            ),
            Err(_) => decoded_instruction(index as int, account.data@).is_none(),
        },
{
    let key = Pubkey::new_from_array(account.key);
    let mut lamports: u64 = 0;
    let mut data = account.data.clone();
    let info = AccountInfo::new(&key, false, false, &mut lamports, &mut data, &key, false, 0);
    match instructions::load_instruction_at_checked(index, &info) {
        Ok(found) => Ok(InstructionView { program_id: found.program_id.to_bytes(), data: found.data }),
        Err(error) => Err(error),
    }
}

} // verus!
