//! From results to what goes on the wire: instructions in their text shape,
//! and the status and envelope of every response.

use crate::codec::{base64_encode, spec_base58_encode, spec_base64_encode};
use crate::dtos::{
    AccountInfo, AccountInfoView, ApiResponse, InstructionData, InstructionDataView,
    SolTransferData, SolTransferDataView, TokenAccountInfo, TokenAccountInfoView,
    TokenTransferData, TokenTransferDataView,
};
use crate::error::{ApiError, InstructionKind};
use crate::instruction::{AccountMetaView, Instruction, InstructionView};
use vstd::prelude::*;

verus! {

/// Status of a response that carries data.
pub const STATUS_OK: u16 = 200;

/// Status of a response that carries an error, whatever the error.
pub const STATUS_BAD_REQUEST: u16 = 400;

/// An account in its wire shape: the address in base58, the flags as they
/// are.
pub open spec fn account_info_spec(meta: AccountMetaView) -> AccountInfoView {
    AccountInfoView {
        pubkey: spec_base58_encode(meta.pubkey),
        is_signer: meta.is_signer,
        is_writable: meta.is_writable,
    }
}

/// An instruction in its wire shape: addresses in base58, the accounts in
/// their order, the payload in base64.
pub open spec fn instruction_response_spec(instruction: InstructionView) -> InstructionDataView {
    InstructionDataView {
        program_id: spec_base58_encode(instruction.program_id),
        accounts: Seq::new(
            instruction.accounts.len(),
            |i: int| account_info_spec(instruction.accounts[i]),
        ),
        instruction_data: spec_base64_encode(instruction.data),
    }
}

/// A lamport transfer in its wire shape: the accounts by address alone.
pub open spec fn sol_transfer_response_spec(instruction: InstructionView) -> SolTransferDataView {
    SolTransferDataView {
        program_id: spec_base58_encode(instruction.program_id),
        accounts: Seq::new(
            instruction.accounts.len(),
            |i: int| spec_base58_encode(instruction.accounts[i].pubkey),
        ),
        instruction_data: spec_base64_encode(instruction.data),
    }
}

/// A token transfer in its wire shape: each account by address and signer
/// flag.
pub open spec fn token_transfer_response_spec(instruction: InstructionView)
    -> TokenTransferDataView {
    TokenTransferDataView {
        program_id: spec_base58_encode(instruction.program_id),
        accounts: Seq::new(
            instruction.accounts.len(),
            |i: int|
                TokenAccountInfoView {
                    pubkey: spec_base58_encode(instruction.accounts[i].pubkey),
                    is_signer: instruction.accounts[i].is_signer,
                },
        ),
        instruction_data: spec_base64_encode(instruction.data),
    }
}

/// Puts an instruction into its wire shape.
pub fn instruction_to_response(instruction: Instruction) -> (data: InstructionData)
    ensures
        data@ == instruction_response_spec(instruction@),
{
    let mut accounts: Vec<AccountInfo> = Vec::new();
    let count = instruction.accounts.len();
    let mut i: usize = 0;
    while i < count
        invariant
            i <= count,
            count == instruction.accounts@.len(),
            accounts@.len() == i,
            forall|j: int|
                0 <= j < i ==> (#[trigger] accounts@[j])@ == account_info_spec(
                    instruction.accounts@[j]@,
                ),
        decreases count - i,
    {
        let meta = &instruction.accounts[i];
        accounts.push(
            AccountInfo {
                pubkey: meta.pubkey.to_base58(),
                is_signer: meta.is_signer,
                is_writable: meta.is_writable,
            },
        );
        i = i + 1;
    }
    let data = InstructionData {
        program_id: instruction.program_id.to_base58(),
        accounts,
        instruction_data: base64_encode(instruction.data.as_slice()),
    };
    assert(data@.accounts =~= instruction_response_spec(instruction@).accounts);
    data
}

/// Puts a lamport transfer into its wire shape.
pub fn sol_transfer_response(instruction: Instruction) -> (data: SolTransferData)
    ensures
        data@ == sol_transfer_response_spec(instruction@),
{
    let mut accounts: Vec<String> = Vec::new();
    let count = instruction.accounts.len();
    let mut i: usize = 0;
    while i < count
        invariant
            i <= count,
            count == instruction.accounts@.len(),
            accounts@.len() == i,
            forall|j: int|
                0 <= j < i ==> (#[trigger] accounts@[j])@ == spec_base58_encode(
                    instruction.accounts@[j].pubkey@,
                ),
        decreases count - i,
    {
        accounts.push(instruction.accounts[i].pubkey.to_base58());
        i = i + 1;
    }
    let data = SolTransferData {
        program_id: instruction.program_id.to_base58(),
        accounts,
        instruction_data: base64_encode(instruction.data.as_slice()),
    };
    assert(data@.accounts =~= sol_transfer_response_spec(instruction@).accounts);
    data
}

/// Puts a token transfer into its wire shape.
pub fn token_transfer_response(instruction: Instruction) -> (data: TokenTransferData)
    ensures
        data@ == token_transfer_response_spec(instruction@),
{
    let mut accounts: Vec<TokenAccountInfo> = Vec::new();
    let count = instruction.accounts.len();
    let mut i: usize = 0;
    while i < count
        invariant
            i <= count,
            count == instruction.accounts@.len(),
            accounts@.len() == i,
            forall|j: int|
                0 <= j < i ==> (#[trigger] accounts@[j])@ == (TokenAccountInfoView {
                    pubkey: spec_base58_encode(instruction.accounts@[j].pubkey@),
                    is_signer: instruction.accounts@[j].is_signer,
                }),
        decreases count - i,
    {
        let meta = &instruction.accounts[i];
        accounts.push(
            TokenAccountInfo { pubkey: meta.pubkey.to_base58(), is_signer: meta.is_signer },
        );
        i = i + 1;
    }
    let data = TokenTransferData {
        program_id: instruction.program_id.to_base58(),
        accounts,
        instruction_data: base64_encode(instruction.data.as_slice()),
    };
    assert(data@.accounts =~= token_transfer_response_spec(instruction@).accounts);
    data
}

/// What a builder's answer means for the request: the instruction, or a
/// build failure of the given kind whatever the builder's reason.
pub fn built_or_failed(
    built: Result<Instruction, spl_token::solana_program::program_error::ProgramError>,
    kind: InstructionKind,
) -> (result: Result<Instruction, ApiError>)
    ensures
        match built {
            Ok(instruction) => result == Ok::<Instruction, ApiError>(instruction),
            Err(_) => result == Err::<Instruction, ApiError>(
                ApiError::InstructionBuildFailed(kind),
            ),
        },
{
    match built {
        Ok(instruction) => Ok(instruction),
        Err(_) => Err(ApiError::InstructionBuildFailed(kind)),
    }
}

/// Whether `response`, sent with `status`, is the response owed to `result`:
/// 200 around the data on success, 400 around the error's message on
/// failure, and in either case exactly one of data and error.
pub open spec fn is_response_to<T: View>(
    status: u16,
    response: ApiResponse<T>,
    result: Result<T::V, ApiError>,
) -> bool {
    &&& response.wf()
    &&& match result {
        Ok(data) => {
            &&& status == STATUS_OK
            &&& response.success
            &&& response.data is Some
            &&& response.data->0@ == data
        },
        Err(error) => {
            &&& status == STATUS_BAD_REQUEST
            &&& !response.success
            &&& response.error is Some
            &&& response.error->0@ == error.message_spec()
        },
    }
}

/// The status and envelope of a result.
pub fn respond<T: View>(result: Result<T, ApiError>) -> (response: (u16, ApiResponse<T>))
    ensures
        is_response_to(response.0, response.1, crate::error::result_view(result)),
        result matches Ok(data) ==> response.1.data == Some(data),
{
    match result {
        Ok(data) => (STATUS_OK, ApiResponse::success(data)),
        Err(error) => (STATUS_BAD_REQUEST, ApiResponse::error(error.message())),
    }
}

} // verus!
