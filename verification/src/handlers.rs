//! The seven operations, each from a request to the status and envelope of
//! its response.
//!
//! Every operation takes the same steps: validate the request, do the one
//! thing the operation is for, put the result into its wire shape, wrap it.
//! The first step that fails decides the response.

use crate::codec::{spec_base58_encode, spec_base64_encode};
use crate::dtos::{
    ApiResponse, CreateTokenRequest, CreateTokenRequestView, InstructionData,
    InstructionDataView, KeypairData, KeypairDataView, MintTokenRequest, MintTokenRequestView,
    SendSolRequest, SendSolRequestView, SendTokenRequest, SendTokenRequestView, SignMessageData,
    SignMessageDataView, SignMessageRequest, SignMessageRequestView, SolTransferData,
    SolTransferDataView, TokenTransferData, TokenTransferDataView, VerifyMessageData,
    VerifyMessageDataView, VerifyMessageRequest, VerifyMessageRequestView,
};
use crate::error::{result_view, ApiError, InstructionKind};
use crate::instruction::{
    associated_token_address, initialize_mint_instruction, mint_to_instruction,
    spec_associated_token_address, spec_transfer_payload, system_transfer,
    system_transfer_instruction, token_initialize_mint, token_mint_to, token_program_id,
    token_program_id_spec, token_transfer, token_transfer_instruction, Instruction,
    InstructionView,
};
use crate::keys::{
    decode_signature_spec, keypair_from_base58_spec, keypair_generate, parse_pubkey_spec,
    signature_verify, spec_sign, spec_verify, Keypair,
};
use crate::response::{
    built_or_failed, instruction_response_spec, instruction_to_response, is_response_to,
    respond, sol_transfer_response, sol_transfer_response_spec, token_transfer_response,
    token_transfer_response_spec, STATUS_BAD_REQUEST,
};
use crate::validate::{
    create_token_input_spec, create_token_missing, mint_token_input_spec, mint_token_missing,
    send_sol_input_spec, send_sol_missing, send_token_input_spec, send_token_missing,
    sign_message_input_spec, sign_message_missing, verify_message_input_spec,
    verify_message_missing, CreateTokenInput, CreateTokenInputView, MintTokenInput,
    MintTokenInputView, SendSolInput, SendSolInputView, SendTokenInput, SendTokenInputView,
    SignMessageInput, SignMessageInputView, VerifyMessageInput, VerifyMessageInputView,
};
use vstd::prelude::*;
use vstd::utf8::encode_utf8;

verus! {

/// Whether `data` is the wire form of the keypair with the bytes `keypair`:
/// the secret is the base58 text of all 64 bytes and decodes back to them as
/// a keypair, the address is the base58 text of the last 32 and decodes back
/// to them as an address, and neither text is empty.
pub open spec fn is_keypair_data(data: KeypairDataView, keypair: Seq<u8>) -> bool {
    &&& data.secret == spec_base58_encode(keypair)
    &&& keypair_from_base58_spec(data.secret) == Ok::<Seq<u8>, ApiError>(keypair)
    &&& data.secret.len() > 0
    &&& data.pubkey == spec_base58_encode(keypair.subrange(32, 64))
    &&& parse_pubkey_spec(data.pubkey) == Ok::<Seq<u8>, ApiError>(keypair.subrange(32, 64))
    &&& data.pubkey.len() > 0
}

/// Puts a keypair into its wire form.
pub fn keypair_data(keypair: &Keypair) -> (data: KeypairData)
    ensures
        is_keypair_data(data@, keypair@),
{
    KeypairData { pubkey: keypair.pubkey().to_base58(), secret: keypair.to_base58() }
}

/// Generates a keypair. Which keypair is a matter of chance; that the
/// response carries one, in its wire form, is not.
pub fn generate_keypair() -> (response: ApiResponse<KeypairData>)
    ensures
        response.wf(),
        response.success,
        response.data is Some,
        exists|keypair: Seq<u8>| is_keypair_data(response.data->0@, keypair),
{
    let keypair = keypair_generate();
    let response = ApiResponse::success(keypair_data(&keypair));
    assert(is_keypair_data(response.data->0@, keypair@));
    response
}

/// The signature over a message in its wire form: the signature over the
/// message's UTF-8 bytes in base64, the signer's address, and the message.
pub open spec fn signed_message_spec(input: SignMessageInputView) -> SignMessageDataView {
    SignMessageDataView {
        signature: spec_base64_encode(spec_sign(input.keypair, encode_utf8(input.message))),
        public_key: spec_base58_encode(input.keypair.subrange(32, 64)),
        message: input.message,
    }
}

/// Whether the text fields of `data` decode back to the signature and the
/// address they were made from, and are not empty.
pub open spec fn signed_message_decodes(input: SignMessageInputView, data: SignMessageDataView)
    -> bool {
    &&& decode_signature_spec(data.signature) == Ok::<Seq<u8>, ApiError>(
        spec_sign(input.keypair, encode_utf8(input.message)),
    )
    &&& data.signature.len() > 0
    &&& parse_pubkey_spec(data.public_key) == Ok::<Seq<u8>, ApiError>(
        input.keypair.subrange(32, 64),
    )
    &&& data.public_key.len() > 0
}

impl SignMessageInput {
    /// Signs the message's UTF-8 bytes, exactly as they are.
    pub fn sign(&self) -> (data: SignMessageData)
        ensures
            data@ == signed_message_spec(self@),
            signed_message_decodes(self@, data@),
    {
        let signature = self.keypair.sign_message(self.message.as_str().as_bytes());
        SignMessageData {
            signature: signature.to_base64(),
            public_key: self.keypair.pubkey().to_base58(),
            message: self.message.clone(),
        }
    }
}

/// What a signing request is answered with.
pub open spec fn sign_message_spec(request: SignMessageRequestView) -> Result<
    SignMessageDataView,
    ApiError,
> {
    match sign_message_input_spec(request) {
        Ok(input) => Ok(signed_message_spec(input)),
        Err(error) => Err(error),
    }
}

/// Everything that holds of the answer to a signing request: it is the one
/// of [`sign_message_spec`], and where it carries data, the signature and the
/// address in it decode back to what they were made from.
pub open spec fn sign_message_post(
    request: SignMessageRequestView,
    result: Result<SignMessageDataView, ApiError>,
) -> bool {
    &&& result == sign_message_spec(request)
    &&& result matches Ok(data) ==> signed_message_decodes(
        sign_message_input_spec(request)->Ok_0,
        data,
    )
}

/// Validates a signing request and signs.
pub fn try_sign_message(request: &SignMessageRequest) -> (result: Result<
    SignMessageData,
    ApiError,
>)
    ensures
        sign_message_post(request@, result_view(result)),
{
    let input = request.validate()?;
    Ok(input.sign())
}

/// Signs a message with a keypair.
pub fn sign_message(request: SignMessageRequest) -> (response: (
    u16,
    ApiResponse<SignMessageData>,
))
    ensures
        is_response_to(response.0, response.1, sign_message_spec(request@)),
        sign_message_missing(request@) ==> response.0 == STATUS_BAD_REQUEST
            && !response.1.success,
        response.1.data matches Some(data) ==> sign_message_post(
            request@,
            Ok::<SignMessageDataView, ApiError>(data@),
        ),
{
    respond(try_sign_message(&request))
}

/// The verdict on a signature in its wire form: whether the signature
/// verifies for the message's UTF-8 bytes under the address, with the message
/// and the address text as they came.
pub open spec fn verified_message_spec(input: VerifyMessageInputView) -> VerifyMessageDataView {
    VerifyMessageDataView {
        valid: spec_verify(input.signature, input.pubkey, encode_utf8(input.message)),
        message: input.message,
        pubkey: input.pubkey_text,
    }
}

impl VerifyMessageInput {
    /// Checks the signature against the message's UTF-8 bytes, exactly as
    /// they are. A signature that does not verify is an answer, not an error.
    pub fn verify(&self) -> (data: VerifyMessageData)
        ensures
            data@ == verified_message_spec(self@),
    {
        let valid = signature_verify(
            &self.signature,
            &self.pubkey,
            self.message.as_str().as_bytes(),
        );
        VerifyMessageData {
            valid,
            message: self.message.clone(),
            pubkey: self.pubkey_text.clone(),
        }
    }
}

/// What a verification request is answered with.
pub open spec fn verify_message_spec(request: VerifyMessageRequestView) -> Result<
    VerifyMessageDataView,
    ApiError,
> {
    match verify_message_input_spec(request) {
        Ok(input) => Ok(verified_message_spec(input)),
        Err(error) => Err(error),
    }
}

/// Validates a verification request and checks the signature.
pub fn try_verify_message(request: &VerifyMessageRequest) -> (result: Result<
    VerifyMessageData,
    ApiError,
>)
    ensures
        result_view(result) == verify_message_spec(request@),
{
    let input = request.validate()?;
    Ok(input.verify())
}

/// Checks a signature on a message.
pub fn verify_message(request: VerifyMessageRequest) -> (response: (
    u16,
    ApiResponse<VerifyMessageData>,
))
    ensures
        is_response_to(response.0, response.1, verify_message_spec(request@)),
        verify_message_missing(request@) ==> response.0 == STATUS_BAD_REQUEST
            && !response.1.success,
{
    respond(try_verify_message(&request))
}

/// The instruction a create-token request asks for: the mint initialised
/// under the token program, the mint authority also its freeze authority.
pub open spec fn create_token_instruction(input: CreateTokenInputView) -> InstructionView {
    initialize_mint_instruction(
        token_program_id_spec(),
        input.mint,
        input.mint_authority,
        Some(input.mint_authority),
        input.decimals,
    )
}

impl CreateTokenInput {
    /// Builds the mint-initialisation instruction. The builder is handed the
    /// token program's own id, which it never refuses.
    pub fn build(&self) -> (result: Result<Instruction, ApiError>)
        ensures
            result is Ok,
            result->Ok_0@ == create_token_instruction(self@),
    {
        let program_id = token_program_id();
        built_or_failed(
            token_initialize_mint(
                &program_id,
                &self.mint,
                &self.mint_authority,
                Some(self.mint_authority),
                self.decimals,
            ),
            InstructionKind::Token,
        )
    }
}

/// What a create-token request is answered with.
pub open spec fn create_token_spec(request: CreateTokenRequestView) -> Result<
    InstructionDataView,
    ApiError,
> {
    match create_token_input_spec(request) {
        Ok(input) => Ok(instruction_response_spec(create_token_instruction(input))),
        Err(error) => Err(error),
    }
}

/// Validates a create-token request and builds its instruction.
pub fn try_create_token(request: &CreateTokenRequest) -> (result: Result<
    InstructionData,
    ApiError,
>)
    ensures
        result_view(result) == create_token_spec(request@),
{
    let input = request.validate()?;
    let instruction = input.build()?;
    Ok(instruction_to_response(instruction))
}

/// Builds the instruction that initialises a token mint.
pub fn create_token(request: CreateTokenRequest) -> (response: (
    u16,
    ApiResponse<InstructionData>,
))
    ensures
        is_response_to(response.0, response.1, create_token_spec(request@)),
        create_token_missing(request@) ==> response.0 == STATUS_BAD_REQUEST
            && !response.1.success,
{
    respond(try_create_token(&request))
}

/// The instruction a mint-token request asks for.
pub open spec fn mint_token_instruction(input: MintTokenInputView) -> InstructionView {
    mint_to_instruction(
        token_program_id_spec(),
        input.mint,
        input.destination,
        input.authority,
        input.amount,
    )
}

impl MintTokenInput {
    /// Builds the mint-to instruction. The builder is handed the token
    /// program's own id, which it never refuses.
    pub fn build(&self) -> (result: Result<Instruction, ApiError>)
        requires
            self@.wf(),
        ensures
            result is Ok,
            result->Ok_0@ == mint_token_instruction(self@),
    {
        let program_id = token_program_id();
        built_or_failed(
            token_mint_to(
                &program_id,
                &self.mint,
                &self.destination,
                &self.authority,
                self.amount,
            ),
            InstructionKind::Mint,
        )
    }
}

/// What a mint-token request is answered with.
pub open spec fn mint_token_spec(request: MintTokenRequestView) -> Result<
    InstructionDataView,
    ApiError,
> {
    match mint_token_input_spec(request) {
        Ok(input) => Ok(instruction_response_spec(mint_token_instruction(input))),
        Err(error) => Err(error),
    }
}

/// Validates a mint-token request and builds its instruction.
pub fn try_mint_token(request: &MintTokenRequest) -> (result: Result<InstructionData, ApiError>)
    ensures
        result_view(result) == mint_token_spec(request@),
{
    let input = request.validate()?;
    let instruction = input.build()?;
    Ok(instruction_to_response(instruction))
}

/// Builds the instruction that mints tokens to an account.
pub fn mint_token(request: MintTokenRequest) -> (response: (u16, ApiResponse<InstructionData>))
    ensures
        is_response_to(response.0, response.1, mint_token_spec(request@)),
        mint_token_missing(request@) ==> response.0 == STATUS_BAD_REQUEST
            && !response.1.success,
{
    respond(try_mint_token(&request))
}

/// The instruction a send-sol request asks for.
pub open spec fn send_sol_instruction(input: SendSolInputView) -> InstructionView {
    system_transfer_instruction(input.from, input.to, spec_transfer_payload(input.lamports))
}

impl SendSolInput {
    /// Builds the lamport transfer. This step cannot fail.
    pub fn build(&self) -> (instruction: Instruction)
        requires
            self@.wf(),
        ensures
            instruction@ == send_sol_instruction(self@),
    {
        system_transfer(&self.from, &self.to, self.lamports)
    }
}

/// What a send-sol request is answered with.
pub open spec fn send_sol_spec(request: SendSolRequestView) -> Result<
    SolTransferDataView,
    ApiError,
> {
    match send_sol_input_spec(request) {
        Ok(input) => Ok(sol_transfer_response_spec(send_sol_instruction(input))),
        Err(error) => Err(error),
    }
}

/// Validates a send-sol request and builds its instruction.
pub fn try_send_sol(request: &SendSolRequest) -> (result: Result<SolTransferData, ApiError>)
    ensures
        result_view(result) == send_sol_spec(request@),
{
    let input = request.validate()?;
    Ok(sol_transfer_response(input.build()))
}

/// Builds the instruction that transfers lamports.
pub fn send_sol(request: SendSolRequest) -> (response: (u16, ApiResponse<SolTransferData>))
    ensures
        is_response_to(response.0, response.1, send_sol_spec(request@)),
        send_sol_missing(request@) ==> response.0 == STATUS_BAD_REQUEST && !response.1.success,
{
    respond(try_send_sol(&request))
}

/// The instruction a send-token request asks for: a transfer from the
/// owner's associated token account to the destination's, both for the
/// request's mint, signed by the owner.
pub open spec fn send_token_instruction(input: SendTokenInputView) -> InstructionView {
    token_transfer_instruction(
        token_program_id_spec(),
        spec_associated_token_address(input.owner, input.mint),
        spec_associated_token_address(input.destination, input.mint),
        input.owner,
        input.amount,
    )
}

impl SendTokenInput {
    /// Derives the two associated token accounts and builds the transfer
    /// between them. The builder is handed the token program's own id, which
    /// it never refuses.
    pub fn build(&self) -> (result: Result<Instruction, ApiError>)
        requires
            self@.wf(),
        ensures
            result is Ok,
            result->Ok_0@ == send_token_instruction(self@),
    {
        let source = associated_token_address(&self.owner, &self.mint);
        let destination = associated_token_address(&self.destination, &self.mint);
        let program_id = token_program_id();
        built_or_failed(
            token_transfer(&program_id, &source, &destination, &self.owner, self.amount),
            InstructionKind::Transfer,
        )
    }
}

/// What a send-token request is answered with.
pub open spec fn send_token_spec(request: SendTokenRequestView) -> Result<
    TokenTransferDataView,
    ApiError,
> {
    match send_token_input_spec(request) {
        Ok(input) => Ok(token_transfer_response_spec(send_token_instruction(input))),
        Err(error) => Err(error),
    }
}

/// Validates a send-token request and builds its instruction.
pub fn try_send_token(request: &SendTokenRequest) -> (result: Result<
    TokenTransferData,
    ApiError,
>)
    ensures
        result_view(result) == send_token_spec(request@),
{
    let input = request.validate()?;
    let instruction = input.build()?;
    Ok(token_transfer_response(instruction))
}

/// Builds the instruction that transfers tokens between associated token
/// accounts.
pub fn send_token(request: SendTokenRequest) -> (response: (
    u16,
    ApiResponse<TokenTransferData>,
))
    ensures
        is_response_to(response.0, response.1, send_token_spec(request@)),
        send_token_missing(request@) ==> response.0 == STATUS_BAD_REQUEST
            && !response.1.success,
{
    respond(try_send_token(&request))
}

} // verus!
