//! What holds of the operations taken together.
//!
//! Each statement here is proved from the specifications that the operations
//! themselves promise, so it holds of every request and every response.

use crate::codec::spec_base58_decode;
use crate::dtos::{
    ApiResponse, CreateTokenRequestView, InstructionDataView, KeypairDataView,
    MintTokenRequestView, SendSolRequestView, SendTokenRequestView, SignMessageDataView,
    SignMessageRequestView, SolTransferDataView, TokenTransferDataView, VerifyMessageDataView,
    VerifyMessageRequestView,
};
use crate::error::ApiError;
use crate::handlers::{
    create_token_spec, is_keypair_data, mint_token_spec, send_sol_spec, send_token_spec,
    sign_message_post, sign_message_spec, verify_message_spec,
};
use crate::keys::{parse_pubkey_spec, spec_sign, spec_verify};
use crate::response::{is_response_to, STATUS_BAD_REQUEST};
use crate::validate::{
    create_token_missing, mint_token_missing, send_sol_missing, send_token_missing,
    sign_message_missing, verify_message_missing,
};
use vstd::prelude::*;
use vstd::utf8::encode_utf8;

verus! {

/// A response to a failure has status 400, says `success: false`, carries no
/// data, and carries the failure's message.
pub proof fn lemma_failure_is_bad_request<T: View>(
    status: u16,
    response: ApiResponse<T>,
    error: ApiError,
)
    requires
        is_response_to(status, response, Err::<T::V, ApiError>(error)),
    ensures
        status == STATUS_BAD_REQUEST,
        !response.success,
        response.data is None,
        response.error is Some,
        response.error->0@ == error.message_spec(),
{
}

/// A signing request without a message or without a secret fails with
/// `MissingFields`, whatever the other field holds.
pub proof fn lemma_sign_message_missing_fields(request: SignMessageRequestView)
    requires
        sign_message_missing(request),
    ensures
        sign_message_spec(request) == Err::<SignMessageDataView, ApiError>(
            ApiError::MissingFields,
        ),
{
}

/// A verification request without a message, a signature or an address fails
/// with `MissingFields`, whatever the other fields hold.
pub proof fn lemma_verify_message_missing_fields(request: VerifyMessageRequestView)
    requires
        verify_message_missing(request),
    ensures
        verify_message_spec(request) == Err::<VerifyMessageDataView, ApiError>(
            ApiError::MissingFields,
        ),
{
}

/// A create-token request without an authority, a mint or a decimals count
/// fails with `MissingFields`, whatever the other fields hold; a decimals
/// count of zero is not missing.
pub proof fn lemma_create_token_missing_fields(request: CreateTokenRequestView)
    requires
        create_token_missing(request),
    ensures
        create_token_spec(request) == Err::<InstructionDataView, ApiError>(ApiError::MissingFields),
{
}

/// A mint-token request without one of its addresses, or with no amount or
/// an amount of zero, fails with `MissingFields`, whatever the other fields
/// hold.
pub proof fn lemma_mint_token_missing_fields(request: MintTokenRequestView)
    requires
        mint_token_missing(request),
    ensures
        mint_token_spec(request) == Err::<InstructionDataView, ApiError>(ApiError::MissingFields),
{
}

/// A send-sol request without one of its addresses, or with no lamports or
/// zero lamports, fails with `MissingFields`, whatever the other fields hold.
pub proof fn lemma_send_sol_missing_fields(request: SendSolRequestView)
    requires
        send_sol_missing(request),
    ensures
        send_sol_spec(request) == Err::<SolTransferDataView, ApiError>(ApiError::MissingFields),
{
}

/// A send-token request without one of its addresses, or with no amount or
/// an amount of zero, fails with `MissingFields`, whatever the other fields
/// hold.
pub proof fn lemma_send_token_missing_fields(request: SendTokenRequestView)
    requires
        send_token_missing(request),
    ensures
        send_token_spec(request) == Err::<TokenTransferDataView, ApiError>(ApiError::MissingFields),
{
}

/// Text that stands for fewer or more than 32 bytes is no address: decoding
/// it fails with `InvalidPublicKey`. So does text that is not base58 at all.
pub proof fn lemma_wrong_length_is_invalid_public_key(text: Seq<char>)
    requires
        spec_base58_decode(text) matches Some(bytes) ==> bytes.len() != 32,
    ensures
        parse_pubkey_spec(text) == Err::<Seq<u8>, ApiError>(ApiError::InvalidPublicKey),
{
}

/// An address that decodes has exactly 32 bytes: nothing is cut off and
/// nothing is filled in.
pub proof fn lemma_parsed_address_is_whole(text: Seq<char>)
    requires
        parse_pubkey_spec(text) is Ok,
    ensures
        parse_pubkey_spec(text)->Ok_0.len() == 32,
        spec_base58_decode(text) == Some(parse_pubkey_spec(text)->Ok_0),
{
}

/// The round trip of a generated keypair. Signing a message with the secret
/// of a generated keypair succeeds, and verifying the returned signature for
/// the same message under the keypair's own address reaches the verifier
/// with exactly the signed bytes, the signer's signature and the signer's
/// public key. The answer's `valid` is the verifier's verdict on those: it is
/// `true` exactly where the signing library accepts its own signature.
pub proof fn lemma_generated_keypair_round_trip(
    keypair: Seq<u8>,
    generated: KeypairDataView,
    message: Seq<char>,
    signed: Result<SignMessageDataView, ApiError>,
)
    requires
        is_keypair_data(generated, keypair),
        message.len() > 0,
        sign_message_post(
            SignMessageRequestView { message: Some(message), secret: Some(generated.secret) },
            signed,
        ),
    ensures
        signed is Ok,
        signed->Ok_0.public_key == generated.pubkey,
        signed->Ok_0.message == message,
        verify_message_spec(
            VerifyMessageRequestView {
                message: Some(message),
                signature: Some(signed->Ok_0.signature),
                pubkey: Some(generated.pubkey),
            },
        ) == Ok::<VerifyMessageDataView, ApiError>(
            VerifyMessageDataView {
                valid: spec_verify(
                    spec_sign(keypair, encode_utf8(message)),
                    keypair.subrange(32, 64),
                    encode_utf8(message),
                ),
                message,
                pubkey: generated.pubkey,
            },
        ),
{
}

/// The associated token accounts of a send-token instruction depend on
/// nothing but the wallet and the mint: two requests that succeed and agree
/// on owner and mint name the same source account, and two that agree on
/// destination and mint name the same destination account. A request given
/// twice is answered alike.
pub proof fn lemma_send_token_accounts_are_determined(
    first: SendTokenRequestView,
    second: SendTokenRequestView,
)
    requires
        send_token_spec(first) is Ok,
        send_token_spec(second) is Ok,
    ensures
        first.owner == second.owner && first.mint == second.mint ==> send_token_spec(
            first,
        )->Ok_0.accounts[0] == send_token_spec(second)->Ok_0.accounts[0],
        first.destination == second.destination && first.mint == second.mint
            ==> send_token_spec(first)->Ok_0.accounts[1] == send_token_spec(
            second,
        )->Ok_0.accounts[1],
        first == second ==> send_token_spec(first) == send_token_spec(second),
{
}

} // verus!
