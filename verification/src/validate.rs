//! From requests to validated inputs.
//!
//! A request is validated in two passes, in this order. First every required
//! field must be present: a text field supplied and not empty, an amount
//! supplied and not zero, a decimals count supplied. One field missing fails
//! the request with `MissingFields`, whatever the others hold. Then the text
//! fields are decoded into addresses, a keypair or a signature, and the first
//! that does not decode fails the request with its own error.

use crate::dtos::{
    text_view, CreateTokenRequest, CreateTokenRequestView, MintTokenRequest,
    MintTokenRequestView, SendSolRequest, SendSolRequestView, SendTokenRequest,
    SendTokenRequestView, SignMessageRequest, SignMessageRequestView, VerifyMessageRequest,
    VerifyMessageRequestView,
};
use crate::error::{result_view, ApiError};
use crate::keys::{
    decode_signature, decode_signature_spec, keypair_from_base58, keypair_from_base58_spec,
    parse_pubkey, parse_pubkey_spec, Address, Keypair, Signature,
};
use vstd::prelude::*;

verus! {

/// A text field counts as supplied only if it is there and not empty.
pub open spec fn present(field: Option<Seq<char>>) -> bool {
    field matches Some(text) && text.len() > 0
}

/// An amount counts as supplied only if it is there and not zero.
pub open spec fn positive(field: Option<u64>) -> bool {
    field matches Some(amount) && amount > 0
}

/// The text of a required field, or `MissingFields`.
pub fn required_text<'a>(field: &'a Option<String>) -> (result: Result<&'a str, ApiError>)
    ensures
        match result {
            Ok(text) => present(text_view(*field)) && text_view(*field) == Some(text@),
            Err(error) => !present(text_view(*field)) && error == ApiError::MissingFields,
        },
{
    match field {
        Some(text) => {
            if text.as_str().is_empty() {
                Err(ApiError::MissingFields)
            } else {
                Ok(text.as_str())
            }
        },
        None => Err(ApiError::MissingFields),
    }
}

/// The value of a required amount, or `MissingFields`.
pub fn required_amount(field: Option<u64>) -> (result: Result<u64, ApiError>)
    ensures
        match result {
            Ok(amount) => positive(field) && field == Some(amount),
            Err(error) => !positive(field) && error == ApiError::MissingFields,
        },
{
    match field {
        Some(amount) => {
            if amount > 0 {
                Ok(amount)
            } else {
                Err(ApiError::MissingFields)
            }
        },
        None => Err(ApiError::MissingFields),
    }
}

/// The value of a required decimals count, or `MissingFields`. Zero is a
/// count like any other.
pub fn required_decimals(field: Option<u8>) -> (result: Result<u8, ApiError>)
    ensures
        match result {
            Ok(decimals) => field == Some(decimals),
            Err(error) => field is None && error == ApiError::MissingFields,
        },
{
    match field {
        Some(decimals) => Ok(decimals),
        None => Err(ApiError::MissingFields),
    }
}

/// A message to sign and the keypair to sign it with.
#[derive(Debug)]
pub struct SignMessageInput {
    pub message: String,
    pub keypair: Keypair,
}

/// What specifications see of a [`SignMessageInput`].
pub struct SignMessageInputView {
    pub message: Seq<char>,
    pub keypair: Seq<u8>,
}

impl View for SignMessageInput {
    type V = SignMessageInputView;

    open spec fn view(&self) -> SignMessageInputView {
        SignMessageInputView { message: self.message@, keypair: self.keypair@ }
    }
}

/// A signature to check, the message it should be on, and the address it
/// should be from, with the text the address came in.
#[derive(Debug)]
pub struct VerifyMessageInput {
    pub message: String,
    pub signature: Signature,
    pub pubkey: Address,
    pub pubkey_text: String,
}

/// What specifications see of a [`VerifyMessageInput`].
pub struct VerifyMessageInputView {
    pub message: Seq<char>,
    pub signature: Seq<u8>,
    pub pubkey: Seq<u8>,
    pub pubkey_text: Seq<char>,
}

impl View for VerifyMessageInput {
    type V = VerifyMessageInputView;

    open spec fn view(&self) -> VerifyMessageInputView {
        VerifyMessageInputView {
            message: self.message@,
            signature: self.signature@,
            pubkey: self.pubkey@,
            pubkey_text: self.pubkey_text@,
        }
    }
}

/// A mint to initialise, its authority, and its decimals.
#[derive(Debug)]
pub struct CreateTokenInput {
    pub mint_authority: Address,
    pub mint: Address,
    pub decimals: u8,
}

/// What specifications see of a [`CreateTokenInput`].
pub struct CreateTokenInputView {
    pub mint_authority: Seq<u8>,
    pub mint: Seq<u8>,
    pub decimals: u8,
}

impl View for CreateTokenInput {
    type V = CreateTokenInputView;

    open spec fn view(&self) -> CreateTokenInputView {
        CreateTokenInputView {
            mint_authority: self.mint_authority@,
            mint: self.mint@,
            decimals: self.decimals,
        }
    }
}

/// An amount to mint, of which mint, into which account, on whose authority.
#[derive(Debug)]
pub struct MintTokenInput {
    pub mint: Address,
    pub destination: Address,
    pub authority: Address,
    pub amount: u64,
}

/// What specifications see of a [`MintTokenInput`].
pub struct MintTokenInputView {
    pub mint: Seq<u8>,
    pub destination: Seq<u8>,
    pub authority: Seq<u8>,
    pub amount: u64,
}

impl View for MintTokenInput {
    type V = MintTokenInputView;

    open spec fn view(&self) -> MintTokenInputView {
        MintTokenInputView {
            mint: self.mint@,
            destination: self.destination@,
            authority: self.authority@,
            amount: self.amount,
        }
    }
}

impl MintTokenInputView {
    /// What validation leaves behind: the amount is not zero.
    pub open spec fn wf(self) -> bool {
        self.amount > 0
    }
}

/// A number of lamports to move from one address to another.
#[derive(Debug)]
pub struct SendSolInput {
    pub from: Address,
    pub to: Address,
    pub lamports: u64,
}

/// What specifications see of a [`SendSolInput`].
pub struct SendSolInputView {
    pub from: Seq<u8>,
    pub to: Seq<u8>,
    pub lamports: u64,
}

impl View for SendSolInput {
    type V = SendSolInputView;

    open spec fn view(&self) -> SendSolInputView {
        SendSolInputView { from: self.from@, to: self.to@, lamports: self.lamports }
    }
}

impl SendSolInputView {
    /// What validation leaves behind: the amount is not zero.
    pub open spec fn wf(self) -> bool {
        self.lamports > 0
    }
}

/// An amount of a token to move from its owner to a destination wallet.
#[derive(Debug)]
pub struct SendTokenInput {
    pub destination: Address,
    pub mint: Address,
    pub owner: Address,
    pub amount: u64,
}

/// What specifications see of a [`SendTokenInput`].
pub struct SendTokenInputView {
    pub destination: Seq<u8>,
    pub mint: Seq<u8>,
    pub owner: Seq<u8>,
    pub amount: u64,
}

impl View for SendTokenInput {
    type V = SendTokenInputView;

    open spec fn view(&self) -> SendTokenInputView {
        SendTokenInputView {
            destination: self.destination@,
            mint: self.mint@,
            owner: self.owner@,
            amount: self.amount,
        }
    }
}

impl SendTokenInputView {
    /// What validation leaves behind: the amount is not zero.
    pub open spec fn wf(self) -> bool {
        self.amount > 0
    }
}

/// Whether a signing request lacks a required field.
pub open spec fn sign_message_missing(request: SignMessageRequestView) -> bool {
    !present(request.message) || !present(request.secret)
}

/// What a signing request validates to.
pub open spec fn sign_message_input_spec(request: SignMessageRequestView) -> Result<
    SignMessageInputView,
    ApiError,
> {
    if sign_message_missing(request) {
        Err(ApiError::MissingFields)
    } else {
        match keypair_from_base58_spec(request.secret->0) {
            Ok(keypair) => Ok(SignMessageInputView { message: request.message->0, keypair }),
            Err(error) => Err(error),
        }
    }
}

/// Whether a verification request lacks a required field.
pub open spec fn verify_message_missing(request: VerifyMessageRequestView) -> bool {
    !present(request.message) || !present(request.signature) || !present(request.pubkey)
}

/// What a verification request validates to. The address is decoded before
/// the signature.
pub open spec fn verify_message_input_spec(request: VerifyMessageRequestView) -> Result<
    VerifyMessageInputView,
    ApiError,
> {
    if verify_message_missing(request) {
        Err(ApiError::MissingFields)
    } else {
        match parse_pubkey_spec(request.pubkey->0) {
            Ok(pubkey) => match decode_signature_spec(request.signature->0) {
                Ok(signature) => Ok(
                    VerifyMessageInputView {
                        message: request.message->0,
                        signature,
                        pubkey,
                        pubkey_text: request.pubkey->0,
                    },
                ),
                Err(error) => Err(error),
            },
            Err(error) => Err(error),
        }
    }
}

/// Whether a create-token request lacks a required field.
pub open spec fn create_token_missing(request: CreateTokenRequestView) -> bool {
    !present(request.mint_authority) || !present(request.mint) || request.decimals is None
}

/// What a create-token request validates to.
pub open spec fn create_token_input_spec(request: CreateTokenRequestView) -> Result<
    CreateTokenInputView,
    ApiError,
> {
    if create_token_missing(request) {
        Err(ApiError::MissingFields)
    } else {
        match parse_pubkey_spec(request.mint_authority->0) {
            Ok(mint_authority) => match parse_pubkey_spec(request.mint->0) {
                Ok(mint) => Ok(
                    CreateTokenInputView { mint_authority, mint, decimals: request.decimals->0 },
                ),
                Err(error) => Err(error),
            },
            Err(error) => Err(error),
        }
    }
}

/// Whether a mint-token request lacks a required field.
pub open spec fn mint_token_missing(request: MintTokenRequestView) -> bool {
    !present(request.mint) || !present(request.destination) || !present(request.authority)
        || !positive(request.amount)
}

/// What a mint-token request validates to.
pub open spec fn mint_token_input_spec(request: MintTokenRequestView) -> Result<
    MintTokenInputView,
    ApiError,
> {
    if mint_token_missing(request) {
        Err(ApiError::MissingFields)
    } else {
        match parse_pubkey_spec(request.mint->0) {
            Ok(mint) => match parse_pubkey_spec(request.destination->0) {
                Ok(destination) => match parse_pubkey_spec(request.authority->0) {
                    Ok(authority) => Ok(
                        MintTokenInputView {
                            mint,
                            destination,
                            authority,
                            amount: request.amount->0,
                        },
                    ),
                    Err(error) => Err(error),
                },
                Err(error) => Err(error),
            },
            Err(error) => Err(error),
        }
    }
}

/// Whether a send-sol request lacks a required field.
pub open spec fn send_sol_missing(request: SendSolRequestView) -> bool {
    !present(request.from) || !present(request.to) || !positive(request.lamports)
}

/// What a send-sol request validates to.
pub open spec fn send_sol_input_spec(request: SendSolRequestView) -> Result<
    SendSolInputView,
    ApiError,
> {
    if send_sol_missing(request) {
        Err(ApiError::MissingFields)
    } else {
        match parse_pubkey_spec(request.from->0) {
            Ok(from) => match parse_pubkey_spec(request.to->0) {
                Ok(to) => Ok(SendSolInputView { from, to, lamports: request.lamports->0 }),
                Err(error) => Err(error),
            },
            Err(error) => Err(error),
        }
    }
}

/// Whether a send-token request lacks a required field.
pub open spec fn send_token_missing(request: SendTokenRequestView) -> bool {
    !present(request.destination) || !present(request.mint) || !present(request.owner)
        || !positive(request.amount)
}

/// What a send-token request validates to.
pub open spec fn send_token_input_spec(request: SendTokenRequestView) -> Result<
    SendTokenInputView,
    ApiError,
> {
    if send_token_missing(request) {
        Err(ApiError::MissingFields)
    } else {
        match parse_pubkey_spec(request.mint->0) {
            Ok(mint) => match parse_pubkey_spec(request.owner->0) {
                Ok(owner) => match parse_pubkey_spec(request.destination->0) {
                    Ok(destination) => Ok(
                        SendTokenInputView {
                            destination,
                            mint,
                            owner,
                            amount: request.amount->0,
                        },
                    ),
                    Err(error) => Err(error),
                },
                Err(error) => Err(error),
            },
            Err(error) => Err(error),
        }
    }
}

impl SignMessageRequest {
    /// Checks the fields, then decodes the keypair.
    pub fn validate(&self) -> (result: Result<SignMessageInput, ApiError>)
        ensures
            result_view(result) == sign_message_input_spec(self@),
    {
        let message = required_text(&self.message)?;
        let secret = required_text(&self.secret)?;
        let keypair = keypair_from_base58(secret)?;
        Ok(SignMessageInput { message: message.to_owned(), keypair })
    }
}

impl VerifyMessageRequest {
    /// Checks the fields, then decodes the address, then the signature.
    pub fn validate(&self) -> (result: Result<VerifyMessageInput, ApiError>)
        ensures
            result_view(result) == verify_message_input_spec(self@),
    {
        let message = required_text(&self.message)?;
        let signature_text = required_text(&self.signature)?;
        let pubkey_text = required_text(&self.pubkey)?;
        let pubkey = parse_pubkey(pubkey_text)?;
        let signature = decode_signature(signature_text)?;
        Ok(
            VerifyMessageInput {
                message: message.to_owned(),
                signature,
                pubkey,
                pubkey_text: pubkey_text.to_owned(),
            },
        )
    }
}

impl CreateTokenRequest {
    /// Checks the fields, then decodes the two addresses.
    pub fn validate(&self) -> (result: Result<CreateTokenInput, ApiError>)
        ensures
            result_view(result) == create_token_input_spec(self@),
    {
        let mint_authority_text = required_text(&self.mint_authority)?;
        let mint_text = required_text(&self.mint)?;
        let decimals = required_decimals(self.decimals)?;
        let mint_authority = parse_pubkey(mint_authority_text)?;
        let mint = parse_pubkey(mint_text)?;
        Ok(CreateTokenInput { mint_authority, mint, decimals })
    }
}

impl MintTokenRequest {
    /// Checks the fields, then decodes the three addresses.
    pub fn validate(&self) -> (result: Result<MintTokenInput, ApiError>)
        ensures
            result_view(result) == mint_token_input_spec(self@),
            result matches Ok(input) ==> input@.wf(),
    {
        let mint_text = required_text(&self.mint)?;
        let destination_text = required_text(&self.destination)?;
        let authority_text = required_text(&self.authority)?;
        let amount = required_amount(self.amount)?;
        let mint = parse_pubkey(mint_text)?;
        let destination = parse_pubkey(destination_text)?;
        let authority = parse_pubkey(authority_text)?;
        Ok(MintTokenInput { mint, destination, authority, amount })
    }
}

impl SendSolRequest {
    /// Checks the fields, then decodes the two addresses.
    pub fn validate(&self) -> (result: Result<SendSolInput, ApiError>)
        ensures
            result_view(result) == send_sol_input_spec(self@),
            result matches Ok(input) ==> input@.wf(),
    {
        let from_text = required_text(&self.from)?;
        let to_text = required_text(&self.to)?;
        let lamports = required_amount(self.lamports)?;
        let from = parse_pubkey(from_text)?;
        let to = parse_pubkey(to_text)?;
        Ok(SendSolInput { from, to, lamports })
    }
}

impl SendTokenRequest {
    /// Checks the fields, then decodes the three addresses.
    pub fn validate(&self) -> (result: Result<SendTokenInput, ApiError>)
        ensures
            result_view(result) == send_token_input_spec(self@),
            result matches Ok(input) ==> input@.wf(),
    {
        let destination_text = required_text(&self.destination)?;
        let mint_text = required_text(&self.mint)?;
        let owner_text = required_text(&self.owner)?;
        let amount = required_amount(self.amount)?;
        let mint = parse_pubkey(mint_text)?;
        let owner = parse_pubkey(owner_text)?;
        let destination = parse_pubkey(destination_text)?;
        Ok(SendTokenInput { destination, mint, owner, amount })
    }
}

} // verus!
