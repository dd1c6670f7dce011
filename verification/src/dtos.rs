//! The shapes of requests and responses.
//!
//! A request is a set of optional fields as they arrived. A response is the
//! envelope [`ApiResponse`] around the data of the operation. Text fields are
//! `String`s; specifications speak of them through their views.

use vstd::prelude::*;

verus! {

/// The envelope of every response: on success the data, on failure the
/// message, never both and never neither.
#[derive(Clone, Debug)]
pub struct ApiResponse<T> {
    pub success: bool,
    pub data: Option<T>,
    pub error: Option<String>,
}

impl<T> ApiResponse<T> {
    /// Exactly one of `data` and `error` is present, and `success` says
    /// which.
    pub open spec fn wf(&self) -> bool {
        &&& self.success <==> self.data is Some
        &&& self.success <==> self.error is None
    }

    /// The envelope of a success.
    pub fn success(data: T) -> (response: Self)
        ensures
            response.success,
            response.data == Some(data),
            response.error is None,
            response.wf(),
    {
        Self { success: true, data: Some(data), error: None }
    }

    /// The envelope of a failure.
    pub fn error(message: String) -> (response: Self)
        ensures
            !response.success,
            response.data is None,
            response.error == Some(message),
            response.wf(),
    {
        Self { success: false, data: None, error: Some(message) }
    }
}

/// An optional text field as specifications see it.
pub open spec fn text_view(field: Option<String>) -> Option<Seq<char>> {
    match field {
        Some(text) => Some(text@),
        None => None,
    }
}

/// A freshly generated keypair: the address and the secret, both base58.
#[derive(Clone, Debug)]
pub struct KeypairData {
    pub pubkey: String,
    pub secret: String,
}

/// What specifications see of a [`KeypairData`].
pub struct KeypairDataView {
    pub pubkey: Seq<char>,
    pub secret: Seq<char>,
}

impl View for KeypairData {
    type V = KeypairDataView;

    open spec fn view(&self) -> KeypairDataView {
        KeypairDataView { pubkey: self.pubkey@, secret: self.secret@ }
    }
}

/// Request for a mint-initialisation instruction.
#[derive(Clone, Debug)]
pub struct CreateTokenRequest {
    pub mint_authority: Option<String>,
    pub mint: Option<String>,
    pub decimals: Option<u8>,
}

/// What specifications see of a [`CreateTokenRequest`].
pub struct CreateTokenRequestView {
    pub mint_authority: Option<Seq<char>>,
    pub mint: Option<Seq<char>>,
    pub decimals: Option<u8>,
}

impl View for CreateTokenRequest {
    type V = CreateTokenRequestView;

    open spec fn view(&self) -> CreateTokenRequestView {
        CreateTokenRequestView {
            mint_authority: text_view(self.mint_authority),
            mint: text_view(self.mint),
            decimals: self.decimals,
        }
    }
}

/// Request for a mint-to instruction.
#[derive(Clone, Debug)]
pub struct MintTokenRequest {
    pub mint: Option<String>,
    pub destination: Option<String>,
    pub authority: Option<String>,
    pub amount: Option<u64>,
}

/// What specifications see of a [`MintTokenRequest`].
pub struct MintTokenRequestView {
    pub mint: Option<Seq<char>>,
    pub destination: Option<Seq<char>>,
    pub authority: Option<Seq<char>>,
    pub amount: Option<u64>,
}

impl View for MintTokenRequest {
    type V = MintTokenRequestView;

    open spec fn view(&self) -> MintTokenRequestView {
        MintTokenRequestView {
            mint: text_view(self.mint),
            destination: text_view(self.destination),
            authority: text_view(self.authority),
            amount: self.amount,
        }
    }
}

/// Request to sign a message with a keypair.
#[derive(Clone, Debug)]
pub struct SignMessageRequest {
    pub message: Option<String>,
    pub secret: Option<String>,
}

/// What specifications see of a [`SignMessageRequest`].
pub struct SignMessageRequestView {
    pub message: Option<Seq<char>>,
    pub secret: Option<Seq<char>>,
}

impl View for SignMessageRequest {
    type V = SignMessageRequestView;

    open spec fn view(&self) -> SignMessageRequestView {
        SignMessageRequestView {
            message: text_view(self.message),
            secret: text_view(self.secret),
        }
    }
}

/// A signature with the address that made it and the message it is on.
#[derive(Clone, Debug)]
pub struct SignMessageData {
    pub signature: String,
    pub public_key: String,
    pub message: String,
}

/// What specifications see of a [`SignMessageData`].
pub struct SignMessageDataView {
    pub signature: Seq<char>,
    pub public_key: Seq<char>,
    pub message: Seq<char>,
}

impl View for SignMessageData {
    type V = SignMessageDataView;

    open spec fn view(&self) -> SignMessageDataView {
        SignMessageDataView {
            signature: self.signature@,
            public_key: self.public_key@,
            message: self.message@,
        }
    }
}

/// Request to check a signature.
#[derive(Clone, Debug)]
pub struct VerifyMessageRequest {
    pub message: Option<String>,
    pub signature: Option<String>,
    pub pubkey: Option<String>,
}

/// What specifications see of a [`VerifyMessageRequest`].
pub struct VerifyMessageRequestView {
    pub message: Option<Seq<char>>,
    pub signature: Option<Seq<char>>,
    pub pubkey: Option<Seq<char>>,
}

impl View for VerifyMessageRequest {
    type V = VerifyMessageRequestView;

    open spec fn view(&self) -> VerifyMessageRequestView {
        VerifyMessageRequestView {
            message: text_view(self.message),
            signature: text_view(self.signature),
            pubkey: text_view(self.pubkey),
        }
    }
}

/// The verdict on a signature, with the message and the address as given.
#[derive(Clone, Debug)]
pub struct VerifyMessageData {
    pub valid: bool,
    pub message: String,
    pub pubkey: String,
}

/// What specifications see of a [`VerifyMessageData`].
pub struct VerifyMessageDataView {
    pub valid: bool,
    pub message: Seq<char>,
    pub pubkey: Seq<char>,
}

impl View for VerifyMessageData {
    type V = VerifyMessageDataView;

    open spec fn view(&self) -> VerifyMessageDataView {
        VerifyMessageDataView { valid: self.valid, message: self.message@, pubkey: self.pubkey@ }
    }
}

/// Request for a lamport transfer instruction.
#[derive(Clone, Debug)]
pub struct SendSolRequest {
    pub from: Option<String>,
    pub to: Option<String>,
    pub lamports: Option<u64>,
}

/// What specifications see of a [`SendSolRequest`].
pub struct SendSolRequestView {
    pub from: Option<Seq<char>>,
    pub to: Option<Seq<char>>,
    pub lamports: Option<u64>,
}

impl View for SendSolRequest {
    type V = SendSolRequestView;

    open spec fn view(&self) -> SendSolRequestView {
        SendSolRequestView {
            from: text_view(self.from),
            to: text_view(self.to),
            lamports: self.lamports,
        }
    }
}

/// A lamport transfer instruction: accounts by address only.
#[derive(Clone, Debug)]
pub struct SolTransferData {
    pub program_id: String,
    pub accounts: Vec<String>,
    pub instruction_data: String,
}

/// What specifications see of a [`SolTransferData`].
pub struct SolTransferDataView {
    pub program_id: Seq<char>,
    pub accounts: Seq<Seq<char>>,
    pub instruction_data: Seq<char>,
}

impl View for SolTransferData {
    type V = SolTransferDataView;

    open spec fn view(&self) -> SolTransferDataView {
        SolTransferDataView {
            program_id: self.program_id@,
            accounts: Seq::new(self.accounts@.len(), |i: int| self.accounts@[i]@),
            instruction_data: self.instruction_data@,
        }
    }
}

/// Request for a token transfer instruction between the associated token
/// accounts of `owner` and `destination`.
#[derive(Clone, Debug)]
pub struct SendTokenRequest {
    pub destination: Option<String>,
    pub mint: Option<String>,
    pub owner: Option<String>,
    pub amount: Option<u64>,
}

/// What specifications see of a [`SendTokenRequest`].
pub struct SendTokenRequestView {
    pub destination: Option<Seq<char>>,
    pub mint: Option<Seq<char>>,
    pub owner: Option<Seq<char>>,
    pub amount: Option<u64>,
}

impl View for SendTokenRequest {
    type V = SendTokenRequestView;

    open spec fn view(&self) -> SendTokenRequestView {
        SendTokenRequestView {
            destination: text_view(self.destination),
            mint: text_view(self.mint),
            owner: text_view(self.owner),
            amount: self.amount,
        }
    }
}

/// An account of an instruction, with both of its flags.
#[derive(Clone, Debug)]
pub struct AccountInfo {
    pub pubkey: String,
    pub is_signer: bool,
    pub is_writable: bool,
}

/// What specifications see of an [`AccountInfo`].
pub struct AccountInfoView {
    pub pubkey: Seq<char>,
    pub is_signer: bool,
    pub is_writable: bool,
}

impl View for AccountInfo {
    type V = AccountInfoView;

    open spec fn view(&self) -> AccountInfoView {
        AccountInfoView {
            pubkey: self.pubkey@,
            is_signer: self.is_signer,
            is_writable: self.is_writable,
        }
    }
}

/// An instruction in its wire shape: the program's address, the accounts in
/// the order the program expects them, and the payload as base64.
#[derive(Clone, Debug)]
pub struct InstructionData {
    pub program_id: String,
    pub accounts: Vec<AccountInfo>,
    pub instruction_data: String,
}

/// What specifications see of an [`InstructionData`].
pub struct InstructionDataView {
    pub program_id: Seq<char>,
    pub accounts: Seq<AccountInfoView>,
    pub instruction_data: Seq<char>,
}

impl View for InstructionData {
    type V = InstructionDataView;

    open spec fn view(&self) -> InstructionDataView {
        InstructionDataView {
            program_id: self.program_id@,
            accounts: Seq::new(self.accounts@.len(), |i: int| self.accounts@[i]@),
            instruction_data: self.instruction_data@,
        }
    }
}

/// An account of a token transfer: the address and whether it signs.
#[derive(Clone, Debug)]
pub struct TokenAccountInfo {
    pub pubkey: String,
    pub is_signer: bool,
}

/// What specifications see of a [`TokenAccountInfo`].
pub struct TokenAccountInfoView {
    pub pubkey: Seq<char>,
    pub is_signer: bool,
}

impl View for TokenAccountInfo {
    type V = TokenAccountInfoView;

    open spec fn view(&self) -> TokenAccountInfoView {
        TokenAccountInfoView { pubkey: self.pubkey@, is_signer: self.is_signer }
    }
}

/// A token transfer instruction in its wire shape.
#[derive(Clone, Debug)]
pub struct TokenTransferData {
    pub program_id: String,
    pub accounts: Vec<TokenAccountInfo>,
    pub instruction_data: String,
}

/// What specifications see of a [`TokenTransferData`].
pub struct TokenTransferDataView {
    pub program_id: Seq<char>,
    pub accounts: Seq<TokenAccountInfoView>,
    pub instruction_data: Seq<char>,
}

impl View for TokenTransferData {
    type V = TokenTransferDataView;

    open spec fn view(&self) -> TokenTransferDataView {
        TokenTransferDataView {
            program_id: self.program_id@,
            accounts: Seq::new(self.accounts@.len(), |i: int| self.accounts@[i]@),
            instruction_data: self.instruction_data@,
        }
    }
}

} // verus!
