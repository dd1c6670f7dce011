//! Instructions: the program to call, the accounts it touches, and the
//! payload it reads.
//!
//! The instructions are built by the `spl_token`, `solana_system_interface`
//! and `spl_associated_token_account` crates. What each builder returns is
//! stated here once, over plain bytes, and everything after the call is
//! verified against that statement.

use crate::keys::Address;
use vstd::bytes::spec_u64_to_le_bytes;
use vstd::prelude::*;

verus! {

/// One account of an instruction.
#[derive(Clone, Copy, Debug)]
pub struct AccountMeta {
    pub pubkey: Address,
    pub is_signer: bool,
    pub is_writable: bool,
}

/// What specifications see of an [`AccountMeta`].
pub struct AccountMetaView {
    pub pubkey: Seq<u8>,
    pub is_signer: bool,
    pub is_writable: bool,
}

impl View for AccountMeta {
    type V = AccountMetaView;

    open spec fn view(&self) -> AccountMetaView {
        AccountMetaView {
            pubkey: self.pubkey@,
            is_signer: self.is_signer,
            is_writable: self.is_writable,
        }
    }
}

impl AccountMeta {
    /// An account with the given address and flags.
    pub fn new(pubkey: [u8; 32], is_signer: bool, is_writable: bool) -> (meta: AccountMeta)
        ensures
            meta@ == (AccountMetaView { pubkey: pubkey@, is_signer, is_writable }),
    {
        AccountMeta { pubkey: Address { bytes: pubkey }, is_signer, is_writable }
    }
}

/// A program invocation: which program, on which accounts, with what payload.
#[derive(Debug)]
pub struct Instruction {
    pub program_id: Address,
    pub accounts: Vec<AccountMeta>,
    pub data: Vec<u8>,
}

/// What specifications see of an [`Instruction`].
pub struct InstructionView {
    pub program_id: Seq<u8>,
    pub accounts: Seq<AccountMetaView>,
    pub data: Seq<u8>,
}

impl View for Instruction {
    type V = InstructionView;

    open spec fn view(&self) -> InstructionView {
        InstructionView {
            program_id: self.program_id@,
            accounts: Seq::new(self.accounts@.len(), |i: int| self.accounts@[i]@),
            data: self.data@,
        }
    }
}

impl Instruction {
    /// An instruction from its three parts.
    pub fn new(program_id: [u8; 32], accounts: Vec<AccountMeta>, data: Vec<u8>) -> (instruction:
        Instruction)
        ensures
            instruction.program_id@ == program_id@,
            instruction.accounts == accounts,
            instruction.data == data,
    {
        Instruction { program_id: Address { bytes: program_id }, accounts, data }
    }
}

/// An account that the program may change.
pub open spec fn writable(pubkey: Seq<u8>, is_signer: bool) -> AccountMetaView {
    AccountMetaView { pubkey, is_signer, is_writable: true }
}

/// An account that the program only reads.
pub open spec fn readonly(pubkey: Seq<u8>, is_signer: bool) -> AccountMetaView {
    AccountMetaView { pubkey, is_signer, is_writable: false }
}

/// The address of the token program,
/// `TokenkegQfeZyiNwAJbNbGKPFXCWuBvf9Ss623VQ5DA`.
pub open spec fn token_program_id_spec() -> Seq<u8> {
    seq![
        6u8, 221, 246, 225, 215, 101, 161, 147, 217, 203, 225, 70, 206, 235, 121, 172,
        28, 180, 133, 237, 95, 91, 55, 145, 58, 140, 245, 133, 126, 255, 0, 169,
    ]
}

/// The address of the rent sysvar,
/// `SysvarRent111111111111111111111111111111111`.
pub open spec fn rent_sysvar_id_spec() -> Seq<u8> {
    seq![
        6u8, 167, 213, 23, 25, 44, 92, 81, 33, 140, 201, 76, 61, 74, 241, 127,
        88, 218, 238, 8, 155, 161, 253, 68, 227, 219, 217, 138, 0, 0, 0, 0,
    ]
}

/// The address of the system program, `11111111111111111111111111111111`:
/// 32 zero bytes.
pub open spec fn system_program_id_spec() -> Seq<u8> {
    Seq::new(32, |i: int| 0u8)
}

/// The payload of a system-program transfer of `lamports`, as
/// `solana_system_interface` serialises it.
pub uninterp spec fn spec_transfer_payload(lamports: u64) -> Seq<u8>;

/// The associated token account of `wallet` for the token `mint`, as
/// `spl_associated_token_account` derives it.
pub uninterp spec fn spec_associated_token_address(wallet: Seq<u8>, mint: Seq<u8>) -> Seq<u8>;

/// The instruction that initialises `mint` with `decimals` decimals: the mint
/// writable, the rent sysvar read; payload tag 0, the decimals, the mint
/// authority, then the freeze authority behind a presence byte.
pub open spec fn initialize_mint_instruction(
    program_id: Seq<u8>,
    mint: Seq<u8>,
    mint_authority: Seq<u8>,
    freeze_authority: Option<Seq<u8>>,
    decimals: u8,
) -> InstructionView {
    InstructionView {
        program_id,
        accounts: seq![writable(mint, false), readonly(rent_sysvar_id_spec(), false)],
        data: seq![0u8, decimals] + mint_authority + match freeze_authority {
            Some(authority) => seq![1u8] + authority,
            None => seq![0u8],
        },
    }
}

/// The instruction that mints `amount` of `mint` into `account` on the word of
/// `owner` alone: mint and account writable, the owner signing; payload tag 7
/// and the amount, little-endian.
pub open spec fn mint_to_instruction(
    program_id: Seq<u8>,
    mint: Seq<u8>,
    account: Seq<u8>,
    owner: Seq<u8>,
    amount: u64,
) -> InstructionView {
    InstructionView {
        program_id,
        accounts: seq![writable(mint, false), writable(account, false), readonly(owner, true)],
        data: seq![7u8] + spec_u64_to_le_bytes(amount),
    }
}

/// The instruction that moves `amount` tokens from `source` to `destination`
/// on the word of `authority` alone: both accounts writable, the authority
/// signing; payload tag 3 and the amount, little-endian.
pub open spec fn token_transfer_instruction(
    program_id: Seq<u8>,
    source: Seq<u8>,
    destination: Seq<u8>,
    authority: Seq<u8>,
    amount: u64,
) -> InstructionView {
    InstructionView {
        program_id,
        accounts: seq![
            writable(source, false),
            writable(destination, false),
            readonly(authority, true),
        ],
        data: seq![3u8] + spec_u64_to_le_bytes(amount),
    }
}

/// The instruction that moves lamports from `from` to `to` with the given
/// payload: the sender writable and signing, the recipient writable.
pub open spec fn system_transfer_instruction(from: Seq<u8>, to: Seq<u8>, payload: Seq<u8>)
    -> InstructionView {
    InstructionView {
        program_id: system_program_id_spec(),
        accounts: seq![writable(from, true), writable(to, false)],
        data: payload,
    }
}

/// The error with which `spl_token`'s builders reject their arguments,
/// carried through unread.
#[verifier::external_type_specification]
#[verifier::external_body]
pub struct ExProgramError(spl_token::solana_program::program_error::ProgramError);

/// Calls `spl_token::id()`.
///
/// Trusted: the token program's address is the 32 bytes of
/// [`token_program_id_spec`].
#[verifier::external_body]
pub(crate) fn token_program_id() -> (id: Address)
    ensures
        id@ == token_program_id_spec(),
{
    Address { bytes: spl_token::id().to_bytes() }
}

/// Calls `spl_token::instruction::initialize_mint`.
///
/// Trusted: the builder refuses any program id but the token program's, and
/// otherwise returns the instruction of [`initialize_mint_instruction`].
#[verifier::external_body]
pub(crate) fn token_initialize_mint(
    program_id: &Address,
    mint: &Address,
    mint_authority: &Address,
    freeze_authority: Option<Address>,
    decimals: u8,
) -> (built: Result<Instruction, spl_token::solana_program::program_error::ProgramError>)
    ensures
        built is Ok <==> program_id@ == token_program_id_spec(),
        built is Ok ==> built->Ok_0@ == initialize_mint_instruction(
            program_id@,
            mint@,
            mint_authority@,
            match freeze_authority {
                Some(authority) => Some(authority@),
                None => None,
            },
            decimals,
        ),
{
    let freeze: Option<spl_token::solana_program::pubkey::Pubkey> =
        freeze_authority.map(|a| a.bytes.into());
    spl_token::instruction::initialize_mint(
        &program_id.bytes.into(),
        &mint.bytes.into(),
        &mint_authority.bytes.into(),
        freeze.as_ref(),
        decimals,
    ).map(|built| Instruction::new(
        built.program_id.to_bytes(),
        built.accounts.iter()
            .map(|m| AccountMeta::new(m.pubkey.to_bytes(), m.is_signer, m.is_writable)).collect(),
        built.data,
    ))
}

/// Calls `spl_token::instruction::mint_to` with no signers besides the owner.
///
/// Trusted: the builder refuses any program id but the token program's, and
/// otherwise returns the instruction of [`mint_to_instruction`].
#[verifier::external_body]
pub(crate) fn token_mint_to(
    program_id: &Address,
    mint: &Address,
    account: &Address,
    owner: &Address,
    amount: u64,
) -> (built: Result<Instruction, spl_token::solana_program::program_error::ProgramError>)
    ensures
        built is Ok <==> program_id@ == token_program_id_spec(),
        built is Ok ==> built->Ok_0@ == mint_to_instruction(
            program_id@,
            mint@,
            account@,
            owner@,
            amount,
        ),
{
    spl_token::instruction::mint_to(
        &program_id.bytes.into(),
        &mint.bytes.into(),
        &account.bytes.into(),
        &owner.bytes.into(),
        &[],
        amount,
    ).map(|built| Instruction::new(
        built.program_id.to_bytes(),
        built.accounts.iter()
            .map(|m| AccountMeta::new(m.pubkey.to_bytes(), m.is_signer, m.is_writable)).collect(),
        built.data,
    ))
}

/// Calls `spl_token::instruction::transfer` with no signers besides the
/// authority.
///
/// Trusted: the builder refuses any program id but the token program's, and
/// otherwise returns the instruction of [`token_transfer_instruction`].
#[verifier::external_body]
pub(crate) fn token_transfer(
    program_id: &Address,
    source: &Address,
    destination: &Address,
    authority: &Address,
    amount: u64,
) -> (built: Result<Instruction, spl_token::solana_program::program_error::ProgramError>)
    ensures
        built is Ok <==> program_id@ == token_program_id_spec(),
        built is Ok ==> built->Ok_0@ == token_transfer_instruction(
            program_id@,
            source@,
            destination@,
            authority@,
            amount,
        ),
{
    spl_token::instruction::transfer(
        &program_id.bytes.into(),
        &source.bytes.into(),
        &destination.bytes.into(),
        &authority.bytes.into(),
        &[],
        amount,
    ).map(|built| Instruction::new(
        built.program_id.to_bytes(),
        built.accounts.iter()
            .map(|m| AccountMeta::new(m.pubkey.to_bytes(), m.is_signer, m.is_writable)).collect(),
        built.data,
    ))
}

/// Calls `solana_system_interface::instruction::transfer`.
///
/// Trusted: the result is the instruction of [`system_transfer_instruction`]
/// with the payload named by [`spec_transfer_payload`], which depends on the
/// amount alone.
#[verifier::external_body]
pub(crate) fn system_transfer(from: &Address, to: &Address, lamports: u64) -> (built: Instruction)
    ensures
        built@ == system_transfer_instruction(from@, to@, spec_transfer_payload(lamports)),
{
    let built = solana_system_interface::instruction::transfer(
        &solana_program::pubkey::Pubkey::from(from.bytes),
        &solana_program::pubkey::Pubkey::from(to.bytes),
        lamports,
    );
    Instruction::new(
        built.program_id.to_bytes(),
        built.accounts.iter()
            .map(|m| AccountMeta::new(m.pubkey.to_bytes(), m.is_signer, m.is_writable)).collect(),
        built.data,
    )
}

/// Calls `spl_associated_token_account::get_associated_token_address`.
///
/// Trusted: the address is the one named by
/// [`spec_associated_token_address`]; the derivation hashes the wallet, the
/// token program's id and the mint, and depends on nothing else. The outside
/// function gives up only if none of 255 candidate hashes is off the curve.
#[verifier::external_body]
pub(crate) fn associated_token_address(wallet: &Address, mint: &Address) -> (address: Address)
    ensures
        address@ == spec_associated_token_address(wallet@, mint@),
{
    Address {
        bytes: spl_associated_token_account::get_associated_token_address(
            &wallet.bytes.into(),
            &mint.bytes.into(),
        ).to_bytes(),
    }
}

} // verus!
