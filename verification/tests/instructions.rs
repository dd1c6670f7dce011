use solana_api::dtos::{
    CreateTokenRequest, MintTokenRequest, SendSolRequest, SendTokenRequest,
};
use solana_api::error::{ApiError, InstructionKind};
use solana_api::handlers::{
    create_token, mint_token, send_sol, send_token, try_create_token, try_mint_token,
    try_send_sol, try_send_token,
};
use solana_api::instruction::{AccountMeta, Instruction};
use solana_api::keys::Address;
use solana_api::response::{
    built_or_failed, instruction_to_response, sol_transfer_response, token_transfer_response,
};
use spl_token::solana_program::program_error::ProgramError;

const TOKEN_PROGRAM: &str = "TokenkegQfeZyiNwAJbNbGKPFXCWuBvf9Ss623VQ5DA";
const SYSTEM_PROGRAM: &str = "11111111111111111111111111111111";
const RENT_SYSVAR: &str = "SysvarRent111111111111111111111111111111111";
const ADDRESS_1: &str = "4wBqpZM9xaSheZzJSMawUKKwhdpChKbZ5eu5ky4Vigw";
const ADDRESS_2: &str = "7ppk9w8NHnH6ehajvJyU31VcMafwZ3ybRtJWumSyD2wd";
const ADDRESS_3: &str = "US517G5965aydkZ46HS38QLi7UQiSojurfbQfKCELFx";
const SHORT_ADDRESS: &str = "thX6LZfHDZZKUs92febYZhYRcXddmzfzF2NvTkPNE";
const LONG_ADDRESS: &str = "JNArUumxYJcSQpbuxuroRZtcSMVLcy5WbYGt14SRm1Fv";

fn text(value: &str) -> Option<String> {
    Some(value.to_string())
}

fn sample_instruction() -> Instruction {
    Instruction {
        program_id: Address { bytes: [0u8; 32] },
        accounts: vec![
            AccountMeta { pubkey: Address { bytes: [7u8; 32] }, is_signer: true, is_writable: false },
            AccountMeta { pubkey: Address { bytes: [0u8; 32] }, is_signer: false, is_writable: true },
        ],
        data: vec![1, 2, 3, 4],
    }
}

#[test]
fn account_meta_new_keeps_its_parts() {
    let meta = AccountMeta::new([7u8; 32], true, false);
    assert_eq!(meta.pubkey.bytes, [7u8; 32]);
    assert!(meta.is_signer);
    assert!(!meta.is_writable);
}

#[test]
fn instruction_new_keeps_its_parts() {
    let instruction =
        Instruction::new([3u8; 32], vec![AccountMeta::new([7u8; 32], false, true)], vec![9, 8]);
    assert_eq!(instruction.program_id.bytes, [3u8; 32]);
    assert_eq!(instruction.accounts.len(), 1);
    assert_eq!(instruction.accounts[0].pubkey.bytes, [7u8; 32]);
    assert!(instruction.accounts[0].is_writable);
    assert_eq!(instruction.data, vec![9, 8]);
}

#[test]
fn instruction_to_response_keeps_order_and_flags() {
    let data = instruction_to_response(sample_instruction());
    assert_eq!(data.program_id, SYSTEM_PROGRAM);
    assert_eq!(data.accounts.len(), 2);
    assert_eq!(data.accounts[0].pubkey, ADDRESS_3);
    assert!(data.accounts[0].is_signer);
    assert!(!data.accounts[0].is_writable);
    assert_eq!(data.accounts[1].pubkey, SYSTEM_PROGRAM);
    assert!(!data.accounts[1].is_signer);
    assert!(data.accounts[1].is_writable);
    assert_eq!(data.instruction_data, "AQIDBA==");
}

#[test]
fn instruction_to_response_of_no_accounts_and_no_payload() {
    let data = instruction_to_response(Instruction {
        program_id: Address { bytes: [7u8; 32] },
        accounts: vec![],
        data: vec![],
    });
    assert_eq!(data.program_id, ADDRESS_3);
    assert!(data.accounts.is_empty());
    assert_eq!(data.instruction_data, "");
}

#[test]
fn sol_transfer_response_lists_addresses_only() {
    let data = sol_transfer_response(sample_instruction());
    assert_eq!(data.program_id, SYSTEM_PROGRAM);
    assert_eq!(data.accounts, vec![ADDRESS_3.to_string(), SYSTEM_PROGRAM.to_string()]);
    assert_eq!(data.instruction_data, "AQIDBA==");
}

#[test]
fn token_transfer_response_lists_address_and_signer() {
    let data = token_transfer_response(sample_instruction());
    assert_eq!(data.program_id, SYSTEM_PROGRAM);
    assert_eq!(data.accounts.len(), 2);
    assert_eq!(data.accounts[0].pubkey, ADDRESS_3);
    assert!(data.accounts[0].is_signer);
    assert_eq!(data.accounts[1].pubkey, SYSTEM_PROGRAM);
    assert!(!data.accounts[1].is_signer);
    assert_eq!(data.instruction_data, "AQIDBA==");
}

#[test]
fn a_rejected_build_fails_with_the_kind_asked_for() {
    let kinds = vec![InstructionKind::Token, InstructionKind::Mint, InstructionKind::Transfer];
    for kind in kinds {
        let result = built_or_failed(Err(ProgramError::IncorrectProgramId), kind);
        assert_eq!(result.err(), Some(ApiError::InstructionBuildFailed(kind)));
        let result = built_or_failed(Err(ProgramError::InvalidArgument), kind);
        assert_eq!(result.err(), Some(ApiError::InstructionBuildFailed(kind)));
    }
}

#[test]
fn an_accepted_build_passes_through() {
    let result = built_or_failed(Ok(sample_instruction()), InstructionKind::Mint).unwrap();
    assert_eq!(result.program_id.bytes, [0u8; 32]);
    assert_eq!(result.accounts.len(), 2);
    assert_eq!(result.data, vec![1, 2, 3, 4]);
}

#[test]
fn create_token_builds_initialize_mint() {
    let (status, response) = create_token(CreateTokenRequest {
        mint_authority: text(ADDRESS_3),
        mint: text(ADDRESS_1),
        decimals: Some(6),
    });
    assert_eq!(status, 200);
    assert!(response.success);
    assert!(response.error.is_none());
    let data = response.data.unwrap();
    assert_eq!(data.program_id, TOKEN_PROGRAM);
    assert_eq!(data.accounts.len(), 2);
    assert_eq!(data.accounts[0].pubkey, ADDRESS_1);
    assert!(!data.accounts[0].is_signer);
    assert!(data.accounts[0].is_writable);
    assert_eq!(data.accounts[1].pubkey, RENT_SYSVAR);
    assert!(!data.accounts[1].is_signer);
    assert!(!data.accounts[1].is_writable);
    assert_eq!(
        data.instruction_data,
        "AAYHBwcHBwcHBwcHBwcHBwcHBwcHBwcHBwcHBwcHBwcHBwEHBwcHBwcHBwcHBwcHBwcHBwcHBwcHBwcHBwcHBwcHBw=="
    );
}

#[test]
fn create_token_accepts_zero_decimals() {
    let request = CreateTokenRequest {
        mint_authority: text(ADDRESS_3),
        mint: text(ADDRESS_1),
        decimals: Some(0),
    };
    let data = try_create_token(&request).unwrap();
    assert_eq!(
        data.instruction_data,
        "AAAHBwcHBwcHBwcHBwcHBwcHBwcHBwcHBwcHBwcHBwcHBwEHBwcHBwcHBwcHBwcHBwcHBwcHBwcHBwcHBwcHBwcHBw=="
    );
}

#[test]
fn create_token_without_fields_is_missing_fields() {
    let requests = vec![
        CreateTokenRequest { mint_authority: None, mint: text(ADDRESS_1), decimals: Some(6) },
        CreateTokenRequest { mint_authority: text(""), mint: text(ADDRESS_1), decimals: Some(6) },
        CreateTokenRequest { mint_authority: text(ADDRESS_3), mint: None, decimals: Some(6) },
        CreateTokenRequest { mint_authority: text(ADDRESS_3), mint: text(""), decimals: Some(6) },
        CreateTokenRequest { mint_authority: text(ADDRESS_3), mint: text(ADDRESS_1), decimals: None },
        CreateTokenRequest { mint_authority: text("bad!"), mint: text("bad!"), decimals: None },
    ];
    for request in requests {
        let (status, response) = create_token(request);
        assert_eq!(status, 400);
        assert!(!response.success);
        assert!(response.data.is_none());
        assert_eq!(response.error.as_deref(), Some("Missing required fields"));
    }
}

#[test]
fn create_token_with_bad_address_is_invalid_public_key() {
    let requests = vec![
        CreateTokenRequest { mint_authority: text(SHORT_ADDRESS), mint: text(ADDRESS_1), decimals: Some(6) },
        CreateTokenRequest { mint_authority: text(ADDRESS_3), mint: text(LONG_ADDRESS), decimals: Some(6) },
        CreateTokenRequest { mint_authority: text("bad!"), mint: text(ADDRESS_1), decimals: Some(0) },
    ];
    for request in requests {
        let (status, response) = create_token(request);
        assert_eq!(status, 400);
        assert!(!response.success);
        assert!(response.data.is_none());
        assert_eq!(response.error.as_deref(), Some("Invalid public key"));
    }
}

#[test]
fn mint_token_builds_mint_to() {
    let (status, response) = mint_token(MintTokenRequest {
        mint: text(ADDRESS_1),
        destination: text(ADDRESS_2),
        authority: text(ADDRESS_3),
        amount: Some(1000),
    });
    assert_eq!(status, 200);
    assert!(response.success);
    assert!(response.error.is_none());
    let data = response.data.unwrap();
    assert_eq!(data.program_id, TOKEN_PROGRAM);
    assert_eq!(data.accounts.len(), 3);
    assert_eq!(data.accounts[0].pubkey, ADDRESS_1);
    assert!(!data.accounts[0].is_signer);
    assert!(data.accounts[0].is_writable);
    assert_eq!(data.accounts[1].pubkey, ADDRESS_2);
    assert!(!data.accounts[1].is_signer);
    assert!(data.accounts[1].is_writable);
    assert_eq!(data.accounts[2].pubkey, ADDRESS_3);
    assert!(data.accounts[2].is_signer);
    assert!(!data.accounts[2].is_writable);
    assert_eq!(data.instruction_data, "B+gDAAAAAAAA");
}

#[test]
fn mint_token_takes_the_largest_amount() {
    let request = MintTokenRequest {
        mint: text(ADDRESS_1),
        destination: text(ADDRESS_2),
        authority: text(ADDRESS_3),
        amount: Some(u64::MAX),
    };
    let data = try_mint_token(&request).unwrap();
    assert_eq!(data.instruction_data, "B///////////");
}

#[test]
fn mint_token_without_fields_is_missing_fields() {
    let requests = vec![
        MintTokenRequest { mint: None, destination: text(ADDRESS_2), authority: text(ADDRESS_3), amount: Some(1) },
        MintTokenRequest { mint: text(""), destination: text(ADDRESS_2), authority: text(ADDRESS_3), amount: Some(1) },
        MintTokenRequest { mint: text(ADDRESS_1), destination: None, authority: text(ADDRESS_3), amount: Some(1) },
        MintTokenRequest { mint: text(ADDRESS_1), destination: text(ADDRESS_2), authority: text(""), amount: Some(1) },
        MintTokenRequest { mint: text(ADDRESS_1), destination: text(ADDRESS_2), authority: text(ADDRESS_3), amount: None },
        MintTokenRequest { mint: text(ADDRESS_1), destination: text(ADDRESS_2), authority: text(ADDRESS_3), amount: Some(0) },
        MintTokenRequest { mint: text("bad!"), destination: text("bad!"), authority: text("bad!"), amount: Some(0) },
    ];
    for request in requests {
        let (status, response) = mint_token(request);
        assert_eq!(status, 400);
        assert!(!response.success);
        assert!(response.data.is_none());
        assert_eq!(response.error.as_deref(), Some("Missing required fields"));
    }
}

#[test]
fn mint_token_with_bad_address_is_invalid_public_key() {
    let requests = vec![
        MintTokenRequest { mint: text(SHORT_ADDRESS), destination: text(ADDRESS_2), authority: text(ADDRESS_3), amount: Some(1) },
        MintTokenRequest { mint: text(ADDRESS_1), destination: text(LONG_ADDRESS), authority: text(ADDRESS_3), amount: Some(1) },
        MintTokenRequest { mint: text(ADDRESS_1), destination: text(ADDRESS_2), authority: text("bad!"), amount: Some(1) },
    ];
    for request in requests {
        let (status, response) = mint_token(request);
        assert_eq!(status, 400);
        assert!(!response.success);
        assert_eq!(response.error.as_deref(), Some("Invalid public key"));
    }
}

#[test]
fn send_sol_builds_a_system_transfer() {
    let (status, response) = send_sol(SendSolRequest {
        from: text(ADDRESS_1),
        to: text(ADDRESS_2),
        lamports: Some(5000),
    });
    assert_eq!(status, 200);
    assert!(response.success);
    assert!(response.error.is_none());
    let data = response.data.unwrap();
    assert_eq!(data.program_id, SYSTEM_PROGRAM);
    assert_eq!(data.accounts, vec![ADDRESS_1.to_string(), ADDRESS_2.to_string()]);
    assert_eq!(data.instruction_data, "AgAAAIgTAAAAAAAA");
}

#[test]
fn send_sol_payload_follows_the_amount() {
    let one = try_send_sol(&SendSolRequest {
        from: text(ADDRESS_1),
        to: text(ADDRESS_2),
        lamports: Some(1),
    })
    .unwrap();
    let same_amount_other_way = try_send_sol(&SendSolRequest {
        from: text(ADDRESS_2),
        to: text(ADDRESS_1),
        lamports: Some(1),
    })
    .unwrap();
    assert_eq!(one.instruction_data, "AgAAAAEAAAAAAAAA");
    assert_eq!(one.instruction_data, same_amount_other_way.instruction_data);
    assert_eq!(same_amount_other_way.accounts, vec![ADDRESS_2.to_string(), ADDRESS_1.to_string()]);
}

#[test]
fn send_sol_without_fields_is_missing_fields() {
    let requests = vec![
        SendSolRequest { from: None, to: text(ADDRESS_2), lamports: Some(1) },
        SendSolRequest { from: text(""), to: text(ADDRESS_2), lamports: Some(1) },
        SendSolRequest { from: text(ADDRESS_1), to: None, lamports: Some(1) },
        SendSolRequest { from: text(ADDRESS_1), to: text(ADDRESS_2), lamports: None },
        SendSolRequest { from: text(ADDRESS_1), to: text(ADDRESS_2), lamports: Some(0) },
        SendSolRequest { from: text("bad!"), to: text("bad!"), lamports: Some(0) },
    ];
    for request in requests {
        let (status, response) = send_sol(request);
        assert_eq!(status, 400);
        assert!(!response.success);
        assert!(response.data.is_none());
        assert_eq!(response.error.as_deref(), Some("Missing required fields"));
    }
}

#[test]
fn send_sol_with_bad_address_is_invalid_public_key() {
    let requests = vec![
        SendSolRequest { from: text(SHORT_ADDRESS), to: text(ADDRESS_2), lamports: Some(1) },
        SendSolRequest { from: text(ADDRESS_1), to: text(LONG_ADDRESS), lamports: Some(1) },
    ];
    for request in requests {
        let (status, response) = send_sol(request);
        assert_eq!(status, 400);
        assert!(!response.success);
        assert_eq!(response.error.as_deref(), Some("Invalid public key"));
    }
}

#[test]
fn send_token_transfers_between_associated_accounts() {
    let (status, response) = send_token(SendTokenRequest {
        destination: text(ADDRESS_2),
        mint: text(ADDRESS_1),
        owner: text(ADDRESS_3),
        amount: Some(250),
    });
    assert_eq!(status, 200);
    assert!(response.success);
    assert!(response.error.is_none());
    let data = response.data.unwrap();
    assert_eq!(data.program_id, TOKEN_PROGRAM);
    assert_eq!(data.accounts.len(), 3);
    assert_eq!(data.accounts[0].pubkey, "FQHoYcpYxCrVrVReMUoG21GrjfjhLjukua1mnYBPeUdv");
    assert!(!data.accounts[0].is_signer);
    assert_eq!(data.accounts[1].pubkey, "4taA2FY9i6ZYnYW3FEhU4CdT19j5WrHZeSAdmG5a1fbb");
    assert!(!data.accounts[1].is_signer);
    assert_eq!(data.accounts[2].pubkey, ADDRESS_3);
    assert!(data.accounts[2].is_signer);
    assert_eq!(data.instruction_data, "A/oAAAAAAAAA");
}

#[test]
fn send_token_accounts_are_the_crate_s_derivation() {
    let owner = spl_token::solana_program::pubkey::Pubkey::new_from_array([7u8; 32]);
    let mint = ADDRESS_1.parse::<spl_token::solana_program::pubkey::Pubkey>().unwrap();
    let destination = ADDRESS_2.parse::<spl_token::solana_program::pubkey::Pubkey>().unwrap();
    let source = spl_associated_token_account::get_associated_token_address(&owner, &mint);
    let target = spl_associated_token_account::get_associated_token_address(&destination, &mint);
    let data = try_send_token(&SendTokenRequest {
        destination: text(ADDRESS_2),
        mint: text(ADDRESS_1),
        owner: text(ADDRESS_3),
        amount: Some(1),
    })
    .unwrap();
    assert_eq!(data.accounts[0].pubkey, source.to_string());
    assert_eq!(data.accounts[1].pubkey, target.to_string());
    assert_ne!(data.accounts[0].pubkey, ADDRESS_3);
    assert_ne!(data.accounts[1].pubkey, ADDRESS_2);
}

#[test]
fn send_token_derivation_is_repeatable() {
    let request = SendTokenRequest {
        destination: text(ADDRESS_2),
        mint: text(ADDRESS_1),
        owner: text(ADDRESS_3),
        amount: Some(250),
    };
    let first = try_send_token(&request).unwrap();
    let second = try_send_token(&request).unwrap();
    assert_eq!(first.program_id, second.program_id);
    assert_eq!(first.instruction_data, second.instruction_data);
    assert_eq!(first.accounts.len(), second.accounts.len());
    for (a, b) in first.accounts.iter().zip(second.accounts.iter()) {
        assert_eq!(a.pubkey, b.pubkey);
        assert_eq!(a.is_signer, b.is_signer);
    }
    let other_destination = try_send_token(&SendTokenRequest {
        destination: text(ADDRESS_3),
        mint: text(ADDRESS_1),
        owner: text(ADDRESS_3),
        amount: Some(9),
    })
    .unwrap();
    assert_eq!(other_destination.accounts[0].pubkey, first.accounts[0].pubkey);
    assert_eq!(other_destination.accounts[1].pubkey, first.accounts[0].pubkey);
    let other_mint = try_send_token(&SendTokenRequest {
        destination: text(ADDRESS_2),
        mint: text(ADDRESS_3),
        owner: text(ADDRESS_3),
        amount: Some(250),
    })
    .unwrap();
    assert_ne!(other_mint.accounts[0].pubkey, first.accounts[0].pubkey);
    assert_ne!(other_mint.accounts[1].pubkey, first.accounts[1].pubkey);
}

#[test]
fn send_token_without_fields_is_missing_fields() {
    let requests = vec![
        SendTokenRequest { destination: None, mint: text(ADDRESS_1), owner: text(ADDRESS_3), amount: Some(1) },
        SendTokenRequest { destination: text(""), mint: text(ADDRESS_1), owner: text(ADDRESS_3), amount: Some(1) },
        SendTokenRequest { destination: text(ADDRESS_2), mint: None, owner: text(ADDRESS_3), amount: Some(1) },
        SendTokenRequest { destination: text(ADDRESS_2), mint: text(ADDRESS_1), owner: None, amount: Some(1) },
        SendTokenRequest { destination: text(ADDRESS_2), mint: text(ADDRESS_1), owner: text(ADDRESS_3), amount: None },
        SendTokenRequest { destination: text(ADDRESS_2), mint: text(ADDRESS_1), owner: text(ADDRESS_3), amount: Some(0) },
        SendTokenRequest { destination: text("bad!"), mint: text("bad!"), owner: text("bad!"), amount: Some(0) },
    ];
    for request in requests {
        let (status, response) = send_token(request);
        assert_eq!(status, 400);
        assert!(!response.success);
        assert!(response.data.is_none());
        assert_eq!(response.error.as_deref(), Some("Missing required fields"));
    }
}

#[test]
fn send_token_with_bad_address_is_invalid_public_key() {
    let requests = vec![
        SendTokenRequest { destination: text(SHORT_ADDRESS), mint: text(ADDRESS_1), owner: text(ADDRESS_3), amount: Some(1) },
        SendTokenRequest { destination: text(ADDRESS_2), mint: text(LONG_ADDRESS), owner: text(ADDRESS_3), amount: Some(1) },
        SendTokenRequest { destination: text(ADDRESS_2), mint: text(ADDRESS_1), owner: text("bad!"), amount: Some(1) },
    ];
    for request in requests {
        let (status, response) = send_token(request);
        assert_eq!(status, 400);
        assert!(!response.success);
        assert_eq!(response.error.as_deref(), Some("Invalid public key"));
    }
}
