use stableswap::codegen::anchor_discriminator;
use stableswap::codegen::to_snake_case;
use stableswap::codegen::transform;
use stableswap::codegen::AccountKind;
use stableswap::codegen::AnchorAccount;
use stableswap::codegen::AnchorAccountStruct;
use stableswap::codegen::AnchorError;
use stableswap::codegen::AnchorInstruction;
use stableswap::codegen::AnchorProgram;
use stableswap::codegen::AnchorStateStruct;
use stableswap::codegen::Config;
use stableswap::codegen::Constraint;
use stableswap::codegen::FieldDef;
use stableswap::codegen::FieldTy;
use stableswap::codegen::PdaInfo;
use stableswap::codegen::ProgramAnalysis;
use stableswap::codegen::SizeInfo;
use stableswap::codegen::Validation;

fn sample_program() -> AnchorProgram {
    AnchorProgram {
        name: b"demo".to_vec(),
        program_id: b"DemoProgram1111111111111111111111111111111".to_vec(),
        instructions: vec![AnchorInstruction {
            name: b"initialize".to_vec(),
            accounts_struct: b"Initialize".to_vec(),
            args: vec![FieldDef { name: b"amplification".to_vec(), ty: FieldTy::U64 }],
            body: b"state.amplification = amplification;".to_vec(),
        }],
        account_structs: vec![AnchorAccountStruct {
            name: b"Initialize".to_vec(),
            accounts: vec![
                AnchorAccount {
                    name: b"pool".to_vec(),
                    kind: AccountKind::Account,
                    constraints: vec![
                        Constraint::Mutable,
                        Constraint::Seeds(b"b\"pool\"".to_vec()),
                        Constraint::Bump(None),
                    ],
                },
                AnchorAccount {
                    name: b"authority".to_vec(),
                    kind: AccountKind::Signer,
                    constraints: vec![Constraint::Mutable],
                },
            ],
        }],
        state_structs: vec![AnchorStateStruct {
            name: b"Pool".to_vec(),
            fields: vec![
                FieldDef { name: b"authority".to_vec(), ty: FieldTy::Address },
                FieldDef { name: b"amplification".to_vec(), ty: FieldTy::U64 },
                FieldDef { name: b"paused".to_vec(), ty: FieldTy::Bool },
            ],
        }],
        errors: vec![
            AnchorError { name: b"MathOverflow".to_vec(), code: Some(6100), msg: b"overflow".to_vec() },
            AnchorError { name: b"Unauthorized".to_vec(), code: None, msg: b"not allowed".to_vec() },
        ],
    }
}

fn sample_analysis() -> ProgramAnalysis {
    ProgramAnalysis {
        pdas: vec![PdaInfo { account_name: b"pool".to_vec(), seeds: b"b\"pool\"".to_vec() }],
        account_sizes: vec![SizeInfo { struct_name: b"Pool".to_vec(), size: 49 }],
    }
}

fn compat_config() -> Config {
    Config { no_alloc: false, lazy_entrypoint: false, inline_cpi: false, anchor_compat: true }
}

#[test]
fn snake_case_splits_capitals() {
    assert_eq!(to_snake_case(b"MyAccountStruct"), b"my_account_struct".to_vec());
    assert_eq!(to_snake_case(b"initialize"), b"initialize".to_vec());
    assert_eq!(to_snake_case(b"X"), b"x".to_vec());
    assert_eq!(to_snake_case(b""), Vec::<u8>::new());
}

#[test]
fn discriminator_matches_the_known_anchor_value() {
    // sha256("global:initialize")[0..8], Anchor's well-known discriminator
    assert_eq!(
        anchor_discriminator(b"initialize"),
        vec![175u8, 175, 109, 31, 13, 152, 155, 237]
    );
}

#[test]
fn lowering_keeps_names_and_assigns_discriminators() {
    let out = transform(&sample_program(), &sample_analysis(), &compat_config());
    assert_eq!(out.name, b"demo".to_vec());
    assert!(out.config.anchor_compat);
    assert_eq!(out.instructions.len(), 1);
    let inst = &out.instructions[0];
    assert_eq!(inst.name, b"initialize".to_vec());
    assert_eq!(inst.discriminator, vec![175u8, 175, 109, 31, 13, 152, 155, 237]);
    assert_eq!(inst.args.len(), 1);
    assert_eq!(inst.args[0].name, b"amplification".to_vec());
    assert_eq!(inst.body, b"state.amplification = amplification;".to_vec());
}

#[test]
fn lowering_without_compat_zeroes_the_discriminator() {
    let config = Config { anchor_compat: false, ..compat_config() };
    let out = transform(&sample_program(), &sample_analysis(), &config);
    assert_eq!(out.instructions[0].discriminator, vec![0u8; 8]);
}

#[test]
fn accounts_get_indices_flags_and_seed_derivations() {
    let out = transform(&sample_program(), &sample_analysis(), &compat_config());
    let accounts = &out.instructions[0].accounts;
    assert_eq!(accounts.len(), 2);
    assert_eq!(accounts[0].name, b"pool".to_vec());
    assert_eq!(accounts[0].index, 0);
    assert!(!accounts[0].is_signer);
    assert!(accounts[0].is_writable);
    assert!(accounts[0].is_pda);
    assert_eq!(accounts[0].pda_seeds, Some(b"b\"pool\"".to_vec()));
    assert_eq!(accounts[1].name, b"authority".to_vec());
    assert_eq!(accounts[1].index, 1);
    assert!(accounts[1].is_signer);
    assert!(accounts[1].is_writable);
    assert!(!accounts[1].is_pda);
}

#[test]
fn validations_follow_the_account_order() {
    let out = transform(&sample_program(), &sample_analysis(), &compat_config());
    let vs = &out.instructions[0].validations;
    assert_eq!(vs.len(), 4);
    match &vs[0] {
        Validation::IsWritable { account_idx } => assert_eq!(*account_idx, 0),
        other => panic!("unexpected validation: {:?}", other),
    }
    match &vs[1] {
        Validation::PdaCheck { account_idx, seeds, bump } => {
            assert_eq!(*account_idx, 0);
            assert_eq!(seeds, &b"b\"pool\"".to_vec());
            assert_eq!(bump, &None);
        },
        other => panic!("unexpected validation: {:?}", other),
    }
    match &vs[2] {
        Validation::IsSigner { account_idx } => assert_eq!(*account_idx, 1),
        other => panic!("unexpected validation: {:?}", other),
    }
    match &vs[3] {
        Validation::IsWritable { account_idx } => assert_eq!(*account_idx, 1),
        other => panic!("unexpected validation: {:?}", other),
    }
}

#[test]
fn state_fields_get_raw_offsets_past_the_discriminator() {
    let out = transform(&sample_program(), &sample_analysis(), &compat_config());
    assert_eq!(out.state_structs.len(), 1);
    let st = &out.state_structs[0];
    assert_eq!(st.name, b"Pool".to_vec());
    assert_eq!(st.size, 49);
    assert_eq!(st.fields.len(), 3);
    assert_eq!(st.fields[0].offset, 8);
    assert_eq!(st.fields[0].size, 32);
    assert_eq!(st.fields[1].offset, 40);
    assert_eq!(st.fields[1].size, 8);
    assert_eq!(st.fields[2].offset, 48);
    assert_eq!(st.fields[2].size, 1);
}

#[test]
fn errors_keep_their_codes_or_take_the_default() {
    let out = transform(&sample_program(), &sample_analysis(), &compat_config());
    assert_eq!(out.errors.len(), 2);
    assert_eq!(out.errors[0].name, b"MathOverflow".to_vec());
    assert_eq!(out.errors[0].code, 6100);
    assert_eq!(out.errors[1].name, b"Unauthorized".to_vec());
    assert_eq!(out.errors[1].code, 6000);
    assert_eq!(out.errors[1].msg, b"not allowed".to_vec());
}

#[test]
fn an_unknown_accounts_struct_lowers_to_no_accounts() {
    let mut program = sample_program();
    program.instructions[0].accounts_struct = b"Missing".to_vec();
    let out = transform(&program, &sample_analysis(), &compat_config());
    assert_eq!(out.instructions[0].accounts.len(), 0);
    assert_eq!(out.instructions[0].validations.len(), 0);
}
