use token_introspection::account::AccountInfo;
use token_introspection::error::{ProgramError, SanitizeError};
use token_introspection::instructions::{
    get_instruction_relative, load_current_index_checked, load_instruction_at_checked,
    store_current_index, IntrospectedInstruction, INSTRUCTIONS_ID,
};

const KEY_A: [u8; 32] = [0xaa; 32];
const KEY_B: [u8; 32] = [0xbb; 32];
const PROGRAM: [u8; 32] = [0x11; 32];
const OTHER_PROGRAM: [u8; 32] = [0x22; 32];

/// An instruction record: accounts as (flags, address), program, data.
fn record(metas: &[(u8, [u8; 32])], program: [u8; 32], data: &[u8]) -> Vec<u8> {
    let mut r = Vec::new();
    r.extend_from_slice(&(metas.len() as u16).to_le_bytes());
    for (flags, key) in metas {
        r.push(*flags);
        r.extend_from_slice(key);
    }
    r.extend_from_slice(&program);
    r.extend_from_slice(&(data.len() as u16).to_le_bytes());
    r.extend_from_slice(data);
    r
}

/// Sysvar data holding `records`, with `current` as the executing index.
fn sysvar(records: &[Vec<u8>], current: u16) -> Vec<u8> {
    let mut d = Vec::new();
    d.extend_from_slice(&(records.len() as u16).to_le_bytes());
    let mut at = 2 + 2 * records.len();
    for r in records {
        d.extend_from_slice(&(at as u16).to_le_bytes());
        at += r.len();
    }
    for r in records {
        d.extend_from_slice(r);
    }
    d.extend_from_slice(&current.to_le_bytes());
    d
}

fn two_instructions(current: u16) -> Vec<u8> {
    sysvar(
        &[
            record(&[(0b01, KEY_A), (0b10, KEY_B)], PROGRAM, &[]),
            record(&[(0b11, KEY_B)], OTHER_PROGRAM, &[9, 8, 7]),
        ],
        current,
    )
}

fn info(data: &[u8]) -> AccountInfo<'_> {
    AccountInfo { key: INSTRUCTIONS_ID, data }
}

fn same_instruction(a: &IntrospectedInstruction, b: &IntrospectedInstruction) -> bool {
    a.account_count() == b.account_count()
        && a.get_program_id() == b.get_program_id()
        && a.get_data() == b.get_data()
}

#[test]
fn instruction_with_two_accounts_and_no_data() {
    let data = two_instructions(0);
    let ix = get_instruction_relative(0, &info(&data)).unwrap();
    assert_eq!(ix.account_count(), 2);

    let first = ix.get_account_meta_at(0).unwrap();
    assert!(first.is_signer());
    assert!(!first.is_writable());
    assert_eq!(first.key(), &KEY_A[..]);

    let second = ix.get_account_meta_at(1).unwrap();
    assert!(!second.is_signer());
    assert!(second.is_writable());
    assert_eq!(second.key(), &KEY_B[..]);

    assert!(matches!(ix.get_account_meta_at(2), Err(SanitizeError::IndexOutOfBounds)));
    assert!(ix.get_data().is_empty());
    assert_eq!(ix.get_program_id(), &PROGRAM[..]);
}

#[test]
fn account_meta_past_count_is_out_of_bounds() {
    let data = two_instructions(1);
    let ix = get_instruction_relative(0, &info(&data)).unwrap();
    let count = ix.account_count() as usize;
    assert!(matches!(ix.get_account_meta_at(count), Err(SanitizeError::IndexOutOfBounds)));
    let meta = ix.get_account_meta_at(count - 1).unwrap();
    assert!(meta.is_signer() && meta.is_writable());
    let unchecked = ix.get_account_meta_at_unchecked(0);
    assert_eq!(unchecked.key(), &KEY_B[..]);
}

#[test]
fn to_account_meta_keeps_flags_in_place() {
    let data = two_instructions(0);
    let ix = get_instruction_relative(0, &info(&data)).unwrap();
    let signer = ix.get_account_meta_at(0).unwrap().to_account_meta();
    assert!(signer.is_signer);
    assert!(!signer.is_writable);
    assert_eq!(signer.pubkey, &KEY_A[..]);
    let writable = ix.get_account_meta_at(1).unwrap().to_account_meta();
    assert!(!writable.is_signer);
    assert!(writable.is_writable);
    assert_eq!(writable.pubkey, &KEY_B[..]);
}

#[test]
fn relative_zero_is_the_current_instruction() {
    for current in 0..2u16 {
        let data = two_instructions(current);
        let index = load_current_index_checked(&info(&data)).unwrap();
        assert_eq!(index, current);
        let direct = load_instruction_at_checked(index as usize, &data).unwrap();
        let relative = get_instruction_relative(0, &info(&data)).unwrap();
        assert!(same_instruction(&direct, &relative));
    }
}

#[test]
fn relative_offsets_reach_siblings() {
    let data = two_instructions(0);
    let next = get_instruction_relative(1, &info(&data)).unwrap();
    assert_eq!(next.get_program_id(), &OTHER_PROGRAM[..]);
    assert_eq!(next.get_data(), &[9, 8, 7]);

    let data = two_instructions(1);
    let previous = get_instruction_relative(-1, &info(&data)).unwrap();
    assert_eq!(previous.get_program_id(), &PROGRAM[..]);
}

#[test]
fn negative_index_is_invalid_argument() {
    let data = two_instructions(1);
    assert!(matches!(
        get_instruction_relative(-2, &info(&data)),
        Err(ProgramError::InvalidArgument)
    ));
    assert!(matches!(
        get_instruction_relative(i64::MIN, &info(&data)),
        Err(ProgramError::InvalidArgument)
    ));
}

#[test]
fn index_past_count_is_out_of_bounds() {
    let data = two_instructions(1);
    assert!(matches!(
        load_instruction_at_checked(2, &data),
        Err(SanitizeError::IndexOutOfBounds)
    ));
    assert!(matches!(
        get_instruction_relative(1, &info(&data)),
        Err(ProgramError::InvalidArgument)
    ));
    assert!(matches!(
        get_instruction_relative(i64::MAX, &info(&data)),
        Err(ProgramError::InvalidArgument)
    ));
}

#[test]
fn other_account_is_unsupported() {
    let data = two_instructions(0);
    let other = AccountInfo { key: [0u8; 32], data: &data };
    assert!(matches!(load_current_index_checked(&other), Err(ProgramError::UnsupportedSysvar)));
    assert!(matches!(
        get_instruction_relative(0, &other),
        Err(ProgramError::UnsupportedSysvar)
    ));
}

#[test]
fn data_too_short_for_current_index() {
    let data = [5u8];
    assert!(matches!(
        load_current_index_checked(&info(&data)),
        Err(ProgramError::InvalidAccountData)
    ));
    assert!(matches!(
        get_instruction_relative(0, &info(&data)),
        Err(ProgramError::InvalidAccountData)
    ));
    assert!(matches!(load_instruction_at_checked(0, &data), Err(SanitizeError::InvalidValue)));
}

#[test]
fn malformed_records_are_invalid_instruction_data() {
    // The offset of the only record points past the end of the data.
    let data = [1u8, 0, 200, 0, 0, 0];
    assert!(matches!(load_instruction_at_checked(0, &data), Err(SanitizeError::InvalidValue)));
    assert!(matches!(
        get_instruction_relative(0, &info(&data)),
        Err(ProgramError::InvalidInstructionData)
    ));

    // The record declares more data than the buffer holds.
    let mut data = two_instructions(1);
    let len = data.len();
    data[len - 7] = 200;
    assert!(matches!(
        get_instruction_relative(0, &info(&data)),
        Err(ProgramError::InvalidInstructionData)
    ));

    // The offset table is cut short.
    let data = [3u8, 0, 0, 0];
    assert!(matches!(load_instruction_at_checked(2, &data), Err(SanitizeError::InvalidValue)));
}

#[test]
fn stored_index_is_read_back() {
    let mut data = two_instructions(0);
    let before = data.clone();
    store_current_index(&mut data, 0x0201);
    assert_eq!(&data[data.len() - 2..], &[0x01, 0x02]);
    assert_eq!(&data[..data.len() - 2], &before[..before.len() - 2]);
    assert_eq!(load_current_index_checked(&info(&data)).unwrap(), 0x0201);
}
