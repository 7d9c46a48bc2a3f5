//! The instructions sysvar: the list of the instructions of the executing
//! transaction, read in place through bounds-checked views.
//!
//! Layout of the sysvar data, all integers little-endian:
//! `u16` count, `count` × `u16` offsets of the records, the records, and the
//! `u16` index of the executing instruction as the last two bytes.
//!
//! Layout of an instruction record: `u16` number of accounts, that many
//! account references of one flags byte and an address each, the address
//! of the program, a `u16` data length, and the data.
use crate::account::{pubkey_eq, AccountInfo, AccountMeta, Pubkey, PUBKEY_LEN};
use crate::error::{ProgramError, SanitizeError};
use crate::layout::{le_u16, read_u16_le, write_u16_le};
use vstd::prelude::*;

verus! {

/// Address of the instructions sysvar.
pub const INSTRUCTIONS_ID: Pubkey = [
    0x06, 0xa7, 0xd5, 0x17, 0x18, 0x7b, 0xd1, 0x66, 0x35, 0xda, 0xd4, 0x04, 0x55, 0xfd, 0xc2, 0xc0,
    0xc1, 0x24, 0xc6, 0x8f, 0x21, 0x56, 0x75, 0xa5, 0xdb, 0xba, 0xcb, 0x5f, 0x08, 0x00, 0x00, 0x00,
];

/// Size of a `u16` field.
pub const U16_LEN: usize = 2;

/// Size of an account reference: a flags byte and an address.
pub const ACCOUNT_META_LEN: usize = 33;

/// Bit of the flags byte that marks a signer.
pub const IS_SIGNER_BIT: u8 = 0;

/// Bit of the flags byte that marks a writable account.
pub const IS_WRITABLE_BIT: u8 = 1;

/// The instructions sysvar.
pub struct Instructions();

/// Index of the executing instruction: the last two bytes of the sysvar data.
pub open spec fn current_index(d: Seq<u8>) -> int {
    le_u16(d, d.len() - 2)
}

/// Number of account references of the record that `r` starts with.
pub open spec fn num_accounts(r: Seq<u8>) -> int {
    le_u16(r, 0)
}

/// Offset of the program address in the record that `r` starts with.
pub open spec fn program_id_offset(r: Seq<u8>) -> int {
    U16_LEN + ACCOUNT_META_LEN * num_accounts(r)
}

/// Offset of the data in the record that `r` starts with.
pub open spec fn ix_data_offset(r: Seq<u8>) -> int {
    program_id_offset(r) + PUBKEY_LEN + U16_LEN
}

/// Length of the data of the record that `r` starts with.
pub open spec fn ix_data_len(r: Seq<u8>) -> int {
    le_u16(r, program_id_offset(r) + PUBKEY_LEN)
}

/// Length of the record that `r` starts with.
pub open spec fn record_len(r: Seq<u8>) -> int {
    ix_data_offset(r) + ix_data_len(r)
}

/// `r` starts with a whole instruction record.
pub open spec fn record_fits(r: Seq<u8>) -> bool {
    &&& U16_LEN <= r.len()
    &&& ix_data_offset(r) <= r.len()
    &&& record_len(r) <= r.len()
}

/// The record of the instruction at `index` in the sysvar data `d`.
pub open spec fn instruction_at(d: Seq<u8>, index: int) -> Result<Seq<u8>, SanitizeError> {
    if d.len() < U16_LEN {
        Err(SanitizeError::InvalidValue)
    } else if index >= le_u16(d, 0) {
        Err(SanitizeError::IndexOutOfBounds)
    } else if U16_LEN + U16_LEN * index + U16_LEN > d.len() {
        Err(SanitizeError::InvalidValue)
    } else {
        let start = le_u16(d, U16_LEN + U16_LEN * index);
        let tail = d.subrange(start, d.len() as int);
        if start <= d.len() && record_fits(tail) {
            Ok(tail.subrange(0, record_len(tail)))
        } else {
            Err(SanitizeError::InvalidValue)
        }
    }
}

/// The index `offset` away from the executing one, saturated at `i64::MAX`.
pub open spec fn relative_index(d: Seq<u8>, offset: i64) -> int {
    let target = current_index(d) + offset;
    if target > i64::MAX {
        i64::MAX as int
    } else {
        target
    }
}

/// The caller-visible error for an index-level error.
pub open spec fn program_error_of(e: SanitizeError) -> ProgramError {
    match e {
        SanitizeError::IndexOutOfBounds => ProgramError::InvalidArgument,
        _ => ProgramError::InvalidInstructionData,
    }
}

/// The record of the instruction `offset` away from the executing one in
/// the sysvar data `d`.
pub open spec fn relative_instruction(d: Seq<u8>, offset: i64) -> Result<Seq<u8>, ProgramError> {
    if d.len() < U16_LEN {
        Err(ProgramError::InvalidAccountData)
    } else if relative_index(d, offset) < 0 {
        Err(ProgramError::InvalidArgument)
    } else {
        match instruction_at(d, relative_index(d, offset)) {
            Ok(r) => Ok(r),
            Err(e) => Err(program_error_of(e)),
        }
    }
}

/// The account reference at `index` of the record `r`.
pub open spec fn account_meta_at(r: Seq<u8>, index: int) -> Result<Seq<u8>, SanitizeError> {
    if index >= num_accounts(r) {
        Err(SanitizeError::IndexOutOfBounds)
    } else {
        let at = U16_LEN + ACCOUNT_META_LEN * index;
        Ok(r.subrange(at, at + ACCOUNT_META_LEN))
    }
}

/// The signer flag of the account reference `m`.
pub open spec fn meta_is_signer(m: Seq<u8>) -> bool {
    m[0] & (1u8 << IS_SIGNER_BIT) != 0
}

/// The writable flag of the account reference `m`.
pub open spec fn meta_is_writable(m: Seq<u8>) -> bool {
    m[0] & (1u8 << IS_WRITABLE_BIT) != 0
}

/// The address of the account reference `m`.
pub open spec fn meta_key(m: Seq<u8>) -> Seq<u8> {
    m.subrange(1, ACCOUNT_META_LEN as int)
}

/// Reads the index of the executing instruction.
fn load_current_index(data: &[u8]) -> (r: u16)
    requires
        data@.len() >= U16_LEN,
    ensures
        r == current_index(data@),
{
    let len = data.len();
    read_u16_le(data, len - U16_LEN)
}

/// Reads the index of the executing instruction from the instructions
/// sysvar account.
pub fn load_current_index_checked(instruction_sysvar_account_info: &AccountInfo) -> (r: Result<
    u16,
    ProgramError,
>)
    ensures
        instruction_sysvar_account_info.key@ != INSTRUCTIONS_ID@ ==> r == Err::<u16, ProgramError>(
            ProgramError::UnsupportedSysvar,
        ),
        instruction_sysvar_account_info.key@ == INSTRUCTIONS_ID@ ==> r == (if instruction_sysvar_account_info.data@.len()
            < U16_LEN {
            Err::<u16, ProgramError>(ProgramError::InvalidAccountData)
        } else {
            Ok::<u16, ProgramError>(current_index(instruction_sysvar_account_info.data@) as u16)
        }),
{
    if !pubkey_eq(instruction_sysvar_account_info.key(), &INSTRUCTIONS_ID) {
        return Err(ProgramError::UnsupportedSysvar);
    }
    let instruction_sysvar = instruction_sysvar_account_info.data;
    if instruction_sysvar.len() < U16_LEN {
        return Err(ProgramError::InvalidAccountData);
    }
    let index = load_current_index(instruction_sysvar);
    Ok(index)
}

/// Writes the index of the executing instruction into the sysvar data.
pub fn store_current_index(data: &mut [u8], instruction_index: u16)
    requires
        old(data)@.len() >= U16_LEN,
    ensures
        final(data)@.len() == old(data)@.len(),
        current_index(final(data)@) == instruction_index,
        final(data)@.subrange(0, final(data)@.len() - U16_LEN) == old(data)@.subrange(
            0,
            old(data)@.len() - U16_LEN,
        ),
{
    let last_index = data.len() - U16_LEN;
    write_u16_le(data, last_index, instruction_index);
    assert(data@.subrange(0, last_index as int) =~= old(data)@.subrange(
        0,
        last_index as int,
    ));
}

/// Reads the record of the instruction at `index`, whose bounds are known
/// to hold.
fn load_instruction_at<'a>(index: usize, data: &'a [u8]) -> (r: IntrospectedInstruction<'a>)
    requires
        instruction_at(data@, index as int) is Ok,
    ensures
        r@ == instruction_at(data@, index as int)->Ok_0,
{
    let start = read_u16_le(data, U16_LEN + index * U16_LEN) as usize;
    let num_accounts = read_u16_le(data, start) as usize;
    let program_id = start + U16_LEN + num_accounts * ACCOUNT_META_LEN;
    let ix_data_len = read_u16_le(data, program_id + PUBKEY_LEN) as usize;
    let end = program_id + PUBKEY_LEN + U16_LEN + ix_data_len;
    let ghost tail = data@.subrange(start as int, data@.len() as int);
    let raw = &data[start..end];
    assert(raw@ =~= tail.subrange(0, record_len(tail)));
    IntrospectedInstruction { raw }
}

/// Reads the record of the instruction at `index`, checking the index
/// against the count and every bound of the record against the data.
pub fn load_instruction_at_checked<'a>(index: usize, data: &'a [u8]) -> (r: Result<
    IntrospectedInstruction<'a>,
    SanitizeError,
>)
    ensures
        match instruction_at(data@, index as int) {
            Ok(rec) => (r matches Ok(ix) && ix@ == rec),
            Err(e) => (r matches Err(re) && re == e),
        },
{
    let len = data.len();
    if len < U16_LEN {
        return Err(SanitizeError::InvalidValue);
    }
    let num_instructions = read_u16_le(data, 0);
    if index >= num_instructions as usize {
        return Err(SanitizeError::IndexOutOfBounds);
    }
    let entry = U16_LEN + index * U16_LEN;
    if entry > len - U16_LEN {
        return Err(SanitizeError::InvalidValue);
    }
    let start = read_u16_le(data, entry) as usize;
    let ghost tail = data@.subrange(start as int, len as int);
    if start > len || len - start < U16_LEN {
        return Err(SanitizeError::InvalidValue);
    }
    let accounts = read_u16_le(data, start) as usize;
    assert(accounts == num_accounts(tail));
    let fixed = U16_LEN + accounts * ACCOUNT_META_LEN + PUBKEY_LEN + U16_LEN;
    if len - start < fixed {
        return Err(SanitizeError::InvalidValue);
    }
    let data_len = read_u16_le(data, start + fixed - U16_LEN) as usize;
    assert(data_len == ix_data_len(tail));
    if len - start - fixed < data_len {
        return Err(SanitizeError::InvalidValue);
    }
    Ok(load_instruction_at(index, data))
}

/// Reads the record of the instruction `index_relative_to_current` away
/// from the executing one in the instructions sysvar account.
pub fn get_instruction_relative<'a>(
    index_relative_to_current: i64,
    instruction_sysvar_account_info: &AccountInfo<'a>,
) -> (r: Result<IntrospectedInstruction<'a>, ProgramError>)
    ensures
        instruction_sysvar_account_info.key@ != INSTRUCTIONS_ID@ ==> (r matches Err(e) && e
            == ProgramError::UnsupportedSysvar),
        instruction_sysvar_account_info.key@ == INSTRUCTIONS_ID@ ==> match relative_instruction(
            instruction_sysvar_account_info.data@,
            index_relative_to_current,
        ) {
            Ok(rec) => (r matches Ok(ix) && ix@ == rec),
            Err(e) => (r matches Err(re) && re == e),
        },
{
    if !pubkey_eq(instruction_sysvar_account_info.key(), &INSTRUCTIONS_ID) {
        return Err(ProgramError::UnsupportedSysvar);
    }
    let instruction_sysvar = instruction_sysvar_account_info.data;
    if instruction_sysvar.len() < U16_LEN {
        return Err(ProgramError::InvalidAccountData);
    }
    let current_index = load_current_index(instruction_sysvar) as i64;
    let index = if index_relative_to_current > i64::MAX - current_index {
        i64::MAX
    } else {
        current_index + index_relative_to_current
    };
    if index < 0 {
        return Err(ProgramError::InvalidArgument);
    }
    if index > u16::MAX as i64 {
        // No count reaches past `u16::MAX`.
        return Err(ProgramError::InvalidArgument);
    }
    match load_instruction_at_checked(index as usize, instruction_sysvar) {
        Ok(instr) => Ok(instr),
        Err(SanitizeError::IndexOutOfBounds) => Err(ProgramError::InvalidArgument),
        Err(_) => Err(ProgramError::InvalidInstructionData),
    }
}

/// A view of one instruction record inside the sysvar data.
#[derive(Debug, Clone, Copy)]
pub struct IntrospectedInstruction<'a> {
    raw: &'a [u8],
}

impl<'a> View for IntrospectedInstruction<'a> {
    type V = Seq<u8>;

    /// The bytes of the record.
    closed spec fn view(&self) -> Seq<u8> {
        self.raw@
    }
}

impl<'a> IntrospectedInstruction<'a> {
    #[verifier::type_invariant]
    spec fn record_is_whole(&self) -> bool {
        record_fits(self.raw@) && self.raw@.len() == record_len(self.raw@)
    }

    /// Number of account references of the instruction.
    pub fn account_count(&self) -> (r: u16)
        ensures
            r == num_accounts(self@),
    {
        proof {
            use_type_invariant(self);
        }
        read_u16_le(self.raw, 0)
    }

    /// The account reference at `index`, which must be below the number of
    /// account references.
    pub fn get_account_meta_at_unchecked(&self, index: usize) -> (r: IntrospectedAccountMeta<'a>)
        requires
            index < num_accounts(self@),
        ensures
            account_meta_at(self@, index as int) == Ok::<Seq<u8>, SanitizeError>(r@),
    {
        proof {
            use_type_invariant(self);
        }
        let at = U16_LEN + index * ACCOUNT_META_LEN;
        IntrospectedAccountMeta { raw: &self.raw[at..at + ACCOUNT_META_LEN] }
    }

    /// The account reference at `index`.
    pub fn get_account_meta_at(&self, index: usize) -> (r: Result<
        IntrospectedAccountMeta<'a>,
        SanitizeError,
    >)
        ensures
            match account_meta_at(self@, index as int) {
                Ok(m) => (r matches Ok(meta) && meta@ == m),
                Err(e) => (r matches Err(re) && re == e),
            },
    {
        if index >= self.account_count() as usize {
            return Err(SanitizeError::IndexOutOfBounds);
        }
        Ok(self.get_account_meta_at_unchecked(index))
    }

    /// The address of the program that the instruction calls.
    pub fn get_program_id(&self) -> (r: &'a [u8])
        ensures
            r@ == self@.subrange(program_id_offset(self@), program_id_offset(self@) + PUBKEY_LEN),
    {
        proof {
            use_type_invariant(self);
        }
        let num_accounts = read_u16_le(self.raw, 0) as usize;
        let at = U16_LEN + num_accounts * ACCOUNT_META_LEN;
        &self.raw[at..at + PUBKEY_LEN]
    }

    /// The instruction data.
    pub fn get_data(&self) -> (r: &'a [u8])
        ensures
            r@ == self@.subrange(ix_data_offset(self@), record_len(self@)),
    {
        proof {
            use_type_invariant(self);
        }
        let num_accounts = read_u16_le(self.raw, 0) as usize;
        let len_at = U16_LEN + num_accounts * ACCOUNT_META_LEN + PUBKEY_LEN;
        let data_len = read_u16_le(self.raw, len_at) as usize;
        &self.raw[len_at + U16_LEN..len_at + U16_LEN + data_len]
    }
}

/// A view of one account reference of an instruction record.
#[derive(Debug, Clone, Copy)]
pub struct IntrospectedAccountMeta<'a> {
    raw: &'a [u8],
}

impl<'a> View for IntrospectedAccountMeta<'a> {
    type V = Seq<u8>;

    /// The bytes of the account reference.
    closed spec fn view(&self) -> Seq<u8> {
        self.raw@
    }
}

impl<'a> IntrospectedAccountMeta<'a> {
    #[verifier::type_invariant]
    spec fn is_whole(&self) -> bool {
        self.raw@.len() == ACCOUNT_META_LEN
    }

    /// Whether the instruction may write to the account.
    pub fn is_writable(&self) -> (r: bool)
        ensures
            r == meta_is_writable(self@),
    {
        proof {
            use_type_invariant(self);
        }
        (self.raw[0] & (1 << IS_WRITABLE_BIT)) != 0
    }

    /// Whether the account signs the instruction.
    pub fn is_signer(&self) -> (r: bool)
        ensures
            r == meta_is_signer(self@),
    {
        proof {
            use_type_invariant(self);
        }
        (self.raw[0] & (1 << IS_SIGNER_BIT)) != 0
    }

    /// The address of the account.
    pub fn key(&self) -> (r: &'a [u8])
        ensures
            r@ == meta_key(self@),
    {
        proof {
            use_type_invariant(self);
        }
        &self.raw[1..ACCOUNT_META_LEN]
    }

    /// The account reference as an address with its permissions.
    pub fn to_account_meta(&self) -> (r: AccountMeta<'a>)
        ensures
            r.pubkey@ == meta_key(self@),
            r.is_signer == meta_is_signer(self@),
            r.is_writable == meta_is_writable(self@),
    {
        AccountMeta { pubkey: self.key(), is_writable: self.is_writable(), is_signer: self.is_signer() }
    }
}

/// Resolving the offset 0 gives the instruction at the executing index,
/// exactly as indexing the list with that index does, with an index-level
/// error turned into the caller-visible one.
pub proof fn lemma_relative_zero_is_current(d: Seq<u8>)
    requires
        d.len() >= U16_LEN,
    ensures
        relative_instruction(d, 0) == match instruction_at(d, current_index(d)) {
            Ok(r) => Ok::<Seq<u8>, ProgramError>(r),
            Err(e) => Err::<Seq<u8>, ProgramError>(program_error_of(e)),
        },
{
}

/// An offset that resolves below 0 is an invalid argument; one that
/// resolves to the instruction count or past it is out of bounds, which the
/// caller sees as an invalid argument too. Neither depends on any record.
pub proof fn lemma_relative_out_of_range(d: Seq<u8>, offset: i64)
    requires
        d.len() >= U16_LEN,
    ensures
        relative_index(d, offset) < 0 ==> relative_instruction(d, offset) == Err::<
            Seq<u8>,
            ProgramError,
        >(ProgramError::InvalidArgument),
        relative_index(d, offset) >= le_u16(d, 0) ==> instruction_at(d, relative_index(d, offset))
            == Err::<Seq<u8>, SanitizeError>(SanitizeError::IndexOutOfBounds) && relative_instruction(
            d,
            offset,
        ) == Err::<Seq<u8>, ProgramError>(ProgramError::InvalidArgument),
{
}

/// The account reference at the count of references is out of bounds; one
/// below it carries, as signer flag, bit 0 and, as writable flag, bit 1 of
/// the byte at offset `2 + 33 * i` of the record, and as address the 32
/// bytes after that byte.
pub proof fn lemma_account_meta_layout(r: Seq<u8>, i: int)
    requires
        record_fits(r),
        0 <= i,
    ensures
        account_meta_at(r, num_accounts(r)) == Err::<Seq<u8>, SanitizeError>(
            SanitizeError::IndexOutOfBounds,
        ),
        i < num_accounts(r) ==> ({
            let at = U16_LEN + ACCOUNT_META_LEN * i;
            &&& at + ACCOUNT_META_LEN <= r.len()
            &&& account_meta_at(r, i) matches Ok(m)
            &&& meta_is_signer(m) == (r[at] & 1 != 0)
            &&& meta_is_writable(m) == (r[at] & 2 != 0)
            &&& meta_key(m) == r.subrange(at + 1, at + ACCOUNT_META_LEN)
        }),
{
    assert((1u8 << 0u8) == 1u8 && (1u8 << 1u8) == 2u8) by (bit_vector);
    if i < num_accounts(r) {
        let at = U16_LEN + ACCOUNT_META_LEN * i;
        let m = r.subrange(at, at + ACCOUNT_META_LEN);
        assert(meta_key(m) =~= r.subrange(at + 1, at + ACCOUNT_META_LEN));
    }
}

} // verus!
