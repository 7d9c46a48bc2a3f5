//! Token extensions: the closed table of extension kinds and the scan of
//! the tag-length-value region that follows a mint or a token account.
use crate::layout::{le_u16, read_u16_le};
use vstd::prelude::*;

verus! {

pub const ELGAMAL_PUBKEY_LEN: usize = 32;

pub struct ElagamalPubkey(pub [u8; ELGAMAL_PUBKEY_LEN]);

/// Length of the base mint record.
pub const MINT_LEN: usize = 82;

/// Length of the base token account record.
pub const TOKEN_ACCOUNT_LEN: usize = 165;

/// Padding that lifts an extended mint to the length of a token account.
pub const EXTENSIONS_PADDING: usize = 83;

/// The account-type byte that separates the base record from its extensions.
pub const EXTENSION_START_OFFSET: usize = 1;

/// Size of the length field of an extension record.
pub const EXTENSION_LEN: usize = 2;

/// Size of the tag field of an extension record.
pub const EXTENSION_TYPE_LEN: usize = 2;

#[derive(Debug, Clone, Copy, PartialEq, Eq, Structural)]
pub enum ExtensionType {
    /// Used as padding if the account size would otherwise be 355, same as a
    /// multisig
    Uninitialized,
    /// Includes transfer fee rate info and accompanying authorities to withdraw
    /// and set the fee
    TransferFeeConfig,
    /// Includes withheld transfer fees
    TransferFeeAmount,
    /// Includes an optional mint close authority
    MintCloseAuthority,
    /// Auditor configuration for confidential transfers
    ConfidentialTransferMint,
    /// State for confidential transfers
    ConfidentialTransferAccount,
    /// Specifies the default Account::state for new Accounts
    DefaultAccountState,
    /// Indicates that the Account owner authority cannot be changed
    ImmutableOwner,
    /// Require inbound transfers to have memo
    MemoTransfer,
    /// Indicates that the tokens from this mint can't be transferred
    NonTransferable,
    /// Tokens accrue interest over time
    InterestBearingConfig,
    /// Locks privileged token operations from happening via CPI
    CpiGuard,
    /// Includes an optional permanent delegate
    PermanentDelegate,
    /// Indicates that the tokens in this account belong to a non-transferable
    /// mint
    NonTransferableAccount,
    /// Mint requires a CPI to a program implementing the "transfer hook"
    /// interface
    TransferHook,
    /// Indicates that the tokens in this account belong to a mint with a
    /// transfer hook
    TransferHookAccount,
    /// Includes encrypted withheld fees and the encryption public that they are
    /// encrypted under
    ConfidentialTransferFeeConfig,
    /// Includes confidential withheld transfer fees
    ConfidentialTransferFeeAmount,
    /// Mint contains a pointer to another account (or the same account) that
    /// holds metadata
    MetadataPointer,
    /// Mint contains token-metadata
    TokenMetadata,
    /// Mint contains a pointer to another account (or the same account) that
    /// holds group configurations
    GroupPointer,
    /// Mint contains token group configurations
    TokenGroup,
    /// Mint contains a pointer to another account (or the same account) that
    /// holds group member configurations
    GroupMemberPointer,
    /// Mint contains token group member configurations
    TokenGroupMember,
    /// Mint allowing the minting and burning of confidential tokens
    ConfidentialMintBurn,
    /// Tokens whose UI amount is scaled by a given amount
    ScaledUiAmount,
    /// Tokens where minting / burning / transferring can be paused
    Pausable,
    /// Indicates that the account belongs to a pausable mint
    PausableAccount,
}

/// The extension kind that `tag` stands for, if any.
pub open spec fn extension_type_of(tag: u16) -> Option<ExtensionType> {
    match tag {
        0u16 => Some(ExtensionType::Uninitialized),
        1u16 => Some(ExtensionType::TransferFeeConfig),
        2u16 => Some(ExtensionType::TransferFeeAmount),
        3u16 => Some(ExtensionType::MintCloseAuthority),
        4u16 => Some(ExtensionType::ConfidentialTransferMint),
        5u16 => Some(ExtensionType::ConfidentialTransferAccount),
        6u16 => Some(ExtensionType::DefaultAccountState),
        7u16 => Some(ExtensionType::ImmutableOwner),
        8u16 => Some(ExtensionType::MemoTransfer),
        9u16 => Some(ExtensionType::NonTransferable),
        10u16 => Some(ExtensionType::InterestBearingConfig),
        11u16 => Some(ExtensionType::CpiGuard),
        12u16 => Some(ExtensionType::PermanentDelegate),
        13u16 => Some(ExtensionType::NonTransferableAccount),
        14u16 => Some(ExtensionType::TransferHook),
        15u16 => Some(ExtensionType::TransferHookAccount),
        16u16 => Some(ExtensionType::ConfidentialTransferFeeConfig),
        17u16 => Some(ExtensionType::ConfidentialTransferFeeAmount),
        18u16 => Some(ExtensionType::MetadataPointer),
        19u16 => Some(ExtensionType::TokenMetadata),
        20u16 => Some(ExtensionType::GroupPointer),
        21u16 => Some(ExtensionType::TokenGroup),
        22u16 => Some(ExtensionType::GroupMemberPointer),
        23u16 => Some(ExtensionType::TokenGroupMember),
        24u16 => Some(ExtensionType::ConfidentialMintBurn),
        25u16 => Some(ExtensionType::ScaledUiAmount),
        26u16 => Some(ExtensionType::Pausable),
        27u16 => Some(ExtensionType::PausableAccount),
        _ => None,
    }
}

impl ExtensionType {
    /// The tag that identifies this kind on the wire.
    pub open spec fn spec_tag(&self) -> u16 {
        match self {
            ExtensionType::Uninitialized => 0,
            ExtensionType::TransferFeeConfig => 1,
            ExtensionType::TransferFeeAmount => 2,
            ExtensionType::MintCloseAuthority => 3,
            ExtensionType::ConfidentialTransferMint => 4,
            ExtensionType::ConfidentialTransferAccount => 5,
            ExtensionType::DefaultAccountState => 6,
            ExtensionType::ImmutableOwner => 7,
            ExtensionType::MemoTransfer => 8,
            ExtensionType::NonTransferable => 9,
            ExtensionType::InterestBearingConfig => 10,
            ExtensionType::CpiGuard => 11,
            ExtensionType::PermanentDelegate => 12,
            ExtensionType::NonTransferableAccount => 13,
            ExtensionType::TransferHook => 14,
            ExtensionType::TransferHookAccount => 15,
            ExtensionType::ConfidentialTransferFeeConfig => 16,
            ExtensionType::ConfidentialTransferFeeAmount => 17,
            ExtensionType::MetadataPointer => 18,
            ExtensionType::TokenMetadata => 19,
            ExtensionType::GroupPointer => 20,
            ExtensionType::TokenGroup => 21,
            ExtensionType::GroupMemberPointer => 22,
            ExtensionType::TokenGroupMember => 23,
            ExtensionType::ConfidentialMintBurn => 24,
            ExtensionType::ScaledUiAmount => 25,
            ExtensionType::Pausable => 26,
            ExtensionType::PausableAccount => 27,
        }
    }

    /// Decodes a little-endian tag; only the tags of the table are known.
    pub fn from_bytes(val: [u8; 2]) -> (r: Option<Self>)
        ensures
            r == extension_type_of((val[0] + 256 * val[1]) as u16),
    {
        let val: u16 = val[0] as u16 + val[1] as u16 * 256;
        let ext = match val {
            0 => ExtensionType::Uninitialized,
            1 => ExtensionType::TransferFeeConfig,
            2 => ExtensionType::TransferFeeAmount,
            3 => ExtensionType::MintCloseAuthority,
            4 => ExtensionType::ConfidentialTransferMint,
            5 => ExtensionType::ConfidentialTransferAccount,
            6 => ExtensionType::DefaultAccountState,
            7 => ExtensionType::ImmutableOwner,
            8 => ExtensionType::MemoTransfer,
            9 => ExtensionType::NonTransferable,
            10 => ExtensionType::InterestBearingConfig,
            11 => ExtensionType::CpiGuard,
            12 => ExtensionType::PermanentDelegate,
            13 => ExtensionType::NonTransferableAccount,
            14 => ExtensionType::TransferHook,
            15 => ExtensionType::TransferHookAccount,
            16 => ExtensionType::ConfidentialTransferFeeConfig,
            17 => ExtensionType::ConfidentialTransferFeeAmount,
            18 => ExtensionType::MetadataPointer,
            19 => ExtensionType::TokenMetadata,
            20 => ExtensionType::GroupPointer,
            21 => ExtensionType::TokenGroup,
            22 => ExtensionType::GroupMemberPointer,
            23 => ExtensionType::TokenGroupMember,
            24 => ExtensionType::ConfidentialMintBurn,
            25 => ExtensionType::ScaledUiAmount,
            26 => ExtensionType::Pausable,
            27 => ExtensionType::PausableAccount,
            _ => return None,
        };
        Some(ext)
    }

    /// The tag that identifies this kind on the wire.
    #[verifier::when_used_as_spec(spec_tag)]
    pub fn tag(&self) -> (r: u16)
        ensures
            r == self.spec_tag(),
    {
        match self {
            ExtensionType::Uninitialized => 0,
            ExtensionType::TransferFeeConfig => 1,
            ExtensionType::TransferFeeAmount => 2,
            ExtensionType::MintCloseAuthority => 3,
            ExtensionType::ConfidentialTransferMint => 4,
            ExtensionType::ConfidentialTransferAccount => 5,
            ExtensionType::DefaultAccountState => 6,
            ExtensionType::ImmutableOwner => 7,
            ExtensionType::MemoTransfer => 8,
            ExtensionType::NonTransferable => 9,
            ExtensionType::InterestBearingConfig => 10,
            ExtensionType::CpiGuard => 11,
            ExtensionType::PermanentDelegate => 12,
            ExtensionType::NonTransferableAccount => 13,
            ExtensionType::TransferHook => 14,
            ExtensionType::TransferHookAccount => 15,
            ExtensionType::ConfidentialTransferFeeConfig => 16,
            ExtensionType::ConfidentialTransferFeeAmount => 17,
            ExtensionType::MetadataPointer => 18,
            ExtensionType::TokenMetadata => 19,
            ExtensionType::GroupPointer => 20,
            ExtensionType::TokenGroup => 21,
            ExtensionType::GroupMemberPointer => 22,
            ExtensionType::TokenGroupMember => 23,
            ExtensionType::ConfidentialMintBurn => 24,
            ExtensionType::ScaledUiAmount => 25,
            ExtensionType::Pausable => 26,
            ExtensionType::PausableAccount => 27,
        }
    }
}

/// The base record that an extension follows.
#[derive(Debug, Clone, Copy, PartialEq, Eq, Structural)]
pub enum BaseState {
    Mint,
    TokenAccount,
}

/// A fixed-length extension payload of one kind.
pub trait Extension: Sized {
    /// The kind whose tag marks this payload.
    const TYPE: ExtensionType;

    /// The length that the record of this payload declares.
    const LEN: usize;

    /// The base record that this extension follows.
    const BASE_STATE: BaseState;

    /// Reads the value out of its payload bytes.
    fn from_bytes(payload: &[u8]) -> Self
        requires
            payload@.len() == Self::LEN,
    ;
}

/// Offset of the first extension record after a base record of kind `base`.
pub open spec fn extensions_start(base: BaseState) -> int {
    match base {
        BaseState::Mint => MINT_LEN + EXTENSIONS_PADDING + EXTENSION_START_OFFSET,
        BaseState::TokenAccount => TOKEN_ACCOUNT_LEN + EXTENSION_START_OFFSET,
    }
}

/// The record at offset `at` of `b` has a header that decodes to `ty` and
/// declares a payload of `len` bytes.
pub open spec fn record_is(b: Seq<u8>, at: int, ty: ExtensionType, len: int) -> bool {
    &&& extension_type_of(le_u16(b, at) as u16) == Some(ty)
    &&& le_u16(b, at + 2) == len
}

/// Scan of the records from offset `pos` of `b` for one of kind `ty` and
/// length `len`: the offset of its payload. The scan gives up at the end of
/// `b`, at a header cut short, at the first unknown tag, and at the first
/// record whose payload runs past the end of `b`.
pub open spec fn find_record(b: Seq<u8>, pos: int, ty: ExtensionType, len: int) -> Option<int>
    decreases b.len() - pos,
{
    if pos + 4 > b.len() {
        None
    } else if extension_type_of(le_u16(b, pos) as u16) is None {
        None
    } else if pos + 4 + le_u16(b, pos + 2) > b.len() {
        None
    } else if record_is(b, pos, ty, len) {
        Some(pos + 4)
    } else {
        find_record(b, pos + 4 + le_u16(b, pos + 2), ty, len)
    }
}

/// Offset of the payload of the extension of kind `ty` and length `len` in
/// the account data `b` of a base record of kind `base`.
pub open spec fn extension_payload_offset(
    b: Seq<u8>,
    ty: ExtensionType,
    len: int,
    base: BaseState,
) -> Option<int> {
    find_record(b, extensions_start(base), ty, len)
}

/// The payload of the extension `T` in the account data `acc_data_bytes`,
/// in place.
pub fn get_extension_payload<T: Extension>(acc_data_bytes: &[u8]) -> (r: Option<&[u8]>)
    ensures
        match extension_payload_offset(acc_data_bytes@, T::TYPE, T::LEN as int, T::BASE_STATE) {
            Some(at) => (r matches Some(payload) && payload@.len() == T::LEN && payload@
                == acc_data_bytes@.subrange(at, at + T::LEN)),
            None => r is None,
        },
{
    let start: usize = match T::BASE_STATE {
        BaseState::Mint => MINT_LEN + EXTENSIONS_PADDING + EXTENSION_START_OFFSET,
        BaseState::TokenAccount => TOKEN_ACCOUNT_LEN + EXTENSION_START_OFFSET,
    };
    let end = acc_data_bytes.len();
    let mut pos: usize = start;
    while pos < end
        invariant
            end == acc_data_bytes@.len(),
            find_record(acc_data_bytes@, pos as int, T::TYPE, T::LEN as int) == extension_payload_offset(
                acc_data_bytes@,
                T::TYPE,
                T::LEN as int,
                T::BASE_STATE,
            ),
        decreases end - pos,
    {
        if end - pos < EXTENSION_TYPE_LEN + EXTENSION_LEN {
            return None;
        }
        let ext_type = match ExtensionType::from_bytes(
            [acc_data_bytes[pos], acc_data_bytes[pos + 1]],
        ) {
            Some(t) => t,
            None => return None,
        };
        let ext_len = read_u16_le(acc_data_bytes, pos + EXTENSION_TYPE_LEN) as usize;
        let ext_data = pos + EXTENSION_TYPE_LEN + EXTENSION_LEN;
        if ext_len > end - ext_data {
            return None;
        }
        if ext_type == T::TYPE && ext_len == T::LEN {
            return Some(&acc_data_bytes[ext_data..ext_data + ext_len]);
        }
        pos = ext_data + ext_len;
    }
    None
}

/// Looks up the extension `T` in the account data `acc_data_bytes` and reads
/// it out of the payload that `get_extension_payload` finds.
pub fn get_extension_from_bytes<T: Extension + Clone + Copy>(acc_data_bytes: &[u8]) -> (r: Option<
    T,
>)
    ensures
        r is Some <==> extension_payload_offset(
            acc_data_bytes@,
            T::TYPE,
            T::LEN as int,
            T::BASE_STATE,
        ) is Some,
{
    match get_extension_payload::<T>(acc_data_bytes) {
        Some(payload) => Some(T::from_bytes(payload)),
        None => None,
    }
}

/// Number of tags in the table of extension kinds.
pub const EXTENSION_TYPE_COUNT: u16 = 28;

/// Decoding a known tag and reading back the tag of the kind gives the tag
/// again; every tag past the table decodes to nothing.
pub proof fn lemma_tag_round_trip(tag: u16)
    ensures
        tag < EXTENSION_TYPE_COUNT ==> (extension_type_of(tag) matches Some(k) && k.spec_tag()
            == tag),
        tag >= EXTENSION_TYPE_COUNT ==> extension_type_of(tag) is None,
{
}

/// The tag of every kind decodes back to that kind.
pub proof fn lemma_kind_round_trip(k: ExtensionType)
    ensures
        extension_type_of(k.spec_tag()) == Some(k),
        k.spec_tag() < EXTENSION_TYPE_COUNT,
{
}

/// Account data too short to reach the extension region holds no extension.
pub proof fn lemma_short_data_has_no_extension(
    b: Seq<u8>,
    ty: ExtensionType,
    len: int,
    base: BaseState,
)
    requires
        b.len() < extensions_start(base),
    ensures
        extension_payload_offset(b, ty, len, base) is None,
{
}

/// Header offsets of the records that a scan from `pos` reads: it stops at
/// the end of `b`, at a header cut short, at the first unknown tag, and after
/// the first record whose payload runs past the end of `b`.
pub open spec fn walked_records(b: Seq<u8>, pos: int) -> Seq<int>
    decreases b.len() - pos,
{
    if pos + 4 > b.len() || extension_type_of(le_u16(b, pos) as u16) is None {
        Seq::empty()
    } else if pos + 4 + le_u16(b, pos + 2) > b.len() {
        seq![pos]
    } else {
        seq![pos] + walked_records(b, pos + 4 + le_u16(b, pos + 2))
    }
}

/// The scan finds an extension exactly when one of the records read before
/// the first unknown tag has the kind and length sought and a payload inside
/// `b`; it then returns the payload of the first record of that kind and
/// length. A record after an unknown tag is never found.
pub proof fn lemma_lookup_is_first_match(b: Seq<u8>, pos: int, ty: ExtensionType, len: int)
    ensures
        ({
            let w = walked_records(b, pos);
            match find_record(b, pos, ty, len) {
                Some(at) => exists|i: int|
                    0 <= i < w.len() && at == w[i] + 4 && #[trigger] record_is(b, w[i], ty, len)
                        && at + len <= b.len() && (forall|j: int|
                        0 <= j < i ==> !record_is(b, #[trigger] w[j], ty, len)),
                None => forall|i: int|
                    0 <= i < w.len() && #[trigger] record_is(b, w[i], ty, len) ==> w[i] + 4 + len
                        > b.len(),
            }
        }),
    decreases b.len() - pos,
{
    let w = walked_records(b, pos);
    if pos + 4 > b.len() || extension_type_of(le_u16(b, pos) as u16) is None {
    } else if pos + 4 + le_u16(b, pos + 2) > b.len() {
        assert(w =~= seq![pos]);
    } else if record_is(b, pos, ty, len) {
        assert(w[0] == pos);
        assert(record_is(b, w[0], ty, len));
    } else {
        let next = pos + 4 + le_u16(b, pos + 2);
        let rest = walked_records(b, next);
        lemma_lookup_is_first_match(b, next, ty, len);
        assert(w =~= seq![pos] + rest);
        assert forall|i: int| 1 <= i < w.len() implies w[i] == rest[i - 1] by {}
        match find_record(b, next, ty, len) {
            Some(at) => {
                let k = choose|k: int|
                    0 <= k < rest.len() && at == rest[k] + 4 && #[trigger] record_is(
                        b,
                        rest[k],
                        ty,
                        len,
                    ) && at + len <= b.len() && (forall|j: int|
                        0 <= j < k ==> !record_is(b, #[trigger] rest[j], ty, len));
                assert(w[k + 1] == rest[k]);
                assert forall|j: int| 0 <= j < k + 1 implies !record_is(
                    b,
                    #[trigger] w[j],
                    ty,
                    len,
                ) by {
                    if j > 0 {
                        assert(w[j] == rest[j - 1]);
                    }
                }
                assert(record_is(b, w[k + 1], ty, len));
            },
            None => {
                assert forall|i: int|
                    0 <= i < w.len() && #[trigger] record_is(b, w[i], ty, len) implies w[i] + 4
                    + len > b.len() by {
                    if i > 0 {
                        assert(w[i] == rest[i - 1]);
                    }
                }
            },
        }
    }
}

} // verus!
