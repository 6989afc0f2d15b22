//! Error records for the boundary: each internal error is flattened into an
//! integer code and a message. Codes come in bands, one per error family:
//! 1xx output manager, 2xx transaction service, 3xx network address,
//! 4xx hex and byte-array decoding. Every variant that is not mapped on its
//! own receives the shared catch-all code.
use vstd::prelude::*;

verus! {

#[verifier::external_type_specification]
#[verifier::external_body]
pub struct ExHexError(tari_utilities::hex::HexError);

#[verifier::external_type_specification]
#[verifier::external_body]
pub struct ExByteArrayError(tari_utilities::ByteArrayError);

/// The derived debug rendering of a `tari_utilities::hex::HexError` of the
/// given kind; its variants have no fields, so the kind alone decides it.
pub uninterp spec fn hex_error_debug(kind: HexErrorKind) -> Seq<char>;

/// The derived debug rendering of a `tari_utilities::ByteArrayError` of the
/// given kind carrying the given reason.
pub uninterp spec fn byte_array_error_debug(kind: ByteArrayErrorKind, reason: Seq<char>) -> Seq<
    char,
>;

/// Relies on the variants of `tari_utilities::hex::HexError`, each of which
/// has a counterpart here, and on its derived `Debug`.
#[verifier::external_body]
fn hex_error_parts(e: &tari_utilities::hex::HexError) -> (r: (HexErrorKind, String))
    ensures
        !(r.0 is Other),
        r.1@ == hex_error_debug(r.0),
{
    let kind = match e {
        tari_utilities::hex::HexError::InvalidCharacter {} => HexErrorKind::InvalidCharacter,
        tari_utilities::hex::HexError::LengthError {} => HexErrorKind::LengthError,
        tari_utilities::hex::HexError::HexConversionError {} => HexErrorKind::HexConversionError,
    };
    (kind, format!("{:?}", e))
}

/// Relies on the variants of `tari_utilities::ByteArrayError`, each of which
/// has a counterpart here, and on its derived `Debug`. The reason is the
/// `ConversionError`'s own; the field-less `IncorrectLength` gives an empty one.
#[verifier::external_body]
fn byte_array_error_parts(e: &tari_utilities::ByteArrayError) -> (r: (ByteArrayErrorKind, String, String))
    ensures
        !(r.0 is Other),
        r.0 is IncorrectLength ==> r.1@.len() == 0,
        r.2@ == byte_array_error_debug(r.0, r.1@),
{
    let (kind, reason) = match e {
        tari_utilities::ByteArrayError::ConversionError { reason } => (ByteArrayErrorKind::ConversionError, reason.clone()),
        tari_utilities::ByteArrayError::IncorrectLength {} => (ByteArrayErrorKind::IncorrectLength, String::new()),
    };
    (kind, reason, format!("{:?}", e))
}

/// The code given to every error that is not mapped to a code of its own.
pub const CATCH_ALL_CODE: i32 = 999;

/// Failures of the output manager's storage.
#[derive(Clone, Copy, Debug, PartialEq, Eq, Structural)]
pub enum OutputManagerStorageError {
    ValuesNotFound,
    OutputAlreadySpent,
    PendingTransactionNotFound,
    DuplicateOutput,
    ValueNotFound,
    Other,
}

/// Failures of the output manager.
#[derive(Clone, Copy, Debug, PartialEq, Eq, Structural)]
pub enum OutputManagerError {
    NotEnoughFunds,
    IncompleteTransaction,
    DuplicateOutput,
    OutputManagerStorageError(OutputManagerStorageError),
    Other,
}

/// Failures of the transaction service's storage.
#[derive(Clone, Copy, Debug, PartialEq, Eq, Structural)]
pub enum TransactionStorageError {
    DuplicateOutput,
    ValueNotFound,
    Other,
}

/// Failures of the transaction service.
#[derive(Clone, Copy, Debug, PartialEq, Eq, Structural)]
pub enum TransactionServiceError {
    InvalidStateError,
    TransactionProtocolError,
    RepeatedMessageError,
    TransactionDoesNotExistError,
    OutputManagerError(OutputManagerError),
    TransactionError,
    TransactionStorageError(TransactionStorageError),
    Other,
}

/// Failures to read a network address.
#[derive(Clone, Copy, Debug, PartialEq, Eq, Structural)]
pub enum NetAddressError {
    ParseFailed,
    Other,
}

/// The wallet engine's error family.
#[derive(Clone, Copy, Debug, PartialEq, Eq, Structural)]
pub enum WalletError {
    OutputManagerError(OutputManagerError),
    TransactionServiceError(TransactionServiceError),
    NetAddressError(NetAddressError),
    Other,
}

/// The hex decoding error family.
#[derive(Clone, Copy, Debug, PartialEq, Eq, Structural)]
pub enum HexErrorKind {
    LengthError,
    HexConversionError,
    InvalidCharacter,
    Other,
}

/// The byte-array conversion error family.
#[derive(Clone, Copy, Debug, PartialEq, Eq, Structural)]
pub enum ByteArrayErrorKind {
    IncorrectLength,
    ConversionError,
    Other,
}

/// The code of a wallet engine error.
pub open spec fn wallet_error_code(e: WalletError) -> i32 {
    match e {
        WalletError::OutputManagerError(om) => match om {
            OutputManagerError::NotEnoughFunds => 101,
            OutputManagerError::IncompleteTransaction => 102,
            OutputManagerError::DuplicateOutput => 103,
            OutputManagerError::OutputManagerStorageError(s) => match s {
                OutputManagerStorageError::ValuesNotFound => 104,
                OutputManagerStorageError::OutputAlreadySpent => 105,
                OutputManagerStorageError::PendingTransactionNotFound => 106,
                OutputManagerStorageError::DuplicateOutput => 107,
                OutputManagerStorageError::ValueNotFound => 108,
                OutputManagerStorageError::Other => CATCH_ALL_CODE,
            },
            OutputManagerError::Other => CATCH_ALL_CODE,
        },
        WalletError::TransactionServiceError(ts) => match ts {
            TransactionServiceError::InvalidStateError => 200,
            TransactionServiceError::TransactionProtocolError => 201,
            TransactionServiceError::RepeatedMessageError => 202,
            TransactionServiceError::TransactionDoesNotExistError => 203,
            TransactionServiceError::OutputManagerError(om) => match om {
                OutputManagerError::NotEnoughFunds => 204,
                _ => 205,
            },
            TransactionServiceError::TransactionError => 206,
            TransactionServiceError::TransactionStorageError(s) => match s {
                TransactionStorageError::DuplicateOutput => 207,
                TransactionStorageError::ValueNotFound => 208,
                TransactionStorageError::Other => CATCH_ALL_CODE,
            },
            TransactionServiceError::Other => CATCH_ALL_CODE,
        },
        WalletError::NetAddressError(n) => match n {
            NetAddressError::ParseFailed => 300,
            NetAddressError::Other => CATCH_ALL_CODE,
        },
        WalletError::Other => CATCH_ALL_CODE,
    }
}

/// The code of a hex decoding error.
pub open spec fn hex_error_code(e: HexErrorKind) -> i32 {
    match e {
        HexErrorKind::LengthError => 400,
        HexErrorKind::HexConversionError => 401,
        HexErrorKind::InvalidCharacter => 402,
        HexErrorKind::Other => CATCH_ALL_CODE,
    }
}

/// The code of a byte-array conversion error.
pub open spec fn byte_array_error_code(e: ByteArrayErrorKind) -> i32 {
    match e {
        ByteArrayErrorKind::IncorrectLength => 403,
        ByteArrayErrorKind::ConversionError => 404,
        ByteArrayErrorKind::Other => CATCH_ALL_CODE,
    }
}

/// The wallet engine errors that have no code of their own.
pub open spec fn wallet_error_unmapped(e: WalletError) -> bool {
    match e {
        WalletError::OutputManagerError(om) => match om {
            OutputManagerError::OutputManagerStorageError(s) => s is Other,
            _ => om is Other,
        },
        WalletError::TransactionServiceError(ts) => match ts {
            TransactionServiceError::TransactionStorageError(s) => s is Other,
            _ => ts is Other,
        },
        WalletError::NetAddressError(n) => n is Other,
        WalletError::Other => true,
    }
}

/// An error record for a caller across the boundary: an integer code and a message.
#[derive(Debug, Clone)]
pub struct LibWalletError {
    pub code: i32,
    pub message: String,
}

impl LibWalletError {
    /// The record for a wallet engine error; `message` is the full debug rendering
    /// of the error, kept whatever the code.
    pub fn from_wallet_error(error: &WalletError, message: String) -> (r: LibWalletError)
        ensures
            r.code == wallet_error_code(*error),
            r.message == message,
            (r.code, r.message@) == wallet_error_record(*error, message@),
    {
        let code: i32 = match error {
            WalletError::OutputManagerError(om) => match om {
                OutputManagerError::NotEnoughFunds => 101,
                OutputManagerError::IncompleteTransaction => 102,
                OutputManagerError::DuplicateOutput => 103,
                OutputManagerError::OutputManagerStorageError(s) => match s {
                    OutputManagerStorageError::ValuesNotFound => 104,
                    OutputManagerStorageError::OutputAlreadySpent => 105,
                    OutputManagerStorageError::PendingTransactionNotFound => 106,
                    OutputManagerStorageError::DuplicateOutput => 107,
                    OutputManagerStorageError::ValueNotFound => 108,
                    OutputManagerStorageError::Other => CATCH_ALL_CODE,
                },
                OutputManagerError::Other => CATCH_ALL_CODE,
            },
            WalletError::TransactionServiceError(ts) => match ts {
                TransactionServiceError::InvalidStateError => 200,
                TransactionServiceError::TransactionProtocolError => 201,
                TransactionServiceError::RepeatedMessageError => 202,
                TransactionServiceError::TransactionDoesNotExistError => 203,
                TransactionServiceError::OutputManagerError(om) => match om {
                    OutputManagerError::NotEnoughFunds => 204,
                    _ => 205,
                },
                TransactionServiceError::TransactionError => 206,
                TransactionServiceError::TransactionStorageError(s) => match s {
                    TransactionStorageError::DuplicateOutput => 207,
                    TransactionStorageError::ValueNotFound => 208,
                    TransactionStorageError::Other => CATCH_ALL_CODE,
                },
                TransactionServiceError::Other => CATCH_ALL_CODE,
            },
            WalletError::NetAddressError(n) => match n {
                NetAddressError::ParseFailed => 300,
                NetAddressError::Other => CATCH_ALL_CODE,
            },
            WalletError::Other => CATCH_ALL_CODE,
        };
        LibWalletError { code, message }
    }

    /// The record for a hex decoding error; `message` is its full debug rendering.
    pub fn from_hex_error(error: &HexErrorKind, message: String) -> (r: LibWalletError)
        ensures
            r.code == hex_error_code(*error),
            r.message == message,
    {
        let code: i32 = match error {
            HexErrorKind::LengthError => 400,
            HexErrorKind::HexConversionError => 401,
            HexErrorKind::InvalidCharacter => 402,
            HexErrorKind::Other => CATCH_ALL_CODE,
        };
        LibWalletError { code, message }
    }

    /// The record for a hex decoding error of the utilities crate: the code of
    /// its variant, which is a mapped one, with the error's full debug
    /// rendering as message.
    pub fn from_decoding_hex_error(error: &tari_utilities::hex::HexError) -> (r: LibWalletError)
        ensures
            exists|k: HexErrorKind|
                !(k is Other) && r.code == #[trigger] hex_error_code(k) && r.message@
                    == hex_error_debug(k),
    {
        let (kind, rendering) = hex_error_parts(error);
        let r = LibWalletError::from_hex_error(&kind, rendering);
        assert(!(kind is Other) && r.code == hex_error_code(kind) && r.message@ == hex_error_debug(
            kind,
        ));
        r
    }

    /// The record for a byte-array error of the utilities crate: the code of
    /// its variant, which is a mapped one, with the error's full debug
    /// rendering, reason included, as message.
    pub fn from_decoding_byte_array_error(error: &tari_utilities::ByteArrayError) -> (r: LibWalletError)
        ensures
            exists|k: ByteArrayErrorKind, reason: Seq<char>|
                !(k is Other) && r.code == #[trigger] byte_array_error_code(k) && r.message@
                    == #[trigger] byte_array_error_debug(k, reason),
    {
        let (kind, reason, rendering) = byte_array_error_parts(error);
        let r = LibWalletError::from_byte_array_error(&kind, rendering);
        assert(!(kind is Other) && r.code == byte_array_error_code(kind) && r.message@
            == byte_array_error_debug(kind, reason@));
        r
    }

    /// The record for a byte-array conversion error; `message` is its full debug rendering.
    pub fn from_byte_array_error(error: &ByteArrayErrorKind, message: String) -> (r: LibWalletError)
        ensures
            r.code == byte_array_error_code(*error),
            r.message == message,
    {
        let code: i32 = match error {
            ByteArrayErrorKind::IncorrectLength => 403,
            ByteArrayErrorKind::ConversionError => 404,
            ByteArrayErrorKind::Other => CATCH_ALL_CODE,
        };
        LibWalletError { code, message }
    }
}

/// The record, as a code and the message's characters, that a wallet engine
/// error with the given debug rendering maps to.
pub open spec fn wallet_error_record(e: WalletError, message: Seq<char>) -> (i32, Seq<char>) {
    (wallet_error_code(e), message)
}

/// Mapping a wallet engine error is total and deterministic: every error maps
/// to one record, and equal errors with equal renderings map to equal records.
pub proof fn lemma_wallet_mapping_deterministic(e1: WalletError, e2: WalletError, m1: Seq<char>, m2: Seq<char>)
    requires
        e1 == e2,
        m1 == m2,
    ensures
        wallet_error_record(e1, m1) == wallet_error_record(e2, m2),
        wallet_error_record(e1, m1).0 == CATCH_ALL_CODE || 101 <= wallet_error_record(e1, m1).0 <= 300,
{
}

/// A wallet engine error receives the catch-all code exactly when it has no
/// code of its own, and every mapped code lies in its family's band.
pub proof fn lemma_wallet_codes_banded(e: WalletError)
    ensures
        wallet_error_code(e) == CATCH_ALL_CODE <==> wallet_error_unmapped(e),
        !wallet_error_unmapped(e) ==> match e {
            WalletError::OutputManagerError(_) => 101 <= wallet_error_code(e) <= 108,
            WalletError::TransactionServiceError(_) => 200 <= wallet_error_code(e) <= 208,
            WalletError::NetAddressError(_) => wallet_error_code(e) == 300,
            WalletError::Other => false,
        },
{
}

/// Every hex and byte-array error but the unmapped one receives a code of its
/// own in the decoding band, and those codes differ between the two families.
pub proof fn lemma_decoding_codes_banded(h: HexErrorKind, b: ByteArrayErrorKind)
    ensures
        hex_error_code(h) == CATCH_ALL_CODE <==> h is Other,
        !(h is Other) ==> 400 <= hex_error_code(h) <= 402,
        byte_array_error_code(b) == CATCH_ALL_CODE <==> b is Other,
        !(b is Other) ==> 403 <= byte_array_error_code(b) <= 404,
{
}

} // verus!
