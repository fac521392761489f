//! Transaction execution results: the error types a transaction's execution
//! can produce, the compact numeric status each result maps to, and the
//! stored byte encoding of a result.

use vstd::prelude::*;
use vstd::bytes::{
    lemma_auto_spec_u16_to_from_le_bytes, spec_u16_to_le_bytes, u16_from_le_bytes, u16_to_le_bytes,
};
use vstd::utf8::{decode_utf8, encode_utf8, encode_utf8_decode_utf8, encode_utf8_valid_utf8,
    valid_utf8};


verus! {

/// The largest user-defined error code; codes occupy `0..=255`.
pub const MAX_ERROR_CODE: u16 = 255;

/// The status standing for successful execution.
pub const TRANSACTION_STATUS_OK: u16 = 256;

/// The status standing for a panic during execution.
pub const TRANSACTION_STATUS_PANIC: u16 = 257;

/// Result of unsuccessful transaction execution, as a service reports it.
pub struct ExecutionError {
    /// User-defined error code.
    pub code: u8,
    /// Optional error description.
    pub description: Option<String>,
}

/// Return value of a transaction's execution.
pub type ExecutionResult = Result<(), ExecutionError>;

impl ExecutionError {
    /// An execution error with the given code and no description.
    pub fn new(code: u8) -> (e: ExecutionError)
        ensures
            e.code == code,
            e.description is None,
    {
        ExecutionError { code, description: None }
    }

    /// An execution error with the given code and description.
    pub fn with_description(code: u8, description: &str) -> (e: ExecutionError)
        ensures
            e.code == code,
            e.description matches Some(d) && d@ == description@,
    {
        ExecutionError { code, description: Some(description.to_owned()) }
    }
}

/// Type of a transaction error: a panic during execution, or a user-defined
/// error code.
#[derive(Clone, Copy, PartialEq, Eq, Structural, Debug)]
pub enum TransactionErrorType {
    Panic,
    Code(u8),
}

/// Result of unsuccessful transaction execution as the framework stores it:
/// the error type and an optional description. The description is excluded
/// from the numeric status.
pub struct TransactionError {
    pub error_type: TransactionErrorType,
    pub description: Option<String>,
}

/// Extended execution result as stored with the chain.
pub type TransactionResult = Result<(), TransactionError>;

/// What a panic payload held, as far as the embedding can read it: borrowed
/// text, owned text, a boxed error's description, or something opaque.
pub enum PanicPayload {
    StaticText(String),
    OwnedText(String),
    BoxedError(String),
    Opaque,
}

/// The text a panic payload carries, if any.
pub fn panic_description(payload: &PanicPayload) -> (r: Option<String>)
    ensures
        match payload {
            PanicPayload::StaticText(s) => r matches Some(t) && t@ == s@,
            PanicPayload::OwnedText(s) => r matches Some(t) && t@ == s@,
            PanicPayload::BoxedError(s) => r matches Some(t) && t@ == s@,
            PanicPayload::Opaque => r is None,
        },
{
    match payload {
        PanicPayload::StaticText(s) => Some(s.clone()),
        PanicPayload::OwnedText(s) => Some(s.clone()),
        PanicPayload::BoxedError(s) => Some(s.clone()),
        PanicPayload::Opaque => None,
    }
}

impl TransactionError {
    /// An error of the given type with the given description.
    pub fn new(error_type: TransactionErrorType, description: Option<String>) -> (e:
        TransactionError)
        ensures
            e.error_type == error_type,
            e.description == description,
    {
        TransactionError { error_type, description }
    }

    /// A user-coded error.
    pub fn code(code: u8, description: Option<String>) -> (e: TransactionError)
        ensures
            e.error_type == TransactionErrorType::Code(code),
            e.description == description,
    {
        TransactionError::new(TransactionErrorType::Code(code), description)
    }

    /// A panic error.
    pub fn panic(description: Option<String>) -> (e: TransactionError)
        ensures
            e.error_type is Panic,
            e.description == description,
    {
        TransactionError::new(TransactionErrorType::Panic, description)
    }

    /// A panic error described by what the panic payload held.
    pub fn from_panic(payload: &PanicPayload) -> (e: TransactionError)
        ensures
            e.error_type is Panic,
            match payload {
                PanicPayload::StaticText(s) => e.description matches Some(t) && t@ == s@,
                PanicPayload::OwnedText(s) => e.description matches Some(t) && t@ == s@,
                PanicPayload::BoxedError(s) => e.description matches Some(t) && t@ == s@,
                PanicPayload::Opaque => e.description is None,
            },
    {
        TransactionError::panic(panic_description(payload))
    }

    /// This error's type.
    pub fn error_type(&self) -> (t: TransactionErrorType)
        ensures
            t == self.error_type,
    {
        self.error_type
    }

    /// This error's description, if one was set.
    pub fn description(&self) -> (r: Option<&str>)
        ensures
            match r {
                Some(d) => self.description matches Some(s) && d@ == s@,
                None => self.description is None,
            },
    {
        match &self.description {
            Some(s) => Some(s.as_str()),
            None => None,
        }
    }
}

impl Clone for TransactionError {
    fn clone(&self) -> (c: Self)
        ensures
            c.error_type == self.error_type,
            match (&c.description, &self.description) {
                (Some(a), Some(b)) => a@ == b@,
                (None, None) => true,
                _ => false,
            },
    {
        TransactionError {
            error_type: self.error_type,
            description: match &self.description {
                Some(s) => Some(s.clone()),
                None => None,
            },
        }
    }
}

impl From<ExecutionError> for TransactionError {
    /// A service error becomes a coded transaction error, keeping code and
    /// description.
    fn from(error: ExecutionError) -> (e: Self) {
        TransactionError {
            error_type: TransactionErrorType::Code(error.code),
            description: error.description,
        }
    }
}

impl vstd::std_specs::convert::FromSpecImpl<ExecutionError> for TransactionError {
    open spec fn obeys_from_spec() -> bool {
        true
    }

    open spec fn from_spec(error: ExecutionError) -> TransactionError {
        TransactionError {
            error_type: TransactionErrorType::Code(error.code),
            description: error.description,
        }
    }
}

/// The status kind a result maps to, description set aside.
pub open spec fn spec_status_kind(status: TransactionResult) -> Result<(), TransactionErrorType> {
    match status {
        Ok(()) => Ok(()),
        Err(e) => Err(e.error_type),
    }
}

/// The compact numeric status of a result: user codes are themselves,
/// success and panic sit just above the code range.
pub open spec fn spec_status_as_u16(kind: Result<(), TransactionErrorType>) -> u16 {
    match kind {
        Ok(()) => TRANSACTION_STATUS_OK,
        Err(t) => match t {
            TransactionErrorType::Panic => TRANSACTION_STATUS_PANIC,
            TransactionErrorType::Code(c) => c as u16,
        },
    }
}

/// The status kind a number decodes to; numbers above the panic status
/// decode to nothing.
pub open spec fn spec_status_of_u16(v: u16) -> Option<Result<(), TransactionErrorType>> {
    if v <= MAX_ERROR_CODE {
        Some(Err(TransactionErrorType::Code(v as u8)))
    } else if v == TRANSACTION_STATUS_OK {
        Some(Ok(()))
    } else if v == TRANSACTION_STATUS_PANIC {
        Some(Err(TransactionErrorType::Panic))
    } else {
        None
    }
}

/// The numeric status encoding is a bijection between the status kinds
/// (success, panic, the codes `0..=255`) and the numbers `0..=257`:
/// decoding inverts encoding ...
pub proof fn lemma_status_kind_round_trip(kind: Result<(), TransactionErrorType>)
    ensures
        spec_status_of_u16(spec_status_as_u16(kind)) == Some(kind),
{
    match kind {
        Ok(u) => {
            // the unit payload has a single value, so this is the Ok kind
            assert(u == ());
            assert(kind == Ok::<(), TransactionErrorType>(()));
        },
        Err(t) => match t {
            TransactionErrorType::Panic => {},
            TransactionErrorType::Code(c) => {
                assert(spec_status_as_u16(kind) == c as u16);
                assert(((c as u16) as u8) == c) by (bit_vector);
            },
        },
    }
}

/// ... and encoding inverts decoding, with exactly the numbers `0..=257`
/// decodable.
pub proof fn lemma_status_u16_round_trip(v: u16)
    ensures
        spec_status_of_u16(v) matches Some(kind) ==> spec_status_as_u16(kind) == v,
        spec_status_of_u16(v) is Some <==> v <= TRANSACTION_STATUS_PANIC,
{
}

/// The compact numeric status of a result.
pub fn status_as_u16(status: &TransactionResult) -> (r: u16)
    ensures
        r == spec_status_as_u16(spec_status_kind(*status)),
{
    match status {
        Ok(()) => TRANSACTION_STATUS_OK,
        Err(e) => match e.error_type {
            TransactionErrorType::Panic => TRANSACTION_STATUS_PANIC,
            TransactionErrorType::Code(c) => c as u16,
        },
    }
}

/// Ghost model of a stored transaction result: the status kind and the
/// description's characters.
#[verifier::ext_equal]
pub struct ResultModel {
    pub kind: Result<(), TransactionErrorType>,
    pub description: Option<Seq<char>>,
}

/// The model of a result value.
pub open spec fn spec_result_model(status: TransactionResult) -> ResultModel {
    ResultModel {
        kind: spec_status_kind(status),
        description: match status {
            Ok(()) => None,
            Err(e) => match e.description {
                Some(d) => Some(d@),
                None => None,
            },
        },
    }
}

/// The stored encoding of a result: the status as two little-endian bytes,
/// one flag byte saying whether a description follows, and the description
/// in UTF-8.
pub open spec fn spec_encode_result(m: ResultModel) -> Seq<u8> {
    spec_u16_to_le_bytes(spec_status_as_u16(m.kind)) + (match m.description {
        Some(d) => seq![1u8] + encode_utf8(d),
        None => seq![0u8],
    })
}

/// Total decoder of the stored encoding; `None` on malformed bytes.
pub open spec fn spec_decode_result(b: Seq<u8>) -> Option<ResultModel> {
    if b.len() < 3 {
        None
    } else {
        match spec_status_of_u16(vstd::bytes::spec_u16_from_le_bytes(b.subrange(0, 2))) {
            None => None,
            Some(kind) => {
                if b[2] == 1 && valid_utf8(b.subrange(3, b.len() as int)) {
                    Some(
                        ResultModel {
                            kind,
                            // a successful result carries no description; a
                            // description beside the success status is
                            // ignored rather than refused
                            description: match kind {
                                Ok(()) => None,
                                Err(_) => Some(decode_utf8(b.subrange(3, b.len() as int))),
                            },
                        },
                    )
                } else if b[2] == 0 && b.len() == 3 {
                    Some(ResultModel { kind, description: None })
                } else {
                    None
                }
            },
        }
    }
}

/// Round trip: decoding the stored encoding of a result model yields the
/// model again. A successful result carries no description -- exactly the
/// models that [`spec_result_model`] produces.
pub proof fn lemma_result_round_trip(m: ResultModel)
    requires
        m.kind is Ok ==> m.description is None,
    ensures
        spec_decode_result(spec_encode_result(m)) == Some(m),
{
    lemma_auto_spec_u16_to_from_le_bytes();
    let e = spec_encode_result(m);
    let v = spec_status_as_u16(m.kind);
    assert(e.subrange(0, 2) =~= spec_u16_to_le_bytes(v));
    lemma_status_kind_round_trip(m.kind);
    match m.description {
        Some(d) => {
            assert(e[2] == 1);
            assert(e.subrange(3, e.len() as int) =~= encode_utf8(d));
            encode_utf8_valid_utf8(d);
            encode_utf8_decode_utf8(d);
            assert(spec_decode_result(e) =~~= Some(m));
        },
        None => {
            assert(e[2] == 0 && e.len() == 3);
            assert(spec_decode_result(e) =~~= Some(m));
        },
    }
}

/// Relies on `String::from_utf8`: it succeeds exactly on valid UTF-8 and
/// decodes it, and the decoding is the unique character sequence whose
/// UTF-8 encoding is the input.
#[verifier::external_body]
fn string_from_utf8(bytes: Vec<u8>) -> (r: Option<String>)
    ensures
        match r {
            Some(s) => valid_utf8(bytes@) && s@ == decode_utf8(bytes@),
            None => !valid_utf8(bytes@),
        },
{
    String::from_utf8(bytes).ok()
}

/// Appends a string's UTF-8 bytes to a byte vector.
fn extend_with_str_bytes(dst: &mut Vec<u8>, s: &str)
    ensures
        final(dst)@ == old(dst)@ + encode_utf8(s@),
{
    let bytes = s.as_bytes();
    let n = bytes.len();
    let mut i: usize = 0;
    while i < n
        invariant
            i <= n,
            bytes@ == encode_utf8(s@),
            n == bytes@.len(),
            dst@ == old(dst)@ + bytes@.subrange(0, i as int),
        decreases n - i,
    {
        let b = *vstd::slice::slice_index_get(bytes, i);
        dst.push(b);
        proof {
            assert(old(dst)@ + bytes@.subrange(0, i as int) + seq![bytes@[i as int]] =~= old(dst)@
                + bytes@.subrange(0, i as int + 1));
        }
        i += 1;
    }
    proof {
        assert(bytes@.subrange(0, n as int) =~= bytes@);
    }
}

/// The stored byte encoding of a result.
pub fn into_bytes(status: &TransactionResult) -> (r: Vec<u8>)
    ensures
        r@ == spec_encode_result(spec_result_model(*status)),
{
    let v = status_as_u16(status);
    let mut out = u16_to_le_bytes(v);
    let description = match status {
        Ok(()) => None,
        Err(e) => match &e.description {
            Some(d) => Some(d),
            None => None,
        },
    };
    match description {
        Some(d) => {
            out.push(1);
            extend_with_str_bytes(&mut out, d.as_str());
        },
        None => {
            out.push(0);
        },
    }
    proof {
        assert(out@ =~= spec_encode_result(spec_result_model(*status)));
    }
    out
}

/// The result a stored encoding holds. The caller hands in only bytes that
/// a result encodes, as the store only ever holds such bytes.
pub fn from_bytes(bytes: &Vec<u8>) -> (r: TransactionResult)
    requires
        spec_decode_result(bytes@) is Some,
    ensures
        spec_result_model(r) == spec_decode_result(bytes@).unwrap(),
{
    let n = bytes.len();
    let status_slice = vstd::slice::slice_subrange(bytes.as_slice(), 0, 2);
    let v = u16_from_le_bytes(status_slice);
    let flag = bytes[2];
    let description: Option<String> = if flag == 1 {
        let tail = crate::wire::bytes_slice(bytes, 3, n - 3);
        match string_from_utf8(tail) {
            Some(s) => Some(s),
            None => {
                proof {
                    assert(false);
                }
                None
            },
        }
    } else {
        None
    };
    if v <= MAX_ERROR_CODE {
        let r = Err(TransactionError::code(v as u8, description));
        proof {
            assert(spec_result_model(r) =~= spec_decode_result(bytes@).unwrap());
        }
        r
    } else if v == TRANSACTION_STATUS_OK {
        let r = Ok(());
        proof {
            assert(spec_result_model(r) =~= spec_decode_result(bytes@).unwrap());
        }
        r
    } else {
        let r = Err(TransactionError::panic(description));
        proof {
            assert(v == TRANSACTION_STATUS_PANIC);
            assert(spec_result_model(r) =~= spec_decode_result(bytes@).unwrap());
        }
        r
    }
}

} // verus!

verus! {

/// The decimal digit characters.
pub open spec fn spec_digit(d: u8) -> char {
    if d == 0 {
        '0'
    } else if d == 1 {
        '1'
    } else if d == 2 {
        '2'
    } else if d == 3 {
        '3'
    } else if d == 4 {
        '4'
    } else if d == 5 {
        '5'
    } else if d == 6 {
        '6'
    } else if d == 7 {
        '7'
    } else if d == 8 {
        '8'
    } else {
        '9'
    }
}

/// The decimal text of a byte, without leading zeros.
pub open spec fn spec_u8_decimal(c: u8) -> Seq<char> {
    if c >= 100 {
        seq![
            spec_digit((c / 100) as u8),
            spec_digit(((c / 10) % 10) as u8),
            spec_digit((c % 10) as u8),
        ]
    } else if c >= 10 {
        seq![spec_digit((c / 10) as u8), spec_digit((c % 10) as u8)]
    } else {
        seq![spec_digit(c)]
    }
}

fn digit_str(d: u8) -> (r: &'static str)
    requires
        d < 10,
    ensures
        r@ =~= seq![spec_digit(d)],
{
    let r: &'static str = match d {
        0 => "0",
        1 => "1",
        2 => "2",
        3 => "3",
        4 => "4",
        5 => "5",
        6 => "6",
        7 => "7",
        8 => "8",
        _ => "9",
    };
    proof {
        reveal_strlit("0");
        reveal_strlit("1");
        reveal_strlit("2");
        reveal_strlit("3");
        reveal_strlit("4");
        reveal_strlit("5");
        reveal_strlit("6");
        reveal_strlit("7");
        reveal_strlit("8");
        reveal_strlit("9");
    }
    r
}

/// The decimal text of a byte.
fn u8_decimal_string(c: u8) -> (s: String)
    ensures
        s@ == spec_u8_decimal(c),
{
    let mut s = String::from_str("");
    proof {
        reveal_strlit("");
    }
    if c >= 100 {
        s.append(digit_str(c / 100));
        s.append(digit_str((c / 10) % 10));
        s.append(digit_str(c % 10));
    } else if c >= 10 {
        s.append(digit_str(c / 10));
        s.append(digit_str(c % 10));
    } else {
        s.append(digit_str(c));
    }
    proof {
        assert(s@ =~= spec_u8_decimal(c));
    }
    s
}

impl TransactionError {
    /// The error rendered as text: the error type, then the description if
    /// one was set.
    pub open spec fn spec_message(self) -> Seq<char> {
        (match self.error_type {
            TransactionErrorType::Panic => "Panic during execution"@,
            TransactionErrorType::Code(c) => "Error code: "@ + spec_u8_decimal(c),
        }) + (match self.description {
            Some(d) => " description: "@ + d@,
            None => Seq::<char>::empty(),
        })
    }

    /// A plain-text rendering of the error.
    pub fn message(&self) -> (r: String)
        ensures
            r@ == self.spec_message(),
    {
        let mut s = match self.error_type {
            TransactionErrorType::Panic => String::from_str("Panic during execution"),
            TransactionErrorType::Code(c) => {
                let mut t = String::from_str("Error code: ");
                let digits = u8_decimal_string(c);
                t.append(digits.as_str());
                t
            },
        };
        match &self.description {
            Some(d) => {
                s.append(" description: ");
                s.append(d.as_str());
            },
            None => {},
        }
        proof {
            assert(s@ =~= self.spec_message());
        }
        s
    }
}

} // verus!
