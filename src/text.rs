use vstd::prelude::*;
use vstd::utf8::{decode_utf8, encode_utf8, valid_utf8};
use vstd::string::StringSliceAdditionalSpecFns;
use uuid::Uuid;
use crate::err::{LibcryptErr, EINVAL};

verus! {

#[verifier::external_type_specification]
#[verifier::external_body]
pub struct ExUuid(uuid::Uuid);

#[verifier::external_type_specification]
#[verifier::external_body]
pub struct ExUuidError(uuid::Error);

/// Whether `uuid::Uuid::parse_str` accepts the text.
pub uninterp spec fn uuid_accepts(s: Seq<char>) -> bool;

/// The characters that a byte sequence spells, or `None` when it is not UTF-8.
pub open spec fn text_spec(b: Seq<u8>) -> Option<Seq<char>> {
    if valid_utf8(b) {
        Some(decode_utf8(b))
    } else {
        None
    }
}

/// The bytes behind a possibly null pointer.
pub open spec fn opt_bytes(o: Option<Vec<u8>>) -> Option<Seq<u8>> {
    match o {
        Some(v) => Some(v@),
        None => None,
    }
}

/// The characters of a possibly absent text.
pub open spec fn opt_text(o: Option<String>) -> Option<Seq<char>> {
    match o {
        Some(s) => Some(s@),
        None => None,
    }
}

/// A text field that must be present: `None` when it is null or not UTF-8.
pub open spec fn required_text(p: Option<Seq<u8>>) -> Option<Seq<char>> {
    match p {
        Some(b) => text_spec(b),
        None => None,
    }
}

/// A text field that may be absent: `None` when it is present but not
/// UTF-8, `Some(None)` when it is null.
pub open spec fn optional_text(p: Option<Seq<u8>>) -> Option<Option<Seq<char>>> {
    match p {
        Some(b) => match text_spec(b) {
            Some(t) => Some(Some(t)),
            None => None,
        },
        None => Some(None),
    }
}

/// The characters of a text result, with its error unchanged.
pub open spec fn text_result(r: Result<String, LibcryptErr>) -> Result<Seq<char>, LibcryptErr> {
    match r {
        Ok(s) => Ok(s@),
        Err(e) => Err(e),
    }
}

/// What a mandatory engine string yields: its text, or `SystemError(EINVAL)`
/// when it is null or not UTF-8.
pub open spec fn engine_text_spec(p: Option<Seq<u8>>) -> Result<Seq<char>, LibcryptErr> {
    match required_text(p) {
        Some(t) => Ok(t),
        None => Err(LibcryptErr::SystemError(EINVAL)),
    }
}

/// What a string that may name a detached metadata device yields: `None`
/// when it is null, its text otherwise, `SystemError(EINVAL)` when that is not
/// UTF-8.
pub open spec fn engine_optional_text_spec(p: Option<Seq<u8>>) -> Result<Option<Seq<char>>, LibcryptErr> {
    match p {
        None => Ok(None),
        Some(b) => match text_spec(b) {
            Some(t) => Ok(Some(t)),
            None => Err(LibcryptErr::SystemError(EINVAL)),
        },
    }
}

/// The characters of an optional text result, with its error unchanged.
pub open spec fn optional_text_result(r: Result<Option<String>, LibcryptErr>) -> Result<
    Option<Seq<char>>,
    LibcryptErr,
> {
    match r {
        Ok(o) => Ok(opt_text(o)),
        Err(e) => Err(e),
    }
}

/// Whether `r` is what the UUID string `p` handed back by the engine yields:
/// the text error when it is null or not UTF-8, else a UUID exactly when the
/// text parses as one and `UuidError` when it does not, as it never does when
/// its UTF-8 length is not 32, 36, 38 or 45 bytes.
pub open spec fn uuid_outcome(p: Option<Seq<u8>>, r: Result<Uuid, LibcryptErr>) -> bool {
    match engine_text_spec(p) {
        Err(e) => r == Err::<Uuid, LibcryptErr>(e),
        Ok(t) => (r is Ok <==> uuid_accepts(t)) && (r is Err ==> r == Err::<Uuid, LibcryptErr>(
            LibcryptErr::UuidError,
        )) && (!uuid_length(encode_utf8(t).len()) ==> r == Err::<Uuid, LibcryptErr>(
            LibcryptErr::UuidError,
        )),
    }
}

/// The byte lengths that UUID text can have.
pub open spec fn uuid_length(n: nat) -> bool {
    n == 32 || n == 36 || n == 38 || n == 45
}

/// Relies on `std::str::from_utf8`: it succeeds exactly on valid UTF-8, and
/// the text it returns spells the given bytes.
#[verifier::external_body]
fn utf8_to_string(b: &[u8]) -> (r: Option<String>)
    ensures
        opt_text(r) == text_spec(b@),
{
    std::str::from_utf8(b).ok().map(|s| s.to_string())
}

/// Relies on `uuid::Uuid::parse_str`, which reads 32, 36, 38 or 45 bytes of
/// text and refuses every other length.
#[verifier::external_body]
fn parse_uuid(s: &str) -> (r: Result<Uuid, uuid::Error>)
    ensures
        r is Ok <==> uuid_accepts(s@),
        !(s.spec_bytes().len() == 32 || s.spec_bytes().len() == 36
            || s.spec_bytes().len() == 38 || s.spec_bytes().len() == 45) ==> r is Err,
{
    Uuid::parse_str(s)
}

/// Decodes bytes as UTF-8 text, `None` when they are not UTF-8.
pub fn decode_text(b: &Vec<u8>) -> (r: Option<String>)
    ensures
        opt_text(r) == text_spec(b@),
{
    utf8_to_string(b.as_slice())
}

/// Decodes a text field that must be present.
pub fn decode_required_text(p: &Option<Vec<u8>>) -> (r: Option<String>)
    ensures
        opt_text(r) == required_text(opt_bytes(*p)),
{
    match p {
        Some(b) => decode_text(b),
        None => None,
    }
}

/// Decodes a text field that may be absent; the outer `None` means the
/// field is present but not UTF-8.
pub fn decode_optional_text(p: &Option<Vec<u8>>) -> (r: Option<Option<String>>)
    ensures
        match r {
            Some(o) => optional_text(opt_bytes(*p)) == Some(opt_text(o)),
            None => optional_text(opt_bytes(*p)) is None,
        },
{
    match p {
        Some(b) => match decode_text(b) {
            Some(t) => Some(Some(t)),
            None => None,
        },
        None => Some(None),
    }
}

/// Turns a mandatory string handed back by the engine into owned text.
pub fn engine_text(p: &Option<Vec<u8>>) -> (r: Result<String, LibcryptErr>)
    ensures
        text_result(r) == engine_text_spec(opt_bytes(*p)),
{
    match decode_required_text(p) {
        Some(t) => Ok(t),
        None => Err(LibcryptErr::SystemError(EINVAL)),
    }
}

/// Turns the string that may name a detached metadata device into an
/// optional path: null is `None` and never an error.
pub fn engine_optional_text(p: &Option<Vec<u8>>) -> (r: Result<Option<String>, LibcryptErr>)
    ensures
        optional_text_result(r) == engine_optional_text_spec(opt_bytes(*p)),
        p is None ==> r == Ok::<Option<String>, LibcryptErr>(None),
        p is Some ==> match r {
            Ok(o) => o is Some && opt_text(o) == required_text(opt_bytes(*p)),
            Err(e) => e == LibcryptErr::SystemError(EINVAL) && required_text(opt_bytes(*p)) is None,
        },
{
    match p {
        None => Ok(None),
        Some(_) => match decode_required_text(p) {
            Some(t) => Ok(Some(t)),
            None => Err(LibcryptErr::SystemError(EINVAL)),
        },
    }
}

/// Parses the UUID string handed back by the engine: `SystemError(EINVAL)`
/// when it is null or not UTF-8, `UuidError` when the text is no UUID.
pub fn engine_uuid(p: &Option<Vec<u8>>) -> (r: Result<Uuid, LibcryptErr>)
    ensures
        uuid_outcome(opt_bytes(*p), r),
{
    match engine_text(p) {
        Err(e) => Err(e),
        Ok(t) => match parse_uuid(t.as_str()) {
            Ok(u) => Ok(u),
            Err(_) => Err(LibcryptErr::UuidError),
        },
    }
}

} // verus!
