use vstd::prelude::*;
use vstd::utf8::valid_utf8;

use crate::error::SqipError;

verus! {

/// Number of geometric primitives that a placeholder is built from.
pub const PRIMITIVE_COUNT: i64 = 10;

/// Primitive mode handed to the generator.
pub const PRIMITIVE_MODE: i64 = 0;

/// Transparency of each primitive.
pub const PRIMITIVE_ALPHA: i64 = 128;

/// The fixed parameters of one call of the placeholder generator.
#[derive(Debug, Clone, Copy, PartialEq, Eq, Structural)]
pub struct GenerationParams {
    pub primitives: i64,
    pub mode: i64,
    pub alpha: i64,
    pub workers: i64,
}

/// The base64 text of a byte sequence, as the standard padded alphabet writes it.
pub uninterp spec fn base64_of(b: Seq<u8>) -> Seq<char>;

/// A character of the standard base64 alphabet, or the padding character.
pub open spec fn is_base64_char(c: char) -> bool {
    ('A' <= c && c <= 'Z') || ('a' <= c && c <= 'z') || ('0' <= c && c <= '9') || c == '+' || c
        == '/' || c == '='
}

/// Relies on num_cpus::get: the number of logical CPUs available, which is at least one.
#[verifier::external_body]
fn available_cpus() -> (r: usize)
    ensures
        r >= 1,
{
    num_cpus::get()
}

/// Relies on std::str::from_utf8: it accepts exactly the well-formed UTF-8 sequences.
#[verifier::external_body]
fn is_utf8(b: &[u8]) -> (r: bool)
    ensures
        r == valid_utf8(b@),
{
    std::str::from_utf8(b).is_ok()
}

/// Relies on base64::encode: the padded standard encoding, four characters for each
/// started group of three bytes.
#[verifier::external_body]
fn encode_base64(b: &[u8]) -> (r: String)
    requires
        b@.len() <= usize::MAX / 2,
    ensures
        r@ == base64_of(b@),
        r@.len() == 4 * ((b@.len() + 2) / 3),
        forall|i: int| 0 <= i < r@.len() ==> is_base64_char(#[trigger] r@[i]),
{
    base64::encode(b)
}

impl GenerationParams {
    /// The generator's parameters, with one worker for each of `cpus` processing units
    /// (as many as an `i64` holds).
    pub fn with_workers(cpus: usize) -> (r: Self)
        ensures
            r.primitives == PRIMITIVE_COUNT,
            r.mode == PRIMITIVE_MODE,
            r.alpha == PRIMITIVE_ALPHA,
            r.workers as int == if cpus as int > i64::MAX as int {
                i64::MAX as int
            } else {
                cpus as int
            },
    {
        let workers: i64 = if cpus as u64 > i64::MAX as u64 {
            i64::MAX
        } else {
            cpus as i64
        };
        GenerationParams {
            primitives: PRIMITIVE_COUNT,
            mode: PRIMITIVE_MODE,
            alpha: PRIMITIVE_ALPHA,
            workers,
        }
    }

    /// The generator's parameters, with one worker for each available CPU of this host.
    pub fn standard() -> (r: Self)
        ensures
            r.primitives == PRIMITIVE_COUNT,
            r.mode == PRIMITIVE_MODE,
            r.alpha == PRIMITIVE_ALPHA,
            r.workers >= 1,
    {
        Self::with_workers(available_cpus())
    }
}

/// The text by which the generator reports a failure: `Error`.
pub open spec fn error_marker() -> Seq<u8> {
    seq![69u8, 114u8, 114u8, 111u8, 114u8]
}

/// The generator's output reports a failure: it is empty or starts with the error marker.
pub open spec fn reports_failure(out: Seq<u8>) -> bool {
    out.len() == 0 || (out.len() >= 5 && out.subrange(0, 5) == error_marker())
}

/// What the adapter makes of the generator's raw output.
pub open spec fn placeholder_of(out: Seq<u8>) -> Result<Seq<char>, SqipError> {
    if reports_failure(out) || !valid_utf8(out) {
        Err(SqipError::Generation)
    } else {
        Ok(base64_of(out))
    }
}

/// Checks the generator's output for an empty result or the error marker.
pub fn is_failure_output(out: &[u8]) -> (r: bool)
    ensures
        r == reports_failure(out@),
{
    if out.len() == 0 {
        return true;
    }
    if out.len() < 5 {
        return false;
    }
    let r = out[0] == 69u8 && out[1] == 114u8 && out[2] == 114u8 && out[3] == 111u8 && out[4]
        == 114u8;
    assert(r <==> out@.subrange(0, 5) =~= error_marker());
    r
}

/// Turns the generator's raw output into a base64-encoded placeholder.
///
/// Empty output, output that starts with the error marker, and output that is not
/// UTF-8 text are generation failures; anything else is the vector markup, which is
/// returned base64-encoded and is then never empty.
pub fn placeholder_from_output(out: &[u8]) -> (r: Result<String, SqipError>)
    requires
        out@.len() <= usize::MAX / 2,
    ensures
        match r {
            Ok(s) => placeholder_of(out@) == Ok::<Seq<char>, SqipError>(s@) && s@.len() > 0
                && s@.len() == 4 * ((out@.len() + 2) / 3) && forall|i: int|
                0 <= i < s@.len() ==> is_base64_char(#[trigger] s@[i]),
            Err(e) => placeholder_of(out@) == Err::<Seq<char>, SqipError>(e),
        },
{
    if is_failure_output(out) || !is_utf8(out) {
        Err(SqipError::Generation)
    } else {
        Ok(encode_base64(out))
    }
}

} // verus!
