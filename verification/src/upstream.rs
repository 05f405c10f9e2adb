//! The trusted boundary to the upstream failure types.
//!
//! Each upstream error is opaque here: the only thing this layer reads from
//! one is its rendered message, obtained through one wrapper per type. Where
//! that text is a function of the failure value alone, it is given a name, so
//! that callers can state exactly which text they retain.

use vstd::prelude::*;
use tari_crypto::tari_utilities::byte_array::ByteArrayError;
use tari_crypto::tari_utilities::hex::HexError;

verus! {

#[verifier::external_type_specification]
#[verifier::external_body]
pub struct ExHexError(HexError);

#[verifier::external_type_specification]
#[verifier::external_body]
pub struct ExByteArrayError(ByteArrayError);

#[verifier::external_type_specification]
#[verifier::external_body]
pub struct ExJsonError(serde_json::Error);

#[verifier::external_type_specification]
#[verifier::external_body]
pub struct ExConnectionError(diesel::ConnectionError);

#[verifier::external_type_specification]
#[verifier::external_body]
pub struct ExDieselError(diesel::result::Error);

/// The rendered text of a hex-decoding failure: a fixed string per variant,
/// so a function of the value alone.
pub uninterp spec fn hex_text_of(e: HexError) -> Seq<char>;

/// The rendered text of a byte-array validation failure: a fixed string or
/// the stored reason, so a function of the value alone.
pub uninterp spec fn byte_array_text_of(e: ByteArrayError) -> Seq<char>;

/// Relies on the `Display` implementation of `tari_utilities`' `HexError` to
/// render the hex-decoding failure as text.
#[verifier::external_body]
pub(crate) fn describe_hex_error(e: &HexError) -> (r: String)
    ensures
        r@ == hex_text_of(*e),
{
    format!("{}", e)
}

/// Relies on the `Display` implementation of `tari_utilities`'
/// `ByteArrayError` to render the byte-array validation failure as text.
#[verifier::external_body]
pub(crate) fn describe_byte_array_error(e: &ByteArrayError) -> (r: String)
    ensures
        r@ == byte_array_text_of(*e),
{
    format!("{}", e)
}

/// Relies on the `Display` implementation of `serde_json::Error` to render
/// the JSON parse failure as text. Its rendered text gets no name: for an
/// I/O-backed value it passes through the operating system's error string,
/// which can follow the process locale.
#[verifier::external_body]
pub(crate) fn describe_json_error(e: &serde_json::Error) -> String {
    format!("{}", e)
}

/// Relies on the `Display` implementation of `diesel::ConnectionError` to
/// render the connection failure as text. Its rendered text gets no name:
/// the configuration variant delegates to a query-execution failure, whose
/// rendering need not be determined by the value (see below).
#[verifier::external_body]
pub(crate) fn describe_connection_error(e: &diesel::ConnectionError) -> String {
    format!("{}", e)
}

/// Relies on the `Display` implementation of `diesel::result::Error` to
/// render the query-execution failure as text. Its rendered text gets no
/// name: several variants box a driver- or user-supplied error object and
/// delegate rendering to it, so the text need not be determined by the value
/// — an I/O-backed one, for instance, renders through the operating system's
/// locale-dependent error string.
#[verifier::external_body]
pub(crate) fn describe_diesel_error(e: &diesel::result::Error) -> String {
    format!("{}", e)
}

} // verus!
