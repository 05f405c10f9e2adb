use vstd::prelude::*;
use vstd::string::StringExecFns;
use tari_crypto::tari_utilities::byte_array::ByteArrayError;
use tari_crypto::tari_utilities::hex::HexError;
use crate::domain::ChainStorageError;
use crate::domain::spec_domain_message;
use crate::upstream::byte_array_text_of;
use crate::upstream::describe_byte_array_error;
use crate::upstream::describe_connection_error;
use crate::upstream::describe_diesel_error;
use crate::upstream::describe_hex_error;
use crate::upstream::describe_json_error;
use crate::upstream::hex_text_of;

verus! {

/// The closed taxonomy of storage-layer failures.
///
/// Every failure this layer accepts is classified into exactly one of these
/// variants. The first four carry a call-site description of the operation or
/// entity involved; the rest carry the rendered message of the upstream cause,
/// so the full diagnostic chain stays reconstructible from the value alone.
#[derive(Clone, Debug)]
pub enum PostgresError {
    /// Requested record absent.
    NotFound(String),
    /// Insert or create rejected.
    CouldNotAdd(String),
    /// Delete rejected.
    CouldDelete(String),
    /// Unclassified backend failure.
    Other(String),
    /// Hex-encoded byte payload malformed.
    SerializationError { source: String },
    /// Fixed-width byte payload malformed.
    ByteSerializationError { source: String },
    /// Structured (JSON) payload malformed.
    JsonSerializationError { source: String },
    /// Backend unreachable, or authentication or configuration failure.
    AccessError { source: String },
    /// A failure already classified by the caller's own domain, round-tripped.
    ChainStorageError { source: String },
    /// Backend rejected or failed to execute a statement.
    DieselStorageError { source: String },
}

/// The fixed message template of each variant.
pub open spec fn template(e: PostgresError) -> Seq<char> {
    match e {
        PostgresError::NotFound(_) => "The requested value was not found in the database"@,
        PostgresError::CouldNotAdd(_) => "The requested value could not be added to the database"@,
        PostgresError::CouldDelete(_) => "The requested value could not be deleted from database"@,
        PostgresError::Other(_) => "An error occurred in the database"@,
        PostgresError::SerializationError { .. } => "Could not deserialize data"@,
        PostgresError::ByteSerializationError { .. } => "Could not deserialize data"@,
        PostgresError::JsonSerializationError { .. } => "Could not deserialize json data"@,
        PostgresError::AccessError { .. } => "Could not connect to db"@,
        PostgresError::ChainStorageError { .. } => "Chain storage error"@,
        PostgresError::DieselStorageError { .. } => "Diesel rs error"@,
    }
}

/// The variable part of each variant: the call-site description, or the
/// rendered message of the upstream cause.
pub open spec fn detail(e: PostgresError) -> Seq<char> {
    match e {
        PostgresError::NotFound(s) => s@,
        PostgresError::CouldNotAdd(s) => s@,
        PostgresError::CouldDelete(s) => s@,
        PostgresError::Other(s) => s@,
        PostgresError::SerializationError { source } => source@,
        PostgresError::ByteSerializationError { source } => source@,
        PostgresError::JsonSerializationError { source } => source@,
        PostgresError::AccessError { source } => source@,
        PostgresError::ChainStorageError { source } => source@,
        PostgresError::DieselStorageError { source } => source@,
    }
}

/// The full human-readable message: the variant's fixed template, then the
/// cause or description appended after ": ".
pub open spec fn spec_message(e: PostgresError) -> Seq<char> {
    template(e) + ": "@ + detail(e)
}

impl PostgresError {
    /// Renders the error as one string carrying the whole cause chain.
    pub fn message(&self) -> (r: String)
        ensures
            r@ == spec_message(*self),
    {
        let t: &str = match self {
            PostgresError::NotFound(_) => "The requested value was not found in the database",
            PostgresError::CouldNotAdd(_) => "The requested value could not be added to the database",
            PostgresError::CouldDelete(_) => "The requested value could not be deleted from database",
            PostgresError::Other(_) => "An error occurred in the database",
            PostgresError::SerializationError { .. } => "Could not deserialize data",
            PostgresError::ByteSerializationError { .. } => "Could not deserialize data",
            PostgresError::JsonSerializationError { .. } => "Could not deserialize json data",
            PostgresError::AccessError { .. } => "Could not connect to db",
            PostgresError::ChainStorageError { .. } => "Chain storage error",
            PostgresError::DieselStorageError { .. } => "Diesel rs error",
        };
        let d: &str = match self {
            PostgresError::NotFound(s) => s.as_str(),
            PostgresError::CouldNotAdd(s) => s.as_str(),
            PostgresError::CouldDelete(s) => s.as_str(),
            PostgresError::Other(s) => s.as_str(),
            PostgresError::SerializationError { source } => source.as_str(),
            PostgresError::ByteSerializationError { source } => source.as_str(),
            PostgresError::JsonSerializationError { source } => source.as_str(),
            PostgresError::AccessError { source } => source.as_str(),
            PostgresError::ChainStorageError { source } => source.as_str(),
            PostgresError::DieselStorageError { source } => source.as_str(),
        };
        t.to_owned().concat(": ").concat(d)
    }

    /// Classifies a record as absent; chosen deliberately at the call site.
    pub fn not_found(description: String) -> (r: PostgresError)
        requires
            description@.len() > 0,
        ensures
            r == PostgresError::NotFound(description),
    {
        PostgresError::NotFound(description)
    }

    /// Classifies an insert or create as rejected; chosen at the call site.
    pub fn could_not_add(description: String) -> (r: PostgresError)
        requires
            description@.len() > 0,
        ensures
            r == PostgresError::CouldNotAdd(description),
    {
        PostgresError::CouldNotAdd(description)
    }

    /// Classifies a delete as rejected; chosen deliberately at the call site.
    pub fn could_delete(description: String) -> (r: PostgresError)
        requires
            description@.len() > 0,
        ensures
            r == PostgresError::CouldDelete(description),
    {
        PostgresError::CouldDelete(description)
    }

    /// Classifies an otherwise unclassified backend failure.
    pub fn other(description: String) -> (r: PostgresError)
        requires
            description@.len() > 0,
        ensures
            r == PostgresError::Other(description),
    {
        PostgresError::Other(description)
    }

    /// Wraps the rendered message of a hex-decoding failure.
    pub fn serialization_error(source: String) -> (r: PostgresError)
        ensures
            r == (PostgresError::SerializationError { source }),
    {
        PostgresError::SerializationError { source }
    }

    /// Wraps the rendered message of a fixed-width byte-array failure.
    pub fn byte_serialization_error(source: String) -> (r: PostgresError)
        ensures
            r == (PostgresError::ByteSerializationError { source }),
    {
        PostgresError::ByteSerializationError { source }
    }

    /// Wraps the rendered message of a structured-payload parse failure.
    pub fn json_serialization_error(source: String) -> (r: PostgresError)
        ensures
            r == (PostgresError::JsonSerializationError { source }),
    {
        PostgresError::JsonSerializationError { source }
    }

    /// Wraps the rendered message of a connection-establishment failure.
    pub fn access_error(source: String) -> (r: PostgresError)
        ensures
            r == (PostgresError::AccessError { source }),
    {
        PostgresError::AccessError { source }
    }

    /// Wraps the rendered message of a query-execution failure.
    pub fn diesel_storage_error(source: String) -> (r: PostgresError)
        ensures
            r == (PostgresError::DieselStorageError { source }),
    {
        PostgresError::DieselStorageError { source }
    }

    /// Total conversion from a hex-decoding failure: always the hex encoding
    /// variant, with the failure's rendered text retained as the cause.
    pub fn from_hex_error(e: HexError) -> (r: PostgresError)
        ensures
            r matches PostgresError::SerializationError { source }
                && source@ == hex_text_of(e),
    {
        PostgresError::serialization_error(describe_hex_error(&e))
    }

    /// Total conversion from a fixed-width byte-array validation failure:
    /// always the byte-array encoding variant, with the failure's rendered
    /// text retained as the cause.
    pub fn from_byte_array_error(e: ByteArrayError) -> (r: PostgresError)
        ensures
            r matches PostgresError::ByteSerializationError { source }
                && source@ == byte_array_text_of(e),
    {
        PostgresError::byte_serialization_error(describe_byte_array_error(&e))
    }

    /// Total conversion from a structured-payload parse failure: always the
    /// JSON encoding variant, carrying the failure's rendered text. The text
    /// itself is pinned no further: an I/O-backed `serde_json::Error` renders
    /// through the operating system's locale-dependent error string.
    pub fn from_json_error(e: serde_json::Error) -> (r: PostgresError)
        ensures
            r is JsonSerializationError,
    {
        PostgresError::json_serialization_error(describe_json_error(&e))
    }

    /// Total conversion from a connection-establishment failure: always the
    /// access variant, whatever the reason the connection failed, carrying
    /// the failure's rendered text. The text itself is pinned no further:
    /// the configuration variant renders through a boxed query-execution
    /// failure whose text need not be determined by the value.
    pub fn from_connection_error(e: diesel::ConnectionError) -> (r: PostgresError)
        ensures
            r is AccessError,
    {
        PostgresError::access_error(describe_connection_error(&e))
    }

    /// Total conversion from a query-execution failure: always the query
    /// variant, carrying the failure's rendered text; finer-grained meaning
    /// is the call site's responsibility. The text itself is pinned no
    /// further: several variants delegate rendering to a boxed driver- or
    /// user-supplied error whose text need not be determined by the value.
    pub fn from_diesel_error(e: diesel::result::Error) -> (r: PostgresError)
        ensures
            r is DieselStorageError,
    {
        PostgresError::diesel_storage_error(describe_diesel_error(&e))
    }

    /// Round-trips a failure already classified by the caller's own domain:
    /// the domain error's full message is retained without loss.
    pub fn from_chain_storage_error(e: ChainStorageError) -> (r: PostgresError)
        ensures
            r matches PostgresError::ChainStorageError { source }
                && source@ == spec_domain_message(e),
    {
        PostgresError::ChainStorageError { source: e.message() }
    }
}

/// Formatting a taxonomy value surfaces both the fixed template text of its
/// variant and, verbatim, the carried cause or description.
pub proof fn lemma_message_contains_template_and_detail(e: PostgresError)
    ensures
        spec_message(e).len() == template(e).len() + 2 + detail(e).len(),
        spec_message(e).take(template(e).len() as int) == template(e),
        spec_message(e).skip(template(e).len() as int + 2) == detail(e),
{
    assert(": "@.len() == 2) by {
        reveal_strlit(": ");
    }
    assert(spec_message(e).take(template(e).len() as int) =~= template(e));
    assert(spec_message(e).skip(template(e).len() as int + 2) =~= detail(e));
}

} // verus!
