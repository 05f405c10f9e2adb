use vstd::prelude::*;
use vstd::string::StringExecFns;
use crate::error::PostgresError;
use crate::error::spec_message;

verus! {

/// The caller's own, independently defined domain error type.
///
/// The chain-storage layer above this boundary does not distinguish
/// storage-internal failure kinds: every storage failure collapses into its
/// single access-error category, with the full formatted description embedded
/// so no diagnostic detail is lost.
#[derive(Clone, Debug)]
pub enum ChainStorageError {
    /// Access to the underlying store failed; the payload says why.
    AccessError(String),
}

/// The full human-readable message of a domain error.
pub open spec fn spec_domain_message(e: ChainStorageError) -> Seq<char> {
    match e {
        ChainStorageError::AccessError(s) => "Access error"@ + ": "@ + s@,
    }
}

impl ChainStorageError {
    /// Renders the domain error as one string.
    pub fn message(&self) -> (r: String)
        ensures
            r@ == spec_domain_message(*self),
    {
        match self {
            ChainStorageError::AccessError(s) => {
                "Access error".to_owned().concat(": ").concat(s.as_str())
            },
        }
    }

    /// The boundary re-export: collapses any taxonomy value into the domain's
    /// access-error category, embedding the full formatted message.
    pub fn from(e: PostgresError) -> (r: ChainStorageError)
        ensures
            r matches ChainStorageError::AccessError(s)
                && s@ == "Postgres error:"@ + spec_message(e),
    {
        let m = e.message();
        ChainStorageError::AccessError("Postgres error:".to_owned().concat(m.as_str()))
    }
}

/// Re-exporting a taxonomy value into the domain type keeps the taxonomy
/// value's own formatted message verbatim inside the domain error's message.
pub proof fn lemma_reexport_keeps_message(e: PostgresError, d: ChainStorageError)
    requires
        d matches ChainStorageError::AccessError(s)
            && s@ == "Postgres error:"@ + spec_message(e),
    ensures
        spec_domain_message(d)
            == "Access error"@ + ": "@ + "Postgres error:"@ + spec_message(e),
        spec_domain_message(d).skip(
            ("Access error"@ + ": "@ + "Postgres error:"@).len() as int,
        ) == spec_message(e),
{
    assert(spec_domain_message(d)
        =~= "Access error"@ + ": "@ + "Postgres error:"@ + spec_message(e));
    assert(spec_domain_message(d).skip(
        ("Access error"@ + ": "@ + "Postgres error:"@).len() as int,
    ) =~= spec_message(e));
}

} // verus!
