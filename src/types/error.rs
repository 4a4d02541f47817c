use vstd::prelude::*;

verus! {

/// The ways in which an operation of the contract can fail.
#[derive(Clone, Debug, PartialEq, Eq)]
pub enum ContractError {
    /// An id that must be unique is already taken.
    ExistingId { id_type: String, id: String },
    /// A failure with no more specific kind.
    GenericError { message: String },
    /// The settings given at instantiation are malformed.
    InvalidInstantiation { message: String },
    /// Funds were attached where none are accepted.
    InvalidFunds { message: String },
    /// The input is malformed, changes nothing, or names a missing related record.
    InvalidRequest { message: String },
    /// The deployed code may not take over the stored settings.
    InvalidMigration { message: String },
    /// A value of an unexpected kind was handed over.
    InvalidType { explanation: String },
    /// An update cannot be applied.
    InvalidUpdate { explanation: String },
    /// Required fields are missing.
    MissingFields { fields: String },
    /// A record already exists under the key of a record being added.
    RecordAlreadyExists { explanation: String },
    /// No record exists under the key looked up.
    RecordNotFound { explanation: String },
    /// A version text is not a semantic version.
    SemVerError { message: String },
    /// A failure reported by the host.
    Std { message: String },
    /// The underlying persistence failed.
    StorageError { message: String },
    /// The caller may not perform the operation.
    Unauthorized { reason: String },
}

/// Builds the message `"<what> [<subject>]"`.
pub fn describe(what: &str, subject: &str) -> (r: String)
    ensures
        r@ == what@ + " ["@ + subject@ + "]"@,
{
    let mut r = String::from_str(what);
    r.append(" [");
    r.append(subject);
    r.append("]");
    r
}

} // verus!
