//! The driver types that the pool hands around, as far as the verifier has to
//! know them: every value of them is opaque.

use vstd::prelude::*;

verus! {

/// An established session with the server, `tokio_postgres::Client`.
#[verifier::external_type_specification]
#[verifier::external_body]
pub struct ExSession(tokio_postgres::Client);

/// A prepared statement handle, `tokio_postgres::Statement`.
#[verifier::external_type_specification]
#[verifier::external_body]
pub struct ExStatement(tokio_postgres::Statement);

/// The driver's error, `tokio_postgres::Error`.
#[verifier::external_type_specification]
#[verifier::external_body]
pub struct ExError(tokio_postgres::Error);

/// Connection parameters, `tokio_postgres::Config`.
#[verifier::external_type_specification]
#[verifier::external_body]
pub struct ExConfig(tokio_postgres::Config);

/// One message of the answer to a simple query,
/// `tokio_postgres::SimpleQueryMessage`.
#[verifier::external_type_specification]
#[verifier::external_body]
pub struct ExSimpleQueryMessage(tokio_postgres::SimpleQueryMessage);

/// Calls `Clone::clone` of `tokio_postgres::Statement`. A statement is a
/// reference-counted pointer to what the server prepared, so the duplicate is
/// the same handle as the one it was made from.
#[verifier::external_body]
pub(crate) fn duplicate(statement: &tokio_postgres::Statement) -> (copy: tokio_postgres::Statement)
    ensures
        copy == *statement,
{
    statement.clone()
}

} // verus!
