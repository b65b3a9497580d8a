//! A connection together with the statements prepared on it.
//!
//! Preparing a statement costs a round trip to the server, so a client
//! remembers every statement it has prepared, under the exact text it was
//! prepared from. The round trip itself is the caller's business:
//! [`CachedClient::prepare`] says whether one is needed, and
//! [`CachedClient::prepared`] takes what the server answered.

use vstd::prelude::*;
use vstd::hash_map::StringHashMap;
use tokio_postgres::Client as PgClient;
use tokio_postgres::{Error, Statement};
use crate::driver::duplicate;

verus! {

/// The cache of one client: statement handles by the text they were prepared
/// from. Two texts that differ in a single character are two entries.
pub type Statements = Map<Seq<char>, Statement>;

/// What a request to prepare `sql` comes to.
pub enum Prepare {
    /// The text was prepared before: here is its handle, nothing is sent.
    Cached(Statement),
    /// The text is new to this client: the server has to prepare it.
    RoundTrip,
}

/// The decision that [`CachedClient::prepare`] takes on a cache holding
/// `statements`.
pub open spec fn lookup(statements: Statements, sql: Seq<char>) -> Prepare {
    if statements.contains_key(sql) {
        Prepare::Cached(statements[sql])
    } else {
        Prepare::RoundTrip
    }
}

/// The cache after the server has answered a request to prepare `sql`: a
/// handle is stored under the text, a failure leaves no trace.
pub open spec fn record(statements: Statements, sql: Seq<char>, answer: Result<Statement, Error>) -> Statements {
    match answer {
        Ok(statement) => statements.insert(sql, statement),
        Err(_) => statements,
    }
}

/// A live connection and its statement cache.
pub struct CachedClient {
    client: PgClient,
    statement_cache: StringHashMap<Statement>,
}

impl CachedClient {
    /// The connection that this client owns.
    pub closed spec fn connection(&self) -> PgClient {
        self.client
    }

    /// The statements prepared on this client so far.
    pub closed spec fn statements(&self) -> Statements {
        self.statement_cache@
    }

    /// Wraps a connection; nothing has been prepared on it yet.
    pub fn new(client: PgClient) -> (fresh: CachedClient)
        ensures
            fresh.connection() == client,
            fresh.statements() == Statements::empty(),
    {
        CachedClient { client: client, statement_cache: StringHashMap::new() }
    }

    /// Looks `sql` up by its exact text. A text prepared before yields a
    /// duplicate of its handle; any other text calls for a round trip, whose
    /// answer goes to [`CachedClient::prepared`].
    pub fn prepare(&self, sql: &str) -> (step: Prepare)
        ensures
            step == lookup(self.statements(), sql@),
    {
        match self.statement_cache.get(sql) {
            Some(statement) => Prepare::Cached(duplicate(statement)),
            None => Prepare::RoundTrip,
        }
    }

    /// Takes the server's answer to a request to prepare `sql` and hands it
    /// on unchanged. A handle is cached under `sql` first; after a failure
    /// the cache is as it was, so that the same text can be tried again.
    pub fn prepared(&mut self, sql: &str, answer: Result<Statement, Error>) -> (result: Result<Statement, Error>)
        ensures
            result == answer,
            final(self).statements() == record(old(self).statements(), sql@, answer),
            final(self).connection() == old(self).connection(),
    {
        match answer {
            Ok(statement) => {
                self.statement_cache.insert(sql.to_owned(), duplicate(&statement));
                Ok(statement)
            },
            Err(error) => Err(error),
        }
    }

    /// The number of statements in the cache.
    pub fn cache_size(&self) -> (count: usize)
        ensures
            count == self.statements().len(),
    {
        self.statement_cache.len()
    }
}

impl std::ops::Deref for CachedClient {
    type Target = PgClient;

    /// Everything the connection offers is reached through the client.
    fn deref(&self) -> (inner: &PgClient)
        ensures
            *inner == self.connection(),
    {
        &self.client
    }
}

impl std::ops::DerefMut for CachedClient {
    /// Exclusive access to the connection; the cache stays as it is.
    fn deref_mut(&mut self) -> (inner: &mut PgClient)
        ensures
            *inner == old(self).connection(),
            final(self).connection() == *final(inner),
            final(self).statements() == old(self).statements(),
    {
        &mut self.client
    }
}

} // verus!
