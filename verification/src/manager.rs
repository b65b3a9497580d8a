//! The two operations that a pooling framework asks of its manager: create a
//! client, and recycle one that was handed back.
//!
//! Connecting and probing are network traffic and left to the caller. It
//! connects with [`Manager::config`] and [`Manager::tls`] and hands the outcome
//! to [`Manager::create`]; it sends [`probe_query`] over a returned client and
//! hands the outcome to [`Manager::recycle`].

use vstd::prelude::*;
use tokio_postgres::Client as PgClient;
use tokio_postgres::Config as PgConfig;
use tokio_postgres::{Error, SimpleQueryMessage};
use crate::client::{CachedClient, Statements};

verus! {

/// Creates and recycles the clients of one pool. It holds the connection
/// parameters and the transport strategy, and never changes them.
pub struct Manager<T> {
    config: PgConfig,
    tls: T,
}

/// A client that was just created, and the task that drives its connection.
/// The connection is dead until `driver` runs: detach it, and expect to hear
/// of its failure only through a later probe.
pub struct Created<D> {
    pub client: CachedClient,
    pub driver: D,
}

/// What becomes of a client that was handed back to the pool.
pub enum Recycled {
    /// The connection answered the probe: the client goes back into the pool
    /// as it is.
    Kept(CachedClient),
    /// The connection is dead and the client is gone. A new one has to be
    /// created, once; if that fails, the recycling has failed.
    Replace,
}

/// `made` is what [`Manager::create`] owes for the connect attempt
/// `connected`: a client without cached statements around the new connection,
/// or the very error of the attempt.
pub open spec fn creates<D>(connected: Result<(PgClient, D), Error>, made: Result<Created<D>, Error>) -> bool {
    match connected {
        Ok(pair) => {
            &&& made matches Ok(created)
            &&& created.client.connection() == pair.0
            &&& created.client.statements() == Statements::empty()
            &&& created.driver == pair.1
        },
        Err(error) => made == Err::<Created<D>, Error>(error),
    }
}

/// The verdict of [`Manager::recycle`] on `client`, given whether its
/// connection answered the probe.
pub open spec fn recycled(client: CachedClient, alive: bool) -> Recycled {
    if alive {
        Recycled::Kept(client)
    } else {
        Recycled::Replace
    }
}

/// The query that probes a connection: the empty one, which the server
/// answers without doing anything.
pub fn probe_query() -> (query: &'static str)
    ensures
        query@ == Seq::<char>::empty(),
{
    proof {
        reveal_strlit("");
    }
    ""
}

impl<T> Manager<T> {
    /// The connection parameters.
    pub closed spec fn parameters(&self) -> PgConfig {
        self.config
    }

    /// The transport strategy.
    pub closed spec fn transport(&self) -> T {
        self.tls
    }

    /// A manager that connects with `config` over `tls`.
    pub fn new(config: PgConfig, tls: T) -> (manager: Manager<T>)
        ensures
            manager.parameters() == config,
            manager.transport() == tls,
    {
        Manager { config: config, tls: tls }
    }

    /// The parameters to connect with.
    pub fn config(&self) -> (config: &PgConfig)
        ensures
            *config == self.parameters(),
    {
        &self.config
    }

    /// The transport strategy to connect with; each attempt takes its own
    /// duplicate.
    pub fn tls(&self) -> (tls: &T)
        ensures
            *tls == self.transport(),
    {
        &self.tls
    }

    /// Finishes the creation of a client, given the outcome of the connect
    /// attempt. A new connection is wrapped in a client with an empty cache
    /// and comes with its driver; a failure is passed on as it is, and
    /// nothing is tried again.
    pub fn create<D>(&self, connected: Result<(PgClient, D), Error>) -> (made: Result<Created<D>, Error>)
        ensures
            creates(connected, made),
    {
        match connected {
            Ok((connection, driver)) => Ok(Created { client: CachedClient::new(connection), driver: driver }),
            Err(error) => Err(error),
        }
    }

    /// Decides on a client that was handed back, given the server's answer
    /// to [`probe_query`] on its connection. Any answer but an error shows
    /// that the connection is alive, and the client is kept with its cache;
    /// an error costs the client its place, whatever the error says.
    pub fn recycle(&self, client: CachedClient, probe: Result<Vec<SimpleQueryMessage>, Error>) -> (verdict: Recycled)
        ensures
            verdict == recycled(client, probe is Ok),
    {
        match probe {
            Ok(_) => Recycled::Kept(client),
            Err(_) => Recycled::Replace,
        }
    }
}

/// What the framework gets back from a whole recycling: the client that was
/// kept, or else whatever creating its replacement came to.
pub open spec fn handed_back<D>(verdict: Recycled, replacement: Result<Created<D>, Error>) -> Result<CachedClient, Error> {
    match verdict {
        Recycled::Kept(client) => Ok(client),
        Recycled::Replace => match replacement {
            Ok(created) => Ok(created.client),
            Err(error) => Err(error),
        },
    }
}

/// Recycling a client whose connection answers the probe hands back that
/// very client: the same connection, the same cached statements under the
/// same handles. Whether a replacement could have been created plays no part.
pub proof fn lemma_live_client_is_kept<D>(client: CachedClient, replacement: Result<Created<D>, Error>)
    ensures
        handed_back(recycled(client, true), replacement) == Ok::<CachedClient, Error>(client),
{
}

/// Recycling a client whose connection fails the probe never hands that
/// client back. The framework gets a client without cached statements around
/// the connection that the one connect attempt opened, or the very error of
/// that attempt.
pub proof fn lemma_dead_client_is_replaced<D>(
    client: CachedClient,
    connected: Result<(PgClient, D), Error>,
    replacement: Result<Created<D>, Error>,
)
    requires
        creates(connected, replacement),
    ensures
        recycled(client, false) == Recycled::Replace,
        match connected {
            Ok(pair) => {
                &&& handed_back(recycled(client, false), replacement) matches Ok(fresh)
                &&& fresh.connection() == pair.0
                &&& fresh.statements() == Statements::empty()
            },
            Err(error) => handed_back(recycled(client, false), replacement) == Err::<CachedClient, Error>(error),
        },
{
}

} // verus!
