//! The life of one client as a sequence of requests to prepare a statement,
//! and what the cache guarantees over any such sequence: a text that was
//! prepared once is never sent again, and nothing is ever forgotten.

use vstd::prelude::*;
use tokio_postgres::{Error, Statement};
use crate::client::{lookup, record, Prepare, Statements};

verus! {

/// One request to prepare `sql`, with the answer that the server gives if it
/// is asked.
pub struct Request {
    pub sql: Seq<char>,
    pub answer: Result<Statement, Error>,
}

/// The cache after one request is served: a cached text changes nothing, any
/// other is sent to the server and its answer recorded.
pub open spec fn served(statements: Statements, request: Request) -> Statements {
    match lookup(statements, request.sql) {
        Prepare::Cached(_) => statements,
        Prepare::RoundTrip => record(statements, request.sql, request.answer),
    }
}

/// The cache after `requests` are served in order, starting from
/// `statements`.
pub open spec fn served_all(statements: Statements, requests: Seq<Request>) -> Statements
    decreases requests.len(),
{
    if requests.len() == 0 {
        statements
    } else {
        served(served_all(statements, requests.drop_last()), requests.last())
    }
}

/// Whether the request at `index` goes to the server when `requests` are
/// served in order, starting from `statements`.
pub open spec fn is_sent(statements: Statements, requests: Seq<Request>, index: int) -> bool {
    lookup(served_all(statements, requests.take(index)), requests[index].sql) is RoundTrip
}

/// How many of `requests` go to the server.
pub open spec fn round_trips(statements: Statements, requests: Seq<Request>) -> nat
    decreases requests.len(),
{
    if requests.len() == 0 {
        0
    } else {
        let sent: nat = if is_sent(statements, requests, requests.len() - 1) {
            1
        } else {
            0
        };
        round_trips(statements, requests.drop_last()) + sent
    }
}

/// The distinct texts among `requests`.
pub open spec fn texts(requests: Seq<Request>) -> Set<Seq<char>> {
    requests.map_values(|request: Request| request.sql).to_set()
}

/// Whether the server prepares every one of `requests` that reaches it.
pub open spec fn all_accepted(requests: Seq<Request>) -> bool {
    forall|i: int| 0 <= i < requests.len() ==> (#[trigger] requests[i]).answer is Ok
}

/// Serving a request keeps every entry of the cache, under the same handle.
pub proof fn lemma_served_keeps_entries(statements: Statements, request: Request, sql: Seq<char>)
    requires
        statements.contains_key(sql),
    ensures
        served(statements, request).contains_key(sql),
        served(statements, request)[sql] == statements[sql],
{
}

/// Nothing is evicted: whatever is cached at some point of a sequence of
/// requests is still cached, under the same handle, at every later point.
pub proof fn lemma_cache_only_grows(statements: Statements, requests: Seq<Request>, earlier: int, later: int, sql: Seq<char>)
    requires
        0 <= earlier <= later <= requests.len(),
        served_all(statements, requests.take(earlier)).contains_key(sql),
    ensures
        served_all(statements, requests.take(later)).contains_key(sql),
        served_all(statements, requests.take(later))[sql] == served_all(statements, requests.take(earlier))[sql],
    decreases later - earlier,
{
    if earlier < later {
        lemma_cache_only_grows(statements, requests, earlier, later - 1, sql);
        assert(requests.take(later).drop_last() == requests.take(later - 1));
        lemma_served_keeps_entries(
            served_all(statements, requests.take(later - 1)),
            requests[later - 1],
            sql,
        );
    }
}

/// A text that was served from the cache, or that the server has prepared,
/// is served from the cache ever after: no later request for the same text
/// is sent.
pub proof fn lemma_prepared_text_is_not_sent_again(statements: Statements, requests: Seq<Request>, first: int, again: int)
    requires
        0 <= first < again < requests.len(),
        requests[first].sql == requests[again].sql,
        requests[first].answer is Ok || !is_sent(statements, requests, first),
    ensures
        !is_sent(statements, requests, again),
{
    let sql = requests[first].sql;
    assert(requests.take(first + 1).drop_last() == requests.take(first));
    assert(served_all(statements, requests.take(first + 1)).contains_key(sql));
    lemma_cache_only_grows(statements, requests, first + 1, again, sql);
}

/// Where the server accepts every request, the cache ends up holding what it
/// held at the start and every text that was asked for.
pub proof fn lemma_served_texts(statements: Statements, requests: Seq<Request>)
    requires
        all_accepted(requests),
    ensures
        served_all(statements, requests).dom() == statements.dom().union(texts(requests)),
    decreases requests.len(),
{
    if requests.len() == 0 {
        assert(texts(requests) =~= Set::<Seq<char>>::empty());
        assert(statements.dom().union(texts(requests)) =~= statements.dom());
    } else {
        let before = requests.drop_last();
        let last = requests.last();
        lemma_served_texts(statements, before);
        lemma_texts_of_push(before, last);
        assert(requests == before.push(last));
        assert(last == requests[requests.len() - 1]);
        assert(served_all(statements, requests).dom() =~= statements.dom().union(texts(requests)));
    }
}

/// One more request adds its text to the distinct texts.
proof fn lemma_texts_of_push(requests: Seq<Request>, request: Request)
    ensures
        texts(requests.push(request)) == texts(requests).insert(request.sql),
        texts(requests).finite(),
{
    let text = |request: Request| request.sql;
    assert(requests.push(request).map_values(text) =~= requests.map_values(text).push(request.sql));
    requests.map_values(text).lemma_push_to_set_commute(request.sql);
    vstd::seq_lib::seq_to_set_is_finite(requests.map_values(text));
}

/// Where the server accepts every request, each distinct text that is not
/// cached at the start costs exactly one round trip, however often it is
/// asked for, and no other request costs any.
pub proof fn lemma_one_round_trip_per_text(statements: Statements, requests: Seq<Request>)
    requires
        all_accepted(requests),
    ensures
        round_trips(statements, requests) == texts(requests).difference(statements.dom()).len(),
    decreases requests.len(),
{
    if requests.len() == 0 {
        assert(texts(requests).difference(statements.dom()) =~= Set::<Seq<char>>::empty());
    } else {
        let before = requests.drop_last();
        let last = requests.last();
        let known = statements.dom();
        lemma_one_round_trip_per_text(statements, before);
        lemma_served_texts(statements, before);
        lemma_texts_of_push(before, last);
        assert(requests == before.push(last));
        assert(requests.take(requests.len() - 1) == before);
        vstd::set_lib::lemma_len_difference(texts(before), known);
        if is_sent(statements, requests, requests.len() - 1) {
            assert(!texts(before).difference(known).contains(last.sql));
            assert(texts(requests).difference(known) =~= texts(before).difference(known).insert(last.sql));
        } else {
            assert(texts(requests).difference(known) =~= texts(before).difference(known));
        }
    }
}

/// On a client fresh from its creation, where the server accepts every
/// request, the round trips are as many as the distinct texts.
pub proof fn lemma_fresh_client_round_trips(requests: Seq<Request>)
    requires
        all_accepted(requests),
    ensures
        round_trips(Statements::empty(), requests) == texts(requests).len(),
{
    lemma_one_round_trip_per_text(Statements::empty(), requests);
    assert(texts(requests).difference(Statements::empty().dom()) =~= texts(requests));
}

} // verus!
