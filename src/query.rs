use vstd::prelude::*;
use crate::block::QueryOutcome;
use crate::number::{block_number_of, digits_value, is_number_text, parse_block_number};

verus! {

/// Where one query stands: waiting for the remote client's answer for a
/// number, or finished with an outcome.
#[derive(Clone, Debug, PartialEq, Eq)]
pub enum QueryPhase {
    AwaitingRemote(u64),
    Done(QueryOutcome),
}

/// One query, from the text that was entered to its outcome. `number` is the
/// block number the text wrote, if it wrote one.
#[derive(Clone, Debug, PartialEq, Eq)]
pub struct Query {
    pub number: Option<u64>,
    pub phase: QueryPhase,
}

/// The outcome given to text that is not a well-formed block number.
pub open spec fn is_invalid_number(o: QueryOutcome) -> bool {
    o matches QueryOutcome::Failed(m) && m@ == "invalid number"@
}

/// `q` is how a query on the text `raw` begins.
pub open spec fn started_from(raw: Seq<char>, q: Query) -> bool {
    &&& q.number == block_number_of(raw)
    &&& match block_number_of(raw) {
        Some(n) => q.phase == QueryPhase::AwaitingRemote(n),
        None => q.phase matches QueryPhase::Done(o) && is_invalid_number(o),
    }
}

/// The block number that the remote client is still to be asked for.
pub open spec fn pending_of(q: Query) -> Option<u64> {
    match q.phase {
        QueryPhase::AwaitingRemote(n) => Some(n),
        QueryPhase::Done(_) => None,
    }
}

/// The query once the remote client's answer `remote` is handed to it: only a
/// waiting query takes it, and takes it as it is.
pub open spec fn delivered(q: Query, remote: QueryOutcome) -> Query {
    match q.phase {
        QueryPhase::AwaitingRemote(_) => Query { number: q.number, phase: QueryPhase::Done(remote) },
        QueryPhase::Done(_) => q,
    }
}

impl Query {
    pub open spec fn well_formed(&self) -> bool {
        &&& (self.phase matches QueryPhase::AwaitingRemote(n) ==> self.number == Some(n))
        &&& (self.number is None ==> (self.phase matches QueryPhase::Done(o) && is_invalid_number(o)))
    }

    /// Validates `raw` as a block number. A valid one leaves the query waiting
    /// for the remote client; anything else finishes it as an invalid number,
    /// without the remote client.
    pub fn start(raw: &str) -> (r: Query)
        ensures
            r.well_formed(),
            started_from(raw@, r),
    {
        match parse_block_number(raw) {
            Some(n) => Query { number: Some(n), phase: QueryPhase::AwaitingRemote(n) },
            None => Query {
                number: None,
                phase: QueryPhase::Done(QueryOutcome::Failed(String::from_str("invalid number"))),
            },
        }
    }

    /// The block number to ask the remote client for, while the query waits.
    pub fn pending_fetch(&self) -> (r: Option<u64>)
        ensures
            r == pending_of(*self),
    {
        match self.phase {
            QueryPhase::AwaitingRemote(n) => Some(n),
            QueryPhase::Done(_) => None,
        }
    }

    /// Hands over the remote client's answer. Returns whether the query took it:
    /// only one that is waiting does.
    pub fn deliver(&mut self, remote: QueryOutcome) -> (accepted: bool)
        requires
            old(self).well_formed(),
        ensures
            final(self).well_formed(),
            accepted == (old(self).phase is AwaitingRemote),
            *final(self) == delivered(*old(self), remote),
    {
        match self.phase {
            QueryPhase::AwaitingRemote(_) => {
                self.phase = QueryPhase::Done(remote);
                true
            },
            QueryPhase::Done(_) => false,
        }
    }

    /// The outcome, once the query is finished.
    pub fn outcome(&self) -> (r: Option<&QueryOutcome>)
        ensures
            match self.phase {
                QueryPhase::AwaitingRemote(_) => r is None,
                QueryPhase::Done(o) => r == Some(&o),
            },
    {
        match &self.phase {
            QueryPhase::AwaitingRemote(_) => None,
            QueryPhase::Done(o) => Some(o),
        }
    }
}

/// A query on a well-formed block number that fits in 64 bits asks the remote
/// client exactly once, for that number, and ends with the client's answer
/// unchanged; a second answer is not taken.
pub proof fn lemma_valid_query_asks_once(
    raw: Seq<char>,
    q: Query,
    first: QueryOutcome,
    second: QueryOutcome,
)
    requires
        is_number_text(raw),
        digits_value(raw) <= u64::MAX,
        started_from(raw, q),
    ensures
        pending_of(q) == Some(digits_value(raw) as u64),
        delivered(q, first).phase == QueryPhase::Done(first),
        pending_of(delivered(q, first)) is None,
        delivered(delivered(q, first), second) == delivered(q, first),
{
}

/// A query on text that is not a well-formed non-negative integer finishes as
/// an invalid number and never asks the remote client, whatever answer comes.
pub proof fn lemma_malformed_query_never_asks(raw: Seq<char>, q: Query, remote: QueryOutcome)
    requires
        !is_number_text(raw),
        started_from(raw, q),
    ensures
        pending_of(q) is None,
        q.phase matches QueryPhase::Done(o) && is_invalid_number(o),
        delivered(q, remote) == q,
{
}

} // verus!
