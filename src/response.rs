use vstd::prelude::*;
use crate::block::{block_text, describe_block, QueryOutcome};
use crate::query::{Query, QueryPhase};
use crate::number::{is_digit, is_number_text, lemma_decimal_digits};
use crate::text::{decimal, hex_of, push_decimal};

verus! {

/// A status code and a text body for the network endpoint.
#[derive(Clone, Debug, PartialEq, Eq)]
pub struct HttpReply {
    pub status: u16,
    pub body: String,
}

pub open spec fn outcome_status(o: QueryOutcome) -> u16 {
    match o {
        QueryOutcome::Found(_) => 200,
        QueryOutcome::NotFound => 404,
        QueryOutcome::Failed(_) => 500,
    }
}

/// The text that reports an outcome for `number`: the block's description, the
/// absence of the block, or the remote client's failure.
pub open spec fn outcome_text(number: u64, o: QueryOutcome) -> Seq<char> {
    match o {
        QueryOutcome::Found(meta) => block_text(number, meta),
        QueryOutcome::NotFound => "block not found"@,
        QueryOutcome::Failed(reason) => "failed to fetch block "@ + decimal(number as nat) + ": "@
            + reason@,
    }
}

/// Renders the text of an outcome for `number`, as both frontends show it.
pub fn outcome_message(number: u64, outcome: &QueryOutcome) -> (r: String)
    ensures
        r@ == outcome_text(number, *outcome),
{
    match outcome {
        QueryOutcome::Found(meta) => describe_block(number, meta),
        QueryOutcome::NotFound => String::from_str("block not found"),
        QueryOutcome::Failed(reason) => {
            let mut out = String::from_str("failed to fetch block ");
            push_decimal(&mut out, number);
            out.append(": ");
            out.append(reason.as_str());
            out
        },
    }
}

/// The reply to a request whose number was valid and reached the remote client.
pub fn reply_for(number: u64, outcome: &QueryOutcome) -> (r: HttpReply)
    ensures
        r.status == outcome_status(*outcome),
        r.body@ == outcome_text(number, *outcome),
{
    let status: u16 = match outcome {
        QueryOutcome::Found(_) => 200,
        QueryOutcome::NotFound => 404,
        QueryOutcome::Failed(_) => 500,
    };
    HttpReply { status, body: outcome_message(number, outcome) }
}

/// The reply to a request whose block number was malformed.
pub fn reply_invalid() -> (r: HttpReply)
    ensures
        r.status == 400,
        r.body@ == "invalid block number"@,
{
    HttpReply { status: 400, body: String::from_str("invalid block number") }
}

/// The reply that a finished query gets: a client error when its text was no
/// block number, else the reply for the remote client's outcome. A query that
/// still waits for the remote client gets none yet.
pub fn reply_to(query: &Query) -> (r: Option<HttpReply>)
    requires
        query.well_formed(),
    ensures
        match query.phase {
            QueryPhase::AwaitingRemote(_) => r is None,
            QueryPhase::Done(o) => match query.number {
                None => r matches Some(reply) && reply.status == 400 && reply.body@
                    == "invalid block number"@,
                Some(n) => r matches Some(reply) && reply.status == outcome_status(o)
                    && reply.body@ == outcome_text(n, o),
            },
        },
{
    match (&query.phase, query.number) {
        (QueryPhase::AwaitingRemote(_), _) => None,
        (QueryPhase::Done(_), None) => Some(reply_invalid()),
        (QueryPhase::Done(o), Some(n)) => Some(reply_for(n, o)),
    }
}

/// Digits that run up to a colon are told apart by the text around them.
proof fn lemma_number_before_colon(p: Seq<char>, a: Seq<char>, r: Seq<char>, b: Seq<char>, q: Seq<char>)
    requires
        is_number_text(a),
        is_number_text(b),
        r.len() > 0 && r[0] == ':',
        q.len() > 0 && q[0] == ':',
        p + a + r == p + b + q,
    ensures
        a == b,
{
    let x = p + a + r;
    let y = p + b + q;
    if a.len() < b.len() {
        assert(x[(p.len() + a.len()) as int] == ':');
        assert(y[(p.len() + a.len()) as int] == b[a.len() as int]);
        assert(is_digit(b[a.len() as int]));
    } else if b.len() < a.len() {
        assert(y[(p.len() + b.len()) as int] == ':');
        assert(x[(p.len() + b.len()) as int] == a[b.len() as int]);
        assert(is_digit(a[b.len() as int]));
    } else {
        assert forall|i: int| 0 <= i < a.len() implies a[i] == b[i] by {
            assert(x[p.len() + i] == a[i]);
            assert(y[p.len() + i] == b[i]);
        }
        assert(a =~= b);
    }
}

/// Replies for two different block numbers never read alike when both found
/// their block, or both failed upstream: each such body names its own number.
pub proof fn lemma_replies_keep_their_number(n1: u64, n2: u64, o1: QueryOutcome, o2: QueryOutcome)
    requires
        n1 != n2,
        (o1 is Found && o2 is Found) || (o1 is Failed && o2 is Failed),
    ensures
        outcome_text(n1, o1) != outcome_text(n2, o2),
{
    lemma_decimal_digits(n1 as nat);
    lemma_decimal_digits(n2 as nat);
    let d1 = decimal(n1 as nat);
    let d2 = decimal(n2 as nat);
    if outcome_text(n1, o1) == outcome_text(n2, o2) {
        match (o1, o2) {
            (QueryOutcome::Found(m1), QueryOutcome::Found(m2)) => {
                reveal_strlit(": Hash: 0x");
                let r1 = ": Hash: 0x"@ + hex_of(m1.hash@) + ", Timestamp: "@ + decimal(m1.timestamp as nat);
                let r2 = ": Hash: 0x"@ + hex_of(m2.hash@) + ", Timestamp: "@ + decimal(m2.timestamp as nat);
                assert(outcome_text(n1, o1) =~= "Block "@ + d1 + r1);
                assert(outcome_text(n2, o2) =~= "Block "@ + d2 + r2);
                lemma_number_before_colon("Block "@, d1, r1, d2, r2);
            },
            (QueryOutcome::Failed(e1), QueryOutcome::Failed(e2)) => {
                reveal_strlit(": ");
                let r1 = ": "@ + e1@;
                let r2 = ": "@ + e2@;
                assert(outcome_text(n1, o1) =~= "failed to fetch block "@ + d1 + r1);
                assert(outcome_text(n2, o2) =~= "failed to fetch block "@ + d2 + r2);
                lemma_number_before_colon("failed to fetch block "@, d1, r1, d2, r2);
            },
            _ => {},
        }
    }
}

} // verus!
