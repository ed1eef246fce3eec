//! Re-serializing stored audio queries for one batched synthesis request.
//! Each stored blob must itself be valid JSON; the request body is the JSON
//! array of the re-serialized blobs, in slot order.

use vstd::prelude::*;
use crate::errors::BackendError;

verus! {

#[verifier::external_type_specification]
#[verifier::external_body]
pub struct ExJsonError(serde_json::Error);

/// Whether a text parses as one JSON value.
pub uninterp spec fn json_value_ok(s: Seq<char>) -> bool;

/// The compact rendering of the JSON value a text parses as; meaningful
/// when the text parses.  Parsing and rendering depend on the text alone.
pub uninterp spec fn json_compact_of(s: Seq<char>) -> Seq<char>;

/// Whether every query text of a batch parses as JSON.
pub open spec fn all_queries_json(qs: Seq<Seq<char>>) -> bool {
    forall|i: int| 0 <= i < qs.len() ==> json_value_ok(qs[i])
}

/// The re-serialized queries of a batch, comma-joined.
pub open spec fn joined_queries(qs: Seq<Seq<char>>) -> Seq<char>
    decreases qs.len(),
{
    if qs.len() == 0 {
        Seq::empty()
    } else if qs.len() == 1 {
        json_compact_of(qs[0])
    } else {
        joined_queries(qs.drop_last()) + ","@ + json_compact_of(qs.last())
    }
}

/// The body of one batched synthesis request: the JSON array holding the
/// batch's re-serialized queries in slot order.
pub open spec fn batch_body_chars(qs: Seq<Seq<char>>) -> Seq<char> {
    "["@ + joined_queries(qs) + "]"@
}

/// Relies on serde_json::from_str::<Value> and on Value's Display
/// implementation: whether a text parses as JSON, and the compact rendering
/// of the value it parses as, depend on the characters alone.
#[verifier::external_body]
fn reserialize_query(s: &str) -> (r: Result<String, serde_json::Error>)
    ensures
        r is Ok <==> json_value_ok(s@),
        r is Ok ==> r.unwrap()@ == json_compact_of(s@),
{
    let value: serde_json::Value = serde_json::from_str(s)?;
    Ok(value.to_string())
}

/// Re-serializes a batch of stored query blobs as one JSON array, the body
/// of a batched synthesis request: the blobs' compact renderings,
/// comma-joined inside brackets, in slot order.  Succeeds exactly when
/// every blob is valid JSON; any malformed blob is a backend error and
/// aborts the batch.
#[verifier::loop_isolation(false)]
pub fn prepare_batch_body(queries: &Vec<String>) -> (r: Result<String, BackendError>)
    ensures
        r is Ok <==> all_queries_json(queries.deep_view()),
        r matches Ok(b) ==> b@ == batch_body_chars(queries.deep_view()),
        r matches Err(e) ==> e == BackendError::MalformedQuery,
{
    let ghost qs = queries.deep_view();
    let mut body = String::from_str("[");
    let mut i: usize = 0;
    while i < queries.len()
        invariant
            i <= queries@.len(),
            forall|j: int| 0 <= j < i as int ==> json_value_ok(qs[j]),
            body@ == "["@ + joined_queries(qs.take(i as int)),
        decreases queries@.len() - i,
    {
        let piece = match reserialize_query(queries[i].as_str()) {
            Ok(piece) => piece,
            Err(_) => {
                proof {
                    assert(!json_value_ok(qs[i as int]));
                }
                return Err(BackendError::MalformedQuery);
            },
        };
        if i > 0 {
            body.append(",");
        }
        body.append(piece.as_str());
        proof {
            assert(qs.take(i as int + 1).drop_last() =~= qs.take(i as int));
            assert(qs.take(i as int + 1).last() == qs[i as int]);
            assert(body@ =~= "["@ + joined_queries(qs.take(i as int + 1)));
        }
        i = i + 1;
    }
    body.append("]");
    proof {
        assert(qs.take(queries@.len() as int) =~= qs);
        assert(body@ =~= batch_body_chars(qs));
    }
    Ok(body)
}

} // verus!
