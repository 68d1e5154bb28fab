//! The per-operation dispatchers. Each one validates its request input —
//! rejecting missing or malformed bodies with a client error before the
//! backend is touched — invokes the corresponding backend method, and turns
//! the outcome into a wire response, classifying backend errors into
//! statuses.

use vstd::prelude::*;
use crate::error::{Error, ErrorType, ErrorView, classify, classify_spec};
use crate::models::{Pod, PodView};
use crate::provider::{Provider, lemma_created_pod_is_retrievable, pod_lookup, remove_pod, upsert_pod};
use crate::utils::str_eq;
use crate::wire::{
    Response, ResponseView, capacity_json, conditions_json, pod_json, pod_status_json, pods_json,
    text_response, capacity_to_json, conditions_to_json, pod_status_to_json, pod_to_json,
    pods_to_json,
};

verus! {

/// What body parsing handed the gateway for a mutating operation: a pod
/// specification, no body at all, or a body that did not parse.
pub enum PodBody {
    Parsed(Pod),
    Empty,
    Malformed,
}

/// The response reporting a classified backend error: its status comes from
/// the error's kind, its body carries the error's message verbatim.
pub open spec fn error_response(e: ErrorView) -> ResponseView {
    ResponseView { status: classify_spec(e.etype), body: e.message }
}

/// A successful query response: the encoded payload under status 200.
pub open spec fn ok_json(body: Seq<char>) -> ResponseView {
    ResponseView { status: 200, body }
}

/// The diagnostic for a mutating request that carried no body.
pub open spec fn empty_body_message() -> Seq<char> {
    "Empty pod specification received"@
}

/// The diagnostic for a mutating request whose body did not parse.
pub open spec fn malformed_body_message() -> Seq<char> {
    "Invalid pod specification received"@
}

/// The confirmation for a successful create.
pub open spec fn pod_created_message() -> Seq<char> {
    "Pod created"@
}

/// The confirmation for a successful update.
pub open spec fn pod_updated_message() -> Seq<char> {
    "Pod updated"@
}

/// The confirmation for a successful delete.
pub open spec fn pod_deleted_message() -> Seq<char> {
    "Pod deleted"@
}

/// Turn a backend error into the response that reports it.
pub fn error_to_response(e: Error) -> (r: Response)
    ensures
        r@ == error_response(e@),
{
    let status = classify(&e);
    Response { status, body: e.message }
}

/// Extract the pod from a mutating request's body, or the client-error
/// response that rejects the request before it reaches the backend.
pub fn pod_from_body(body: PodBody) -> (r: Result<Pod, Response>)
    ensures
        match body {
            PodBody::Parsed(p) => r matches Ok(q) && q@ == p@,
            PodBody::Empty => r matches Err(resp) && resp@ == text_response(
                400,
                empty_body_message(),
            ),
            PodBody::Malformed => r matches Err(resp) && resp@ == text_response(
                400,
                malformed_body_message(),
            ),
        },
{
    match body {
        PodBody::Parsed(p) => Ok(p),
        PodBody::Empty => Err(
            Response::text(400, "Empty pod specification received".to_owned()),
        ),
        PodBody::Malformed => Err(
            Response::text(400, "Invalid pod specification received".to_owned()),
        ),
    }
}

/// The views of a query-parameter list.
pub open spec fn pair_views(q: Seq<(String, String)>) -> Seq<(Seq<char>, Seq<char>)> {
    q.map_values(|p: (String, String)| (p.0@, p.1@))
}

/// The value of the last binding of `key` in the query, or the empty string
/// when the parameter is absent: a missing parameter defaults to empty, and
/// "not found" semantics are left to the backend's own lookup.
pub open spec fn query_lookup(q: Seq<(Seq<char>, Seq<char>)>, key: Seq<char>) -> Seq<char>
    decreases q.len(),
{
    if q.len() == 0 {
        Seq::empty()
    } else if q.last().0 == key {
        q.last().1
    } else {
        query_lookup(q.drop_last(), key)
    }
}

/// Read one query parameter, defaulting to the empty string.
pub fn query_get(q: &Vec<(String, String)>, key: &str) -> (r: String)
    ensures
        r@ == query_lookup(pair_views(q@), key@),
{
    let n = q.len();
    let mut i: usize = n;
    proof {
        assert(pair_views(q@).subrange(0, n as int) =~= pair_views(q@));
    }
    while i > 0
        invariant
            i <= n,
            n == q@.len(),
            query_lookup(pair_views(q@), key@) == query_lookup(
                pair_views(q@).subrange(0, i as int),
                key@,
            ),
        decreases i,
    {
        i = i - 1;
        let pair = &q[i];
        proof {
            let pv = pair_views(q@).subrange(0, i as int + 1);
            assert(pv.last() == (q@[i as int].0@, q@[i as int].1@));
            assert(pv.drop_last() =~= pair_views(q@).subrange(0, i as int));
        }
        if str_eq(pair.0.as_str(), key) {
            return pair.1.clone();
        }
    }
    proof {
        assert(pair_views(q@).subrange(0, 0) =~= Seq::<(Seq<char>, Seq<char>)>::empty());
    }
    String::new()
}

/// Create a pod. A missing or malformed body is rejected with a client
/// error and the backend is left untouched; otherwise the backend's create
/// is applied and its outcome reported.
pub fn create_pod<T: Provider>(prov: &mut T, body: PodBody) -> (r: Response)
    ensures
        body is Empty ==> r@ == text_response(400, empty_body_message()) && final(prov).pods()
            == old(prov).pods(),
        body is Malformed ==> r@ == text_response(400, malformed_body_message()) && final(prov).pods()
            == old(prov).pods(),
        body matches PodBody::Parsed(p) ==> {
            ||| (r@ == text_response(200, pod_created_message()) && final(prov).pods()
                == upsert_pod(old(prov).pods(), p@))
            ||| (exists|e: ErrorView|
                r@ == error_response(e) && final(prov).pods() == old(prov).pods())
        },
{
    let pod = match pod_from_body(body) {
        Ok(p) => p,
        Err(resp) => {
            return resp;
        },
    };
    match prov.create_pod(&pod) {
        Ok(()) => Response::text(200, "Pod created".to_owned()),
        Err(e) => {
            let ghost ev = e@;
            let r = error_to_response(e);
            proof {
                assert(r@ == error_response(ev));
            }
            r
        },
    }
}

/// Update a pod, under the same validation and reporting as create.
pub fn update_pod<T: Provider>(prov: &mut T, body: PodBody) -> (r: Response)
    ensures
        body is Empty ==> r@ == text_response(400, empty_body_message()) && final(prov).pods()
            == old(prov).pods(),
        body is Malformed ==> r@ == text_response(400, malformed_body_message()) && final(prov).pods()
            == old(prov).pods(),
        body matches PodBody::Parsed(p) ==> {
            ||| (r@ == text_response(200, pod_updated_message()) && final(prov).pods()
                == upsert_pod(old(prov).pods(), p@))
            ||| (exists|e: ErrorView|
                r@ == error_response(e) && final(prov).pods() == old(prov).pods())
        },
{
    let pod = match pod_from_body(body) {
        Ok(p) => p,
        Err(resp) => {
            return resp;
        },
    };
    match prov.update_pod(&pod) {
        Ok(()) => Response::text(200, "Pod updated".to_owned()),
        Err(e) => {
            let ghost ev = e@;
            let r = error_to_response(e);
            proof {
                assert(r@ == error_response(ev));
            }
            r
        },
    }
}

/// Delete a pod, under the same validation and reporting as create.
pub fn delete_pod<T: Provider>(prov: &mut T, body: PodBody) -> (r: Response)
    ensures
        body is Empty ==> r@ == text_response(400, empty_body_message()) && final(prov).pods()
            == old(prov).pods(),
        body is Malformed ==> r@ == text_response(400, malformed_body_message()) && final(prov).pods()
            == old(prov).pods(),
        body matches PodBody::Parsed(p) ==> {
            ||| (r@ == text_response(200, pod_deleted_message()) && final(prov).pods()
                == remove_pod(old(prov).pods(), p@.namespace, p@.name))
            ||| (exists|e: ErrorView|
                r@ == error_response(e) && final(prov).pods() == old(prov).pods())
        },
{
    let pod = match pod_from_body(body) {
        Ok(p) => p,
        Err(resp) => {
            return resp;
        },
    };
    match prov.delete_pod(&pod) {
        Ok(()) => Response::text(200, "Pod deleted".to_owned()),
        Err(e) => {
            let ghost ev = e@;
            let r = error_to_response(e);
            proof {
                assert(r@ == error_response(ev));
            }
            r
        },
    }
}

/// Look one pod up under the namespace and name named by the query. A held
/// pod is returned encoded under status 200; an absent one is reported with
/// the backend's `NotFound` error, classified as 404.
pub fn get_pod<T: Provider>(prov: &T, query: &Vec<(String, String)>) -> (r: Response)
    ensures
        ({
            let ns = query_lookup(pair_views(query@), "namespace"@);
            let nm = query_lookup(pair_views(query@), "name"@);
            match pod_lookup(prov.pods(), ns, nm) {
                Some(p) => r@ == ok_json(pod_json(p)),
                None => r@.status == 404 && (exists|e: ErrorView|
                    e.etype == ErrorType::NotFound && r@ == error_response(e)),
            }
        }),
{
    let ns = query_get(query, "namespace");
    let nm = query_get(query, "name");
    match prov.get_pod(ns.as_str(), nm.as_str()) {
        Ok(p) => {
            let body = pod_to_json(&p);
            Response::text(200, body)
        },
        Err(e) => {
            let ghost ev = e@;
            let r = error_to_response(e);
            proof {
                assert(r@ == error_response(ev));
            }
            r
        },
    }
}

/// Report one pod's status, under the same lookup discipline as `get_pod`.
pub fn get_pod_status<T: Provider>(prov: &T, query: &Vec<(String, String)>) -> (r: Response)
    ensures
        ({
            let ns = query_lookup(pair_views(query@), "namespace"@);
            let nm = query_lookup(pair_views(query@), "name"@);
            match prov.status_of(ns, nm) {
                Some(s) => r@ == ok_json(pod_status_json(s)),
                None => r@.status == 404 && (exists|e: ErrorView|
                    e.etype == ErrorType::NotFound && r@ == error_response(e)),
            }
        }),
{
    let ns = query_get(query, "namespace");
    let nm = query_get(query, "name");
    match prov.get_pod_status(ns.as_str(), nm.as_str()) {
        Ok(s) => {
            let body = pod_status_to_json(&s);
            Response::text(200, body)
        },
        Err(e) => {
            let ghost ev = e@;
            let r = error_to_response(e);
            proof {
                assert(r@ == error_response(ev));
            }
            r
        },
    }
}

/// List every pod the backend holds, encoded under status 200, or report
/// the backend's failure classified.
pub fn get_pods<T: Provider>(prov: &T) -> (r: Response)
    ensures
        ({
            ||| r@ == ok_json(pods_json(prov.pods()))
            ||| (exists|e: ErrorView| r@ == error_response(e))
        }),
{
    match prov.get_pods() {
        Ok(v) => {
            let body = pods_to_json(&v);
            Response::text(200, body)
        },
        Err(e) => {
            let ghost ev = e@;
            let r = error_to_response(e);
            proof {
                assert(r@ == error_response(ev));
            }
            r
        },
    }
}

/// Report the backend's capacity figures as one JSON object.
pub fn capacity<T: Provider>(prov: &T) -> (r: Response)
    ensures
        ({
            ||| r@ == ok_json(capacity_json(prov.capacity_model()))
            ||| (exists|e: ErrorView| r@ == error_response(e))
        }),
{
    match prov.capacity() {
        Ok(v) => {
            let body = capacity_to_json(&v);
            Response::text(200, body)
        },
        Err(e) => {
            let ghost ev = e@;
            let r = error_to_response(e);
            proof {
                assert(r@ == error_response(ev));
            }
            r
        },
    }
}

/// Report the backend's node conditions as one JSON array.
pub fn node_conditions<T: Provider>(prov: &T) -> (r: Response)
    ensures
        ({
            ||| r@ == ok_json(conditions_json(prov.conditions_model()))
            ||| (exists|e: ErrorView| r@ == error_response(e))
        }),
{
    match prov.node_conditions() {
        Ok(v) => {
            let body = conditions_to_json(&v);
            Response::text(200, body)
        },
        Err(e) => {
            let ghost ev = e@;
            let r = error_to_response(e);
            proof {
                assert(r@ == error_response(ev));
            }
            r
        },
    }
}

/// The response of the operating-system query: always a success carrying
/// the backend's plain string.
pub open spec fn os_response(os: Seq<char>) -> ResponseView {
    ResponseView { status: 200, body: os }
}

/// Report the backend's operating system as plain text.
pub fn operating_system<T: Provider>(prov: &T) -> (r: Response)
    ensures
        r@ == os_response(prov.os_model()),
{
    let os = prov.operating_system();
    Response::text(200, os)
}

/// Law: the operating-system query is an idempotent read. Its response is a
/// function of the backend state alone, always succeeds with status 200,
/// and carries the backend's string unchanged, so repeated queries against
/// an unchanged backend return the same response.
pub proof fn lemma_operating_system_idempotent(os: Seq<char>, r1: ResponseView, r2: ResponseView)
    requires
        r1 == os_response(os),
        r2 == os_response(os),
    ensures
        r1 == r2,
        r1.status == 200,
        r1.body == os,
{
}

/// Law: the rejection of an empty body is distinguishable from the
/// rejection of a malformed body — both are client errors under status 400,
/// but their diagnostics differ.
pub proof fn lemma_empty_and_malformed_bodies_differ()
    ensures
        empty_body_message() != malformed_body_message(),
{
    reveal_strlit("Empty pod specification received");
    reveal_strlit("Invalid pod specification received");
    assert(empty_body_message()[0] == 'E');
    assert(malformed_body_message()[0] == 'I');
}

/// Law: after a successful create of pod `p`, a get-pod lookup under `p`'s
/// namespace and name finds a pod — so the response the lookup determines
/// is a success carrying exactly `p`'s encoding, matching `p`'s identity.
pub proof fn lemma_create_then_get(pods: Seq<PodView>, p: PodView, r: ResponseView)
    requires
        ({
            let after = upsert_pod(pods, p);
            match pod_lookup(after, p.namespace, p.name) {
                Some(q) => r == ok_json(pod_json(q)),
                None => r.status == 404,
            }
        }),
    ensures
        r == ok_json(pod_json(p)),
        r.status == 200,
{
    lemma_created_pod_is_retrievable(pods, p);
}

} // verus!
