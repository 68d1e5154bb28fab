//! The route table and the per-route handlers. The table is a fixed mapping
//! from method and path to operation; each handler acquires the shared
//! backend handle at the access level its operation requires — shared for
//! queries, exclusive for mutations — and hands the request to the matching
//! dispatcher.

use vstd::prelude::*;
use crate::dispatch;
use crate::dispatch::{
    PodBody, empty_body_message, error_response, malformed_body_message, ok_json, os_response,
    pod_created_message, pod_deleted_message, pod_updated_message,
};
use crate::error::{ErrorType, ErrorView};
use crate::models::PodView;
use crate::provider::Provider;
use crate::types::ProviderState;
use crate::utils::str_eq;
use crate::wire::{
    Response, capacity_json, conditions_json, pod_json, pod_status_json, pods_json, text_response,
};

verus! {

/// The HTTP methods the gateway routes.
#[derive(Clone, Copy, Debug, PartialEq, Eq, Structural)]
pub enum Method {
    Get,
    Post,
    Put,
}

/// The operations the gateway exposes.
#[derive(Clone, Copy, Debug, PartialEq, Eq, Structural)]
pub enum Operation {
    Index,
    CreatePod,
    UpdatePod,
    DeletePod,
    GetPod,
    GetPodStatus,
    GetPods,
    Capacity,
    NodeConditions,
    OperatingSystem,
}

/// The fixed route table: which operation a method and path name. Built
/// once, immutable thereafter; a request outside the table has no
/// dispatcher.
pub open spec fn route_spec(method: Method, path: Seq<char>) -> Option<Operation> {
    match method {
        Method::Get => if path == "/"@ {
            Some(Operation::Index)
        } else {
            None
        },
        Method::Post => if path == "/createPod"@ {
            Some(Operation::CreatePod)
        } else {
            None
        },
        Method::Put => if path == "/updatePod"@ {
            Some(Operation::UpdatePod)
        } else if path == "/deletePod"@ {
            Some(Operation::DeletePod)
        } else if path == "/getPod"@ {
            Some(Operation::GetPod)
        } else if path == "/getPodStatus"@ {
            Some(Operation::GetPodStatus)
        } else if path == "/getPods"@ {
            Some(Operation::GetPods)
        } else if path == "/capacity"@ {
            Some(Operation::Capacity)
        } else if path == "/nodeConditions"@ {
            Some(Operation::NodeConditions)
        } else if path == "/operatingSystem"@ {
            Some(Operation::OperatingSystem)
        } else {
            None
        },
    }
}

/// Look an inbound method and path up in the route table.
pub fn route_lookup(method: Method, path: &str) -> (r: Option<Operation>)
    ensures
        r == route_spec(method, path@),
{
    match method {
        Method::Get => if str_eq(path, "/") {
            Some(Operation::Index)
        } else {
            None
        },
        Method::Post => if str_eq(path, "/createPod") {
            Some(Operation::CreatePod)
        } else {
            None
        },
        Method::Put => if str_eq(path, "/updatePod") {
            Some(Operation::UpdatePod)
        } else if str_eq(path, "/deletePod") {
            Some(Operation::DeletePod)
        } else if str_eq(path, "/getPod") {
            Some(Operation::GetPod)
        } else if str_eq(path, "/getPodStatus") {
            Some(Operation::GetPodStatus)
        } else if str_eq(path, "/getPods") {
            Some(Operation::GetPods)
        } else if str_eq(path, "/capacity") {
            Some(Operation::Capacity)
        } else if str_eq(path, "/nodeConditions") {
            Some(Operation::NodeConditions)
        } else if str_eq(path, "/operatingSystem") {
            Some(Operation::OperatingSystem)
        } else {
            None
        },
    }
}

/// The fixed greeting of the index route.
pub open spec fn welcome_message() -> Seq<char> {
    "Welcome to Rust kubelet provider"@
}

/// The index route: a fixed welcome under status 200.
pub fn default() -> (r: Response)
    ensures
        r@ == text_response(200, welcome_message()),
{
    Response::text(200, "Welcome to Rust kubelet provider".to_owned())
}

/// Create a pod: exclusive access to the backend for the whole operation.
pub fn create_pod<T: Provider>(state: &ProviderState<T>, body: PodBody) -> (r: Response)
    ensures
        body is Empty ==> r@ == text_response(400, empty_body_message()),
        body is Malformed ==> r@ == text_response(400, malformed_body_message()),
        body is Parsed ==> (r@ == text_response(200, pod_created_message()) || (exists|
            e: ErrorView,
        | r@ == error_response(e))),
{
    proof {
        vstd::prelude::use_type_invariant(state);
    }
    let (mut prov, handle) = state.lock.acquire_write();
    let r = dispatch::create_pod(&mut *prov, body);
    handle.release_write(prov);
    r
}

/// Update a pod: exclusive access to the backend for the whole operation.
pub fn update_pod<T: Provider>(state: &ProviderState<T>, body: PodBody) -> (r: Response)
    ensures
        body is Empty ==> r@ == text_response(400, empty_body_message()),
        body is Malformed ==> r@ == text_response(400, malformed_body_message()),
        body is Parsed ==> (r@ == text_response(200, pod_updated_message()) || (exists|
            e: ErrorView,
        | r@ == error_response(e))),
{
    proof {
        vstd::prelude::use_type_invariant(state);
    }
    let (mut prov, handle) = state.lock.acquire_write();
    let r = dispatch::update_pod(&mut *prov, body);
    handle.release_write(prov);
    r
}

/// Delete a pod: exclusive access to the backend for the whole operation.
pub fn delete_pod<T: Provider>(state: &ProviderState<T>, body: PodBody) -> (r: Response)
    ensures
        body is Empty ==> r@ == text_response(400, empty_body_message()),
        body is Malformed ==> r@ == text_response(400, malformed_body_message()),
        body is Parsed ==> (r@ == text_response(200, pod_deleted_message()) || (exists|
            e: ErrorView,
        | r@ == error_response(e))),
{
    proof {
        vstd::prelude::use_type_invariant(state);
    }
    let (mut prov, handle) = state.lock.acquire_write();
    let r = dispatch::delete_pod(&mut *prov, body);
    handle.release_write(prov);
    r
}

/// Look one pod up: shared access, so concurrent queries may interleave.
pub fn get_pod<T: Provider>(state: &ProviderState<T>, query: &Vec<(String, String)>) -> (r:
    Response)
    ensures
        ({
            ||| (exists|p: PodView| r@ == ok_json(pod_json(p)))
            ||| (r@.status == 404 && exists|e: ErrorView|
                e.etype == ErrorType::NotFound && r@ == error_response(e))
        }),
{
    let read_handle = state.lock.acquire_read();
    let r = dispatch::get_pod(&**read_handle.borrow(), query);
    read_handle.release_read();
    r
}

/// Report one pod's status: shared access.
pub fn get_pod_status<T: Provider>(state: &ProviderState<T>, query: &Vec<(String, String)>) -> (r:
    Response)
    ensures
        ({
            ||| (exists|s: crate::models::PodStatusView| r@ == ok_json(pod_status_json(s)))
            ||| (r@.status == 404 && exists|e: ErrorView|
                e.etype == ErrorType::NotFound && r@ == error_response(e))
        }),
{
    let read_handle = state.lock.acquire_read();
    let r = dispatch::get_pod_status(&**read_handle.borrow(), query);
    read_handle.release_read();
    r
}

/// List the backend's pods: shared access.
pub fn get_pods<T: Provider>(state: &ProviderState<T>) -> (r: Response)
    ensures
        ({
            ||| (exists|pods: Seq<PodView>| r@ == ok_json(pods_json(pods)))
            ||| (exists|e: ErrorView| r@ == error_response(e))
        }),
{
    let read_handle = state.lock.acquire_read();
    let r = dispatch::get_pods(&**read_handle.borrow());
    read_handle.release_read();
    r
}

/// Report the backend's capacity: shared access.
pub fn capacity<T: Provider>(state: &ProviderState<T>) -> (r: Response)
    ensures
        ({
            ||| (exists|es: Seq<crate::models::CapacityEntryView>| r@ == ok_json(capacity_json(es)))
            ||| (exists|e: ErrorView| r@ == error_response(e))
        }),
{
    let read_handle = state.lock.acquire_read();
    let r = dispatch::capacity(&**read_handle.borrow());
    read_handle.release_read();
    r
}

/// Report the node conditions: shared access.
pub fn node_conditions<T: Provider>(state: &ProviderState<T>) -> (r: Response)
    ensures
        ({
            ||| (exists|cs: Seq<crate::models::NodeConditionView>|
                r@ == ok_json(conditions_json(cs)))
            ||| (exists|e: ErrorView| r@ == error_response(e))
        }),
{
    let read_handle = state.lock.acquire_read();
    let r = dispatch::node_conditions(&**read_handle.borrow());
    read_handle.release_read();
    r
}

/// Report the operating system: shared access, always a success.
pub fn operating_system<T: Provider>(state: &ProviderState<T>) -> (r: Response)
    ensures
        exists|os: Seq<char>| r@ == os_response(os),
        r@.status == 200,
{
    let read_handle = state.lock.acquire_read();
    let r = dispatch::operating_system(&**read_handle.borrow());
    read_handle.release_read();
    r
}

/// Serve one routed request: look the method and path up and run the
/// matching handler. `None` exactly when no route matches — the transport
/// rejects such requests before any dispatcher runs.
pub fn handle_request<T: Provider>(
    state: &ProviderState<T>,
    method: Method,
    path: &str,
    body: PodBody,
    query: &Vec<(String, String)>,
) -> (r: Option<Response>)
    ensures
        r is Some <==> route_spec(method, path@) is Some,
        route_spec(method, path@) == Some(Operation::Index) ==> (r matches Some(resp) && resp@
            == text_response(200, welcome_message())),
        route_spec(method, path@) == Some(Operation::OperatingSystem) ==> (r matches Some(resp)
            && resp@.status == 200),
        (route_spec(method, path@) == Some(Operation::CreatePod) || route_spec(method, path@)
            == Some(Operation::UpdatePod) || route_spec(method, path@) == Some(
            Operation::DeletePod,
        )) && body is Empty ==> (r matches Some(resp) && resp@ == text_response(
            400,
            empty_body_message(),
        )),
        (route_spec(method, path@) == Some(Operation::CreatePod) || route_spec(method, path@)
            == Some(Operation::UpdatePod) || route_spec(method, path@) == Some(
            Operation::DeletePod,
        )) && body is Malformed ==> (r matches Some(resp) && resp@ == text_response(
            400,
            malformed_body_message(),
        )),
{
    match route_lookup(method, path) {
        None => None,
        Some(op) => Some(
            match op {
                Operation::Index => default(),
                Operation::CreatePod => create_pod(state, body),
                Operation::UpdatePod => update_pod(state, body),
                Operation::DeletePod => delete_pod(state, body),
                Operation::GetPod => get_pod(state, query),
                Operation::GetPodStatus => get_pod_status(state, query),
                Operation::GetPods => get_pods(state),
                Operation::Capacity => capacity(state),
                Operation::NodeConditions => node_conditions(state),
                Operation::OperatingSystem => operating_system(state),
            },
        ),
    }
}

} // verus!
