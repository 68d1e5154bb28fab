use vstd::prelude::*;

use pod_gateway::dispatch::PodBody;
use pod_gateway::error::Error;
use pod_gateway::models::{
    CapacityEntry, CapacityEntryView, NodeAddress, NodeCondition, NodeConditionView,
    NodeDaemonEndpoints, Pod, PodStatus, PodStatusView, PodView,
};
use pod_gateway::provider::Provider;
use pod_gateway::routes;
use pod_gateway::types::ProviderState;

/// A backend whose every operation fails with an unclassified error, to
/// exercise the fail-safe 500 path of each dispatcher.
struct FailingProvider;

impl Provider for FailingProvider {
    fn pods(&self) -> Seq<PodView> {
        unreachable!()
    }

    fn status_of(&self, _namespace: Seq<char>, _name: Seq<char>) -> Option<PodStatusView> {
        unreachable!()
    }

    fn logs_model(
        &self,
        _namespace: Seq<char>,
        _pod_name: Seq<char>,
        _container_name: Seq<char>,
        _tail: int,
    ) -> Option<Seq<char>> {
        unreachable!()
    }

    fn capacity_model(&self) -> Seq<CapacityEntryView> {
        unreachable!()
    }

    fn conditions_model(&self) -> Seq<NodeConditionView> {
        unreachable!()
    }

    fn endpoints_model(&self) -> u16 {
        unreachable!()
    }

    fn os_model(&self) -> Seq<char> {
        unreachable!()
    }

    fn create_pod(&mut self, _pod: &Pod) -> Result<(), Error> {
        Err(Error::new("backend down"))
    }

    fn update_pod(&mut self, _pod: &Pod) -> Result<(), Error> {
        Err(Error::new("backend down"))
    }

    fn delete_pod(&mut self, _pod: &Pod) -> Result<(), Error> {
        Err(Error::new("backend down"))
    }

    fn get_pod(&self, _namespace: &str, _name: &str) -> Result<Pod, Error> {
        Err(Error::not_found("no such pod"))
    }

    fn get_container_logs(
        &self,
        _namespace: &str,
        _pod_name: &str,
        _container_name: &str,
        _tail: i32,
    ) -> Result<String, Error> {
        Err(Error::not_found("no such pod"))
    }

    fn get_pod_status(&self, _namespace: &str, _name: &str) -> Result<PodStatus, Error> {
        Err(Error::not_found("no such pod"))
    }

    fn get_pods(&self) -> Result<Vec<Pod>, Error> {
        Err(Error::new("backend down"))
    }

    fn capacity(&self) -> Result<Vec<CapacityEntry>, Error> {
        Err(Error::new("backend down"))
    }

    fn node_conditions(&self) -> Result<Vec<NodeCondition>, Error> {
        Err(Error::new("backend down"))
    }

    fn node_addresses(&self) -> Result<Vec<NodeAddress>, Error> {
        Err(Error::new("backend down"))
    }

    fn node_daemon_endpoints(&self) -> Result<NodeDaemonEndpoints, Error> {
        Err(Error::new("backend down"))
    }

    fn operating_system(&self) -> String {
        "Linux".to_owned()
    }
}

fn failing_state() -> ProviderState<FailingProvider> {
    ProviderState::new(Box::new(FailingProvider))
}

#[test]
fn unclassified_backend_failures_map_to_500_with_message() {
    let state = failing_state();
    let r = routes::get_pods(&state);
    assert_eq!(r.status, 500);
    assert_eq!(r.body, "backend down");
    let r = routes::capacity(&state);
    assert_eq!(r.status, 500);
    assert_eq!(r.body, "backend down");
    let r = routes::node_conditions(&state);
    assert_eq!(r.status, 500);
    assert_eq!(r.body, "backend down");
}

#[test]
fn failed_mutations_surface_the_backend_error() {
    let state = failing_state();
    let p = Pod::new("ns".to_owned(), "a".to_owned());
    let r = routes::create_pod(&state, PodBody::Parsed(p));
    assert_eq!(r.status, 500);
    assert_eq!(r.body, "backend down");
}

#[test]
fn not_found_from_backend_lookup_maps_to_404() {
    let state = failing_state();
    let q: Vec<(String, String)> = Vec::new();
    let r = routes::get_pod(&state, &q);
    assert_eq!(r.status, 404);
    assert_eq!(r.body, "no such pod");
    let r = routes::get_pod_status(&state, &q);
    assert_eq!(r.status, 404);
    assert_eq!(r.body, "no such pod");
}

#[test]
fn input_validation_short_circuits_even_on_a_failing_backend() {
    let state = failing_state();
    let r = routes::create_pod(&state, PodBody::Empty);
    assert_eq!(r.status, 400);
    assert_eq!(r.body, "Empty pod specification received");
}
