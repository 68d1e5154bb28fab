//! The backend contract: the capability set a pluggable pod backend must
//! implement, stated over a mathematical model of the backend's state so
//! that the dispatch layer can be verified against it.

use vstd::prelude::*;
use crate::error::{Error, ErrorType};
use crate::models::{
    CapacityEntry, CapacityEntryView, NodeAddress, NodeCondition, NodeConditionView,
    NodeDaemonEndpoints, Pod, PodStatus, PodStatusView, PodView, capacity_views, condition_views,
    pod_views,
};

verus! {

/// The first pod in `s` filed under the given namespace and name.
pub open spec fn pod_lookup(s: Seq<PodView>, namespace: Seq<char>, name: Seq<char>) -> Option<
    PodView,
>
    decreases s.len(),
{
    if s.len() == 0 {
        None
    } else if s[0].namespace == namespace && s[0].name == name {
        Some(s[0])
    } else {
        pod_lookup(s.subrange(1, s.len() as int), namespace, name)
    }
}

/// Holds of the pods not filed under the given namespace and name.
pub open spec fn other_identity(namespace: Seq<char>, name: Seq<char>) -> spec_fn(PodView) -> bool {
    |p: PodView| !(p.namespace == namespace && p.name == name)
}

/// `s` without every pod filed under the given namespace and name.
pub open spec fn remove_pod(s: Seq<PodView>, namespace: Seq<char>, name: Seq<char>) -> Seq<
    PodView,
> {
    s.filter(other_identity(namespace, name))
}

/// The pod store after `p` is created or updated: any pod filed under the
/// same identity is replaced, and `p` stands last.
pub open spec fn upsert_pod(s: Seq<PodView>, p: PodView) -> Seq<PodView> {
    remove_pod(s, p.namespace, p.name).push(p)
}

/// The capability set a backend must implement. Mutating operations relate
/// the new pod store to the old one; queries report exactly what the model
/// holds, and surface `NotFound` precisely when a looked-up pod is absent.
pub trait Provider {
    /// The pods the backend currently holds, oldest first.
    spec fn pods(&self) -> Seq<PodView>;

    /// The status the backend reports for the pod under the given identity.
    spec fn status_of(&self, namespace: Seq<char>, name: Seq<char>) -> Option<PodStatusView>;

    /// The log text the backend holds for the given container, if any.
    spec fn logs_model(
        &self,
        namespace: Seq<char>,
        pod_name: Seq<char>,
        container_name: Seq<char>,
        tail: int,
    ) -> Option<Seq<char>>;

    /// The capacity figures the backend reports.
    spec fn capacity_model(&self) -> Seq<CapacityEntryView>;

    /// The node conditions the backend reports.
    spec fn conditions_model(&self) -> Seq<NodeConditionView>;

    /// The kubelet port the backend advertises.
    spec fn endpoints_model(&self) -> u16;

    /// The operating system name the backend reports.
    spec fn os_model(&self) -> Seq<char>;

    fn create_pod(&mut self, pod: &Pod) -> (r: Result<(), Error>)
        ensures
            r is Ok ==> final(self).pods() == upsert_pod(old(self).pods(), pod@),
            r is Err ==> final(self).pods() == old(self).pods();

    fn update_pod(&mut self, pod: &Pod) -> (r: Result<(), Error>)
        ensures
            r is Ok ==> final(self).pods() == upsert_pod(old(self).pods(), pod@),
            r is Err ==> final(self).pods() == old(self).pods();

    fn delete_pod(&mut self, pod: &Pod) -> (r: Result<(), Error>)
        ensures
            r is Ok ==> final(self).pods() == remove_pod(
                old(self).pods(),
                pod@.namespace,
                pod@.name,
            ),
            r is Err ==> final(self).pods() == old(self).pods();

    fn get_pod(&self, namespace: &str, name: &str) -> (r: Result<Pod, Error>)
        ensures
            match r {
                Ok(p) => pod_lookup(self.pods(), namespace@, name@) == Some(p@),
                Err(e) => pod_lookup(self.pods(), namespace@, name@) is None && e@.etype
                    == ErrorType::NotFound,
            };

    fn get_container_logs(
        &self,
        namespace: &str,
        pod_name: &str,
        container_name: &str,
        tail: i32,
    ) -> (r: Result<String, Error>)
        ensures
            match r {
                Ok(s) => self.logs_model(namespace@, pod_name@, container_name@, tail as int)
                    == Some(s@),
                Err(e) => self.logs_model(namespace@, pod_name@, container_name@, tail as int)
                    is None && e@.etype == ErrorType::NotFound,
            };

    fn get_pod_status(&self, namespace: &str, name: &str) -> (r: Result<PodStatus, Error>)
        ensures
            match r {
                Ok(s) => self.status_of(namespace@, name@) == Some(s@),
                Err(e) => self.status_of(namespace@, name@) is None && e@.etype
                    == ErrorType::NotFound,
            };

    fn get_pods(&self) -> (r: Result<Vec<Pod>, Error>)
        ensures
            match r {
                Ok(v) => pod_views(v@) == self.pods(),
                Err(_) => true,
            };

    fn capacity(&self) -> (r: Result<Vec<CapacityEntry>, Error>)
        ensures
            match r {
                Ok(v) => capacity_views(v@) == self.capacity_model(),
                Err(_) => true,
            };

    fn node_conditions(&self) -> (r: Result<Vec<NodeCondition>, Error>)
        ensures
            match r {
                Ok(v) => condition_views(v@) == self.conditions_model(),
                Err(_) => true,
            };

    fn node_addresses(&self) -> (r: Result<Vec<NodeAddress>, Error>);

    fn node_daemon_endpoints(&self) -> (r: Result<NodeDaemonEndpoints, Error>)
        ensures
            match r {
                Ok(ep) => ep.kubelet_port == self.endpoints_model(),
                Err(_) => true,
            };

    fn operating_system(&self) -> (r: String)
        ensures
            r@ == self.os_model();
}

/// Removing an identity from a store with one more pod keeps that pod
/// exactly when it is filed under a different identity.
pub proof fn lemma_remove_pod_push(s: Seq<PodView>, q: PodView, namespace: Seq<char>, name: Seq<
    char,
>)
    ensures
        remove_pod(s.push(q), namespace, name) == if q.namespace == namespace && q.name == name {
            remove_pod(s, namespace, name)
        } else {
            remove_pod(s, namespace, name).push(q)
        },
{
    reveal(Seq::filter);
    assert(s.push(q).drop_last() =~= s);
    assert(s.push(q).last() == q);
}

proof fn lemma_lookup_past_nonmatching(t: Seq<PodView>, p: PodView)
    requires
        forall|j: int| 0 <= j < t.len() ==> !(t[j].namespace == p.namespace && t[j].name == p.name),
    ensures
        pod_lookup(t.push(p), p.namespace, p.name) == Some(p),
    decreases t.len(),
{
    if t.len() == 0 {
        assert(t.push(p)[0] == p);
    } else {
        assert(t.push(p)[0] == t[0]);
        assert(t.push(p).subrange(1, t.len() as int + 1) =~= t.subrange(1, t.len() as int).push(
            p,
        ));
        lemma_lookup_past_nonmatching(t.subrange(1, t.len() as int), p);
    }
}

/// Law: creating or updating a pod and then looking it up under its
/// namespace and name yields exactly that pod, whatever the store held.
pub proof fn lemma_created_pod_is_retrievable(pods: Seq<PodView>, p: PodView)
    ensures
        pod_lookup(upsert_pod(pods, p), p.namespace, p.name) == Some(p),
{
    let t = remove_pod(pods, p.namespace, p.name);
    assert forall|j: int| 0 <= j < t.len() implies !(t[j].namespace == p.namespace && t[j].name
        == p.name) by {
        pods.lemma_filter_pred(other_identity(p.namespace, p.name), j);
    }
    lemma_lookup_past_nonmatching(t, p);
}

proof fn lemma_lookup_append(a: Seq<PodView>, b: Seq<PodView>, namespace: Seq<char>, name: Seq<
    char,
>)
    ensures
        pod_lookup(a + b, namespace, name) == match pod_lookup(a, namespace, name) {
            Some(p) => Some(p),
            None => pod_lookup(b, namespace, name),
        },
    decreases a.len(),
{
    if a.len() == 0 {
        assert(a + b =~= b);
    } else {
        assert((a + b)[0] == a[0]);
        assert((a + b).subrange(1, (a + b).len() as int) =~= a.subrange(1, a.len() as int) + b);
        lemma_lookup_append(a.subrange(1, a.len() as int), b, namespace, name);
    }
}

proof fn lemma_lookup_singleton(p: PodView, namespace: Seq<char>, name: Seq<char>)
    ensures
        pod_lookup(seq![p], namespace, name) == if p.namespace == namespace && p.name == name {
            Some(p)
        } else {
            None::<PodView>
        },
{
    reveal_with_fuel(pod_lookup, 2);
    assert(seq![p][0] == p);
    assert(seq![p].subrange(1, 1) =~= Seq::<PodView>::empty());
}

/// Law: deleting an identity changes no other identity — looking any other
/// namespace and name up after the removal reads exactly what it read
/// before.
pub proof fn lemma_delete_preserves_other_pods(
    s: Seq<PodView>,
    key_ns: Seq<char>,
    key_nm: Seq<char>,
    namespace: Seq<char>,
    name: Seq<char>,
)
    requires
        namespace != key_ns || name != key_nm,
    ensures
        pod_lookup(remove_pod(s, key_ns, key_nm), namespace, name) == pod_lookup(
            s,
            namespace,
            name,
        ),
    decreases s.len(),
{
    reveal(Seq::filter);
    if s.len() == 0 {
        s.lemma_filter_len(other_identity(key_ns, key_nm));
        assert(remove_pod(s, key_ns, key_nm) =~= Seq::<PodView>::empty());
    } else {
        let first = s.subrange(0, 1);
        let rest = s.subrange(1, s.len() as int);
        assert(s =~= first + rest);
        let pred = other_identity(key_ns, key_nm);
        Seq::filter_distributes_over_add(first, rest, pred);
        assert(first.drop_last() =~= Seq::<PodView>::empty());
        assert(Seq::<PodView>::empty().filter(pred) =~= Seq::<PodView>::empty());
        lemma_delete_preserves_other_pods(rest, key_ns, key_nm, namespace, name);
        lemma_lookup_append(first.filter(pred), rest.filter(pred), namespace, name);
        if pred(s[0]) {
            assert(first.filter(pred) =~= seq![s[0]]);
            assert(first.filter(pred) + rest.filter(pred) == remove_pod(s, key_ns, key_nm));
            lemma_lookup_singleton(s[0], namespace, name);
        } else {
            assert(first.filter(pred) =~= Seq::<PodView>::empty());
            assert(remove_pod(s, key_ns, key_nm) =~= rest.filter(pred));
        }
    }
}

/// Law: a create or update of pod `p` changes no other identity — looking
/// any other namespace and name up after the write reads exactly what it
/// read before, so no lookup ever observes a partially-applied write.
pub proof fn lemma_upsert_preserves_other_pods(
    pods: Seq<PodView>,
    p: PodView,
    namespace: Seq<char>,
    name: Seq<char>,
)
    requires
        namespace != p.namespace || name != p.name,
    ensures
        pod_lookup(upsert_pod(pods, p), namespace, name) == pod_lookup(pods, namespace, name),
{
    let t = remove_pod(pods, p.namespace, p.name);
    lemma_delete_preserves_other_pods(pods, p.namespace, p.name, namespace, name);
    assert(t.push(p) =~= t + seq![p]);
    lemma_lookup_append(t, seq![p], namespace, name);
    lemma_lookup_singleton(p, namespace, name);
}

proof fn lemma_lookup_none_when_all_nonmatching(t: Seq<PodView>, namespace: Seq<char>, name: Seq<
    char,
>)
    requires
        forall|j: int| 0 <= j < t.len() ==> !(t[j].namespace == namespace && t[j].name == name),
    ensures
        pod_lookup(t, namespace, name) is None,
    decreases t.len(),
{
    if t.len() > 0 {
        lemma_lookup_none_when_all_nonmatching(t.subrange(1, t.len() as int), namespace, name);
    }
}

/// Law: after a delete of the given identity, looking that identity up
/// finds nothing.
pub proof fn lemma_deleted_pod_is_absent(pods: Seq<PodView>, namespace: Seq<char>, name: Seq<
    char,
>)
    ensures
        pod_lookup(remove_pod(pods, namespace, name), namespace, name) is None,
{
    let t = remove_pod(pods, namespace, name);
    assert forall|j: int| 0 <= j < t.len() implies !(t[j].namespace == namespace && t[j].name
        == name) by {
        pods.lemma_filter_pred(other_identity(namespace, name), j);
    }
    lemma_lookup_none_when_all_nonmatching(t, namespace, name);
}

} // verus!
