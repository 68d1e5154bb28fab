//! A faithful in-memory backend: the reference implementation of the
//! backend contract. It files pods by namespace and name and reports the
//! capacity, conditions and operating system it was constructed with.

use vstd::prelude::*;
use crate::error::Error;
use crate::models::{
    CapacityEntry, NodeAddress, NodeCondition, NodeDaemonEndpoints, Pod, PodStatus, PodStatusView,
    PodView, CapacityEntryView, NodeConditionView, capacity_views, condition_views, pod_views,
};
use crate::provider::{Provider, lemma_remove_pod_push, pod_lookup, remove_pod, upsert_pod};
use crate::utils::str_eq;

verus! {

/// An in-memory backend holding its pods in a plain list.
pub struct MemoryProvider {
    pod_list: Vec<Pod>,
    capacity_list: Vec<CapacityEntry>,
    condition_list: Vec<NodeCondition>,
    os_name: String,
}

/// The position of the first pod in `list` filed under the given identity,
/// mirroring [`pod_lookup`] on the list's views.
fn find_pod(list: &Vec<Pod>, namespace: &str, name: &str) -> (r: Option<usize>)
    ensures
        match r {
            Some(i) => i < list@.len() && pod_lookup(pod_views(list@), namespace@, name@) == Some(
                list@[i as int]@,
            ),
            None => pod_lookup(pod_views(list@), namespace@, name@) is None,
        },
{
    let n = list.len();
    let mut i: usize = 0;
    proof {
        assert(pod_views(list@).subrange(0, n as int) =~= pod_views(list@));
    }
    while i < n
        invariant
            i <= n,
            n == list@.len(),
            pod_lookup(pod_views(list@), namespace@, name@) == pod_lookup(
                pod_views(list@).subrange(i as int, n as int),
                namespace@,
                name@,
            ),
        decreases n - i,
    {
        let q = &list[i];
        if str_eq(q.namespace.as_str(), namespace) && str_eq(q.name.as_str(), name) {
            proof {
                assert(pod_views(list@).subrange(i as int, n as int)[0] == list@[i as int]@);
            }
            return Some(i);
        }
        proof {
            let suffix = pod_views(list@).subrange(i as int, n as int);
            assert(suffix[0] == list@[i as int]@);
            assert(suffix.subrange(1, suffix.len() as int) =~= pod_views(list@).subrange(
                i as int + 1,
                n as int,
            ));
        }
        i = i + 1;
    }
    proof {
        assert(pod_views(list@).subrange(n as int, n as int) =~= Seq::<PodView>::empty());
    }
    None
}

/// The pods of `list` not filed under the given identity, mirroring
/// [`remove_pod`] on the list's views.
fn retain_other_pods(list: &Vec<Pod>, namespace: &str, name: &str) -> (r: Vec<Pod>)
    ensures
        pod_views(r@) == remove_pod(pod_views(list@), namespace@, name@),
{
    let n = list.len();
    let mut kept: Vec<Pod> = Vec::new();
    let mut i: usize = 0;
    proof {
        assert(pod_views(kept@) =~= Seq::<PodView>::empty());
        assert(pod_views(list@.subrange(0, 0)) =~= Seq::<PodView>::empty());
        assert(Seq::<PodView>::empty().filter(crate::provider::other_identity(namespace@, name@))
            =~= Seq::<PodView>::empty());
    }
    while i < n
        invariant
            i <= n,
            n == list@.len(),
            pod_views(kept@) == remove_pod(
                pod_views(list@.subrange(0, i as int)),
                namespace@,
                name@,
            ),
        decreases n - i,
    {
        let q = &list[i];
        let ghost prefix = pod_views(list@.subrange(0, i as int));
        proof {
            assert(pod_views(list@.subrange(0, i as int + 1)) =~= prefix.push(list@[i as int]@));
            lemma_remove_pod_push(prefix, list@[i as int]@, namespace@, name@);
        }
        if !(str_eq(q.namespace.as_str(), namespace) && str_eq(q.name.as_str(), name)) {
            let d = q.duplicate();
            kept.push(d);
            proof {
                assert(pod_views(kept@) =~= remove_pod(prefix, namespace@, name@).push(
                    list@[i as int]@,
                ));
            }
        }
        i = i + 1;
    }
    proof {
        assert(list@.subrange(0, n as int) =~= list@);
    }
    kept
}

/// Fresh copies of every pod in `list`.
fn clone_pods(list: &Vec<Pod>) -> (r: Vec<Pod>)
    ensures
        pod_views(r@) == pod_views(list@),
{
    let n = list.len();
    let mut out: Vec<Pod> = Vec::new();
    let mut i: usize = 0;
    while i < n
        invariant
            i <= n,
            n == list@.len(),
            pod_views(out@) == pod_views(list@.subrange(0, i as int)),
        decreases n - i,
    {
        let d = list[i].duplicate();
        let ghost before = out@;
        out.push(d);
        proof {
            assert(out@ == before.push(d));
            assert(d@ == list@[i as int]@);
            assert(pod_views(before).len() == before.len());
            assert(before.len() == i);
            assert(out@.len() == i + 1);
            assert(pod_views(out@).len() == i + 1);
            assert forall|j: int| 0 <= j < i + 1 implies pod_views(out@)[j] == pod_views(
                list@.subrange(0, i as int + 1),
            )[j] by {
                if j < i {
                    assert(pod_views(before)[j] == pod_views(list@.subrange(0, i as int))[j]);
                }
            }
            assert(pod_views(out@) =~= pod_views(list@.subrange(0, i as int + 1)));
        }
        i = i + 1;
    }
    proof {
        assert(list@.subrange(0, n as int) =~= list@);
    }
    out
}

impl MemoryProvider {
    /// An empty backend reporting the given node facts.
    pub fn new(
        os_name: String,
        capacity_list: Vec<CapacityEntry>,
        condition_list: Vec<NodeCondition>,
    ) -> (r: Self)
        ensures
            r.pods() == Seq::<PodView>::empty(),
            r.os_model() == os_name@,
            r.capacity_model() == capacity_views(capacity_list@),
            r.conditions_model() == condition_views(condition_list@),
    {
        let r = MemoryProvider { pod_list: Vec::new(), capacity_list, condition_list, os_name };
        proof {
            assert(pod_views(r.pod_list@) =~= Seq::<PodView>::empty());
        }
        r
    }
}

impl Provider for MemoryProvider {
    closed spec fn pods(&self) -> Seq<PodView> {
        pod_views(self.pod_list@)
    }

    closed spec fn status_of(&self, namespace: Seq<char>, name: Seq<char>) -> Option<PodStatusView> {
        match pod_lookup(self.pods(), namespace, name) {
            Some(_) => Some(PodStatusView { phase: "Running"@, message: Seq::empty() }),
            None => None,
        }
    }

    closed spec fn logs_model(
        &self,
        namespace: Seq<char>,
        pod_name: Seq<char>,
        container_name: Seq<char>,
        tail: int,
    ) -> Option<Seq<char>> {
        match pod_lookup(self.pods(), namespace, pod_name) {
            Some(_) => Some(Seq::empty()),
            None => None,
        }
    }

    closed spec fn capacity_model(&self) -> Seq<CapacityEntryView> {
        capacity_views(self.capacity_list@)
    }

    closed spec fn conditions_model(&self) -> Seq<NodeConditionView> {
        condition_views(self.condition_list@)
    }

    closed spec fn endpoints_model(&self) -> u16 {
        0
    }

    closed spec fn os_model(&self) -> Seq<char> {
        self.os_name@
    }

    fn create_pod(&mut self, pod: &Pod) -> (r: Result<(), Error>) {
        let mut kept = retain_other_pods(&self.pod_list, pod.namespace.as_str(), pod.name.as_str());
        let d = pod.duplicate();
        kept.push(d);
        proof {
            assert(pod_views(kept@) =~= upsert_pod(pod_views(old(self).pod_list@), pod@));
        }
        self.pod_list = kept;
        Ok(())
    }

    fn update_pod(&mut self, pod: &Pod) -> (r: Result<(), Error>) {
        let mut kept = retain_other_pods(&self.pod_list, pod.namespace.as_str(), pod.name.as_str());
        let d = pod.duplicate();
        kept.push(d);
        proof {
            assert(pod_views(kept@) =~= upsert_pod(pod_views(old(self).pod_list@), pod@));
        }
        self.pod_list = kept;
        Ok(())
    }

    fn delete_pod(&mut self, pod: &Pod) -> (r: Result<(), Error>) {
        match find_pod(&self.pod_list, pod.namespace.as_str(), pod.name.as_str()) {
            Some(_) => {
                let kept = retain_other_pods(
                    &self.pod_list,
                    pod.namespace.as_str(),
                    pod.name.as_str(),
                );
                self.pod_list = kept;
                Ok(())
            },
            None => Err(Error::not_found("pod not found")),
        }
    }

    fn get_pod(&self, namespace: &str, name: &str) -> (r: Result<Pod, Error>) {
        match find_pod(&self.pod_list, namespace, name) {
            Some(i) => Ok(self.pod_list[i].duplicate()),
            None => Err(Error::not_found("pod not found")),
        }
    }

    fn get_container_logs(
        &self,
        namespace: &str,
        pod_name: &str,
        container_name: &str,
        tail: i32,
    ) -> (r: Result<String, Error>) {
        match find_pod(&self.pod_list, namespace, pod_name) {
            Some(_) => Ok(String::new()),
            None => Err(Error::not_found("pod not found")),
        }
    }

    fn get_pod_status(&self, namespace: &str, name: &str) -> (r: Result<PodStatus, Error>) {
        match find_pod(&self.pod_list, namespace, name) {
            Some(_) => Ok(PodStatus { phase: "Running".to_owned(), message: String::new() }),
            None => Err(Error::not_found("pod not found")),
        }
    }

    fn get_pods(&self) -> (r: Result<Vec<Pod>, Error>) {
        Ok(clone_pods(&self.pod_list))
    }

    fn capacity(&self) -> (r: Result<Vec<CapacityEntry>, Error>) {
        let n = self.capacity_list.len();
        let mut out: Vec<CapacityEntry> = Vec::new();
        let mut i: usize = 0;
        while i < n
            invariant
                i <= n,
                n == self.capacity_list@.len(),
                capacity_views(out@) == capacity_views(self.capacity_list@.subrange(0, i as int)),
            decreases n - i,
        {
            let d = self.capacity_list[i].duplicate();
            let ghost before = out@;
            out.push(d);
            proof {
                assert(out@ == before.push(d));
                assert(capacity_views(before).len() == before.len());
                assert forall|j: int| 0 <= j < i + 1 implies capacity_views(out@)[j]
                    == capacity_views(self.capacity_list@.subrange(0, i as int + 1))[j] by {
                    if j < i {
                        assert(capacity_views(before)[j] == capacity_views(
                            self.capacity_list@.subrange(0, i as int),
                        )[j]);
                    }
                }
                assert(capacity_views(out@) =~= capacity_views(
                    self.capacity_list@.subrange(0, i as int + 1),
                ));
            }
            i = i + 1;
        }
        proof {
            assert(self.capacity_list@.subrange(0, n as int) =~= self.capacity_list@);
        }
        Ok(out)
    }

    fn node_conditions(&self) -> (r: Result<Vec<NodeCondition>, Error>) {
        let n = self.condition_list.len();
        let mut out: Vec<NodeCondition> = Vec::new();
        let mut i: usize = 0;
        while i < n
            invariant
                i <= n,
                n == self.condition_list@.len(),
                condition_views(out@) == condition_views(
                    self.condition_list@.subrange(0, i as int),
                ),
            decreases n - i,
        {
            let d = self.condition_list[i].duplicate();
            let ghost before = out@;
            out.push(d);
            proof {
                assert(out@ == before.push(d));
                assert(condition_views(before).len() == before.len());
                assert forall|j: int| 0 <= j < i + 1 implies condition_views(out@)[j]
                    == condition_views(self.condition_list@.subrange(0, i as int + 1))[j] by {
                    if j < i {
                        assert(condition_views(before)[j] == condition_views(
                            self.condition_list@.subrange(0, i as int),
                        )[j]);
                    }
                }
                assert(condition_views(out@) =~= condition_views(
                    self.condition_list@.subrange(0, i as int + 1),
                ));
            }
            i = i + 1;
        }
        proof {
            assert(self.condition_list@.subrange(0, n as int) =~= self.condition_list@);
        }
        Ok(out)
    }

    fn node_addresses(&self) -> (r: Result<Vec<NodeAddress>, Error>) {
        Ok(Vec::new())
    }

    fn node_daemon_endpoints(&self) -> (r: Result<NodeDaemonEndpoints, Error>) {
        Ok(NodeDaemonEndpoints { kubelet_port: 0 })
    }

    fn operating_system(&self) -> (r: String) {
        self.os_name.clone()
    }
}

} // verus!
