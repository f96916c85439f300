//! The Azure Blob provider probe: unauthenticated existence and listing
//! checks per container. Write and delete probes are a documented
//! capability gap: the scan never issues such a request and reports them
//! as unsupported in every record.

use vstd::prelude::*;

use crate::classifier::{
    classify_azure_existence, classify_azure_list, spec_classify_azure_existence,
    spec_classify_azure_list,
};
use crate::verdict::{Outcome, ProbeKind, ScanRecord, Verdict};

verus! {

/// The container URL all Azure requests target.
pub open spec fn spec_azure_url(account: Seq<char>, container: Seq<char>) -> Seq<char> {
    "https://"@ + account + ".blob.core.windows.net/"@ + container
}

/// The Azure probe configuration: the storage-account name.
#[derive(Debug, Clone)]
pub struct AzureStorage {
    pub account: String,
}

/// Which probe the scan is waiting on for the current container.
#[derive(Debug, Clone, Copy, PartialEq, Eq, Structural)]
pub enum AzurePhase {
    Exists,
    List,
    Done,
}

/// One request the caller is asked to perform: an unauthenticated GET of
/// the container URL with a single query parameter, under the fixed
/// five-second timeout.
#[derive(Debug, Clone)]
pub struct AzureRequest {
    pub kind: ProbeKind,
    pub container: String,
    pub url: String,
    pub query_key: String,
    pub query_value: String,
    pub timeout_secs: u64,
}

/// The record reports the write and delete probes as unsupported, as its
/// two final entries.
pub open spec fn azure_record_gap(r: ScanRecord) -> bool {
    &&& r.verdicts@.len() >= 2
    &&& r.verdicts@[r.verdicts@.len() - 2] == (ProbeKind::AnonymousWrite, Verdict::Unsupported)
    &&& r.verdicts@.last() == (ProbeKind::AnonymousDelete, Verdict::Unsupported)
}

/// The Azure scan in progress.
#[derive(Debug, Clone)]
pub struct AzureScan {
    pub account: String,
    pub containers: Vec<String>,
    pub idx: usize,
    pub phase: AzurePhase,
    pub current: ScanRecord,
    pub records: Vec<ScanRecord>,
}

impl AzureScan {
    /// The scan's internal invariant; every finished record carries the
    /// unsupported write and delete entries.
    pub open spec fn wf(self) -> bool {
        &&& self.idx <= self.containers@.len()
        &&& (self.phase is Done <==> self.idx == self.containers@.len())
        &&& self.records@.len() == self.idx
        &&& (!(self.phase is Done) ==> self.current.name@ == self.containers@[self.idx as int]@)
        &&& forall|i: int|
            0 <= i < self.records@.len() ==> azure_record_gap(#[trigger] self.records@[i])
    }
}

/// The step recorded verdict `v` for probe `k` and moved to phase `next`.
pub open spec fn azure_advances(
    pre: AzureScan,
    post: AzureScan,
    k: ProbeKind,
    v: Verdict,
    next: AzurePhase,
) -> bool {
    &&& post.account == pre.account
    &&& post.containers == pre.containers
    &&& post.idx == pre.idx
    &&& post.records@ == pre.records@
    &&& post.phase == next
    &&& post.current.name@ == pre.current.name@
    &&& post.current.verdicts@ == pre.current.verdicts@.push((k, v))
}

/// The step recorded verdict `v` for probe `k`, appended the unsupported
/// write and delete entries, closed the record, and moved on.
pub open spec fn azure_finishes(pre: AzureScan, post: AzureScan, k: ProbeKind, v: Verdict) -> bool {
    &&& post.account == pre.account
    &&& post.containers == pre.containers
    &&& post.idx == pre.idx + 1
    &&& post.records@.len() == pre.records@.len() + 1
    &&& post.records@.subrange(0, pre.records@.len() as int) == pre.records@
    &&& post.records@.last().name@ == pre.current.name@
    &&& post.records@.last().verdicts@ == pre.current.verdicts@.push((k, v)).push(
        (ProbeKind::AnonymousWrite, Verdict::Unsupported),
    ).push((ProbeKind::AnonymousDelete, Verdict::Unsupported))
    &&& if pre.idx + 1 < pre.containers@.len() {
        &&& post.phase is Exists
        &&& post.current.name@ == pre.containers@[pre.idx + 1]@
        &&& post.current.verdicts@ == Seq::<(ProbeKind, Verdict)>::empty()
    } else {
        post.phase is Done
    }
}

impl AzureScan {
    /// Appends the unsupported write and delete entries, closes the
    /// current container's record and moves to the next container.
    fn finish_resource(&mut self)
        requires
            old(self).idx < old(self).containers@.len(),
        ensures
            final(self).account == old(self).account,
            final(self).containers == old(self).containers,
            final(self).idx == old(self).idx + 1,
            final(self).records@.len() == old(self).records@.len() + 1,
            final(self).records@.subrange(0, old(self).records@.len() as int) == old(self).records@,
            final(self).records@.last().name@ == old(self).current.name@,
            final(self).records@.last().verdicts@ == old(self).current.verdicts@.push(
                (ProbeKind::AnonymousWrite, Verdict::Unsupported),
            ).push((ProbeKind::AnonymousDelete, Verdict::Unsupported)),
            old(self).idx + 1 < old(self).containers@.len() ==> final(self).phase is Exists
                && final(self).current.name@ == old(self).containers@[old(self).idx + 1]@
                && final(self).current.verdicts@ == Seq::<(ProbeKind, Verdict)>::empty(),
            old(self).idx + 1 == old(self).containers@.len() ==> final(self).phase is Done,
    {
        self.current.verdicts.push((ProbeKind::AnonymousWrite, Verdict::Unsupported));
        self.current.verdicts.push((ProbeKind::AnonymousDelete, Verdict::Unsupported));
        let n = self.containers.len();
        let next_idx = self.idx + 1;
        let mut rec = ScanRecord { name: String::new(), verdicts: Vec::new() };
        if next_idx < n {
            rec = ScanRecord { name: self.containers[next_idx].clone(), verdicts: Vec::new() };
            self.phase = AzurePhase::Exists;
        } else {
            self.phase = AzurePhase::Done;
        }
        core::mem::swap(&mut rec, &mut self.current);
        self.records.push(rec);
        self.idx = next_idx;
        proof {
            assert(self.records@.subrange(0, old(self).records@.len() as int) =~= old(self).records@);
        }
    }

    /// The request the caller must perform next, or nothing once the scan
    /// is done. Only existence and list probes are ever requested.
    pub fn pending_request(&self) -> (r: Option<AzureRequest>)
        requires
            self.wf(),
        ensures
            r is None <==> self.phase is Done,
            r matches Some(q) ==> ({
                &&& q.container@ == self.containers@[self.idx as int]@
                &&& q.url@ == spec_azure_url(self.account@, q.container@)
                &&& q.timeout_secs == 5
                &&& (q.kind == ProbeKind::Existence || q.kind == ProbeKind::ListObjects)
                &&& (self.phase is Exists ==> q.kind == ProbeKind::Existence
                    && q.query_key@ == "restype"@ && q.query_value@ == "container"@)
                &&& (self.phase is List ==> q.kind == ProbeKind::ListObjects
                    && q.query_key@ == "comp"@ && q.query_value@ == "list"@)
            }),
    {
        match self.phase {
            AzurePhase::Done => Option::None,
            AzurePhase::Exists => Option::Some(AzureRequest {
                kind: ProbeKind::Existence,
                container: self.current.name.clone(),
                url: azure_url(&self.account, &self.current.name),
                query_key: "restype".to_owned(),
                query_value: "container".to_owned(),
                timeout_secs: 5,
            }),
            AzurePhase::List => Option::Some(AzureRequest {
                kind: ProbeKind::ListObjects,
                container: self.current.name.clone(),
                url: azure_url(&self.account, &self.current.name),
                query_key: "comp".to_owned(),
                query_value: "list".to_owned(),
                timeout_secs: 5,
            }),
        }
    }

    /// Feeds the outcome of the pending request into the scan: the list
    /// probe follows only a confirmed existence, and every closed record
    /// reports write and delete as unsupported.
    pub fn step(&mut self, o: &Outcome)
        requires
            old(self).wf(),
            !(old(self).phase is Done),
        ensures
            final(self).wf(),
            old(self).phase is Exists && spec_classify_azure_existence(*o) == Verdict::Confirmed(
                true,
            ) ==> azure_advances(
                *old(self),
                *final(self),
                ProbeKind::Existence,
                spec_classify_azure_existence(*o),
                AzurePhase::List,
            ),
            old(self).phase is Exists && spec_classify_azure_existence(*o) != Verdict::Confirmed(
                true,
            ) ==> azure_finishes(
                *old(self),
                *final(self),
                ProbeKind::Existence,
                spec_classify_azure_existence(*o),
            ),
            old(self).phase is List ==> azure_finishes(
                *old(self),
                *final(self),
                ProbeKind::ListObjects,
                spec_classify_azure_list(*o),
            ),
    {
        match self.phase {
            AzurePhase::Exists => {
                let v = classify_azure_existence(o);
                let exists = matches!(v, Verdict::Confirmed(true));
                self.current.verdicts.push((ProbeKind::Existence, v));
                if exists {
                    self.phase = AzurePhase::List;
                } else {
                    self.finish_resource();
                    proof {
                        lemma_records_keep_gap(*old(self), *self);
                    }
                }
            },
            AzurePhase::List => {
                let v = classify_azure_list(o);
                self.current.verdicts.push((ProbeKind::ListObjects, v));
                self.finish_resource();
                proof {
                    lemma_records_keep_gap(*old(self), *self);
                }
            },
            AzurePhase::Done => {
                proof {
                    assert(false);
                }
            },
        }
    }
}

/// A record list grown by one record that carries the gap entries keeps
/// the gap property everywhere.
proof fn lemma_records_keep_gap(pre: AzureScan, post: AzureScan)
    requires
        forall|i: int|
            0 <= i < pre.records@.len() ==> azure_record_gap(#[trigger] pre.records@[i]),
        post.records@.len() == pre.records@.len() + 1,
        post.records@.subrange(0, pre.records@.len() as int) == pre.records@,
        azure_record_gap(post.records@.last()),
    ensures
        forall|i: int|
            0 <= i < post.records@.len() ==> azure_record_gap(#[trigger] post.records@[i]),
{
    assert forall|i: int|
        0 <= i < post.records@.len() implies azure_record_gap(#[trigger] post.records@[i]) by {
        if i < pre.records@.len() {
            assert(post.records@[i] == post.records@.subrange(0, pre.records@.len() as int)[i]);
        } else {
            assert(post.records@[i] == post.records@.last());
        }
    }
}

/// Azure's write and delete probes never reach the network and always
/// surface as unsupported: every finished record of a well-formed scan
/// carries the two explicit unsupported entries, and the scan never asks
/// the caller for a write or delete request.
pub proof fn lemma_azure_write_delete_unsupported(m: AzureScan, i: int)
    requires
        m.wf(),
        0 <= i < m.records@.len(),
    ensures
        m.records@[i].verdicts@.len() >= 2,
        m.records@[i].verdicts@[m.records@[i].verdicts@.len() - 2] == (
            ProbeKind::AnonymousWrite,
            Verdict::Unsupported,
        ),
        m.records@[i].verdicts@.last() == (ProbeKind::AnonymousDelete, Verdict::Unsupported),
{
}

/// Builds the container URL.
fn azure_url(account: &String, container: &String) -> (r: String)
    ensures
        r@ == spec_azure_url(account@, container@),
{
    let mut s = "https://".to_owned();
    s.append(account.as_str());
    s.append(".blob.core.windows.net/");
    s.append(container.as_str());
    s
}

impl AzureStorage {
    /// A probe configuration for the given storage account.
    pub fn new(account: &str) -> (r: AzureStorage)
        ensures
            r.account@ == account@,
    {
        AzureStorage { account: account.to_owned() }
    }

    /// The container URL an existence or list probe targets.
    pub fn base_url_with_container(&self, container: &str) -> (r: String)
        ensures
            r@ == spec_azure_url(self.account@, container@),
    {
        let mut s = "https://".to_owned();
        s.append(self.account.as_str());
        s.append(".blob.core.windows.net/");
        s.append(container);
        s
    }

    /// The fixed request timeout, in seconds.
    pub fn timeout(&self) -> (s: u64)
        ensures
            s == 5,
    {
        5
    }

    /// Starts a scan of the given containers, in order.
    pub fn scan(&self, containers: Vec<String>) -> (m: AzureScan)
        ensures
            m.wf(),
            m.account@ == self.account@,
            m.containers == containers,
            m.idx == 0,
            m.records@ == Seq::<ScanRecord>::empty(),
            containers@.len() > 0 ==> m.phase is Exists && m.current.verdicts@ == Seq::<(
                ProbeKind,
                Verdict,
            )>::empty(),
            containers@.len() == 0 ==> m.phase is Done,
    {
        let (phase, current) = if containers.len() > 0 {
            (
                AzurePhase::Exists,
                ScanRecord { name: containers[0].clone(), verdicts: Vec::new() },
            )
        } else {
            (AzurePhase::Done, ScanRecord { name: String::new(), verdicts: Vec::new() })
        };
        AzureScan {
            account: self.account.clone(),
            containers,
            idx: 0,
            phase,
            current,
            records: Vec::new(),
        }
    }
}

} // verus!
