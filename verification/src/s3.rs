//! The S3 provider probe: per-resource protocol sequencing for head, list,
//! anonymous write and conditional delete, as a state machine the caller
//! drives with transport outcomes.

use vstd::prelude::*;

use crate::classifier::{
    classify_s3_capability, classify_s3_existence, spec_classify_s3_existence,
    spec_s3_capability_verdict,
};
use crate::verdict::{Outcome, ProbeKind, ScanRecord, Verdict};

verus! {

/// The fixed, deliberately unusual object key used by the write and
/// delete probes.
pub open spec fn spec_probe_key() -> Seq<char> {
    "really-long-name-that-is-definitely-not-used.txt"@
}

/// The fixed benign payload the write probe uploads.
pub open spec fn spec_probe_payload() -> Seq<char> {
    "it should not be possible to do this!"@
}

/// The S3 probe configuration: the region all capability requests target.
#[derive(Debug, Clone)]
pub struct AWSs3 {
    pub region: String,
}

/// Which probe of the fixed protocol order the scan is waiting on for the
/// current bucket.
#[derive(Debug, Clone, Copy, PartialEq, Eq, Structural)]
pub enum S3Phase {
    Head,
    List,
    Write,
    Delete,
    Done,
}

/// One request the caller is asked to perform: the probe kind, the bucket,
/// and where applicable the region, object key and payload. A request
/// without a region targets the default region-less endpoint.
#[derive(Debug, Clone)]
pub struct S3Request {
    pub kind: ProbeKind,
    pub bucket: String,
    pub region: Option<String>,
    pub key: Option<String>,
    pub payload: Option<String>,
}

/// The S3 scan in progress: the buckets to probe in order, the record
/// being built for the current bucket, and the finished records.
#[derive(Debug, Clone)]
pub struct S3Scan {
    pub region: String,
    pub buckets: Vec<String>,
    pub idx: usize,
    pub phase: S3Phase,
    pub current: ScanRecord,
    pub records: Vec<ScanRecord>,
}

/// A finished record follows the fixed protocol order — existence, list,
/// write, then delete — with the delete entry present exactly when the
/// write was allowed.
pub open spec fn s3_record_protocol(r: ScanRecord) -> bool {
    &&& (r.verdicts@.len() == 3 || r.verdicts@.len() == 4)
    &&& r.verdicts@[0].0 == ProbeKind::Existence
    &&& r.verdicts@[1].0 == ProbeKind::ListObjects
    &&& r.verdicts@[2].0 == ProbeKind::AnonymousWrite
    &&& (r.verdicts@.len() == 4 <==> r.verdicts@[2].1 == Verdict::Allowed)
    &&& (r.verdicts@.len() == 4 ==> r.verdicts@[3].0 == ProbeKind::AnonymousDelete)
}

impl S3Scan {
    /// The scan's internal invariant: one finished record per finished
    /// bucket, the current record names the bucket being probed and has
    /// exactly the verdicts of the phases already passed, and every
    /// finished record follows the protocol order.
    pub open spec fn wf(self) -> bool {
        &&& self.idx <= self.buckets@.len()
        &&& (self.phase is Done <==> self.idx == self.buckets@.len())
        &&& self.records@.len() == self.idx
        &&& (!(self.phase is Done) ==> self.current.name@ == self.buckets@[self.idx as int]@)
        &&& (self.phase is Head ==> self.current.verdicts@.len() == 0)
        &&& (self.phase is List ==> self.current.verdicts@.len() == 1)
        &&& (self.phase is Write ==> self.current.verdicts@.len() == 2)
        &&& (self.phase is Delete ==> self.current.verdicts@.len() == 3
            && self.current.verdicts@[2].1 == Verdict::Allowed)
        &&& (!(self.phase is Done) ==> forall|j: int|
            0 <= j < self.current.verdicts@.len() ==> (#[trigger] self.current.verdicts@[j]).0
                == spec_probe_order(j))
        &&& forall|i: int|
            0 <= i < self.records@.len() ==> s3_record_protocol(#[trigger] self.records@[i])
    }
}

/// The fixed order the probes run in.
pub open spec fn spec_probe_order(j: int) -> ProbeKind {
    if j == 0 {
        ProbeKind::Existence
    } else if j == 1 {
        ProbeKind::ListObjects
    } else if j == 2 {
        ProbeKind::AnonymousWrite
    } else {
        ProbeKind::AnonymousDelete
    }
}

/// Every record a well-formed S3 scan has finished shows the probes in
/// protocol order; the head verdict never gated the list or write probes,
/// and a delete entry stands exactly where the write was allowed.
pub proof fn lemma_s3_protocol_order(m: S3Scan, i: int)
    requires
        m.wf(),
        0 <= i < m.records@.len(),
    ensures
        s3_record_protocol(m.records@[i]),
{
}

/// The step recorded verdict `v` for probe `k` on the current bucket and
/// moved to phase `next`, leaving everything else unchanged.
pub open spec fn advances(pre: S3Scan, post: S3Scan, k: ProbeKind, v: Verdict, next: S3Phase) -> bool {
    &&& post.region == pre.region
    &&& post.buckets == pre.buckets
    &&& post.idx == pre.idx
    &&& post.records@ == pre.records@
    &&& post.phase == next
    &&& post.current.name@ == pre.current.name@
    &&& post.current.verdicts@ == pre.current.verdicts@.push((k, v))
}

/// The step recorded verdict `v` for probe `k`, closed the current
/// bucket's record, and moved on to the next bucket or finished.
pub open spec fn finishes(pre: S3Scan, post: S3Scan, k: ProbeKind, v: Verdict) -> bool {
    &&& post.region == pre.region
    &&& post.buckets == pre.buckets
    &&& post.idx == pre.idx + 1
    &&& post.records@.len() == pre.records@.len() + 1
    &&& post.records@.subrange(0, pre.records@.len() as int) == pre.records@
    &&& post.records@.last().name@ == pre.current.name@
    &&& post.records@.last().verdicts@ == pre.current.verdicts@.push((k, v))
    &&& if pre.idx + 1 < pre.buckets@.len() {
        &&& post.phase is Head
        &&& post.current.name@ == pre.buckets@[pre.idx + 1]@
        &&& post.current.verdicts@ == Seq::<(ProbeKind, Verdict)>::empty()
    } else {
        post.phase is Done
    }
}

impl S3Scan {
    /// Closes the current bucket's record and moves to the next bucket,
    /// or ends the scan after the last one.
    fn finish_resource(&mut self)
        requires
            old(self).idx < old(self).buckets@.len(),
        ensures
            final(self).region == old(self).region,
            final(self).buckets == old(self).buckets,
            final(self).idx == old(self).idx + 1,
            final(self).records@ == old(self).records@.push(old(self).current),
            old(self).idx + 1 < old(self).buckets@.len() ==> final(self).phase is Head
                && final(self).current.name@ == old(self).buckets@[old(self).idx + 1]@
                && final(self).current.verdicts@ == Seq::<(ProbeKind, Verdict)>::empty(),
            old(self).idx + 1 == old(self).buckets@.len() ==> final(self).phase is Done,
    {
        let n = self.buckets.len();
        let next_idx = self.idx + 1;
        let mut rec = ScanRecord { name: String::new(), verdicts: Vec::new() };
        if next_idx < n {
            rec = ScanRecord { name: self.buckets[next_idx].clone(), verdicts: Vec::new() };
            self.phase = S3Phase::Head;
        } else {
            self.phase = S3Phase::Done;
        }
        core::mem::swap(&mut rec, &mut self.current);
        self.records.push(rec);
        self.idx = next_idx;
    }

    /// The request the caller must perform next, or nothing once the scan
    /// is done. Write and delete carry the fixed probe key; the head
    /// probe targets the default region-less endpoint.
    pub fn pending_request(&self) -> (r: Option<S3Request>)
        requires
            self.wf(),
        ensures
            r is None <==> self.phase is Done,
            r matches Some(q) ==> ({
                &&& q.bucket@ == self.buckets@[self.idx as int]@
                &&& (self.phase is Head ==> q.kind == ProbeKind::Existence && q.region is None
                    && q.key is None && q.payload is None)
                &&& (self.phase is List ==> q.kind == ProbeKind::ListObjects
                    && (q.region matches Some(rg) && rg@ == self.region@) && q.key is None
                    && q.payload is None)
                &&& (self.phase is Write ==> q.kind == ProbeKind::AnonymousWrite
                    && (q.region matches Some(rg) && rg@ == self.region@)
                    && (q.key matches Some(k) && k@ == spec_probe_key())
                    && (q.payload matches Some(p) && p@ == spec_probe_payload()))
                &&& (self.phase is Delete ==> q.kind == ProbeKind::AnonymousDelete
                    && (q.region matches Some(rg) && rg@ == self.region@)
                    && (q.key matches Some(k) && k@ == spec_probe_key()))
            }),
    {
        match self.phase {
            S3Phase::Done => Option::None,
            S3Phase::Head => Option::Some(S3Request {
                kind: ProbeKind::Existence,
                bucket: self.current.name.clone(),
                region: Option::None,
                key: Option::None,
                payload: Option::None,
            }),
            S3Phase::List => Option::Some(S3Request {
                kind: ProbeKind::ListObjects,
                bucket: self.current.name.clone(),
                region: Option::Some(self.region.clone()),
                key: Option::None,
                payload: Option::None,
            }),
            S3Phase::Write => Option::Some(S3Request {
                kind: ProbeKind::AnonymousWrite,
                bucket: self.current.name.clone(),
                region: Option::Some(self.region.clone()),
                key: Option::Some(probe_key()),
                payload: Option::Some(probe_payload()),
            }),
            S3Phase::Delete => Option::Some(S3Request {
                kind: ProbeKind::AnonymousDelete,
                bucket: self.current.name.clone(),
                region: Option::Some(self.region.clone()),
                key: Option::Some(probe_key()),
                payload: Option::None,
            }),
        }
    }

    /// Feeds the outcome of the pending request into the scan: the
    /// verdict is recorded in protocol order, the head outcome never
    /// blocks the list probe, and the delete probe follows only an
    /// allowed write.
    pub fn step(&mut self, o: &Outcome)
        requires
            old(self).wf(),
            !(old(self).phase is Done),
        ensures
            final(self).wf(),
            old(self).phase is Head ==> advances(
                *old(self),
                *final(self),
                ProbeKind::Existence,
                spec_classify_s3_existence(*o),
                S3Phase::List,
            ),
            old(self).phase is List ==> ({
                let v = final(self).current.verdicts@.last().1;
                spec_s3_capability_verdict(*o, v) && advances(
                    *old(self),
                    *final(self),
                    ProbeKind::ListObjects,
                    v,
                    S3Phase::Write,
                )
            }),
            old(self).phase is Write && final(self).phase is Delete ==> ({
                let v = final(self).current.verdicts@.last().1;
                v == Verdict::Allowed && spec_s3_capability_verdict(*o, v) && advances(
                    *old(self),
                    *final(self),
                    ProbeKind::AnonymousWrite,
                    v,
                    S3Phase::Delete,
                )
            }),
            old(self).phase is Write && !(final(self).phase is Delete) ==> ({
                let v = final(self).records@.last().verdicts@.last().1;
                v != Verdict::Allowed && spec_s3_capability_verdict(*o, v) && finishes(
                    *old(self),
                    *final(self),
                    ProbeKind::AnonymousWrite,
                    v,
                )
            }),
            old(self).phase is Delete ==> ({
                let v = final(self).records@.last().verdicts@.last().1;
                spec_s3_capability_verdict(*o, v) && finishes(
                    *old(self),
                    *final(self),
                    ProbeKind::AnonymousDelete,
                    v,
                )
            }),
    {
        match self.phase {
            S3Phase::Head => {
                let v = classify_s3_existence(o);
                self.current.verdicts.push((ProbeKind::Existence, v));
                self.phase = S3Phase::List;
            },
            S3Phase::List => {
                let v = classify_s3_capability(o);
                self.current.verdicts.push((ProbeKind::ListObjects, v));
                self.phase = S3Phase::Write;
            },
            S3Phase::Write => {
                let v = classify_s3_capability(o);
                let allowed = matches!(v, Verdict::Allowed);
                self.current.verdicts.push((ProbeKind::AnonymousWrite, v));
                if allowed {
                    self.phase = S3Phase::Delete;
                } else {
                    self.finish_resource();
                    proof {
                        assert(self.records@.subrange(0, old(self).records@.len() as int)
                            =~= old(self).records@);
                    }
                }
            },
            S3Phase::Delete => {
                let v = classify_s3_capability(o);
                self.current.verdicts.push((ProbeKind::AnonymousDelete, v));
                self.finish_resource();
                proof {
                    assert(self.records@.subrange(0, old(self).records@.len() as int)
                        =~= old(self).records@);
                }
            },
            S3Phase::Done => {
                proof {
                    assert(false);
                }
            },
        }
    }
}

/// The fixed object key as an owned string.
pub fn probe_key() -> (r: String)
    ensures
        r@ == spec_probe_key(),
{
    "really-long-name-that-is-definitely-not-used.txt".to_owned()
}

/// The fixed benign payload as an owned string.
pub fn probe_payload() -> (r: String)
    ensures
        r@ == spec_probe_payload(),
{
    "it should not be possible to do this!".to_owned()
}

impl AWSs3 {
    /// A probe configuration for the given region.
    pub fn new(region: &str) -> (r: AWSs3)
        ensures
            r.region@ == region@,
    {
        AWSs3 { region: region.to_owned() }
    }

    /// The fixed object key the write and delete probes use.
    pub fn file_name(&self) -> (r: String)
        ensures
            r@ == spec_probe_key(),
    {
        probe_key()
    }

    /// Starts a scan of the given buckets, in order.
    pub fn scan(&self, buckets: Vec<String>) -> (m: S3Scan)
        ensures
            m.wf(),
            m.region@ == self.region@,
            m.buckets == buckets,
            m.idx == 0,
            m.records@ == Seq::<ScanRecord>::empty(),
            buckets@.len() > 0 ==> m.phase is Head && m.current.verdicts@ == Seq::<(
                ProbeKind,
                Verdict,
            )>::empty(),
            buckets@.len() == 0 ==> m.phase is Done,
    {
        let (phase, current) = if buckets.len() > 0 {
            (
                S3Phase::Head,
                ScanRecord { name: buckets[0].clone(), verdicts: Vec::new() },
            )
        } else {
            (S3Phase::Done, ScanRecord { name: String::new(), verdicts: Vec::new() })
        };
        S3Scan {
            region: self.region.clone(),
            buckets,
            idx: 0,
            phase,
            current,
            records: Vec::new(),
        }
    }
}

} // verus!
