//! The GCS provider probe: unauthenticated existence check, then the
//! two-identity permission enumeration — the same test-permissions call
//! made anonymously and, after a token exchange the caller performs, with
//! a bearer token. A missing credential path ends the authenticated
//! branch with a configuration error before any exchange is requested,
//! and never touches the anonymous branch.

use vstd::prelude::*;

use crate::classifier::{classify_gcs_existence, is_success, spec_classify_gcs_existence, spec_is_success};
use crate::perms::{parse_permissions, spec_permissions_of};
use crate::verdict::{spec_scan_error_text, FailureCause, Outcome, ScanError, Verdict};

verus! {

/// The bucket-metadata URL an existence probe targets.
pub open spec fn spec_gcs_base_url(bucket: Seq<char>) -> Seq<char> {
    "https://storage.googleapis.com/storage/v1/b/"@ + bucket
}

/// The test-permissions URL.
pub open spec fn spec_gcs_iam_url(bucket: Seq<char>) -> Seq<char> {
    spec_gcs_base_url(bucket) + "/iam/testPermissions"@
}

/// The identity tag a report line carries.
pub open spec fn spec_role(authenticated: bool) -> Seq<char> {
    if authenticated {
        "authenticated"@
    } else {
        "unauthenticated"@
    }
}

/// The identity context a permission set was gathered under.
#[derive(Debug, Clone, Copy, PartialEq, Eq, Structural)]
pub enum Identity {
    Anonymous,
    Authenticated,
}

/// The permissions one identity was found to hold, in response order.
#[derive(Debug, Clone, PartialEq)]
pub struct PermissionSet {
    pub identity: Identity,
    pub permissions: Vec<String>,
}

/// The record of one bucket's scan: the existence verdict and the two
/// identities' permission results, each reported independently.
#[derive(Debug, Clone)]
pub struct GcsRecord {
    pub bucket: String,
    pub existence: Option<Verdict>,
    pub anonymous: Option<Result<PermissionSet, ScanError>>,
    pub authenticated: Option<Result<PermissionSet, ScanError>>,
}

/// The result `r` is the one owed for the outcome `o` of a
/// test-permissions call under identity `id`: a successful response
/// carries the decoded permission list (empty when the field is absent),
/// a malformed body is a decode failure, a refused or absent resource is
/// the expected denial, any other status is surfaced, and a transport
/// failure is never conflated with a denial.
pub open spec fn spec_gcs_permissions_result(
    o: Outcome,
    id: Identity,
    r: Result<PermissionSet, ScanError>,
) -> bool {
    match o {
        Outcome::Failure(c) => r == Result::<PermissionSet, ScanError>::Err(
            ScanError::TransportFailure(c),
        ),
        Outcome::Response(s, b) => if s == 401 || s == 403 || s == 404 {
            r == Result::<PermissionSet, ScanError>::Err(ScanError::CapabilityDenied)
        } else if !spec_is_success(s) {
            r == Result::<PermissionSet, ScanError>::Err(ScanError::UnknownStatus(s))
        } else if spec_permissions_of(b@) is Some {
            r matches Result::Ok(ps) && ps.identity == id && Option::Some(
                ps.permissions.deep_view(),
            ) == spec_permissions_of(b@)
        } else {
            r == Result::<PermissionSet, ScanError>::Err(ScanError::DecodeFailure)
        },
    }
}

/// Classifies the outcome of a test-permissions call.
pub fn classify_gcs_permissions(o: &Outcome, id: Identity) -> (r: Result<PermissionSet, ScanError>)
    ensures
        spec_gcs_permissions_result(*o, id, r),
{
    match o {
        Outcome::Failure(c) => Result::Err(ScanError::TransportFailure(*c)),
        Outcome::Response(s, b) => {
            if *s == 401 || *s == 403 || *s == 404 {
                Result::Err(ScanError::CapabilityDenied)
            } else if !is_success(*s) {
                Result::Err(ScanError::UnknownStatus(*s))
            } else {
                match parse_permissions(b.as_str()) {
                    Option::Some(v) => Result::Ok(PermissionSet { identity: id, permissions: v }),
                    Option::None => Result::Err(ScanError::DecodeFailure),
                }
            }
        },
    }
}

/// Which step of the protocol the scan is waiting on for the current
/// bucket.
#[derive(Debug, Clone, Copy, PartialEq, Eq, Structural)]
pub enum GcsPhase {
    Exists,
    AnonPerms,
    CredCheck,
    TokenExchange,
    AuthPerms,
    Done,
}

/// What the caller must do next: probe a URL, look up the credential
/// path in its configuration, or exchange the service-account key at the
/// given path for a bearer token.
#[derive(Debug, Clone)]
pub enum GcsRequest {
    ProbeExistence { url: String, timeout_secs: u64 },
    TestPermissions { url: String, bearer: Option<String>, timeout_secs: u64 },
    ReadCredentialPath,
    ExchangeToken { credential_path: String },
}

/// What the caller hands back: a transport outcome, the credential path
/// if configured, or the token exchange's result.
#[derive(Debug)]
pub enum GcsEvent {
    Outcome(Outcome),
    CredPath(Option<String>),
    Token(Result<String, FailureCause>),
}

/// The GCS probe: the provider needs no configuration beyond the bucket
/// names, so the type carries no state.
#[derive(Debug, Clone)]
pub struct GCS;

/// The GCS scan state: the buckets to probe in order, the record being
/// built, and the finished records.
#[derive(Debug, Clone)]
pub struct GcsScan {
    pub buckets: Vec<String>,
    pub idx: usize,
    pub phase: GcsPhase,
    pub cred_path: Option<String>,
    pub token: Option<String>,
    pub current: GcsRecord,
    pub records: Vec<GcsRecord>,
}

/// A finished record respects the protocol: it always settles existence,
/// permission results come only for a bucket whose existence was
/// confirmed, and the authenticated result only alongside an anonymous
/// one — the authenticated branch never runs first and its failure never
/// erases the anonymous result.
pub open spec fn gcs_record_protocol(r: GcsRecord) -> bool {
    &&& r.existence is Some
    &&& (r.anonymous is Some ==> r.existence == Option::Some(Verdict::Confirmed(true)))
    &&& (r.authenticated is Some ==> r.anonymous is Some)
}

impl GcsScan {
    /// The scan's internal invariant: the current record holds exactly
    /// what the phases already passed produced, and every finished record
    /// respects the protocol.
    pub open spec fn wf(self) -> bool {
        &&& self.idx <= self.buckets@.len()
        &&& (self.phase is Done <==> self.idx == self.buckets@.len())
        &&& self.records@.len() == self.idx
        &&& (!(self.phase is Done) ==> self.current.bucket@ == self.buckets@[self.idx as int]@)
        &&& (self.phase is TokenExchange ==> self.cred_path is Some)
        &&& (self.phase is AuthPerms ==> self.token is Some)
        &&& (self.phase is Exists ==> self.current.existence is None
            && self.current.anonymous is None && self.current.authenticated is None)
        &&& (self.phase is AnonPerms ==> self.current.existence == Option::Some(
            Verdict::Confirmed(true),
        ) && self.current.anonymous is None && self.current.authenticated is None)
        &&& (self.phase is CredCheck || self.phase is TokenExchange || self.phase is AuthPerms
            ==> self.current.existence == Option::Some(Verdict::Confirmed(true))
            && self.current.anonymous is Some && self.current.authenticated is None)
        &&& forall|i: int|
            0 <= i < self.records@.len() ==> gcs_record_protocol(#[trigger] self.records@[i])
    }
}

/// A record list grown by one record that respects the protocol keeps the
/// protocol property everywhere.
proof fn lemma_records_keep_protocol(pre: GcsScan, post: GcsScan)
    requires
        forall|i: int|
            0 <= i < pre.records@.len() ==> gcs_record_protocol(#[trigger] pre.records@[i]),
        post.records@.len() == pre.records@.len() + 1,
        post.records@.subrange(0, pre.records@.len() as int) == pre.records@,
        gcs_record_protocol(post.records@.last()),
    ensures
        forall|i: int|
            0 <= i < post.records@.len() ==> gcs_record_protocol(#[trigger] post.records@[i]),
{
    assert forall|i: int|
        0 <= i < post.records@.len() implies gcs_record_protocol(#[trigger] post.records@[i]) by {
        if i < pre.records@.len() {
            assert(post.records@[i] == post.records@.subrange(0, pre.records@.len() as int)[i]);
        } else {
            assert(post.records@[i] == post.records@.last());
        }
    }
}

/// Every record a well-formed GCS scan has finished respects the
/// two-identity protocol: existence settled first, permissions enumerated
/// only on confirmed buckets, and an authenticated result never without
/// the anonymous one it is compared against.
pub proof fn lemma_gcs_identity_order(m: GcsScan, i: int)
    requires
        m.wf(),
        0 <= i < m.records@.len(),
    ensures
        gcs_record_protocol(m.records@[i]),
{
}

/// The step closed the current bucket's record and moved on to the next
/// bucket or finished the scan.
pub open spec fn gcs_closes(pre: GcsScan, post: GcsScan) -> bool {
    &&& post.buckets == pre.buckets
    &&& post.idx == pre.idx + 1
    &&& post.records@.len() == pre.records@.len() + 1
    &&& post.records@.subrange(0, pre.records@.len() as int) == pre.records@
    &&& post.records@.last().bucket@ == pre.current.bucket@
    &&& if pre.idx + 1 < pre.buckets@.len() {
        &&& post.phase is Exists
        &&& post.current.bucket@ == pre.buckets@[pre.idx + 1]@
        &&& post.current.existence is None
        &&& post.current.anonymous is None
        &&& post.current.authenticated is None
    } else {
        post.phase is Done
    }
}

/// The step kept the current record open and only moved to phase `next`,
/// updating nothing but the named record field.
pub open spec fn gcs_stays(pre: GcsScan, post: GcsScan, next: GcsPhase) -> bool {
    &&& post.buckets == pre.buckets
    &&& post.idx == pre.idx
    &&& post.records@ == pre.records@
    &&& post.phase == next
    &&& post.current.bucket@ == pre.current.bucket@
}

impl GcsScan {
    /// Closes the current bucket's record and moves to the next bucket.
    fn finish_resource(&mut self)
        requires
            old(self).idx < old(self).buckets@.len(),
        ensures
            final(self).records@.last() == old(self).current,
            gcs_closes(*old(self), *final(self)),
            final(self).cred_path == old(self).cred_path,
            final(self).token == old(self).token,
    {
        let n = self.buckets.len();
        let next_idx = self.idx + 1;
        let mut rec = GcsRecord {
            bucket: String::new(),
            existence: Option::None,
            anonymous: Option::None,
            authenticated: Option::None,
        };
        if next_idx < n {
            rec = GcsRecord {
                bucket: self.buckets[next_idx].clone(),
                existence: Option::None,
                anonymous: Option::None,
                authenticated: Option::None,
            };
            self.phase = GcsPhase::Exists;
        } else {
            self.phase = GcsPhase::Done;
        }
        core::mem::swap(&mut rec, &mut self.current);
        self.records.push(rec);
        self.idx = next_idx;
        proof {
            assert(self.records@.subrange(0, old(self).records@.len() as int) =~= old(self).records@);
        }
    }

    /// The request the caller must perform next, or nothing once the scan
    /// is done.
    pub fn pending_request(&self) -> (r: Option<GcsRequest>)
        requires
            self.wf(),
        ensures
            r is None <==> self.phase is Done,
            self.phase is Exists ==> (r matches Some(q) && (q matches GcsRequest::ProbeExistence {
                url,
                timeout_secs,
            } && url@ == spec_gcs_base_url(self.current.bucket@) && timeout_secs == 5)),
            self.phase is AnonPerms ==> (r matches Some(q) && (q
                matches GcsRequest::TestPermissions { url, bearer, timeout_secs } && url@
                == spec_gcs_iam_url(self.current.bucket@) && bearer is None && timeout_secs == 5)),
            self.phase is CredCheck ==> (r matches Some(q) && q
                matches GcsRequest::ReadCredentialPath),
            self.phase is TokenExchange ==> (r matches Some(q) && (q
                matches GcsRequest::ExchangeToken { credential_path } && Option::Some(
                credential_path,
            ) == self.cred_path)),
            self.phase is AuthPerms ==> (r matches Some(q) && (q
                matches GcsRequest::TestPermissions { url, bearer, timeout_secs } && url@
                == spec_gcs_iam_url(self.current.bucket@) && bearer == self.token && timeout_secs
                == 5)),
    {
        match self.phase {
            GcsPhase::Done => Option::None,
            GcsPhase::Exists => Option::Some(GcsRequest::ProbeExistence {
                url: gcs_base_url(&self.current.bucket),
                timeout_secs: 5,
            }),
            GcsPhase::AnonPerms => Option::Some(GcsRequest::TestPermissions {
                url: gcs_iam_url(&self.current.bucket),
                bearer: Option::None,
                timeout_secs: 5,
            }),
            GcsPhase::CredCheck => Option::Some(GcsRequest::ReadCredentialPath),
            GcsPhase::TokenExchange => {
                let path = match &self.cred_path {
                    Option::Some(p) => p.clone(),
                    Option::None => String::new(),
                };
                proof {
                    assert(Option::Some(path) == self.cred_path);
                }
                Option::Some(GcsRequest::ExchangeToken { credential_path: path })
            },
            GcsPhase::AuthPerms => {
                let bearer = match &self.token {
                    Option::Some(t) => Option::Some(t.clone()),
                    Option::None => Option::None,
                };
                Option::Some(GcsRequest::TestPermissions {
                    url: gcs_iam_url(&self.current.bucket),
                    bearer,
                    timeout_secs: 5,
                })
            },
        }
    }

    /// Feeds the result of the pending request into the scan. The
    /// authenticated branch runs only after the anonymous one; a missing
    /// credential path ends it with a configuration error before any
    /// token exchange, and a failed exchange ends it with the transport
    /// failure — in both cases the anonymous result stands untouched.
    pub fn step(&mut self, ev: GcsEvent)
        requires
            old(self).wf(),
            !(old(self).phase is Done),
            old(self).phase is Exists || old(self).phase is AnonPerms || old(self).phase
                is AuthPerms ==> ev is Outcome,
            old(self).phase is CredCheck ==> ev is CredPath,
            old(self).phase is TokenExchange ==> ev is Token,
        ensures
            final(self).wf(),
            old(self).phase is Exists ==> (ev matches GcsEvent::Outcome(o) && ({
                let v = spec_classify_gcs_existence(o);
                if v == Verdict::Confirmed(true) {
                    gcs_stays(*old(self), *final(self), GcsPhase::AnonPerms) && final(self).current.existence == Option::Some(v) && final(self).current.anonymous
                        == old(self).current.anonymous && final(self).current.authenticated == old(self).current.authenticated
                } else {
                    gcs_closes(*old(self), *final(self)) && final(self).records@.last().existence
                        == Option::Some(v) && final(self).records@.last().anonymous == old(self).current.anonymous && final(self).records@.last().authenticated == old(self).current.authenticated
                }
            })),
            old(self).phase is AnonPerms ==> (ev matches GcsEvent::Outcome(o) && ({
                &&& gcs_stays(*old(self), *final(self), GcsPhase::CredCheck)
                &&& final(self).current.existence == old(self).current.existence
                &&& final(self).current.authenticated == old(self).current.authenticated
                &&& (final(self).current.anonymous matches Some(r) && spec_gcs_permissions_result(
                    o,
                    Identity::Anonymous,
                    r,
                ))
            })),
            old(self).phase is CredCheck ==> (ev matches GcsEvent::CredPath(cp) && (match cp {
                Option::Some(path) => gcs_stays(*old(self), *final(self), GcsPhase::TokenExchange)
                    && final(self).cred_path == Option::Some(path) && final(self).current == old(self).current,
                Option::None => gcs_closes(*old(self), *final(self)) && final(self).records@.last().authenticated == Option::Some(
                    Result::<PermissionSet, ScanError>::Err(ScanError::ConfigurationError),
                ) && final(self).records@.last().anonymous == old(self).current.anonymous && final(self).records@.last().existence == old(self).current.existence,
            })),
            old(self).phase is TokenExchange ==> (ev matches GcsEvent::Token(tk) && (match tk {
                Result::Ok(t) => gcs_stays(*old(self), *final(self), GcsPhase::AuthPerms) && final(self).token == Option::Some(t) && final(self).current == old(self).current,
                Result::Err(c) => gcs_closes(*old(self), *final(self)) && final(self).records@.last().authenticated == Option::Some(
                    Result::<PermissionSet, ScanError>::Err(ScanError::TransportFailure(c)),
                ) && final(self).records@.last().anonymous == old(self).current.anonymous && final(self).records@.last().existence == old(self).current.existence,
            })),
            old(self).phase is AuthPerms ==> (ev matches GcsEvent::Outcome(o) && ({
                &&& gcs_closes(*old(self), *final(self))
                &&& final(self).records@.last().existence == old(self).current.existence
                &&& final(self).records@.last().anonymous == old(self).current.anonymous
                &&& (final(self).records@.last().authenticated matches Some(r)
                    && spec_gcs_permissions_result(o, Identity::Authenticated, r))
            })),
    {
        match self.phase {
            GcsPhase::Exists => {
                let o = match ev {
                    GcsEvent::Outcome(o) => o,
                    _ => {
                        proof {
                            assert(false);
                        }
                        Outcome::Failure(FailureCause::Connection)
                    },
                };
                let v = classify_gcs_existence(&o);
                let exists = matches!(v, Verdict::Confirmed(true));
                self.current.existence = Option::Some(v);
                if exists {
                    self.phase = GcsPhase::AnonPerms;
                } else {
                    self.finish_resource();
                    proof {
                        lemma_records_keep_protocol(*old(self), *self);
                    }
                }
            },
            GcsPhase::AnonPerms => {
                let o = match ev {
                    GcsEvent::Outcome(o) => o,
                    _ => {
                        proof {
                            assert(false);
                        }
                        Outcome::Failure(FailureCause::Connection)
                    },
                };
                let r = classify_gcs_permissions(&o, Identity::Anonymous);
                self.current.anonymous = Option::Some(r);
                self.phase = GcsPhase::CredCheck;
            },
            GcsPhase::CredCheck => {
                let cp = match ev {
                    GcsEvent::CredPath(cp) => cp,
                    _ => {
                        proof {
                            assert(false);
                        }
                        Option::None
                    },
                };
                match cp {
                    Option::Some(path) => {
                        self.cred_path = Option::Some(path);
                        self.phase = GcsPhase::TokenExchange;
                    },
                    Option::None => {
                        self.current.authenticated = Option::Some(
                            Result::Err(ScanError::ConfigurationError),
                        );
                        self.finish_resource();
                        proof {
                            lemma_records_keep_protocol(*old(self), *self);
                        }
                    },
                }
            },
            GcsPhase::TokenExchange => {
                let tk = match ev {
                    GcsEvent::Token(tk) => tk,
                    _ => {
                        proof {
                            assert(false);
                        }
                        Result::Err(FailureCause::Connection)
                    },
                };
                match tk {
                    Result::Ok(t) => {
                        self.token = Option::Some(t);
                        self.phase = GcsPhase::AuthPerms;
                    },
                    Result::Err(c) => {
                        self.current.authenticated = Option::Some(
                            Result::Err(ScanError::TransportFailure(c)),
                        );
                        self.finish_resource();
                        proof {
                            lemma_records_keep_protocol(*old(self), *self);
                        }
                    },
                }
            },
            GcsPhase::AuthPerms => {
                let o = match ev {
                    GcsEvent::Outcome(o) => o,
                    _ => {
                        proof {
                            assert(false);
                        }
                        Outcome::Failure(FailureCause::Connection)
                    },
                };
                let r = classify_gcs_permissions(&o, Identity::Authenticated);
                self.current.authenticated = Option::Some(r);
                self.finish_resource();
                proof {
                    lemma_records_keep_protocol(*old(self), *self);
                }
            },
            GcsPhase::Done => {
                proof {
                    assert(false);
                }
            },
        }
    }
}

/// A missing credential path prevents any authenticated network call: the
/// step records the configuration error at once, the anonymous result is
/// left as it was, and the scan asks for no token exchange or bearer
/// request for this bucket — it moves straight to the next one.
pub proof fn lemma_missing_credentials_no_exchange(pre: GcsScan, post: GcsScan)
    requires
        pre.wf(),
        pre.phase is CredCheck,
        gcs_closes(pre, post),
        post.records@.last().authenticated == Option::Some(
            Result::<PermissionSet, ScanError>::Err(ScanError::ConfigurationError),
        ),
    ensures
        !(post.phase is TokenExchange),
        !(post.phase is AuthPerms),
        post.records@.last().authenticated matches Some(r) && r == Result::<
            PermissionSet,
            ScanError,
        >::Err(ScanError::ConfigurationError),
{
}

/// Builds the bucket-metadata URL.
fn gcs_base_url(bucket: &String) -> (r: String)
    ensures
        r@ == spec_gcs_base_url(bucket@),
{
    let mut s = "https://storage.googleapis.com/storage/v1/b/".to_owned();
    s.append(bucket.as_str());
    s
}

/// Builds the test-permissions URL.
fn gcs_iam_url(bucket: &String) -> (r: String)
    ensures
        r@ == spec_gcs_iam_url(bucket@),
{
    let mut s = gcs_base_url(bucket);
    s.append("/iam/testPermissions");
    s
}

impl GCS {
    /// The bucket-metadata URL an existence probe targets.
    pub fn base_url(&self, bucket: &str) -> (r: String)
        ensures
            r@ == spec_gcs_base_url(bucket@),
    {
        let mut s = "https://storage.googleapis.com/storage/v1/b/".to_owned();
        s.append(bucket);
        s
    }

    /// The test-permissions URL.
    pub fn test_iam_url(&self, bucket: &str) -> (r: String)
        ensures
            r@ == spec_gcs_iam_url(bucket@),
    {
        let mut s = self.base_url(bucket);
        s.append("/iam/testPermissions");
        s
    }

    /// The fixed candidate permission list the test-permissions call
    /// carries, as query pairs, ten entries spanning bucket and object
    /// privileges.
    pub fn permissions(&self) -> (r: Vec<(String, String)>)
        ensures
            r@.len() == 10,
            forall|k: int| 0 <= k < 10 ==> (#[trigger] r@[k]).0@ == "permissions"@,
            r@[0].1@ == "storage.buckets.delete"@,
            r@[1].1@ == "storage.buckets.get"@,
            r@[2].1@ == "storage.buckets.getIamPolicy"@,
            r@[3].1@ == "storage.buckets.setIamPolicy"@,
            r@[4].1@ == "storage.buckets.update"@,
            r@[5].1@ == "storage.objects.create"@,
            r@[6].1@ == "storage.objects.delete"@,
            r@[7].1@ == "storage.objects.get"@,
            r@[8].1@ == "storage.objects.list"@,
            r@[9].1@ == "storage.objects.update"@,
    {
        let mut v: Vec<(String, String)> = Vec::new();
        v.push(("permissions".to_owned(), "storage.buckets.delete".to_owned()));
        v.push(("permissions".to_owned(), "storage.buckets.get".to_owned()));
        v.push(("permissions".to_owned(), "storage.buckets.getIamPolicy".to_owned()));
        v.push(("permissions".to_owned(), "storage.buckets.setIamPolicy".to_owned()));
        v.push(("permissions".to_owned(), "storage.buckets.update".to_owned()));
        v.push(("permissions".to_owned(), "storage.objects.create".to_owned()));
        v.push(("permissions".to_owned(), "storage.objects.delete".to_owned()));
        v.push(("permissions".to_owned(), "storage.objects.get".to_owned()));
        v.push(("permissions".to_owned(), "storage.objects.list".to_owned()));
        v.push(("permissions".to_owned(), "storage.objects.update".to_owned()));
        v
    }

    /// The report lines for one identity's permission result: the tagged
    /// line per held permission, a single all-clear line when none is
    /// held, and the error's phrase when the call failed.
    pub fn result_lines(
        &self,
        authenticated: bool,
        permissions: &Result<PermissionSet, ScanError>,
        bucket: &str,
    ) -> (lines: Vec<String>)
        ensures
            match *permissions {
                Result::Ok(ps) => if ps.permissions@.len() == 0 {
                    lines@.len() == 1 && lines@[0]@ == "bucket="@ + bucket@
                        + " has no allowed permissions as "@ + spec_role(authenticated)
                } else {
                    lines@.len() == ps.permissions@.len() && forall|j: int|
                        0 <= j < lines@.len() ==> (#[trigger] lines@[j])@ == spec_role(
                            authenticated,
                        ) + ": "@ + bucket@ + " - "@ + ps.permissions@[j]@
                },
                Result::Err(e) => lines@.len() == 1 && lines@[0]@ == spec_scan_error_text(e),
            },
    {
        let role = if authenticated {
            "authenticated"
        } else {
            "unauthenticated"
        };
        match permissions {
            Result::Err(e) => {
                let mut v: Vec<String> = Vec::new();
                v.push(e.describe());
                v
            },
            Result::Ok(ps) => {
                if ps.permissions.len() == 0 {
                    let mut s = "bucket=".to_owned();
                    s.append(bucket);
                    s.append(" has no allowed permissions as ");
                    s.append(role);
                    let mut v: Vec<String> = Vec::new();
                    v.push(s);
                    v
                } else {
                    let mut v: Vec<String> = Vec::new();
                    let mut k: usize = 0;
                    while k < ps.permissions.len()
                        invariant
                            k <= ps.permissions@.len(),
                            v@.len() == k,
                            role@ == spec_role(authenticated),
                            forall|j: int|
                                0 <= j < k ==> (#[trigger] v@[j])@ == spec_role(authenticated)
                                    + ": "@ + bucket@ + " - "@ + ps.permissions@[j]@,
                        decreases ps.permissions@.len() - k,
                    {
                        let mut s = role.to_owned();
                        s.append(": ");
                        s.append(bucket);
                        s.append(" - ");
                        s.append(ps.permissions[k].as_str());
                        v.push(s);
                        k = k + 1;
                    }
                    v
                }
            },
        }
    }

    /// Starts a scan of the given buckets, in order.
    pub fn scan(&self, buckets: Vec<String>) -> (m: GcsScan)
        ensures
            m.wf(),
            m.buckets == buckets,
            m.idx == 0,
            m.records@ == Seq::<GcsRecord>::empty(),
            buckets@.len() > 0 ==> m.phase is Exists && m.current.existence is None
                && m.current.anonymous is None && m.current.authenticated is None,
            buckets@.len() == 0 ==> m.phase is Done,
    {
        let (phase, current) = if buckets.len() > 0 {
            (
                GcsPhase::Exists,
                GcsRecord {
                    bucket: buckets[0].clone(),
                    existence: Option::None,
                    anonymous: Option::None,
                    authenticated: Option::None,
                },
            )
        } else {
            (
                GcsPhase::Done,
                GcsRecord {
                    bucket: String::new(),
                    existence: Option::None,
                    anonymous: Option::None,
                    authenticated: Option::None,
                },
            )
        };
        GcsScan {
            buckets,
            idx: 0,
            phase,
            cred_path: Option::None,
            token: Option::None,
            current,
            records: Vec::new(),
        }
    }
}

} // verus!
