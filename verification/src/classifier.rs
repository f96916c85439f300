//! The response classifier: maps a transport outcome for a given probe to
//! exactly one verdict, per provider.

use vstd::prelude::*;

use crate::s3err::{parse_s3_error, spec_s3_error_decodes, spec_s3_error_matches};
use crate::verdict::{FailureCause, Outcome, Verdict};
use crate::Provider;

verus! {

/// The status code signals success.
pub open spec fn spec_is_success(s: u16) -> bool {
    200 <= s < 300
}

/// Tests whether a status code is in the success range.
pub fn is_success(s: u16) -> (r: bool)
    ensures
        r == spec_is_success(s),
{
    200 <= s && s < 300
}

/// The verdict of an S3 existence probe: success and the redirected 301
/// both mean the bucket exists; 404 means it does not; 403 means it is
/// there but refused; anything else is surfaced as ambiguous.
pub open spec fn spec_classify_s3_existence(o: Outcome) -> Verdict {
    match o {
        Outcome::Failure(c) => Verdict::TransportFailure(c),
        Outcome::Response(s, _) => if spec_is_success(s) {
            Verdict::Confirmed(true)
        } else if s == 404 {
            Verdict::Confirmed(false)
        } else if s == 301 {
            Verdict::Confirmed(true)
        } else if s == 403 {
            Verdict::Denied
        } else {
            Verdict::Ambiguous(s)
        },
    }
}

/// Classifies an S3 existence-probe outcome.
pub fn classify_s3_existence(o: &Outcome) -> (v: Verdict)
    ensures
        v == spec_classify_s3_existence(*o),
{
    match o {
        Outcome::Failure(c) => Verdict::TransportFailure(*c),
        Outcome::Response(s, _) => {
            let s = *s;
            if is_success(s) {
                Verdict::Confirmed(true)
            } else if s == 404 {
                Verdict::Confirmed(false)
            } else if s == 301 {
                Verdict::Confirmed(true)
            } else if s == 403 {
                Verdict::Denied
            } else {
                Verdict::Ambiguous(s)
            }
        },
    }
}

/// The verdict `v` is the one the classifier owes for the outcome `o` of
/// an S3 capability probe (list, write, delete): success is allowed,
/// 403 and 404 are denied, a redirected 301 carries the decoded error
/// document or degrades to a transport failure with the raw status, and
/// any other status is surfaced as ambiguous.
pub open spec fn spec_s3_capability_verdict(o: Outcome, v: Verdict) -> bool {
    match o {
        Outcome::Failure(c) => v == Verdict::TransportFailure(c),
        Outcome::Response(s, b) => if spec_is_success(s) {
            v == Verdict::Allowed
        } else if s == 404 || s == 403 {
            v == Verdict::Denied
        } else if s == 301 {
            if spec_s3_error_decodes(b@) {
                v matches Verdict::DeniedDetail(e) && spec_s3_error_matches(e, b@)
            } else {
                v == Verdict::TransportFailure(FailureCause::Status(301))
            }
        } else {
            v == Verdict::Ambiguous(s)
        },
    }
}

/// Classifies an S3 capability-probe outcome, decoding the error body on
/// a redirect.
pub fn classify_s3_capability(o: &Outcome) -> (v: Verdict)
    ensures
        spec_s3_capability_verdict(*o, v),
{
    match o {
        Outcome::Failure(c) => Verdict::TransportFailure(*c),
        Outcome::Response(s, b) => {
            let s = *s;
            if is_success(s) {
                Verdict::Allowed
            } else if s == 404 || s == 403 {
                Verdict::Denied
            } else if s == 301 {
                match parse_s3_error(b.as_str()) {
                    Option::Some(e) => Verdict::DeniedDetail(e),
                    Option::None => Verdict::TransportFailure(FailureCause::Status(301)),
                }
            } else {
                Verdict::Ambiguous(s)
            }
        },
    }
}

/// The verdict of an Azure existence probe: a successful status means the
/// container exists; any other status means it does not. Azure draws no
/// line between refused and absent here, so 403 and 404 classify alike.
pub open spec fn spec_classify_azure_existence(o: Outcome) -> Verdict {
    match o {
        Outcome::Failure(c) => Verdict::TransportFailure(c),
        Outcome::Response(s, _) => if spec_is_success(s) {
            Verdict::Confirmed(true)
        } else {
            Verdict::Confirmed(false)
        },
    }
}

/// Classifies an Azure existence-probe outcome.
pub fn classify_azure_existence(o: &Outcome) -> (v: Verdict)
    ensures
        v == spec_classify_azure_existence(*o),
{
    match o {
        Outcome::Failure(c) => Verdict::TransportFailure(*c),
        Outcome::Response(s, _) => {
            if is_success(*s) {
                Verdict::Confirmed(true)
            } else {
                Verdict::Confirmed(false)
            }
        },
    }
}

/// The verdict of an Azure anonymous-list probe.
pub open spec fn spec_classify_azure_list(o: Outcome) -> Verdict {
    match o {
        Outcome::Failure(c) => Verdict::TransportFailure(c),
        Outcome::Response(s, _) => if spec_is_success(s) {
            Verdict::Allowed
        } else {
            Verdict::Denied
        },
    }
}

/// Classifies an Azure anonymous-list outcome.
pub fn classify_azure_list(o: &Outcome) -> (v: Verdict)
    ensures
        v == spec_classify_azure_list(*o),
{
    match o {
        Outcome::Failure(c) => Verdict::TransportFailure(*c),
        Outcome::Response(s, _) => {
            if is_success(*s) {
                Verdict::Allowed
            } else {
                Verdict::Denied
            }
        },
    }
}

/// The verdict of a GCS existence probe: not-found and bad-request mean
/// the bucket does not exist; any other status means it does.
pub open spec fn spec_classify_gcs_existence(o: Outcome) -> Verdict {
    match o {
        Outcome::Failure(c) => Verdict::TransportFailure(c),
        Outcome::Response(s, _) => if s == 404 || s == 400 {
            Verdict::Confirmed(false)
        } else {
            Verdict::Confirmed(true)
        },
    }
}

/// Classifies a GCS existence-probe outcome.
pub fn classify_gcs_existence(o: &Outcome) -> (v: Verdict)
    ensures
        v == spec_classify_gcs_existence(*o),
{
    match o {
        Outcome::Failure(c) => Verdict::TransportFailure(*c),
        Outcome::Response(s, _) => {
            if *s == 404 || *s == 400 {
                Verdict::Confirmed(false)
            } else {
                Verdict::Confirmed(true)
            }
        },
    }
}

/// The existence verdict for any provider: a pure function of the
/// provider and the transport outcome alone.
pub open spec fn spec_classify_existence(p: Provider, o: Outcome) -> Verdict {
    match p {
        Provider::S3 => spec_classify_s3_existence(o),
        Provider::AzureBlob => spec_classify_azure_existence(o),
        Provider::Gcs => spec_classify_gcs_existence(o),
    }
}

/// Classifies an existence-probe outcome for the given provider.
pub fn classify_existence(p: Provider, o: &Outcome) -> (v: Verdict)
    ensures
        v == spec_classify_existence(p, *o),
{
    match p {
        Provider::S3 => classify_s3_existence(o),
        Provider::AzureBlob => classify_azure_existence(o),
        Provider::Gcs => classify_gcs_existence(o),
    }
}

/// The S3 existence rules pinned one status at a time: success confirms
/// existence, not-found denies it, and the redirected 301 always confirms
/// existence — never not-exists, never ambiguous.
pub proof fn lemma_s3_existence_status_rules(o: Outcome)
    ensures
        (o matches Outcome::Response(s, _) && s == 200) ==> spec_classify_s3_existence(o)
            == Verdict::Confirmed(true),
        (o matches Outcome::Response(s, _) && s == 404) ==> spec_classify_s3_existence(o)
            == Verdict::Confirmed(false),
        (o matches Outcome::Response(s, _) && s == 301) ==> spec_classify_s3_existence(o)
            == Verdict::Confirmed(true),
{
}

/// Existence checking is idempotent: an unchanged resource answers a
/// repeated probe with the same transport outcome, and equal outcomes
/// classify to equal verdicts, so two consecutive existence checks yield
/// the same verdict.
pub proof fn lemma_existence_idempotent(p: Provider, first: Outcome, second: Outcome)
    requires
        first == second,
    ensures
        spec_classify_existence(p, first) == spec_classify_existence(p, second),
{
}

} // verus!
