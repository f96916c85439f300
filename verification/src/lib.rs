//! Probing of cloud object-storage resources for public-access
//! misconfigurations: existence, anonymous listing, anonymous write and
//! delete, and anonymous-versus-authenticated permission enumeration.
//!
//! The library holds the decision logic: classifying transport outcomes
//! into verdicts, parsing provider error and permission documents, and
//! sequencing the per-resource probe protocol as state machines. The
//! transport itself (HTTP, OAuth token exchange) is driven by the caller,
//! which performs the actions the state machines request and hands back
//! the outcomes.

use vstd::prelude::*;

mod azure;
mod classifier;
mod gcs;
mod perms;
mod s3;
mod s3err;
mod text;
mod verdict;

pub use azure::{
    azure_advances, azure_finishes, azure_record_gap, lemma_azure_write_delete_unsupported,
    spec_azure_url, AzurePhase, AzureRequest, AzureScan, AzureStorage,
};
pub use classifier::{
    classify_azure_existence, classify_azure_list, classify_existence, classify_gcs_existence,
    classify_s3_capability, classify_s3_existence, is_success, lemma_existence_idempotent,
    lemma_s3_existence_status_rules, spec_classify_azure_existence, spec_classify_azure_list,
    spec_classify_existence,
    spec_classify_gcs_existence, spec_classify_s3_existence, spec_is_success,
    spec_s3_capability_verdict,
};
pub use gcs::{
    classify_gcs_permissions, gcs_closes, gcs_record_protocol, gcs_stays,
    lemma_gcs_identity_order, lemma_missing_credentials_no_exchange,
    spec_gcs_base_url, spec_gcs_iam_url, spec_gcs_permissions_result, spec_role, GcsEvent,
    GcsPhase, GcsRecord, GcsRequest, GcsScan, Identity, PermissionSet, GCS,
};
pub use perms::{
    is_ws, lemma_absent_permissions_empty, parse_permissions, spec_permissions_of, spec_scan_items,
    PState,
};
pub use s3::{
    advances, finishes, lemma_s3_protocol_order, probe_key, probe_payload, s3_record_protocol,
    spec_probe_key, spec_probe_order, spec_probe_payload, AWSs3, S3Phase, S3Request, S3Scan,
};
pub use s3err::{extract, parse_s3_error, spec_extract, spec_s3_error_decodes, spec_s3_error_matches};
pub use text::{find_from, find_str, match_at};
pub use verdict::{
    spec_scan_error_text, FailureCause, Outcome, ProbeKind, S3Error, ScanError, ScanRecord,
    Verdict,
};

verus! {

/// The providers that can be scanned.
#[derive(Debug, Clone, Copy, PartialEq, Eq, Structural)]
pub enum Provider {
    S3,
    AzureBlob,
    Gcs,
}

} // verus!
