use digger::{
    classify_existence, classify_gcs_permissions, classify_s3_capability, classify_s3_existence,
    parse_permissions, parse_s3_error, AzureStorage, FailureCause, GcsEvent, GcsRequest,
    Identity, Outcome, ProbeKind, Provider, ScanError, Verdict, AWSs3, GCS,
};

fn resp(status: u16, body: &str) -> Outcome {
    Outcome::Response(status, String::from(body))
}

#[test]
fn existence_check_is_idempotent() {
    let providers = [Provider::S3, Provider::AzureBlob, Provider::Gcs];
    for p in providers {
        let first = classify_existence(p, &resp(301, ""));
        let second = classify_existence(p, &resp(301, ""));
        assert_eq!(first, second);
        let first = classify_existence(p, &Outcome::Failure(FailureCause::Timeout));
        let second = classify_existence(p, &Outcome::Failure(FailureCause::Timeout));
        assert_eq!(first, second);
    }
}

#[test]
fn s3_existence_statuses() {
    assert_eq!(classify_s3_existence(&resp(200, "")), Verdict::Confirmed(true));
    assert_eq!(classify_s3_existence(&resp(404, "")), Verdict::Confirmed(false));
    assert_eq!(classify_s3_existence(&resp(301, "")), Verdict::Confirmed(true));
    assert_eq!(classify_s3_existence(&resp(403, "")), Verdict::Denied);
    assert_eq!(classify_s3_existence(&resp(500, "")), Verdict::Ambiguous(500));
    assert_eq!(
        classify_s3_existence(&Outcome::Failure(FailureCause::Tls)),
        Verdict::TransportFailure(FailureCause::Tls)
    );
}

const REDIRECT_BODY: &str = "<?xml version=\"1.0\"?><Error><Code>PermanentRedirect</Code>\
<Message>The bucket is in this region: eu-west-1.</Message>\
<Endpoint>bucket.s3.eu-west-1.amazonaws.com</Endpoint><Bucket>x</Bucket>\
<RequestId>r1</RequestId><HostId>h1</HostId></Error>";

#[test]
fn s3_error_body_decodes_all_six_fields() {
    let e = parse_s3_error(REDIRECT_BODY).expect("well-formed error document must decode");
    assert_eq!(e.code, "PermanentRedirect");
    assert_eq!(e.message, "The bucket is in this region: eu-west-1.");
    assert_eq!(e.endpoint, "bucket.s3.eu-west-1.amazonaws.com");
    assert_eq!(e.bucket, "x");
    assert_eq!(e.request_id, "r1");
    assert_eq!(e.host_id, "h1");
}

#[test]
fn s3_redirect_with_decodable_body_carries_detail() {
    let v = classify_s3_capability(&resp(301, REDIRECT_BODY));
    match v {
        Verdict::DeniedDetail(e) => {
            assert_eq!(e.code, "PermanentRedirect");
            assert_eq!(e.endpoint, "bucket.s3.eu-west-1.amazonaws.com");
        }
        other => panic!("expected structured detail, got {:?}", other),
    }
}

#[test]
fn s3_error_body_missing_fields_degrades_to_transport_failure() {
    let body = "<Error><Code>PermanentRedirect</Code><Message>m</Message></Error>";
    assert!(parse_s3_error(body).is_none());
    assert_eq!(
        classify_s3_capability(&resp(301, body)),
        Verdict::TransportFailure(FailureCause::Status(301))
    );
    // A completely empty body must not panic either.
    assert_eq!(
        classify_s3_capability(&resp(301, "")),
        Verdict::TransportFailure(FailureCause::Status(301))
    );
}

#[test]
fn s3_capability_statuses() {
    assert_eq!(classify_s3_capability(&resp(200, "")), Verdict::Allowed);
    assert_eq!(classify_s3_capability(&resp(204, "")), Verdict::Allowed);
    assert_eq!(classify_s3_capability(&resp(403, "")), Verdict::Denied);
    assert_eq!(classify_s3_capability(&resp(404, "")), Verdict::Denied);
    assert_eq!(classify_s3_capability(&resp(418, "")), Verdict::Ambiguous(418));
    assert_eq!(
        classify_s3_capability(&Outcome::Failure(FailureCause::Connection)),
        Verdict::TransportFailure(FailureCause::Connection)
    );
}

#[test]
fn s3_end_to_end_scenario() {
    let probe = AWSs3::new("us-east-1");
    assert_eq!(probe.region, "us-east-1");
    let mut scan = probe.scan(vec![
        String::from("a-public-bucket"),
        String::from("a-private-bucket"),
    ]);

    // a-public-bucket: 200 head, 200 list (three keys), 200 put, 204 delete.
    let q = scan.pending_request().expect("head request pending");
    assert_eq!(q.kind, ProbeKind::Existence);
    assert_eq!(q.bucket, "a-public-bucket");
    assert!(q.region.is_none());
    scan.step(&resp(200, ""));

    let q = scan.pending_request().expect("list request pending");
    assert_eq!(q.kind, ProbeKind::ListObjects);
    assert_eq!(q.region.as_deref(), Some("us-east-1"));
    scan.step(&resp(200, "<ListBucketResult><Key>a</Key><Key>b</Key><Key>c</Key></ListBucketResult>"));

    let q = scan.pending_request().expect("write request pending");
    assert_eq!(q.kind, ProbeKind::AnonymousWrite);
    assert_eq!(q.key.as_deref(), Some("really-long-name-that-is-definitely-not-used.txt"));
    assert_eq!(q.payload.as_deref(), Some("it should not be possible to do this!"));
    scan.step(&resp(200, ""));

    let q = scan.pending_request().expect("delete request pending after allowed write");
    assert_eq!(q.kind, ProbeKind::AnonymousDelete);
    assert_eq!(q.key.as_deref(), Some("really-long-name-that-is-definitely-not-used.txt"));
    scan.step(&resp(204, ""));

    // a-private-bucket: 403 on head must not skip list or write; the
    // refused write skips only the delete.
    let q = scan.pending_request().expect("second bucket head pending");
    assert_eq!(q.kind, ProbeKind::Existence);
    assert_eq!(q.bucket, "a-private-bucket");
    scan.step(&resp(403, ""));

    let q = scan.pending_request().expect("list still attempted after denied head");
    assert_eq!(q.kind, ProbeKind::ListObjects);
    scan.step(&resp(403, ""));

    let q = scan.pending_request().expect("write still attempted after denied head");
    assert_eq!(q.kind, ProbeKind::AnonymousWrite);
    scan.step(&resp(403, ""));

    assert!(scan.pending_request().is_none(), "denied write skips the delete probe");

    assert_eq!(scan.records.len(), 2);
    let public = &scan.records[0];
    assert_eq!(public.name, "a-public-bucket");
    assert_eq!(
        public.verdicts,
        vec![
            (ProbeKind::Existence, Verdict::Confirmed(true)),
            (ProbeKind::ListObjects, Verdict::Allowed),
            (ProbeKind::AnonymousWrite, Verdict::Allowed),
            (ProbeKind::AnonymousDelete, Verdict::Allowed),
        ]
    );
    let private = &scan.records[1];
    assert_eq!(private.name, "a-private-bucket");
    assert_eq!(
        private.verdicts,
        vec![
            (ProbeKind::Existence, Verdict::Denied),
            (ProbeKind::ListObjects, Verdict::Denied),
            (ProbeKind::AnonymousWrite, Verdict::Denied),
        ]
    );
}

#[test]
fn azure_write_delete_always_unsupported_without_network() {
    let storage = AzureStorage::new("acct");
    let mut scan = storage.scan(vec![String::from("open"), String::from("missing")]);

    // Every request the machine ever asks for is existence or list: the
    // write and delete probes never reach the caller.
    let q = scan.pending_request().expect("existence pending");
    assert_eq!(q.kind, ProbeKind::Existence);
    assert_eq!(q.url, "https://acct.blob.core.windows.net/open");
    assert_eq!((q.query_key.as_str(), q.query_value.as_str()), ("restype", "container"));
    assert_eq!(q.timeout_secs, 5);
    scan.step(&resp(200, ""));

    let q = scan.pending_request().expect("list pending after confirmed existence");
    assert_eq!(q.kind, ProbeKind::ListObjects);
    assert_eq!((q.query_key.as_str(), q.query_value.as_str()), ("comp", "list"));
    scan.step(&resp(200, ""));

    let q = scan.pending_request().expect("second container existence pending");
    assert_eq!(q.kind, ProbeKind::Existence);
    scan.step(&resp(404, ""));

    assert!(scan.pending_request().is_none());
    assert_eq!(scan.records.len(), 2);
    for record in &scan.records {
        let n = record.verdicts.len();
        assert_eq!(
            record.verdicts[n - 2],
            (ProbeKind::AnonymousWrite, Verdict::Unsupported)
        );
        assert_eq!(
            record.verdicts[n - 1],
            (ProbeKind::AnonymousDelete, Verdict::Unsupported)
        );
    }
    // Azure existence draws no 403/404 line: any non-success means
    // not-exists, so the second record shows Confirmed(false) and no list.
    assert_eq!(
        scan.records[1].verdicts[0],
        (ProbeKind::Existence, Verdict::Confirmed(false))
    );
    assert_eq!(scan.records[1].verdicts.len(), 3);
}

#[test]
fn azure_url_and_timeout() {
    let storage = AzureStorage::new("myaccount");
    assert_eq!(
        storage.base_url_with_container("c1"),
        "https://myaccount.blob.core.windows.net/c1"
    );
    assert_eq!(storage.timeout(), 5);
}

#[test]
fn gcs_empty_or_absent_permissions_decode_to_empty_set() {
    let explicit = parse_permissions("{\"kind\": \"storage#testIamPermissionsResponse\", \"permissions\": []}");
    assert_eq!(explicit, Some(Vec::new()));
    let absent = parse_permissions("{\"kind\": \"storage#testIamPermissionsResponse\"}");
    assert_eq!(absent, Some(Vec::new()));

    let r = classify_gcs_permissions(
        &resp(200, "{\"kind\": \"storage#testIamPermissionsResponse\"}"),
        Identity::Anonymous,
    )
    .expect("successful empty response classifies as ok");
    assert_eq!(r.identity, Identity::Anonymous);
    assert!(r.permissions.is_empty());
}

#[test]
fn gcs_candidate_permission_list_has_ten_entries() {
    let gcs = GCS;
    let candidates = gcs.permissions();
    assert_eq!(candidates.len(), 10);
    for (key, _) in &candidates {
        assert_eq!(key.as_str(), "permissions");
    }
    assert_eq!(candidates[0].1, "storage.buckets.delete");
    assert_eq!(candidates[9].1, "storage.objects.update");
}

#[test]
fn gcs_permission_list_decodes_in_order() {
    let body = "{\"kind\": \"k\", \"permissions\": [\"storage.objects.get\", \"storage.objects.list\"]}";
    let perms = parse_permissions(body).expect("well-formed list decodes");
    assert_eq!(perms, vec!["storage.objects.get", "storage.objects.list"]);
}

#[test]
fn gcs_malformed_body_is_a_decode_failure() {
    assert!(parse_permissions("{\"permissions\": [\"unterminated\"").is_none());
    assert!(parse_permissions("{\"permissions\": 3}").is_none());
    assert_eq!(
        classify_gcs_permissions(&resp(200, "{\"permissions\": 3}"), Identity::Anonymous),
        Err(ScanError::DecodeFailure)
    );
    assert_eq!(
        classify_gcs_permissions(&resp(500, "{}"), Identity::Anonymous),
        Err(ScanError::UnknownStatus(500))
    );
    assert_eq!(
        classify_gcs_permissions(&resp(403, "{}"), Identity::Anonymous),
        Err(ScanError::CapabilityDenied)
    );
    assert_eq!(
        classify_gcs_permissions(&Outcome::Failure(FailureCause::Timeout), Identity::Anonymous),
        Err(ScanError::TransportFailure(FailureCause::Timeout))
    );
}

#[test]
fn gcs_missing_credential_path_stops_authenticated_branch() {
    let gcs = GCS;
    let mut scan = gcs.scan(vec![String::from("bkt"), String::from("gone")]);

    match scan.pending_request().expect("existence pending") {
        GcsRequest::ProbeExistence { url, timeout_secs } => {
            assert_eq!(url, "https://storage.googleapis.com/storage/v1/b/bkt");
            assert_eq!(timeout_secs, 5);
        }
        other => panic!("expected existence probe, got {:?}", other),
    }
    scan.step(GcsEvent::Outcome(resp(200, "")));

    match scan.pending_request().expect("anonymous permissions pending") {
        GcsRequest::TestPermissions { url, bearer, .. } => {
            assert_eq!(url, "https://storage.googleapis.com/storage/v1/b/bkt/iam/testPermissions");
            assert!(bearer.is_none());
        }
        other => panic!("expected test-permissions probe, got {:?}", other),
    }
    scan.step(GcsEvent::Outcome(resp(200, "{\"kind\": \"k\", \"permissions\": []}")));

    assert!(matches!(
        scan.pending_request().expect("credential lookup pending"),
        GcsRequest::ReadCredentialPath
    ));
    scan.step(GcsEvent::CredPath(None));

    // The authenticated branch ended with a configuration error, without
    // any token exchange; the anonymous result stands; the scan moved on.
    let rec = &scan.records[0];
    assert_eq!(rec.bucket, "bkt");
    assert_eq!(rec.existence, Some(Verdict::Confirmed(true)));
    let anon = rec.anonymous.as_ref().expect("anonymous branch ran").as_ref().unwrap();
    assert!(anon.permissions.is_empty());
    assert_eq!(
        rec.authenticated,
        Some(Err(ScanError::ConfigurationError))
    );
    match scan.pending_request().expect("scan moved on to the next bucket") {
        GcsRequest::ProbeExistence { url, .. } => {
            assert_eq!(url, "https://storage.googleapis.com/storage/v1/b/gone");
        }
        other => panic!("expected next bucket's existence probe, got {:?}", other),
    }
}

#[test]
fn gcs_authenticated_branch_uses_exchanged_token() {
    let gcs = GCS;
    let mut scan = gcs.scan(vec![String::from("bkt")]);
    scan.step(GcsEvent::Outcome(resp(200, "")));
    scan.step(GcsEvent::Outcome(resp(200, "{\"permissions\": [\"storage.objects.list\"]}")));
    scan.step(GcsEvent::CredPath(Some(String::from("/tmp/key.json"))));

    match scan.pending_request().expect("token exchange pending") {
        GcsRequest::ExchangeToken { credential_path } => {
            assert_eq!(credential_path, "/tmp/key.json");
        }
        other => panic!("expected token exchange, got {:?}", other),
    }
    scan.step(GcsEvent::Token(Ok(String::from("tok-123"))));

    match scan.pending_request().expect("authenticated permissions pending") {
        GcsRequest::TestPermissions { bearer, .. } => {
            assert_eq!(bearer.as_deref(), Some("tok-123"));
        }
        other => panic!("expected bearer test-permissions probe, got {:?}", other),
    }
    scan.step(GcsEvent::Outcome(resp(
        200,
        "{\"permissions\": [\"storage.objects.get\", \"storage.objects.list\"]}",
    )));

    assert!(scan.pending_request().is_none());
    let rec = &scan.records[0];
    let anon = rec.anonymous.as_ref().unwrap().as_ref().unwrap();
    assert_eq!(anon.identity, Identity::Anonymous);
    assert_eq!(anon.permissions, vec!["storage.objects.list"]);
    let auth = rec.authenticated.as_ref().unwrap().as_ref().unwrap();
    assert_eq!(auth.identity, Identity::Authenticated);
    assert_eq!(auth.permissions, vec!["storage.objects.get", "storage.objects.list"]);
}

#[test]
fn gcs_failed_token_exchange_is_fatal_to_authenticated_branch_only() {
    let gcs = GCS;
    let mut scan = gcs.scan(vec![String::from("bkt")]);
    scan.step(GcsEvent::Outcome(resp(200, "")));
    scan.step(GcsEvent::Outcome(resp(200, "{\"permissions\": []}")));
    scan.step(GcsEvent::CredPath(Some(String::from("/tmp/key.json"))));
    scan.step(GcsEvent::Token(Err(FailureCause::Connection)));

    let rec = &scan.records[0];
    assert!(rec.anonymous.as_ref().unwrap().is_ok());
    assert_eq!(
        rec.authenticated,
        Some(Err(ScanError::TransportFailure(FailureCause::Connection)))
    );
    assert!(scan.pending_request().is_none());
}

#[test]
fn gcs_nonexistent_bucket_skips_permission_checks() {
    let gcs = GCS;
    let mut scan = gcs.scan(vec![String::from("nope")]);
    scan.step(GcsEvent::Outcome(resp(404, "")));
    assert!(scan.pending_request().is_none());
    let rec = &scan.records[0];
    assert_eq!(rec.existence, Some(Verdict::Confirmed(false)));
    assert!(rec.anonymous.is_none());
    assert!(rec.authenticated.is_none());

    // Bad-request classifies as not-exists too; anything else as exists.
    assert_eq!(
        classify_existence(Provider::Gcs, &resp(400, "")),
        Verdict::Confirmed(false)
    );
    assert_eq!(
        classify_existence(Provider::Gcs, &resp(403, "")),
        Verdict::Confirmed(true)
    );
}

#[test]
fn gcs_report_lines() {
    let gcs = GCS;
    let empty = digger::PermissionSet { identity: Identity::Anonymous, permissions: Vec::new() };
    let lines = gcs.result_lines(false, &Ok(empty), "bkt");
    assert_eq!(lines, vec!["bucket=bkt has no allowed permissions as unauthenticated"]);

    let held = digger::PermissionSet {
        identity: Identity::Authenticated,
        permissions: vec![String::from("storage.objects.get"), String::from("storage.objects.list")],
    };
    let lines = gcs.result_lines(true, &Ok(held), "bkt");
    assert_eq!(
        lines,
        vec![
            "authenticated: bkt - storage.objects.get",
            "authenticated: bkt - storage.objects.list",
        ]
    );

    let lines = gcs.result_lines(true, &Err(ScanError::ConfigurationError), "bkt");
    assert_eq!(lines, vec!["configuration error: a required setting is missing"]);
}

#[test]
fn error_phrases() {
    assert_eq!(
        ScanError::TransportFailure(FailureCause::Timeout).describe(),
        "transport failure: request timed out"
    );
    assert_eq!(
        ScanError::DecodeFailure.describe(),
        "decode failure: body did not match the provider schema"
    );
    assert_eq!(ScanError::UnknownStatus(418).describe(), "unknown status code");
}

#[test]
fn s3_file_name_is_fixed() {
    let probe = AWSs3::new("us-east-1");
    assert_eq!(probe.file_name(), "really-long-name-that-is-definitely-not-used.txt");
}

#[test]
fn substring_search() {
    assert_eq!(digger::find_str("abcabc", "bc", 0), Some(1));
    assert_eq!(digger::find_str("abcabc", "bc", 2), Some(4));
    assert_eq!(digger::find_str("abcabc", "zz", 0), None);
    assert_eq!(digger::find_str("abc", "", 1), Some(1));
    assert_eq!(digger::extract("<a>x</a>", "<a>", "</a>"), Some(String::from("x")));
    assert_eq!(digger::extract("<a>x", "<a>", "</a>"), None);
}

#[test]
fn empty_scans_are_done_immediately() {
    let s3 = AWSs3::new("us-east-1").scan(Vec::new());
    assert!(s3.pending_request().is_none());
    let az = AzureStorage::new("a").scan(Vec::new());
    assert!(az.pending_request().is_none());
    let gc = GCS.scan(Vec::new());
    assert!(gc.pending_request().is_none());
}

#[test]
fn s3_failed_delete_is_reported_but_not_fatal() {
    let probe = AWSs3::new("us-east-1");
    let mut scan = probe.scan(vec![String::from("b1"), String::from("b2")]);
    scan.step(&resp(200, "")); // head
    scan.step(&resp(200, "")); // list
    scan.step(&resp(200, "")); // write allowed
    scan.step(&resp(403, "")); // delete refused: recorded, scan moves on
    let q = scan.pending_request().expect("next bucket still probed");
    assert_eq!(q.bucket, "b2");
    assert_eq!(
        scan.records[0].verdicts[3],
        (ProbeKind::AnonymousDelete, Verdict::Denied)
    );
}

#[test]
fn azure_denied_list_is_recorded() {
    let storage = AzureStorage::new("acct");
    let mut scan = storage.scan(vec![String::from("c")]);
    scan.step(&resp(200, "")); // exists
    scan.step(&resp(403, "")); // list refused
    assert_eq!(
        scan.records[0].verdicts[1],
        (ProbeKind::ListObjects, Verdict::Denied)
    );
}
