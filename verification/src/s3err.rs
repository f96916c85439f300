//! Decoding of the S3 XML error document into its structured fields.
//!
//! The provider returns a body of the shape
//! `<Error><Code>..</Code><Message>..</Message>..</Error>`; the decoder
//! extracts the six documented fields and reports failure whenever one of
//! them is missing, never panicking on malformed input.

use vstd::prelude::*;

use crate::text::{find_from, find_str, lemma_find_from_some};
use crate::verdict::S3Error;

verus! {

/// The text enclosed by the first `open` tag and the next `close` tag
/// after it, if both occur in `h`.
pub open spec fn spec_extract(h: Seq<char>, open: Seq<char>, close: Seq<char>) -> Option<
    Seq<char>,
> {
    match find_from(h, open, 0) {
        Option::None => Option::None,
        Option::Some(i) => match find_from(h, close, i + open.len()) {
            Option::None => Option::None,
            Option::Some(j) => Option::Some(h.subrange(i + open.len(), j)),
        },
    }
}

/// Extracts the text between the first `open` tag and the following
/// `close` tag.
pub fn extract(h: &str, open: &str, close: &str) -> (r: Option<String>)
    ensures
        match r {
            Option::Some(s) => spec_extract(h@, open@, close@) == Option::Some(s@),
            Option::None => spec_extract(h@, open@, close@) is None,
        },
{
    let hl = h.unicode_len();
    let ol = open.unicode_len();
    match find_str(h, open, 0) {
        Option::None => Option::None,
        Option::Some(i) => {
            proof {
                lemma_find_from_some(h@, open@, 0, i as int);
                assert(i + ol <= hl);
            }
            let start = i + ol;
            match find_str(h, close, start) {
                Option::None => Option::None,
                Option::Some(j) => {
                    proof {
                        lemma_find_from_some(h@, close@, start as int, j as int);
                    }
                    Option::Some(h.substring_char(start, j).to_owned())
                },
            }
        },
    }
}

/// All six fields of the S3 error document occur in `h`.
pub open spec fn spec_s3_error_decodes(h: Seq<char>) -> bool {
    &&& spec_extract(h, "<Code>"@, "</Code>"@) is Some
    &&& spec_extract(h, "<Message>"@, "</Message>"@) is Some
    &&& spec_extract(h, "<Endpoint>"@, "</Endpoint>"@) is Some
    &&& spec_extract(h, "<Bucket>"@, "</Bucket>"@) is Some
    &&& spec_extract(h, "<RequestId>"@, "</RequestId>"@) is Some
    &&& spec_extract(h, "<HostId>"@, "</HostId>"@) is Some
}

/// `e` carries exactly the six fields the document `h` encloses in its
/// tags.
pub open spec fn spec_s3_error_matches(e: S3Error, h: Seq<char>) -> bool {
    &&& spec_extract(h, "<Code>"@, "</Code>"@) == Option::Some(e.code@)
    &&& spec_extract(h, "<Message>"@, "</Message>"@) == Option::Some(e.message@)
    &&& spec_extract(h, "<Endpoint>"@, "</Endpoint>"@) == Option::Some(e.endpoint@)
    &&& spec_extract(h, "<Bucket>"@, "</Bucket>"@) == Option::Some(e.bucket@)
    &&& spec_extract(h, "<RequestId>"@, "</RequestId>"@) == Option::Some(e.request_id@)
    &&& spec_extract(h, "<HostId>"@, "</HostId>"@) == Option::Some(e.host_id@)
}

/// Decodes the S3 error document: all six fields present, or nothing.
pub fn parse_s3_error(h: &str) -> (r: Option<S3Error>)
    ensures
        match r {
            Option::Some(e) => spec_s3_error_decodes(h@) && spec_s3_error_matches(e, h@),
            Option::None => !spec_s3_error_decodes(h@),
        },
{
    let code = extract(h, "<Code>", "</Code>");
    let message = extract(h, "<Message>", "</Message>");
    let endpoint = extract(h, "<Endpoint>", "</Endpoint>");
    let bucket = extract(h, "<Bucket>", "</Bucket>");
    let request_id = extract(h, "<RequestId>", "</RequestId>");
    let host_id = extract(h, "<HostId>", "</HostId>");
    match (code, message, endpoint, bucket, request_id, host_id) {
        (
            Option::Some(code),
            Option::Some(message),
            Option::Some(endpoint),
            Option::Some(bucket),
            Option::Some(request_id),
            Option::Some(host_id),
        ) => Option::Some(
            S3Error { code, message, endpoint, bucket, request_id, host_id },
        ),
        _ => Option::None,
    }
}

} // verus!
