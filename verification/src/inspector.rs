//! Request inspection and the denial response.
//!
//! `inspect_request` sequences the two phases: headers first, and only when
//! they pass, the body — parsed, flattened, and checked. A body that fails to
//! parse as JSON yields no inspectable paths and the phase allows (fail-open).
//! `denial_response` maps a denial to one of the two response conventions.

use vstd::prelude::*;
use vstd::string::StrSliceExecFns;
use crate::json::flatten;
use crate::json::spec_flatten;
use crate::policy::PolicyConfig;
use crate::policy::ReasonCode;
use crate::policy::Verdict;
use crate::policy::check_body_paths;
use crate::policy::check_headers;
use crate::policy::header_names;
use crate::policy::spec_body_verdict;
use crate::policy::spec_header_verdict;
use crate::trusted::abstract_value;
use crate::trusted::parse_raw;
use crate::trusted::parsed_json;

verus! {

/// The body phase's verdict on raw bytes: bytes that are not valid JSON give
/// no paths to inspect and are allowed; a parsed document is flattened from
/// the empty prefix and checked.
pub open spec fn spec_body_phase(
    bytes: Seq<u8>,
    suppressed: Seq<Seq<char>>,
    allowed: Seq<Seq<char>>,
) -> Verdict {
    match parsed_json(bytes) {
        None => Verdict::Allow,
        Some(v) => spec_body_verdict(spec_flatten(v, Seq::empty()), suppressed, allowed),
    }
}

/// Body phase: parses `bytes` as JSON, flattens the document, and checks the
/// paths; malformed bodies fail open.
pub fn inspect_body(bytes: &[u8], config: &PolicyConfig) -> (r: Verdict)
    ensures
        r == spec_body_phase(bytes@, config.spec_suppressed(), config.spec_allowed()),
{
    match parse_raw(bytes) {
        None => Verdict::Allow,
        Some(raw) => {
            let v = abstract_value(&raw);
            proof {
                reveal_strlit("");
                assert(""@ =~= Seq::<char>::empty());
            }
            let paths = flatten(&v, "");
            check_body_paths(&paths, config)
        },
    }
}

/// A malformed body fails open: whenever the bytes are not valid JSON, the
/// body phase allows, whatever the rule sets hold.
pub proof fn lemma_malformed_body_fails_open(
    bytes: Seq<u8>,
    suppressed: Seq<Seq<char>>,
    allowed: Seq<Seq<char>>,
)
    requires
        parsed_json(bytes) is None,
    ensures
        spec_body_phase(bytes, suppressed, allowed) == Verdict::Allow,
{
}

/// The verdict for a whole request: the header phase's denial when it denies;
/// otherwise the body phase's verdict, or `Allow` where no body is available.
pub open spec fn spec_request_verdict(
    names: Seq<Seq<char>>,
    body: Option<Seq<u8>>,
    suppressed: Seq<Seq<char>>,
    allowed: Seq<Seq<char>>,
) -> Verdict {
    let header_verdict = spec_header_verdict(names, suppressed);
    if header_verdict is Deny {
        header_verdict
    } else {
        match body {
            None => Verdict::Allow,
            Some(bytes) => spec_body_phase(bytes, suppressed, allowed),
        }
    }
}

/// The view of an optional byte buffer.
pub open spec fn opt_bytes_view(body: Option<&[u8]>) -> Option<Seq<u8>> {
    match body {
        None => None,
        Some(bytes) => Some(bytes@),
    }
}

/// Full inspection: runs the header phase, and only when it allows, the body
/// phase on the body bytes, when they are available.
pub fn inspect_request(
    headers: &Vec<(String, String)>,
    body: Option<&[u8]>,
    config: &PolicyConfig,
) -> (r: Verdict)
    ensures
        r == spec_request_verdict(
            header_names(headers@),
            opt_bytes_view(body),
            config.spec_suppressed(),
            config.spec_allowed(),
        ),
{
    let header_verdict = check_headers(headers, config);
    match header_verdict {
        Verdict::Deny { reason } => Verdict::Deny { reason },
        Verdict::Allow => match body {
            None => Verdict::Allow,
            Some(bytes) => inspect_body(bytes, config),
        },
    }
}

/// Whether a declared content type indicates a gRPC-style stream: it is
/// `application/grpc`, alone or with a subtype suffix.
pub open spec fn spec_is_grpc(ct: Seq<char>) -> bool {
    ct.len() >= "application/grpc"@.len() && ct.subrange(
        0,
        "application/grpc"@.len() as int,
    ) == "application/grpc"@
}

/// Selects the response convention: the streaming-RPC convention exactly when
/// the declared content type begins with `application/grpc`.
pub fn is_grpc_content_type(ct: &str) -> (r: bool)
    ensures
        r == spec_is_grpc(ct@),
{
    proof {
        reveal_strlit("application/grpc");
    }
    let n = ct.unicode_len();
    if n < 16 {
        return false;
    }
    let prefix = ct.substring_char(0, 16);
    prefix.to_owned().eq(&"application/grpc".to_owned())
}

/// The machine-readable tag a denial carries for each reason.
pub open spec fn spec_defense_tag(reason: ReasonCode) -> Seq<char> {
    match reason {
        ReasonCode::HeaderSuppressed => "methylated-header"@,
        ReasonCode::BodyPathSuppressed => "methylated"@,
        ReasonCode::BodyPathNotAllowed => "antigen-rejected"@,
    }
}

/// The human-readable reason text a denial carries for each reason.
pub open spec fn spec_reason_text(reason: ReasonCode) -> Seq<char> {
    match reason {
        ReasonCode::HeaderSuppressed => "Access Denied: Pathogen Header Suppressed"@,
        ReasonCode::BodyPathSuppressed => "Access Denied: Pathogen Suppressed"@,
        ReasonCode::BodyPathNotAllowed => "Access Denied: Foreign Antigen"@,
    }
}

impl ReasonCode {
    /// The machine-readable defense tag for this reason.
    pub fn defense_type(&self) -> (r: String)
        ensures
            r@ == spec_defense_tag(*self),
    {
        match self {
            ReasonCode::HeaderSuppressed => "methylated-header".to_owned(),
            ReasonCode::BodyPathSuppressed => "methylated".to_owned(),
            ReasonCode::BodyPathNotAllowed => "antigen-rejected".to_owned(),
        }
    }

    /// The human-readable reason text for this reason.
    pub fn reason_text(&self) -> (r: String)
        ensures
            r@ == spec_reason_text(*self),
    {
        match self {
            ReasonCode::HeaderSuppressed => "Access Denied: Pathogen Header Suppressed".to_owned(),
            ReasonCode::BodyPathSuppressed => "Access Denied: Pathogen Suppressed".to_owned(),
            ReasonCode::BodyPathNotAllowed => "Access Denied: Foreign Antigen".to_owned(),
        }
    }
}

/// The denial response the host must synthesize: a status code, the marker
/// header, the reason text, and — under the streaming-RPC convention — the
/// trailing status code.
pub struct DenialResponse {
    pub status: u16,
    pub header_name: String,
    pub header_value: String,
    pub message: String,
    pub grpc_status: Option<u32>,
}

/// Builds the denial response for `reason`. Under the default HTTP
/// convention the status is 403; under the streaming-RPC convention the
/// status is 200 with trailing status 7 (permission denied). Both carry the
/// marker header and the reason text.
pub fn denial_response(reason: ReasonCode, grpc: bool) -> (r: DenialResponse)
    ensures
        r.status == (if grpc { 200u16 } else { 403u16 }),
        r.header_name@ == "x-leukocyte-defense"@,
        r.header_value@ == spec_defense_tag(reason),
        r.message@ == spec_reason_text(reason),
        r.grpc_status == (if grpc { Some(7u32) } else { None::<u32> }),
{
    DenialResponse {
        status: if grpc { 200 } else { 403 },
        header_name: "x-leukocyte-defense".to_owned(),
        header_value: reason.defense_type(),
        message: reason.reason_text(),
        grpc_status: if grpc { Some(7) } else { None },
    }
}

} // verus!
