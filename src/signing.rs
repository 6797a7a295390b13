//! Request signing: the canonical request, what it is signed with, and the
//! signing protocol's own library doing the signing.

use vstd::prelude::*;
use vstd::string::*;
use aws_sig_auth::signer::{OperationSigningConfig, RequestConfig, SigV4Signer};
use aws_smithy_http::body::SdkBody;
use aws_types::region::{Region, SigningRegion};
use aws_types::Credentials as AwsCredentials;
use aws_types::SigningService;
use http::Request;
use std::time::{Duration, UNIX_EPOCH};
use crate::error::DispatchError;

verus! {

/// The last second that the signer can date a request with
/// (9999-12-31T23:59:59Z), in seconds since the Unix epoch.
pub const MAX_SIGNING_SECS: u64 = 253402300799;

/// An HTTP request as it is signed and then sent.
pub struct CanonicalRequest {
    pub method: String,
    pub uri: String,
    /// Header names and values, in order.
    pub headers: Vec<(String, String)>,
    pub body: String,
}

/// Long-term or temporary credentials of the caller.
pub struct Credentials {
    pub access_key_id: String,
    pub secret_key: String,
    pub session_token: Option<String>,
}

/// Everything a request is signed with besides the request itself. Made fresh
/// for each dispatch.
pub struct SigningContext {
    pub region: String,
    pub service: String,
    /// Signing time, in seconds since the Unix epoch.
    pub timestamp: u64,
    /// `None` where no credentials could be resolved.
    pub credentials: Option<Credentials>,
}

/// Every character may stand in an HTTP header value.
pub open spec fn header_safe(s: Seq<char>) -> bool {
    forall|i: int|
        0 <= i < s.len() ==> (#[trigger] s[i] == '\t' || (32 <= (s[i] as int) && (s[i] as int)
            != 127))
}

/// An absolute `https` URI whose authority is not empty.
pub open spec fn uri_has_authority(u: Seq<char>) -> bool {
    &&& u.len() > 8
    &&& u.subrange(0, 8) == seq!['h', 't', 't', 'p', 's', ':', '/', '/']
    &&& u[8] != '/' && u[8] != '?' && u[8] != '#'
}

/// The headers of a header-less request after SigV4 signing with the given
/// parameters (those the signature adds), or `None` where the request cannot
/// be built or the signer refuses it.
pub uninterp spec fn sigv4_signed_headers(
    method: Seq<char>,
    uri: Seq<char>,
    body: Seq<char>,
    region: Seq<char>,
    service: Seq<char>,
    unix_secs: int,
    access_key_id: Seq<char>,
    secret_key: Seq<char>,
    session_token: Option<Seq<char>>,
) -> Option<Seq<(Seq<char>, Seq<char>)>>;

/// Relies on `http::Request::builder` to build a request without headers and
/// on aws_sig_auth's `SigV4Signer::sign` (default operation config: signature
/// in headers, body signed as it is) to sign it at `secs` seconds after the
/// Unix epoch; returns the request's headers then. The result is a function
/// of the arguments; `None` where either refuses. The signer panics on a URI
/// without authority, on a region, service, access key or token that cannot
/// stand in a header, and on a time past the year 9999.
#[verifier::external_body]
fn sigv4_sign(
    method: &str,
    uri: &str,
    body: &str,
    region: String,
    service: String,
    secs: u64,
    key_id: String,
    secret: String,
    token: Option<String>,
) -> (r: Option<Vec<(String, String)>>)
    requires
        uri_has_authority(uri@),
        header_safe(region@),
        header_safe(service@),
        header_safe(key_id@),
        token matches Some(t) ==> header_safe(t@),
        secs <= MAX_SIGNING_SECS,
    ensures
        r.deep_view() == sigv4_signed_headers(
            method@,
            uri@,
            body@,
            region@,
            service@,
            secs as int,
            key_id@,
            secret@,
            token.deep_view(),
        ),
{
    let mut req = Request::builder().method(method).uri(uri).body(SdkBody::from(body)).ok()?;
    let creds = AwsCredentials::new(key_id, secret, token, None, "ambient");
    let config = RequestConfig {
        request_ts: UNIX_EPOCH + Duration::from_secs(secs),
        region: &SigningRegion::from(Region::new(region)),
        service: &SigningService::from(service),
        payload_override: None,
    };
    SigV4Signer::new().sign(&OperationSigningConfig::default_config(), &config, &creds, &mut req).ok()?;
    let headers = req.headers().iter();
    Some(headers.map(|(k, v)| (k.to_string(), String::from_utf8_lossy(v.as_bytes()).into_owned())).collect())
}

/// Whether every character of `s` may stand in an HTTP header value.
pub fn is_header_safe(s: &str) -> (r: bool)
    ensures
        r == header_safe(s@),
{
    let n = s.unicode_len();
    let mut i: usize = 0;
    while i < n
        invariant
            n == s@.len(),
            i <= n,
            forall|j: int|
                0 <= j < i ==> (#[trigger] s@[j] == '\t' || (32 <= (s@[j] as int) && (s@[j] as int)
                    != 127)),
        decreases n - i,
    {
        let c = s.get_char(i);
        if !(c == '\t' || (c as u32 >= 32 && c as u32 != 127)) {
            return false;
        }
        i = i + 1;
    }
    true
}

/// Whether `u` is an absolute `https` URI whose authority is not empty.
pub fn has_authority(u: &str) -> (r: bool)
    ensures
        r == uri_has_authority(u@),
{
    if u.unicode_len() <= 8 {
        return false;
    }
    let ok = u.get_char(0) == 'h' && u.get_char(1) == 't' && u.get_char(2) == 't'
        && u.get_char(3) == 'p' && u.get_char(4) == 's' && u.get_char(5) == ':'
        && u.get_char(6) == '/' && u.get_char(7) == '/';
    let c = u.get_char(8);
    if ok {
        assert(u@.subrange(0, 8) =~= seq!['h', 't', 't', 'p', 's', ':', '/', '/']);
    } else {
        assert(u@.subrange(0, 8) != seq!['h', 't', 't', 'p', 's', ':', '/', '/']) by {
            if u@.subrange(0, 8) == seq!['h', 't', 't', 'p', 's', ':', '/', '/'] {
                assert(u@.subrange(0, 8)[0] == u@[0]);
                assert(u@.subrange(0, 8)[1] == u@[1]);
                assert(u@.subrange(0, 8)[2] == u@[2]);
                assert(u@.subrange(0, 8)[3] == u@[3]);
                assert(u@.subrange(0, 8)[4] == u@[4]);
                assert(u@.subrange(0, 8)[5] == u@[5]);
                assert(u@.subrange(0, 8)[6] == u@[6]);
                assert(u@.subrange(0, 8)[7] == u@[7]);
            }
        }
    }
    ok && c != '/' && c != '?' && c != '#'
}

/// The context carries credentials, the request carries no headers yet, and
/// request and context are ones the signer takes without panicking.
pub open spec fn signing_permitted(req: CanonicalRequest, ctx: SigningContext) -> bool {
    &&& ctx.credentials is Some
    &&& req.headers@.len() == 0
    &&& uri_has_authority(req.uri@)
    &&& header_safe(ctx.region@)
    &&& header_safe(ctx.service@)
    &&& header_safe(ctx.credentials->0.access_key_id@)
    &&& ctx.credentials->0.session_token matches Some(t) ==> header_safe(t@)
    &&& ctx.timestamp <= MAX_SIGNING_SECS
}

/// The headers that SigV4 signing of `req` under `ctx` yields, where the
/// context carries credentials.
pub open spec fn signed_headers(req: CanonicalRequest, ctx: SigningContext) -> Option<
    Seq<(Seq<char>, Seq<char>)>,
> {
    let c = ctx.credentials->0;
    sigv4_signed_headers(
        req.method@,
        req.uri@,
        req.body@,
        ctx.region@,
        ctx.service@,
        ctx.timestamp as int,
        c.access_key_id@,
        c.secret_key@,
        c.session_token.deep_view(),
    )
}

/// Signs `request` under `ctx`: on success its headers become those that the
/// signature yields (date, authorization and any security-token header);
/// method, URI and body are kept. Fails with `Signing`, the request
/// unchanged, where the context has no credentials, the request already
/// carries headers, the signer would not take the inputs, or it refuses them.
pub fn sign_request(request: &mut CanonicalRequest, ctx: &SigningContext) -> (r: Result<
    (),
    DispatchError,
>)
    ensures
        r is Ok <==> signing_permitted(*old(request), *ctx) && signed_headers(
            *old(request),
            *ctx,
        ) is Some,
        r is Ok ==> final(request).headers.deep_view() == signed_headers(*old(request), *ctx)->0,
        r is Err ==> r->Err_0 == DispatchError::Signing && final(request).headers.deep_view()
            == old(request).headers.deep_view(),
        final(request).method@ == old(request).method@,
        final(request).uri@ == old(request).uri@,
        final(request).body@ == old(request).body@,
{
    let credentials = match &ctx.credentials {
        Some(c) => c,
        None => return Err(DispatchError::Signing),
    };
    let token_safe = match &credentials.session_token {
        Some(t) => is_header_safe(t.as_str()),
        None => true,
    };
    if !(request.headers.len() == 0 && has_authority(request.uri.as_str()) && is_header_safe(
        ctx.region.as_str(),
    ) && is_header_safe(ctx.service.as_str()) && is_header_safe(
        credentials.access_key_id.as_str(),
    ) && token_safe && ctx.timestamp <= MAX_SIGNING_SECS) {
        return Err(DispatchError::Signing);
    }
    let signed = sigv4_sign(
        request.method.as_str(),
        request.uri.as_str(),
        request.body.as_str(),
        ctx.region.clone(),
        ctx.service.clone(),
        ctx.timestamp,
        credentials.access_key_id.clone(),
        credentials.secret_key.clone(),
        credentials.session_token.clone(),
    );
    match signed {
        Some(headers) => {
            request.headers = headers;
            Ok(())
        },
        None => Err(DispatchError::Signing),
    }
}

/// `a` and `b` hold the same credentials, or neither holds any.
pub open spec fn same_credentials(a: Option<Credentials>, b: Option<Credentials>) -> bool {
    match (a, b) {
        (Some(x), Some(y)) => {
            &&& x.access_key_id@ == y.access_key_id@
            &&& x.secret_key@ == y.secret_key@
            &&& x.session_token.deep_view() == y.session_token.deep_view()
        },
        (None, None) => true,
        _ => false,
    }
}

/// Signing is deterministic: the same request signed with the same
/// credentials, region, service and timestamp is accepted or refused alike
/// and, where accepted, gets byte-identical headers, the authorization header
/// among them.
pub proof fn lemma_signing_deterministic(
    r1: CanonicalRequest,
    r2: CanonicalRequest,
    c1: SigningContext,
    c2: SigningContext,
)
    requires
        r1.method@ == r2.method@,
        r1.uri@ == r2.uri@,
        r1.headers@.len() == r2.headers@.len(),
        r1.body@ == r2.body@,
        c1.region@ == c2.region@,
        c1.service@ == c2.service@,
        c1.timestamp == c2.timestamp,
        same_credentials(c1.credentials, c2.credentials),
    ensures
        signing_permitted(r1, c1) == signing_permitted(r2, c2),
        signing_permitted(r1, c1) ==> signed_headers(r1, c1) == signed_headers(r2, c2),
{
}

} // verus!
