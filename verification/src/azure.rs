//! The delivery document and client of the mail-sending API: the document
//! types, their exact wire shape as compact JSON, and the request-signing
//! protocol (content digest, canonical string, HMAC signature).

use vstd::prelude::*;

use base64::Engine;

use crate::date::{format_rfc1123, utc_now_parts};
use crate::json::{append_json_string, json_string};

verus! {

/// A recipient or sender: an address with an optional display name.
pub struct AzureMailAddress {
    pub address: String,
    pub display_name: Option<String>,
}

/// The mathematical shape of an address.
pub ghost struct AzureMailAddressView {
    pub address: Seq<char>,
    pub display_name: Option<Seq<char>>,
}

impl View for AzureMailAddress {
    type V = AzureMailAddressView;

    open spec fn view(&self) -> AzureMailAddressView {
        AzureMailAddressView {
            address: self.address@,
            display_name: self.display_name.deep_view(),
        }
    }
}

impl DeepView for AzureMailAddress {
    type V = AzureMailAddressView;

    open spec fn deep_view(&self) -> AzureMailAddressView {
        self.view()
    }
}

impl AzureMailAddress {
    /// An address with no display name.
    pub fn new(address: String) -> (r: Self)
        ensures
            r@.address == address@,
            r@.display_name is None,
    {
        Self { address, display_name: Option::None }
    }

    /// An address with a display name.
    pub fn with_display_name(address: String, display_name: String) -> (r: Self)
        ensures
            r@.address == address@,
            r@.display_name == Some(display_name@),
    {
        Self { address, display_name: Option::Some(display_name) }
    }
}

/// The recipient lists of a delivery document.
pub struct AzureMailRecipients {
    pub to: Vec<AzureMailAddress>,
    pub cc: Option<Vec<AzureMailAddress>>,
    pub bcc: Option<Vec<AzureMailAddress>>,
}

/// The mathematical shape of the recipient lists.
pub ghost struct AzureMailRecipientsView {
    pub to: Seq<AzureMailAddressView>,
    pub cc: Option<Seq<AzureMailAddressView>>,
    pub bcc: Option<Seq<AzureMailAddressView>>,
}

impl View for AzureMailRecipients {
    type V = AzureMailRecipientsView;

    open spec fn view(&self) -> AzureMailRecipientsView {
        AzureMailRecipientsView {
            to: self.to.deep_view(),
            cc: self.cc.deep_view(),
            bcc: self.bcc.deep_view(),
        }
    }
}

/// The content of a delivery document: subject and the optional bodies.
pub struct AzureMailContent {
    pub subject: String,
    pub plain_text: Option<String>,
    pub html: Option<String>,
}

/// The mathematical shape of the content.
pub ghost struct AzureMailContentView {
    pub subject: Seq<char>,
    pub plain_text: Option<Seq<char>>,
    pub html: Option<Seq<char>>,
}

impl View for AzureMailContent {
    type V = AzureMailContentView;

    open spec fn view(&self) -> AzureMailContentView {
        AzureMailContentView {
            subject: self.subject@,
            plain_text: self.plain_text.deep_view(),
            html: self.html.deep_view(),
        }
    }
}

/// A whole delivery document. The headers are an ordered key-value list
/// with unique keys; map semantics, insertion order not significant
/// downstream.
pub struct AzureMailMessage {
    pub sender_address: String,
    pub headers: Option<Vec<(String, String)>>,
    pub recipients: AzureMailRecipients,
    pub reply_to: Option<AzureMailAddress>,
    pub content: AzureMailContent,
}

/// The mathematical shape of a delivery document.
pub ghost struct AzureMailMessageView {
    pub sender_address: Seq<char>,
    pub headers: Option<Seq<(Seq<char>, Seq<char>)>>,
    pub recipients: AzureMailRecipientsView,
    pub reply_to: Option<AzureMailAddressView>,
    pub content: AzureMailContentView,
}

impl View for AzureMailMessage {
    type V = AzureMailMessageView;

    open spec fn view(&self) -> AzureMailMessageView {
        AzureMailMessageView {
            sender_address: self.sender_address@,
            headers: self.headers.deep_view(),
            recipients: self.recipients@,
            reply_to: self.reply_to.deep_view(),
            content: self.content@,
        }
    }
}

/// The wire form of one address object. The field names are part of the
/// contract with the remote API; `displayName` is omitted when absent.
pub open spec fn json_of_address(a: AzureMailAddressView) -> Seq<char> {
    "{\"address\":"@ + json_string(a.address) + (match a.display_name {
        Some(d) => ",\"displayName\":"@ + json_string(d),
        None => Seq::empty(),
    }) + "}"@
}

/// The comma-separated wire forms of a list of addresses.
pub open spec fn join_addresses(l: Seq<AzureMailAddressView>) -> Seq<char>
    decreases l.len(),
{
    if l.len() == 0 {
        Seq::empty()
    } else if l.len() == 1 {
        json_of_address(l[0])
    } else {
        join_addresses(l.drop_last()) + ","@ + json_of_address(l.last())
    }
}

/// The wire form of an address array.
pub open spec fn json_of_address_list(l: Seq<AzureMailAddressView>) -> Seq<char> {
    "["@ + join_addresses(l) + "]"@
}

/// The comma-separated wire forms of the header map's entries, in order.
pub open spec fn join_headers(h: Seq<(Seq<char>, Seq<char>)>) -> Seq<char>
    decreases h.len(),
{
    if h.len() == 0 {
        Seq::empty()
    } else if h.len() == 1 {
        json_string(h[0].0) + ":"@ + json_string(h[0].1)
    } else {
        join_headers(h.drop_last()) + ","@ + json_string(h.last().0) + ":"@ + json_string(
            h.last().1,
        )
    }
}

/// The wire form of the header map.
pub open spec fn json_of_headers(h: Seq<(Seq<char>, Seq<char>)>) -> Seq<char> {
    "{"@ + join_headers(h) + "}"@
}

/// The wire form of the recipient lists; `cc` and `bcc` are omitted when
/// absent.
pub open spec fn json_of_recipients(r: AzureMailRecipientsView) -> Seq<char> {
    "{\"to\":"@ + json_of_address_list(r.to) + (match r.cc {
        Some(l) => ",\"cc\":"@ + json_of_address_list(l),
        None => Seq::empty(),
    }) + (match r.bcc {
        Some(l) => ",\"bcc\":"@ + json_of_address_list(l),
        None => Seq::empty(),
    }) + "}"@
}

/// The wire form of the content object; absent bodies are omitted.
pub open spec fn json_of_content(c: AzureMailContentView) -> Seq<char> {
    "{\"subject\":"@ + json_string(c.subject) + (match c.plain_text {
        Some(p) => ",\"plainText\":"@ + json_string(p),
        None => Seq::empty(),
    }) + (match c.html {
        Some(h) => ",\"html\":"@ + json_string(h),
        None => Seq::empty(),
    }) + "}"@
}

/// The compact JSON wire form of a whole delivery document. Field names
/// and order are fixed; optional fields are omitted when absent.
pub open spec fn json_of_message(m: AzureMailMessageView) -> Seq<char> {
    "{\"senderAddress\":"@ + json_string(m.sender_address) + (match m.headers {
        Some(h) => ",\"headers\":"@ + json_of_headers(h),
        None => Seq::empty(),
    }) + ",\"recipients\":"@ + json_of_recipients(m.recipients) + (match m.reply_to {
        Some(a) => ",\"replyTo\":"@ + json_of_address(a),
        None => Seq::empty(),
    }) + ",\"content\":"@ + json_of_content(m.content) + "}"@
}

/// Appends the wire form of one address object.
fn append_address(out: &mut String, a: &AzureMailAddress)
    ensures
        final(out)@ == old(out)@ + json_of_address(a@),
{
    out.append("{\"address\":");
    append_json_string(out, a.address.as_str());
    match &a.display_name {
        Some(d) => {
            out.append(",\"displayName\":");
            append_json_string(out, d.as_str());
        },
        None => {},
    }
    out.append("}");
    proof {
        assert(out@ =~= old(out)@ + json_of_address(a@));
    }
}

/// Appends the wire form of an address array.
fn append_address_list(out: &mut String, l: &Vec<AzureMailAddress>)
    ensures
        final(out)@ == old(out)@ + json_of_address_list(l.deep_view()),
{
    let ghost lv = l.deep_view();
    out.append("[");
    let n = l.len();
    let mut i: usize = 0;
    proof {
        assert(lv.take(0) =~= Seq::<AzureMailAddressView>::empty());
        assert(out@ =~= old(out)@ + "["@ + join_addresses(lv.take(0)));
    }
    while i < n
        invariant
            n == l.len(),
            0 <= i <= n,
            lv == l.deep_view(),
            lv.len() == n,
            out@ == old(out)@ + "["@ + join_addresses(lv.take(i as int)),
        decreases n - i,
    {
        if i > 0 {
            out.append(",");
        }
        append_address(out, &l[i]);
        proof {
            assert(lv.take(i + 1).drop_last() =~= lv.take(i as int));
            assert(lv.take(i + 1).last() == lv[i as int]);
            assert(l[i as int].deep_view() == lv[i as int]);
            assert(out@ =~= old(out)@ + "["@ + join_addresses(lv.take(i + 1)));
        }
        i = i + 1;
    }
    out.append("]");
    proof {
        assert(lv.take(n as int) =~= lv);
        assert(out@ =~= old(out)@ + json_of_address_list(lv));
    }
}

/// Appends the wire form of the header map.
fn append_headers(out: &mut String, h: &Vec<(String, String)>)
    ensures
        final(out)@ == old(out)@ + json_of_headers(h.deep_view()),
{
    let ghost hv = h.deep_view();
    out.append("{");
    let n = h.len();
    let mut i: usize = 0;
    proof {
        assert(hv.take(0) =~= Seq::<(Seq<char>, Seq<char>)>::empty());
        assert(out@ =~= old(out)@ + "{"@ + join_headers(hv.take(0)));
    }
    while i < n
        invariant
            n == h.len(),
            0 <= i <= n,
            hv == h.deep_view(),
            hv.len() == n,
            out@ == old(out)@ + "{"@ + join_headers(hv.take(i as int)),
        decreases n - i,
    {
        if i > 0 {
            out.append(",");
        }
        append_json_string(out, h[i].0.as_str());
        out.append(":");
        append_json_string(out, h[i].1.as_str());
        proof {
            assert(hv.take(i + 1).drop_last() =~= hv.take(i as int));
            assert(hv.take(i + 1).last() == hv[i as int]);
            assert(h[i as int].deep_view() == hv[i as int]);
            assert(out@ =~= old(out)@ + "{"@ + join_headers(hv.take(i + 1)));
        }
        i = i + 1;
    }
    out.append("}");
    proof {
        assert(hv.take(n as int) =~= hv);
        assert(out@ =~= old(out)@ + json_of_headers(hv));
    }
}

/// Appends the wire form of the recipient lists.
fn append_recipients(out: &mut String, r: &AzureMailRecipients)
    ensures
        final(out)@ == old(out)@ + json_of_recipients(r@),
{
    out.append("{\"to\":");
    append_address_list(out, &r.to);
    match &r.cc {
        Some(l) => {
            out.append(",\"cc\":");
            append_address_list(out, l);
        },
        None => {},
    }
    match &r.bcc {
        Some(l) => {
            out.append(",\"bcc\":");
            append_address_list(out, l);
        },
        None => {},
    }
    out.append("}");
    proof {
        assert(out@ =~= old(out)@ + json_of_recipients(r@));
    }
}

/// Appends the wire form of the content object.
fn append_content(out: &mut String, c: &AzureMailContent)
    ensures
        final(out)@ == old(out)@ + json_of_content(c@),
{
    out.append("{\"subject\":");
    append_json_string(out, c.subject.as_str());
    match &c.plain_text {
        Some(p) => {
            out.append(",\"plainText\":");
            append_json_string(out, p.as_str());
        },
        None => {},
    }
    match &c.html {
        Some(h) => {
            out.append(",\"html\":");
            append_json_string(out, h.as_str());
        },
        None => {},
    }
    out.append("}");
    proof {
        assert(out@ =~= old(out)@ + json_of_content(c@));
    }
}

/// Serializes a delivery document to its exact compact JSON wire form.
pub fn serialize_message(m: &AzureMailMessage) -> (r: String)
    ensures
        r@ == json_of_message(m@),
{
    let mut out = String::new();
    out.append("{\"senderAddress\":");
    append_json_string(&mut out, m.sender_address.as_str());
    match &m.headers {
        Some(h) => {
            out.append(",\"headers\":");
            append_headers(&mut out, h);
        },
        None => {},
    }
    out.append(",\"recipients\":");
    append_recipients(&mut out, &m.recipients);
    match &m.reply_to {
        Some(a) => {
            out.append(",\"replyTo\":");
            append_address(&mut out, a);
        },
        None => {},
    }
    out.append(",\"content\":");
    append_content(&mut out, &m.content);
    out.append("}");
    proof {
        assert(out@ =~= json_of_message(m@));
    }
    out
}

/// What SHA-256 returns for a given byte sequence.
pub uninterp spec fn sha256_of(data: Seq<u8>) -> Seq<u8>;

/// Relies on hmac_sha256::Hash::hash: the SHA-256 digest, a function of
/// the input bytes alone.
#[verifier::external_body]
fn sha256(data: &[u8]) -> (r: Vec<u8>)
    ensures
        r@ == sha256_of(data@),
{
    hmac_sha256::Hash::hash(data).to_vec()
}

/// What HMAC-SHA256 returns for a given key and message.
pub uninterp spec fn hmac_sha256_of(key: Seq<u8>, data: Seq<u8>) -> Seq<u8>;

/// Relies on hmac_sha256::HMAC::mac: the HMAC-SHA256 tag, a function of
/// the key and message bytes alone.
#[verifier::external_body]
fn hmac_sha256_mac(data: &[u8], key: &[u8]) -> (r: Vec<u8>)
    ensures
        r@ == hmac_sha256_of(key@, data@),
{
    hmac_sha256::HMAC::mac(data, key).to_vec()
}

/// What base64's standard padded alphabet encodes a byte sequence to.
pub uninterp spec fn base64_of(data: Seq<u8>) -> Seq<char>;

/// Relies on base64's STANDARD engine (RFC 4648, with padding): the
/// encoding is a function of the input bytes alone.
#[verifier::external_body]
fn base64_encode(data: &[u8]) -> (r: String)
    ensures
        r@ == base64_of(data@),
{
    base64::engine::general_purpose::STANDARD.encode(data)
}

/// What base64's STANDARD engine decodes a string to, `None` where it
/// rejects the input.
pub uninterp spec fn base64_decode_of(s: Seq<char>) -> Option<Seq<u8>>;

/// Relies on base64's STANDARD engine (RFC 4648, with canonical padding
/// required): decoding is a function of the input characters alone.
#[verifier::external_body]
fn base64_decode(s: &str) -> (r: Option<Vec<u8>>)
    ensures
        match base64_decode_of(s@) {
            Some(bytes) => r matches Some(v) && v@ == bytes,
            None => r is None,
        },
{
    match base64::engine::general_purpose::STANDARD.decode(s) {
        Ok(v) => Some(v),
        Err(_) => None,
    }
}

/// Relies on uuid::Uuid::new_v4 and its hyphenated text form: a fresh
/// random token of 36 characters. Nothing is assumed of its value; two
/// calls may differ.
#[verifier::external_body]
fn new_request_id() -> (r: String)
    ensures
        r@.len() == 36,
{
    uuid::Uuid::new_v4().to_string()
}

/// What splitting an endpoint URL yields.
pub ghost enum EndpointPartsView {
    /// The endpoint does not parse as a URL.
    Invalid,
    /// The URL has no host.
    NoHost,
    /// The full URL with the query attached, its host, and everything
    /// from the path onward.
    Parts { full: Seq<char>, host: Seq<char>, path_and_query: Seq<char> },
}

/// An endpoint URL split into the pieces the signing protocol needs.
pub enum EndpointParts {
    Invalid,
    NoHost,
    Parts { full: String, host: String, path_and_query: String },
}

impl View for EndpointParts {
    type V = EndpointPartsView;

    open spec fn view(&self) -> EndpointPartsView {
        match self {
            EndpointParts::Invalid => EndpointPartsView::Invalid,
            EndpointParts::NoHost => EndpointPartsView::NoHost,
            EndpointParts::Parts { full, host, path_and_query } => EndpointPartsView::Parts {
                full: full@,
                host: host@,
                path_and_query: path_and_query@,
            },
        }
    }
}

/// What the url crate makes of an endpoint with the given query attached.
pub uninterp spec fn split_endpoint_of(endpoint: Seq<char>, query: Seq<char>) -> EndpointPartsView;

/// Relies on url::Url: `parse`, `set_query`, `host_str`, the slice from
/// `Position::BeforePath`, and the URL's text form. All are functions of
/// the endpoint and query strings alone.
#[verifier::external_body]
fn split_endpoint(endpoint: &str, query: &str) -> (r: EndpointParts)
    ensures
        r@ == split_endpoint_of(endpoint@, query@),
{
    let mut u = match url::Url::parse(endpoint) {
        Ok(u) => u,
        Err(_) => return EndpointParts::Invalid,
    };
    u.set_query(Some(query));
    let host = match u.host_str() {
        Some(h) => h.to_string(),
        None => return EndpointParts::NoHost,
    };
    let path_and_query = u[url::Position::BeforePath..].to_string();
    EndpointParts::Parts { full: u.to_string(), host, path_and_query }
}

/// The fixed query string appended to the endpoint on every call.
pub open spec fn api_version_query() -> Seq<char> {
    "api-version=2023-03-31"@
}

/// The canonical string the signature is computed over.
pub open spec fn string_to_sign_of(
    path_and_query: Seq<char>,
    date: Seq<char>,
    host: Seq<char>,
    content_hash: Seq<char>,
) -> Seq<char> {
    "POST\n"@ + path_and_query + "\n"@ + date + ";"@ + host + ";"@ + content_hash
}

/// The content digest header value: base64 of the SHA-256 of the body.
pub open spec fn content_hash_of(body: Seq<u8>) -> Seq<char> {
    base64_of(sha256_of(body))
}

/// The Authorization header value carrying a signature.
pub open spec fn auth_header_of(signature: Seq<char>) -> Seq<char> {
    "HMAC-SHA256 SignedHeaders=x-ms-date;host;x-ms-content-sha256&Signature="@ + signature
}

/// The signature for a canonical string under a base64-encoded key:
/// base64 of the HMAC-SHA256 of the string under the decoded key.
pub open spec fn signature_of(key: Seq<u8>, data: Seq<char>) -> Seq<char> {
    base64_of(hmac_sha256_of(key, vstd::utf8::encode_utf8(data)))
}

/// Why a delivery request could not be prepared.
#[derive(Clone, Copy, Debug, PartialEq, Eq, Structural)]
pub enum DeliveryError {
    /// The endpoint does not parse as a URL.
    InvalidUrl,
    /// The endpoint URL has no host.
    MissingHost,
    /// The pre-shared access key is not valid base64.
    InvalidKey,
}

impl DeliveryError {
    /// A short description of the failure.
    pub fn describe(&self) -> (r: &'static str)
        ensures
            *self == DeliveryError::InvalidUrl ==> r@ == "invalid endpoint URL"@,
            *self == DeliveryError::MissingHost ==> r@ == "unable to parse host"@,
            *self == DeliveryError::InvalidKey ==> r@ == "access key is not valid base64"@,
    {
        match self {
            DeliveryError::InvalidUrl => "invalid endpoint URL",
            DeliveryError::MissingHost => "unable to parse host",
            DeliveryError::InvalidKey => "access key is not valid base64",
        }
    }
}

/// A fully signed request, ready to be posted: the URL with the query
/// attached, the headers in order, and the serialized body.
#[derive(Debug)]
pub struct PreparedRequest {
    pub url: String,
    pub headers: Vec<(String, String)>,
    pub body: String,
}

/// The mathematical shape of a prepared request.
pub ghost struct PreparedRequestView {
    pub url: Seq<char>,
    pub headers: Seq<(Seq<char>, Seq<char>)>,
    pub body: Seq<char>,
}

impl View for PreparedRequest {
    type V = PreparedRequestView;

    open spec fn view(&self) -> PreparedRequestView {
        PreparedRequestView {
            url: self.url@,
            headers: self.headers.deep_view(),
            body: self.body@,
        }
    }
}

/// The six request headers, in the order they are sent.
pub open spec fn request_headers_of(
    auth: Seq<char>,
    date: Seq<char>,
    content_hash: Seq<char>,
    request_id: Seq<char>,
) -> Seq<(Seq<char>, Seq<char>)> {
    seq![
        ("Authorization"@, auth),
        ("x-ms-date"@, date),
        ("x-ms-content-sha256"@, content_hash),
        ("Repeatability-Request-Id"@, request_id),
        ("Repeatability-First-Sent"@, date),
        ("Content-Type"@, "application/json"@),
    ]
}

/// The whole preparation of one delivery call, as a function of the
/// endpoint, the base64 key, the document, the timestamp and the request
/// token: either the prepared request or the error owed for that input.
pub open spec fn prepare_spec(
    endpoint: Seq<char>,
    key: Seq<char>,
    msg: AzureMailMessageView,
    date: Seq<char>,
    request_id: Seq<char>,
) -> Result<PreparedRequestView, DeliveryError> {
    match split_endpoint_of(endpoint, api_version_query()) {
        EndpointPartsView::Invalid => Err(DeliveryError::InvalidUrl),
        EndpointPartsView::NoHost => Err(DeliveryError::MissingHost),
        EndpointPartsView::Parts { full, host, path_and_query } => {
            match base64_decode_of(key) {
                None => Err(DeliveryError::InvalidKey),
                Some(raw_key) => {
                    let body = json_of_message(msg);
                    let hash = content_hash_of(vstd::utf8::encode_utf8(body));
                    let to_sign = string_to_sign_of(path_and_query, date, host, hash);
                    let auth = auth_header_of(signature_of(raw_key, to_sign));
                    Ok(
                        PreparedRequestView {
                            url: full,
                            headers: request_headers_of(auth, date, hash, request_id),
                            body,
                        },
                    )
                },
            }
        },
    }
}

/// Preparing a request is deterministic: for a fixed endpoint, key,
/// document, timestamp and request token, any two prepared requests agree,
/// content hash, canonical string and signature included. Across calls
/// only the timestamp and token move, which is why both are read anew on
/// every call.
pub proof fn lemma_preparation_deterministic(
    endpoint: Seq<char>,
    key: Seq<char>,
    msg: AzureMailMessageView,
    date: Seq<char>,
    request_id: Seq<char>,
    r1: PreparedRequestView,
    r2: PreparedRequestView,
)
    requires
        prepare_spec(endpoint, key, msg, date, request_id) == Ok::<
            PreparedRequestView,
            DeliveryError,
        >(r1),
        prepare_spec(endpoint, key, msg, date, request_id) == Ok::<
            PreparedRequestView,
            DeliveryError,
        >(r2),
    ensures
        r1 == r2,
{
}

/// The delivery client: the endpoint URL (base, no query string) and the
/// base64-encoded pre-shared access key.
pub struct AzureMailClient {
    pub endpoint: String,
    pub access_key: String,
}

impl AzureMailClient {
    /// A client for the given endpoint and access key.
    pub fn new(endpoint: &str, access_key: &str) -> (c: Self)
        ensures
            c.endpoint@ == endpoint@,
            c.access_key@ == access_key@,
    {
        Self { endpoint: endpoint.to_owned(), access_key: access_key.to_owned() }
    }

    /// Base64 of the HMAC-SHA256 of `data` under the decoded access key;
    /// fails exactly when the key is not valid base64.
    pub fn compute_signature(&self, data: &String) -> (r: Result<String, DeliveryError>)
        ensures
            match base64_decode_of(self.access_key@) {
                Some(key) => r matches Ok(sig) && sig@ == signature_of(key, data@),
                None => r matches Err(e) && e == DeliveryError::InvalidKey,
            },
    {
        let key = match base64_decode(self.access_key.as_str()) {
            Some(k) => k,
            None => {
                return Err(DeliveryError::InvalidKey);
            },
        };
        let tag = hmac_sha256_mac(data.as_str().as_bytes(), key.as_slice());
        Ok(base64_encode(tag.as_slice()))
    }

    /// Builds the exact canonical string of the signing protocol.
    pub fn build_string_to_sign(
        path_and_query: &str,
        date: &str,
        host: &str,
        content_hash: &str,
    ) -> (r: String)
        ensures
            r@ == string_to_sign_of(path_and_query@, date@, host@, content_hash@),
    {
        let mut out = String::new();
        out.append("POST\n");
        out.append(path_and_query);
        out.append("\n");
        out.append(date);
        out.append(";");
        out.append(host);
        out.append(";");
        out.append(content_hash);
        proof {
            assert(out@ =~= string_to_sign_of(path_and_query@, date@, host@, content_hash@));
        }
        out
    }

    /// Prepares one delivery call for a given timestamp and request token:
    /// serializes the document, digests it, signs the canonical string,
    /// and lays out URL, headers and body exactly as `prepare_spec` says.
    pub fn prepare_request(
        &self,
        message: &AzureMailMessage,
        date: &String,
        request_id: &String,
    ) -> (r: Result<PreparedRequest, DeliveryError>)
        ensures
            match r {
                Ok(p) => prepare_spec(
                    self.endpoint@,
                    self.access_key@,
                    message@,
                    date@,
                    request_id@,
                ) == Ok::<PreparedRequestView, DeliveryError>(p@),
                Err(e) => prepare_spec(
                    self.endpoint@,
                    self.access_key@,
                    message@,
                    date@,
                    request_id@,
                ) == Err::<PreparedRequestView, DeliveryError>(e),
            },
    {
        let parts = match split_endpoint(self.endpoint.as_str(), "api-version=2023-03-31") {
            EndpointParts::Invalid => {
                return Err(DeliveryError::InvalidUrl);
            },
            EndpointParts::NoHost => {
                return Err(DeliveryError::MissingHost);
            },
            EndpointParts::Parts { full, host, path_and_query } => (full, host, path_and_query),
        };
        let body = serialize_message(message);
        let digest = sha256(body.as_str().as_bytes());
        let content_hash = base64_encode(digest.as_slice());
        let to_sign = Self::build_string_to_sign(
            parts.2.as_str(),
            date.as_str(),
            parts.1.as_str(),
            content_hash.as_str(),
        );
        let signature = match self.compute_signature(&to_sign) {
            Ok(s) => s,
            Err(e) => {
                return Err(e);
            },
        };
        let mut auth = String::new();
        auth.append("HMAC-SHA256 SignedHeaders=x-ms-date;host;x-ms-content-sha256&Signature=");
        auth.append(signature.as_str());
        let mut headers: Vec<(String, String)> = Vec::new();
        headers.push(("Authorization".to_owned(), auth));
        headers.push(("x-ms-date".to_owned(), date.clone()));
        headers.push(("x-ms-content-sha256".to_owned(), content_hash));
        headers.push(("Repeatability-Request-Id".to_owned(), request_id.clone()));
        headers.push(("Repeatability-First-Sent".to_owned(), date.clone()));
        headers.push(("Content-Type".to_owned(), "application/json".to_owned()));
        let prepared = PreparedRequest { url: parts.0, headers, body };
        proof {
            let s = prepare_spec(self.endpoint@, self.access_key@, message@, date@, request_id@);
            assert(prepared@.headers =~= s->Ok_0.headers);
            assert(prepared@ == s->Ok_0);
        }
        Ok(prepared)
    }

    /// Prepares one delivery call at the current time, with a fresh
    /// request token. The timestamp and token are read anew on every
    /// call; the canonical string and signature are never reused.
    pub fn build_request(&self, message: &AzureMailMessage) -> (r: Result<
        PreparedRequest,
        DeliveryError,
    >)
        ensures
            match r {
                Ok(p) => exists|date: Seq<char>, request_id: Seq<char>|
                    #[trigger] prepare_spec(
                        self.endpoint@,
                        self.access_key@,
                        message@,
                        date,
                        request_id,
                    ) == Ok::<PreparedRequestView, DeliveryError>(p@),
                Err(e) => exists|date: Seq<char>, request_id: Seq<char>|
                    #[trigger] prepare_spec(
                        self.endpoint@,
                        self.access_key@,
                        message@,
                        date,
                        request_id,
                    ) == Err::<PreparedRequestView, DeliveryError>(e),
            },
    {
        let parts = utc_now_parts();
        let date = format_rfc1123(&parts);
        let request_id = new_request_id();
        let r = self.prepare_request(message, &date, &request_id);
        proof {
            match &r {
                Ok(p) => {
                    assert(prepare_spec(
                        self.endpoint@,
                        self.access_key@,
                        message@,
                        date@,
                        request_id@,
                    ) == Ok::<PreparedRequestView, DeliveryError>(p@));
                },
                Err(e) => {
                    assert(prepare_spec(
                        self.endpoint@,
                        self.access_key@,
                        message@,
                        date@,
                        request_id@,
                    ) == Err::<PreparedRequestView, DeliveryError>(*e));
                },
            }
        }
        r
    }
}

} // verus!
