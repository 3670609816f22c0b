use vstd::prelude::*;
use vstd::string::*;

use crate::error::{CrateResult, Error};
use crate::format::{parse_mime, Format, Mime};
use crate::text::{contains_seq, contains_text, find_text, occurs_at, same_text, trim_text, trimmed};

verus! {

#[verifier::external_type_specification]
#[verifier::external_body]
pub struct ExBucket(rusty_s3::Bucket);

#[verifier::external_type_specification]
#[verifier::external_body]
pub struct ExCredentials(rusty_s3::Credentials);

/// Whether an endpoint text, a bucket name and a region make a bucket.
pub uninterp spec fn endpoint_accepted(endpoint: Seq<char>, name: Seq<char>, region: Seq<char>) -> bool;

/// Relies on url::Url's `FromStr` to read the endpoint and on
/// rusty_s3::Bucket::new with virtual-host addressing, which fails (and
/// does not panic) when the endpoint has no host or a scheme other than
/// http(s); both depend on the texts alone.
#[verifier::external_body]
fn new_bucket(endpoint: &str, name: String, region: String) -> (r: Option<rusty_s3::Bucket>)
    ensures
        r is Some <==> endpoint_accepted(endpoint@, name@, region@),
{
    let endpoint = endpoint.parse::<url::Url>().ok()?;
    rusty_s3::Bucket::new(endpoint, rusty_s3::UrlStyle::VirtualHost, name, region).ok()
}

/// An object name that a URL join would read as a network path.
pub open spec fn is_network_path(name: Seq<char>) -> bool {
    name.len() >= 2 && name[0] == '/' && name[1] == '/'
}

/// Relies on rusty_s3::Credentials::new, which only stores the pair.
#[verifier::external_body]
fn new_credentials(key: &str, secret: &str) -> (r: rusty_s3::Credentials) {
    rusty_s3::Credentials::new(key, secret)
}

/// Decimal rendering without leading zeros.
pub open spec fn decimal(n: nat) -> Seq<char>
    decreases n,
{
    if n < 10 {
        seq!["0123456789"@[n as int]]
    } else {
        decimal(n / 10) + seq!["0123456789"@[(n % 10) as int]]
    }
}

/// What every presigned URL text holds: its validity in seconds and the
/// signature, both in the query.
pub open spec fn signed_query(url: Seq<char>, secs: u64) -> bool {
    contains_seq(url, "X-Amz-Expires="@ + decimal(secs as nat) + "&"@)
        && contains_seq(url, "&X-Amz-Signature="@)
}

/// `url` is a presigned GET of object `name`.
pub uninterp spec fn presigns_get(url: Seq<char>, name: Seq<char>) -> bool;

/// `url` is a presigned PUT of object `name`.
pub uninterp spec fn presigns_put(url: Seq<char>, name: Seq<char>) -> bool;

/// `url` is a presigned listing of the bucket.
pub uninterp spec fn presigns_list(url: Seq<char>) -> bool;

/// Relies on rusty_s3's GetObject action and url's `Display`: a
/// query-string presigned GET URL for `name`, valid for `secs` seconds from
/// the current time. Joining the name onto the bucket URL is unwrapped
/// there, so a name starting with `//` is excluded.
#[verifier::external_body]
fn sign_get(bucket: &rusty_s3::Bucket, creds: &rusty_s3::Credentials, name: &str, secs: u64) -> (r: String)
    requires
        !is_network_path(name@),
    ensures
        presigns_get(r@, name@),
        signed_query(r@, secs),
{
    rusty_s3::S3Action::sign(&bucket.get_object(Some(creds), name), std::time::Duration::from_secs(secs)).to_string()
}

/// Relies on rusty_s3's PutObject action and url's `Display`: a
/// query-string presigned PUT URL for `name`, valid for `secs` seconds from
/// the current time. Joining the name onto the bucket URL is unwrapped
/// there, so a name starting with `//` is excluded.
#[verifier::external_body]
fn sign_put(bucket: &rusty_s3::Bucket, creds: &rusty_s3::Credentials, name: &str, secs: u64) -> (r: String)
    requires
        !is_network_path(name@),
    ensures
        presigns_put(r@, name@),
        signed_query(r@, secs),
{
    rusty_s3::S3Action::sign(&bucket.put_object(Some(creds), name), std::time::Duration::from_secs(secs)).to_string()
}

/// Relies on rusty_s3's ListObjectsV2 action and url's `Display`: a
/// query-string presigned listing URL, valid for `secs` seconds from the
/// current time.
#[verifier::external_body]
fn sign_list(bucket: &rusty_s3::Bucket, creds: &rusty_s3::Credentials, secs: u64) -> (r: String)
    ensures
        presigns_list(r@),
        signed_query(r@, secs),
{
    rusty_s3::S3Action::sign(&bucket.list_objects_v2(Some(creds)), std::time::Duration::from_secs(secs)).to_string()
}

/// What `Url::set_host` makes of a URL text and a host, serialised, or
/// `None` where either is rejected.
pub uninterp spec fn url_host_set(url: Seq<char>, host: Seq<char>) -> Option<Seq<char>>;

/// Relies on url::Url::set_host, with the text read by `Url::parse` and the
/// result serialised by `Display`; the outcome depends on the two texts alone.
#[verifier::external_body]
fn set_url_host(url: &str, host: &str) -> (r: Option<String>)
    ensures
        r is Some <==> url_host_set(url@, host@) is Some,
        r is Some ==> r->Some_0@ == url_host_set(url@, host@)->Some_0,
{
    let mut u = url::Url::parse(url).ok()?;
    u.set_host(Some(host)).ok()?;
    Some(u.to_string())
}

pub open spec fn is_host_delim(c: char) -> bool {
    c == ':' || c == '/' || c == '?' || c == '#'
}

/// The host of URL text `s` spans `i..j`: it starts after the first `://`
/// and ends at the first port, path, query or fragment delimiter.
pub open spec fn host_span(s: Seq<char>, i: int, j: int) -> bool {
    &&& 3 <= i <= j <= s.len()
    &&& occurs_at(s, "://"@, i - 3)
    &&& forall|k: int| 0 <= k < i - 3 ==> !occurs_at(s, "://"@, k)
    &&& forall|k: int| i <= k < j ==> !is_host_delim(s[k])
    &&& (j == s.len() || is_host_delim(s[j]))
}

/// `result` is `url` with its host replaced by `host`: scheme, port, path
/// and query (and so a signature carried in the query) are kept.
pub open spec fn host_replaced(url: Seq<char>, result: Seq<char>, host: Seq<char>) -> bool {
    exists|i: int, j: int| host_span(url, i, j)
        && result == url.subrange(0, i) + host + url.subrange(j, url.len() as int)
}

/// Whether `result` is `url` with its host replaced by `host`.
pub fn host_swapped(url: &str, result: &str, host: &str) -> (r: bool)
    ensures
        r == host_replaced(url@, result@, host@),
{
    proof { reveal_strlit("://"); }
    let p = match find_text(url, "://") {
        Some(p) => p,
        None => {
            assert forall|i: int, j: int| !host_span(url@, i, j) by {}
            return false;
        },
    };
    let n = url.unicode_len();
    let i = p + 3;
    let mut j: usize = i;
    while j < n && !(url.get_char(j) == ':' || url.get_char(j) == '/' || url.get_char(j) == '?'
        || url.get_char(j) == '#')
        invariant
            n == url@.len(),
            i <= j <= n,
            forall|k: int| i <= k < j ==> !is_host_delim(url@[k]),
        decreases n - j,
    {
        j = j + 1;
    }
    assert(host_span(url@, i as int, j as int));
    let mut expected = String::from_str(url.substring_char(0, i));
    expected.append(host);
    expected.append(url.substring_char(j, n));
    let r = same_text(expected.as_str(), result);
    assert forall|a: int, b: int| host_span(url@, a, b) implies a == i && b == j by {
        if a - 3 < p {
            assert(!occurs_at(url@, "://"@, a - 3));
        }
        if p < a - 3 {
            assert(!occurs_at(url@, "://"@, p as int));
        }
        if b < j {
            assert(!is_host_delim(url@[b]));
        }
        if j < b {
            assert(!is_host_delim(url@[j as int]));
        }
    }
    r
}

/// The nodes of an XML document in document order, each as its tag name and
/// its text, or `None` for a malformed document.
pub uninterp spec fn xml_nodes(doc: Seq<char>) -> Option<Seq<(Seq<char>, Option<Seq<char>>)>>;

pub open spec fn node_view(n: (String, Option<String>)) -> (Seq<char>, Option<Seq<char>>) {
    (n.0@, match n.1 { Some(t) => Some(t@), None => None })
}

/// Relies on roxmltree::Document::parse and `descendants`: every node in
/// document order, with its tag name and `Node::text`.
#[verifier::external_body]
fn parse_nodes(doc: &str) -> (r: Option<Vec<(String, Option<String>)>>)
    ensures
        r.is_some() == xml_nodes(doc@).is_some(),
        r.is_some() ==> r.unwrap()@.map_values(|n: (String, Option<String>)| node_view(n))
            == xml_nodes(doc@).unwrap(),
{
    let d = roxmltree::Document::parse(doc).ok()?;
    Some(d.descendants().map(|n| (n.tag_name().name().to_owned(), n.text().map(|t| t.to_owned()))).collect())
}

/// A fetched object: its bytes and the format its content type named.
#[derive(Debug)]
pub struct RawImage {
    pub format: Format,
    pub bytes: Vec<u8>,
}

pub open spec fn opt_view(c: Option<&str>) -> Option<Seq<char>> {
    match c {
        Some(t) => Some(t@),
        None => None,
    }
}

pub open spec fn is_success(status: u16) -> bool {
    200 <= status < 300
}

/// What a GET answered with `status`, `content_type` and `body` yields.
pub open spec fn fetch_result(status: u16, content_type: Option<Seq<char>>, body: Seq<u8>) -> Result<(Format, Seq<u8>), Error> {
    if !is_success(status) {
        Err(Error::StatusCode(status))
    } else {
        match content_type {
            None => Err(Error::ParseError),
            Some(ct) => match parse_mime(ct) {
                None => Err(Error::ParseError),
                Some(f) => Ok((f, body)),
            },
        }
    }
}

/// A successful answer whose content type is not a recognised MIME type
/// fails with `ParseError`.
pub proof fn unsupported_mime_is_parse_error(status: u16, content_type: Seq<char>, body: Seq<u8>)
    requires
        is_success(status),
        parse_mime(content_type) is None,
    ensures
        fetch_result(status, Some(content_type), body) == Err::<(Format, Seq<u8>), Error>(Error::ParseError),
{
}

impl RawImage {
    /// Interprets the answer to a GET: a failing status, a missing or
    /// unrecognised content type are errors.
    pub fn from_request(status: u16, content_type: Option<&str>, bytes: Vec<u8>) -> (r: CrateResult<RawImage>)
        ensures
            match fetch_result(status, opt_view(content_type), bytes@) {
                Ok((f, b)) => r is Ok && r->Ok_0.format == f && r->Ok_0.bytes@ == b,
                Err(e) => r == Err::<RawImage, Error>(e),
            },
    {
        if status < 200 || status >= 300 {
            return Err(Error::StatusCode(status));
        }
        match content_type {
            None => Err(Error::ParseError),
            Some(ct) => match Mime::from_str(ct) {
                Ok(m) => Ok(RawImage { format: m.format(), bytes }),
                Err(e) => Err(e),
            },
        }
    }
}

/// What a PUT answered with `status` yields.
pub fn put_result(status: u16) -> (r: CrateResult<()>)
    ensures
        is_success(status) ==> r == Ok::<(), Error>(()),
        !is_success(status) ==> r == Err::<(), Error>(Error::StatusCode(status)),
{
    if status < 200 || status >= 300 {
        Err(Error::StatusCode(status))
    } else {
        Ok(())
    }
}

/// The trimmed texts of the `Key` elements whose text holds `filter`.
pub open spec fn selected_keys(nodes: Seq<(Seq<char>, Option<Seq<char>>)>, filter: Seq<char>) -> Seq<Seq<char>>
    decreases nodes.len(),
{
    if nodes.len() == 0 {
        Seq::empty()
    } else {
        let rest = selected_keys(nodes.drop_last(), filter);
        let n = nodes.last();
        match n.1 {
            Some(t) => if n.0 == "Key"@ && contains_seq(t, filter) {
                rest.push(trimmed(t))
            } else {
                rest
            },
            None => rest,
        }
    }
}

pub open spec fn list_result(status: u16, body: Seq<char>, filter: Seq<char>) -> Result<Seq<Seq<char>>, Error> {
    if !is_success(status) {
        Err(Error::StatusCode(status))
    } else {
        match xml_nodes(body) {
            None => Err(Error::ParseError),
            Some(nodes) => Ok(selected_keys(nodes, filter)),
        }
    }
}

/// Interprets the answer to a bucket listing: the keys that hold `filter`.
pub fn list_keys(status: u16, body: &str, filter: &str) -> (r: CrateResult<Vec<String>>)
    ensures
        match list_result(status, body@, filter@) {
            Ok(ks) => r is Ok && r->Ok_0@.map_values(|s: String| s@) == ks,
            Err(e) => r == Err::<Vec<String>, Error>(e),
        },
{
    if status < 200 || status >= 300 {
        return Err(Error::StatusCode(status));
    }
    let nodes = match parse_nodes(body) {
        Some(n) => n,
        None => return Err(Error::ParseError),
    };
    let ghost nv = nodes@.map_values(|n: (String, Option<String>)| node_view(n));
    let mut out: Vec<String> = Vec::new();
    let mut i: usize = 0;
    while i < nodes.len()
        invariant
            i <= nodes@.len(),
            nv == nodes@.map_values(|n: (String, Option<String>)| node_view(n)),
            out@.map_values(|s: String| s@) == selected_keys(nv.subrange(0, i as int), filter@),
        decreases nodes@.len() - i,
    {
        let node = &nodes[i];
        assert(nv.subrange(0, i as int + 1).drop_last() =~= nv.subrange(0, i as int));
        assert(nv.subrange(0, i as int + 1).last() == node_view(*node));
        match &node.1 {
            Some(t) => {
                if same_text(node.0.as_str(), "Key") && contains_text(t.as_str(), filter) {
                    let k = trim_text(t.as_str());
                    out.push(k);
                    assert(out@.map_values(|s: String| s@) =~= selected_keys(nv.subrange(0, i as int), filter@).push(k@));
                }
            },
            None => {},
        }
        i = i + 1;
    }
    assert(nv.subrange(0, i as int) =~= nv);
    Ok(out)
}

/// The object-store operations the proxy signs.
#[derive(Debug, Clone, Copy, PartialEq, Eq, Structural)]
pub enum Operation {
    Get,
    Put,
    List,
}

/// `url` presigns `op`, on object `name` unless it is a listing.
pub open spec fn signs(url: Seq<char>, op: Operation, name: Seq<char>) -> bool {
    match op {
        Operation::Get => presigns_get(url, name),
        Operation::Put => presigns_put(url, name),
        Operation::List => presigns_list(url),
    }
}

/// Seconds a presigned URL stays valid.
pub const SIGNATURE_SECS: u64 = 10;

/// Signs requests against one bucket and sends them to a CDN host.
pub struct DownloadClient {
    bucket: rusty_s3::Bucket,
    credentials: rusty_s3::Credentials,
    host_rewrite: String,
}

impl DownloadClient {
    /// The CDN host that requests are sent to.
    pub closed spec fn cdn_host(&self) -> Seq<char> {
        self.host_rewrite@
    }

    /// Fails with `Configuration` when the endpoint is not an http(s) URL
    /// with a host.
    pub fn new(endpoint: &str, host_rewrite: String, bucket_name: String, region: String, key: &str, secret: &str) -> (r: CrateResult<DownloadClient>)
        ensures
            r is Ok <==> endpoint_accepted(endpoint@, bucket_name@, region@),
            r is Ok ==> r->Ok_0.cdn_host() == host_rewrite@,
            r is Err ==> r == Err::<DownloadClient, Error>(Error::Configuration),
    {
        let bucket = match new_bucket(endpoint, bucket_name, region) {
            Some(b) => b,
            None => return Err(Error::Configuration),
        };
        let credentials = new_credentials(key, secret);
        Ok(DownloadClient { bucket, credentials, host_rewrite })
    }

    /// Moves a signed URL onto the CDN host. Only the host changes, so the
    /// signature in the query stays as it was computed; any other outcome
    /// of the rewrite is refused.
    pub fn use_cdn_url(&self, signed: &str) -> (r: CrateResult<String>)
        ensures
            r is Ok <==> url_host_set(signed@, self.cdn_host()) is Some
                && host_replaced(signed@, url_host_set(signed@, self.cdn_host())->Some_0, self.cdn_host()),
            r is Ok ==> r->Ok_0@ == url_host_set(signed@, self.cdn_host())->Some_0,
            r is Ok ==> host_replaced(signed@, r->Ok_0@, self.cdn_host()),
            r is Err ==> r == Err::<String, Error>(Error::ParseError),
    {
        let out = match set_url_host(signed, self.host_rewrite.as_str()) {
            Some(o) => o,
            None => return Err(Error::ParseError),
        };
        if host_swapped(signed, out.as_str(), self.host_rewrite.as_str()) {
            Ok(out)
        } else {
            Err(Error::ParseError)
        }
    }

    /// A presigned URL for `op` on `object_name` (ignored for a listing),
    /// on the CDN host. A name starting with `//` is refused.
    pub fn presigned_url(&self, op: Operation, object_name: &str) -> (r: CrateResult<String>)
        ensures
            op != Operation::List && is_network_path(object_name@)
                ==> r == Err::<String, Error>(Error::ParseError),
            r is Ok ==> exists|signed: Seq<char>| signs(signed, op, object_name@)
                && signed_query(signed, SIGNATURE_SECS)
                && host_replaced(signed, r->Ok_0@, self.cdn_host()),
            r is Err ==> r == Err::<String, Error>(Error::ParseError),
    {
        if op != Operation::List && object_name.unicode_len() >= 2 && object_name.get_char(0) == '/'
            && object_name.get_char(1) == '/' {
            return Err(Error::ParseError);
        }
        let url = match op {
            Operation::Get => sign_get(&self.bucket, &self.credentials, object_name, SIGNATURE_SECS),
            Operation::Put => sign_put(&self.bucket, &self.credentials, object_name, SIGNATURE_SECS),
            Operation::List => sign_list(&self.bucket, &self.credentials, SIGNATURE_SECS),
        };
        self.use_cdn_url(url.as_str())
    }
}

} // verus!
