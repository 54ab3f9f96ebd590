use vstd::prelude::*;

use crate::error::Error;
use crate::StorageClient;

verus! {

#[verifier::external_type_specification]
#[verifier::external_body]
pub struct ExHttpClient(reqwest::blocking::Client);

/// The two ways a transport call can end: the dependency responded (with some
/// status and body), or the transport failed before a full response was
/// obtained (timeout, connection reset, DNS).
pub enum HttpOutcome {
    Response { status: u16, body: Vec<u8> },
    TransportFailure,
}

/// Relies on reqwest::blocking::Client::new.
#[verifier::external_body]
fn new_http_client() -> reqwest::blocking::Client {
    reqwest::blocking::Client::new()
}

/// Relies on reqwest::blocking::Client: issues a GET with the given
/// Authorization header value and reports the response's status and full
/// body, or the transport's failure; nothing is assumed of which comes back.
#[verifier::external_body]
fn http_get(client: &reqwest::blocking::Client, url: &str, auth: &str) -> HttpOutcome {
    let resp = match client.get(url).header("Authorization", auth).send() {
        Ok(r) => r,
        Err(_) => return HttpOutcome::TransportFailure,
    };
    let status = resp.status().as_u16();
    match resp.bytes() {
        Ok(b) => HttpOutcome::Response { status, body: b.to_vec() },
        Err(_) => HttpOutcome::TransportFailure,
    }
}

/// Relies on reqwest::blocking::Client: issues a POST carrying the given body
/// and Authorization header value; reports the outcome as `http_get` does.
#[verifier::external_body]
fn http_post(client: &reqwest::blocking::Client, url: &str, auth: &str, body: Vec<u8>) -> HttpOutcome {
    let resp = match client.post(url).header("Authorization", auth).body(body).send() {
        Ok(r) => r,
        Err(_) => return HttpOutcome::TransportFailure,
    };
    let status = resp.status().as_u16();
    match resp.bytes() {
        Ok(b) => HttpOutcome::Response { status, body: b.to_vec() },
        Err(_) => HttpOutcome::TransportFailure,
    }
}

/// The text a byte sequence reads as: a function of the bytes alone.
pub uninterp spec fn text_of(bytes: Seq<u8>) -> Seq<char>;

/// Relies on String::from_utf8_lossy: the text depends on the bytes alone,
/// and empty input gives the empty string.
#[verifier::external_body]
fn bytes_to_text(bytes: &[u8]) -> (r: String)
    ensures
        r@ == text_of(bytes@),
        bytes@.len() == 0 ==> r@.len() == 0,
{
    String::from_utf8_lossy(bytes).into_owned()
}

/// Whether an error is one a remote call may surface: a transport failure, or
/// the dependency's own non-success response echoed verbatim.
pub open spec fn remote_error(e: Error) -> bool {
    match e {
        Error::Network => true,
        Error::Application { status_code, .. } => !(200 <= status_code < 300),
        _ => false,
    }
}

/// Maps a transport outcome to the storage contract's result: a success
/// status yields the response body verbatim; a failure status yields
/// `Application` carrying the dependency's own status and response text; a
/// transport failure yields `Network`.
pub fn classify_response(outcome: HttpOutcome) -> (r: Result<Vec<u8>, Error>)
    ensures
        (match outcome {
            HttpOutcome::Response { status, body } => {
                if 200 <= status < 300 {
                    r matches Ok(b) && b@ == body@
                } else {
                    r matches Err(e) && e matches Error::Application { status_code, text }
                        && status_code == status && text@ == text_of(body@)
                }
            },
            HttpOutcome::TransportFailure => r matches Err(e) && e is Network,
        }),
{
    match outcome {
        HttpOutcome::Response { status, body } => {
            if 200 <= status && status < 300 {
                Ok(body)
            } else {
                let text = bytes_to_text(body.as_slice());
                Err(Error::Application { status_code: status, text })
            }
        },
        HttpOutcome::TransportFailure => Err(Error::Network),
    }
}

/// The remote backend: a bearer token captured at construction, the bucket
/// the objects live in, and one reusable transport client.
pub struct GcsClient {
    token: String,
    bucket: String,
    client: reqwest::blocking::Client,
}

impl GcsClient {
    pub closed spec fn spec_token(&self) -> Seq<char> {
        self.token@
    }

    pub closed spec fn spec_bucket(&self) -> Seq<char> {
        self.bucket@
    }

    /// Builds a backend over the given bearer token and bucket. The token is
    /// read-only for the client's lifetime; acquiring it is the caller's
    /// credential collaborator's job.
    pub fn new(token: String, bucket: String) -> (r: GcsClient)
        ensures
            r.spec_token() == token@,
            r.spec_bucket() == bucket@,
    {
        GcsClient { token, bucket, client: new_http_client() }
    }

    /// The per-object retrieval endpoint for `name` in this client's bucket.
    fn fetch_url(&self, name: &str) -> (r: String)
        ensures
            r@ == "https://storage.googleapis.com/storage/v1/b/"@ + self.spec_bucket()
                + "/o/"@ + name@ + "?alt=media"@,
    {
        let mut url = "https://storage.googleapis.com/storage/v1/b/".to_owned();
        url.append(self.bucket.as_str());
        url.append("/o/");
        url.append(name);
        url.append("?alt=media");
        url
    }

    /// The per-bucket upload endpoint, with `name` supplied as a parameter.
    fn upload_url(&self, name: &str) -> (r: String)
        ensures
            r@ == "https://storage.googleapis.com/upload/storage/v1/b/"@ + self.spec_bucket()
                + "/o?name="@ + name@,
    {
        let mut url = "https://storage.googleapis.com/upload/storage/v1/b/".to_owned();
        url.append(self.bucket.as_str());
        url.append("/o?name=");
        url.append(name);
        url
    }

    /// The Authorization header value presented on every call.
    fn auth_header(&self) -> (r: String)
        ensures
            r@ == "Bearer "@ + self.spec_token(),
    {
        let mut auth = "Bearer ".to_owned();
        auth.append(self.token.as_str());
        auth
    }
}

impl StorageClient for GcsClient {
    /// A fetch returns the dependency's response body on success; every
    /// failure is a transport failure or the dependency's own non-success
    /// response, echoed verbatim.
    open spec fn fetch_ens(&self, name: Seq<char>, r: Result<Vec<u8>, Error>) -> bool {
        match r {
            Ok(_) => true,
            Err(e) => remote_error(e),
        }
    }

    /// A create leaves the client itself unchanged; every failure is a
    /// transport failure or the dependency's own non-success response.
    open spec fn create_ens(&self, post: Self, name: Seq<char>, bytes: Seq<u8>, r: Result<(), Error>) -> bool {
        &&& post == *self
        &&& match r {
            Ok(_) => true,
            Err(e) => remote_error(e),
        }
    }

    fn fetch_object(&self, name: &str) -> (r: Result<Vec<u8>, Error>) {
        let url = self.fetch_url(name);
        let auth = self.auth_header();
        let outcome = http_get(&self.client, url.as_str(), auth.as_str());
        classify_response(outcome)
    }

    fn create_object(&mut self, name: &str, bytes: Vec<u8>) -> (r: Result<(), Error>) {
        let url = self.upload_url(name);
        let auth = self.auth_header();
        let outcome = http_post(&self.client, url.as_str(), auth.as_str(), bytes);
        match classify_response(outcome) {
            Ok(_) => Ok(()),
            Err(e) => Err(e),
        }
    }
}

/// Law: a remote dependency's failure status is echoed verbatim — an error
/// built from a non-success response (a 404 on fetch, say) reports exactly
/// the dependency's own status to the gateway's caller.
pub proof fn lemma_application_status_verbatim(status_code: u16, text: String)
    requires
        !(200 <= status_code < 300),
    ensures
        (Error::Application { status_code, text }).spec_status() == status_code,
        remote_error(Error::Application { status_code, text }),
{
}

} // verus!
