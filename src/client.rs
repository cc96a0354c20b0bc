use vstd::prelude::*;
use crate::message::{HttpError, TrustFailure};

verus! {

#[verifier::external_type_specification]
#[verifier::external_body]
pub struct ExClient(reqwest::Client);

#[verifier::external_type_specification]
#[verifier::external_body]
pub struct ExClientBuilder(reqwest::ClientBuilder);

#[verifier::external_type_specification]
#[verifier::external_body]
pub struct ExCertificate(reqwest::Certificate);

#[verifier::external_type_specification]
#[verifier::external_body]
pub struct ExError(reqwest::Error);

/// How many certificates the PEM reader finds in `pem`, or `None` where it
/// rejects the text as PEM.
pub uninterp spec fn pem_certificate_count(pem: Seq<u8>) -> Option<nat>;

/// Relies on reqwest::Certificate::from_pem_bundle, which reads every
/// certificate of a PEM text, in order; the outcome depends on the bytes alone.
pub assume_specification[ reqwest::Certificate::from_pem_bundle ](pem_bundle: &[u8]) -> (r: reqwest::Result<
    Vec<reqwest::Certificate>,
>)
    ensures
        r is Ok <==> pem_certificate_count(pem_bundle@) is Some,
        r matches Ok(certs) ==> pem_certificate_count(pem_bundle@) == Some(certs@.len()),
;

/// Relies on reqwest::Client::builder, which starts a client configuration with
/// the platform's default trust settings.
pub assume_specification[ reqwest::Client::builder ]() -> reqwest::ClientBuilder;

/// Relies on reqwest::ClientBuilder::add_root_certificate, which adds one root of
/// trust to a configuration.
pub assume_specification[ reqwest::ClientBuilder::add_root_certificate ](
    builder: reqwest::ClientBuilder,
    cert: reqwest::Certificate,
) -> reqwest::ClientBuilder;

/// Relies on reqwest::ClientBuilder::build, which makes a client from a
/// configuration; nothing is assumed of whether it succeeds.
pub assume_specification[ reqwest::ClientBuilder::build ](builder: reqwest::ClientBuilder) -> reqwest::Result<reqwest::Client>;

/// The error that a trust anchor configured at `path` gives, where `failure` is
/// why it could not be used.
pub open spec fn trust_error(path: String, failure: TrustFailure) -> HttpError {
    HttpError::Configuration { path, failure }
}

/// Settles the certificates configured at `path` from the PEM reader's verdict
/// on the file's bytes: rejected bytes, or bytes that hold no certificate, are
/// a configuration error naming the path.
pub fn accept_certificates(path: &String, parsed: reqwest::Result<Vec<reqwest::Certificate>>) -> (r: Result<
    Vec<reqwest::Certificate>,
    HttpError,
>)
    ensures
        parsed matches Ok(certs) ==> (certs@.len() > 0 ==> r == Ok::<
            Vec<reqwest::Certificate>,
            HttpError,
        >(certs)),
        !(parsed matches Ok(certs) && certs@.len() > 0) ==> r == Err::<
            Vec<reqwest::Certificate>,
            HttpError,
        >(trust_error(*path, TrustFailure::Rejected)),
{
    match parsed {
        Ok(certs) => {
            if certs.len() > 0 {
                Ok(certs)
            } else {
                Err(HttpError::Configuration { path: path.clone(), failure: TrustFailure::Rejected })
            }
        },
        Err(_) => Err(HttpError::Configuration { path: path.clone(), failure: TrustFailure::Rejected }),
    }
}

/// Whether the PEM reader finds at least one certificate in `pem`.
pub open spec fn holds_certificate(pem: Seq<u8>) -> bool {
    pem_certificate_count(pem) matches Some(n) && n > 0
}

/// Reads the certificates configured at `path` from the outcome of reading its
/// file: the bytes go to the PEM reader only when the file could be read, and
/// must hold at least one certificate.
pub fn certificates_from(path: &String, contents: Result<Vec<u8>, String>) -> (r: Result<
    Vec<reqwest::Certificate>,
    HttpError,
>)
    ensures
        contents matches Err(reason) ==> r == Err::<Vec<reqwest::Certificate>, HttpError>(
            trust_error(*path, TrustFailure::Unreadable { reason }),
        ),
        contents matches Ok(bytes) ==> (r is Ok <==> holds_certificate(bytes@)),
        contents matches Ok(bytes) ==> (r is Ok ==> pem_certificate_count(bytes@) == Some(
            r->Ok_0@.len(),
        )),
        contents is Ok && r is Err ==> r == Err::<Vec<reqwest::Certificate>, HttpError>(
            trust_error(*path, TrustFailure::Rejected),
        ),
{
    match contents {
        Err(reason) => Err(
            HttpError::Configuration {
                path: path.clone(),
                failure: TrustFailure::Unreadable { reason },
            },
        ),
        Ok(bytes) => {
            let parsed = reqwest::Certificate::from_pem_bundle(bytes.as_slice());
            accept_certificates(path, parsed)
        },
    }
}

/// A client configuration with the platform's default roots and each of `certs`.
fn builder_trusting(certs: Vec<reqwest::Certificate>) -> reqwest::ClientBuilder {
    let mut builder = reqwest::Client::builder();
    let mut certs = certs;
    while certs.len() > 0
        decreases certs.len(),
    {
        let cert = certs.pop().unwrap();
        builder = builder.add_root_certificate(cert);
    }
    builder
}

/// The error that a failed client build gives: with an extra trust anchor
/// configured, the build is where its certificates join the trust store, and a
/// failure there is reported as the anchor rejected.
pub open spec fn build_error(cert_path: Option<String>) -> HttpError {
    match cert_path {
        Some(path) => trust_error(path, TrustFailure::Rejected),
        None => HttpError::ClientBuild,
    }
}

/// Settles the client from the outcome of building it, where `cert_path` is the
/// configured trust anchor, if any.
pub fn settle_client(cert_path: &Option<String>, built: reqwest::Result<reqwest::Client>) -> (r: Result<
    reqwest::Client,
    HttpError,
>)
    ensures
        built matches Ok(client) ==> r == Ok::<reqwest::Client, HttpError>(client),
        built is Err ==> r == Err::<reqwest::Client, HttpError>(build_error(*cert_path)),
{
    match built {
        Ok(client) => Ok(client),
        Err(_) => match cert_path {
            Some(path) => Err(
                HttpError::Configuration { path: path.clone(), failure: TrustFailure::Rejected },
            ),
            None => Err(HttpError::ClientBuild),
        },
    }
}

/// Builds the process's client. Without a configured trust anchor the client
/// has the platform's default trust settings and `read_file` is never called.
/// With one at `path`, `read_file(path)` is called once and the client trusts
/// the certificates it holds besides the defaults; a file that cannot be read,
/// or that holds no certificate the PEM reader accepts, is a configuration
/// error, never a silent fallback to the defaults.
pub fn init_client<R>(cert_path: Option<String>, read_file: R) -> (r: Result<reqwest::Client, HttpError>)
    where
        R: FnOnce(&String) -> Result<Vec<u8>, String>,
    requires
        cert_path matches Some(path) ==> read_file.requires((&path,)),
    ensures
        cert_path is None ==> r is Ok || r == Err::<reqwest::Client, HttpError>(HttpError::ClientBuild),
        cert_path matches Some(path) ==> exists|contents: Result<Vec<u8>, String>|
            #[trigger] read_file.ensures((&path,), contents) && (contents matches Err(reason)
                ==> r == Err::<reqwest::Client, HttpError>(
                trust_error(path, TrustFailure::Unreadable { reason }),
            )) && (contents matches Ok(bytes) ==> !holds_certificate(bytes@)
                ==> r == Err::<reqwest::Client, HttpError>(
                trust_error(path, TrustFailure::Rejected),
            )) && (contents is Ok ==> r is Ok || r == Err::<reqwest::Client, HttpError>(
                trust_error(path, TrustFailure::Rejected),
            )),
{
    match &cert_path {
        None => {
            let built = reqwest::Client::builder().build();
            settle_client(&cert_path, built)
        },
        Some(path) => {
            let contents = read_file(path);
            match certificates_from(path, contents) {
                Err(e) => Err(e),
                Ok(certs) => {
                    let built = builder_trusting(certs).build();
                    settle_client(&cert_path, built)
                },
            }
        },
    }
}

} // verus!
