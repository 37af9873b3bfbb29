//! TLS context resolution: turn a PEM pair (supplied, or freshly
//! self-signed) into a reusable TLS server context plus the raw PEM
//! bytes.
//!
//! Reading PEM bytes from disk is the caller's business; the library
//! takes the bytes themselves. The certificate and key parsing and the
//! context construction are done by the TLS stack behind trusted
//! wrappers, and the resolution logic around them is verified.

use vstd::prelude::*;

verus! {

// The TLS stack's types pass through the resolver as opaque values:
// only their construction and parsing outcomes matter here.
#[verifier::external_type_specification]
#[verifier::external_body]
pub struct ExServerConfig(rustls::ServerConfig);

#[verifier::external_type_specification]
#[verifier::external_body]
pub struct ExCertificateDer<'a>(rustls::pki_types::CertificateDer<'a>);

#[verifier::external_type_specification]
#[verifier::external_body]
pub struct ExPrivatePkcs8KeyDer<'a>(rustls::pki_types::PrivatePkcs8KeyDer<'a>);

#[verifier::external_type_specification]
#[verifier::external_body]
pub struct ExIoError(std::io::Error);

#[verifier::external_type_specification]
#[verifier::external_body]
pub struct ExRcgenError(rcgen::Error);

#[verifier::external_type_specification]
#[verifier::external_body]
pub struct ExRustlsError(rustls::Error);

/// Whether `rustls_pemfile::certs` reads the PEM bytes without an error.
/// Parsing is a deterministic function of the bytes alone; only this
/// outcome of it is named, the certificates themselves stay opaque.
pub uninterp spec fn cert_pem_parses(pem: Seq<u8>) -> bool;

/// Whether `rustls_pemfile::pkcs8_private_keys` reads the PEM bytes
/// without an error. Deterministic in the bytes alone.
pub uninterp spec fn key_pem_parses(pem: Seq<u8>) -> bool;

/// How many PKCS#8 private keys `rustls_pemfile::pkcs8_private_keys`
/// finds in the PEM bytes when it parses them without error. Named
/// separately from the parse outcome because the resolver's "no usable
/// private key" error is decided by exactly this count.
pub uninterp spec fn pkcs8_key_count(pem: Seq<u8>) -> nat;

/// Whether rustls accepts the certificate chain parsed from the first
/// PEM and the first PKCS#8 key parsed from the second as a usable
/// server identity. Deterministic in the bytes alone: `with_single_cert`
/// loads the key with the crypto provider and compares public keys,
/// touching no randomness and no environment.
pub uninterp spec fn server_config_builds(cert_pem: Seq<u8>, key_pem: Seq<u8>) -> bool;

/// Why TLS material could not be resolved. Any of these at startup is
/// fatal: the process must not proceed to listen.
#[derive(Clone, Copy, Debug, PartialEq, Eq, Structural)]
pub enum ConfigError {
    /// The certificate PEM could not be parsed.
    CertParse,
    /// The private-key PEM could not be parsed.
    KeyParse,
    /// The key PEM parsed but held no PKCS#8 private key.
    NoPrivateKey,
    /// Generating the self-signed certificate failed.
    Generate,
    /// The TLS stack refused the certificate/key pair.
    ContextBuild,
}

impl ConfigError {
    /// A human-readable description, for logs.
    pub fn message(&self) -> (r: &'static str)
        ensures
            self is CertParse ==> r@ == "certificate PEM could not be parsed"@,
            self is KeyParse ==> r@ == "private-key PEM could not be parsed"@,
            self is NoPrivateKey ==> r@ == "no private keys found in PEM"@,
            self is Generate ==> r@ == "self-signed certificate generation failed"@,
            self is ContextBuild ==> r@ == "TLS context rejected the certificate/key pair"@,
    {
        match self {
            ConfigError::CertParse => "certificate PEM could not be parsed",
            ConfigError::KeyParse => "private-key PEM could not be parsed",
            ConfigError::NoPrivateKey => "no private keys found in PEM",
            ConfigError::Generate => "self-signed certificate generation failed",
            ConfigError::ContextBuild => "TLS context rejected the certificate/key pair",
        }
    }
}

/// The resolved TLS material: the PEM pair and the server context built
/// from it. Built once at startup, then only shared.
#[derive(Clone)]
pub struct TlsConfig {
    /// Certificate chain, PEM bytes.
    pub cert_pem: Vec<u8>,
    /// Private key, PEM bytes.
    pub key_pem: Vec<u8>,
    /// The server context derived from the PEM pair; cloning the handle
    /// is cheap and done once per accepted connection.
    pub server_config: std::sync::Arc<rustls::ServerConfig>,
}

impl TlsConfig {
    /// The context is derivable from the PEM pair: both PEMs parse, the
    /// key PEM holds at least one private key, and the TLS stack accepts
    /// the pair as a server identity.
    pub open spec fn wf(&self) -> bool {
        &&& cert_pem_parses(self.cert_pem@)
        &&& key_pem_parses(self.key_pem@)
        &&& pkcs8_key_count(self.key_pem@) > 0
        &&& server_config_builds(self.cert_pem@, self.key_pem@)
    }
}

/// Relies on `rustls_pemfile::certs`: reads every certificate from the
/// PEM bytes, a deterministic function of the bytes alone.
#[verifier::external_body]
fn parse_cert_pem(pem: &Vec<u8>) -> (r: Result<
    Vec<rustls::pki_types::CertificateDer<'static>>,
    std::io::Error,
>)
    ensures
        r is Ok <==> cert_pem_parses(pem@),
{
    rustls_pemfile::certs(&mut std::io::BufReader::new(pem.as_slice())).collect()
}

/// Relies on `rustls_pemfile::pkcs8_private_keys`: reads every PKCS#8
/// private key from the PEM bytes, a deterministic function of the bytes
/// alone.
#[verifier::external_body]
fn parse_key_pem(pem: &Vec<u8>) -> (r: Result<
    Vec<rustls::pki_types::PrivatePkcs8KeyDer<'static>>,
    std::io::Error,
>)
    ensures
        r is Ok <==> key_pem_parses(pem@),
        r matches Ok(keys) ==> keys@.len() == pkcs8_key_count(pem@),
{
    rustls_pemfile::pkcs8_private_keys(&mut std::io::BufReader::new(pem.as_slice())).collect()
}

/// Relies on `rustls_pemfile::certs`/`pkcs8_private_keys` and rustls's
/// `ServerConfig` builder: a server context with no client-certificate
/// requirement and exactly the chain from the first PEM plus the first
/// key of the second installed. Whether the pair is accepted is a key
/// load plus a public-key comparison, deterministic in the bytes alone,
/// so the outcome carries the name `server_config_builds`. The
/// preconditions rule out the inputs on which the parse results here
/// could not be unwrapped.
#[verifier::external_body]
fn build_server_config_from_pems(cert_pem: &Vec<u8>, key_pem: &Vec<u8>) -> (r: Result<
    rustls::ServerConfig,
    rustls::Error,
>)
    requires
        cert_pem_parses(cert_pem@),
        key_pem_parses(key_pem@),
        pkcs8_key_count(key_pem@) > 0,
    ensures
        r is Ok <==> server_config_builds(cert_pem@, key_pem@),
{
    let certs: Vec<_> = rustls_pemfile::certs(&mut std::io::BufReader::new(cert_pem.as_slice()))
        .collect::<Result<_, _>>()
        .unwrap();
    let mut keys: Vec<_> = rustls_pemfile::pkcs8_private_keys(
        &mut std::io::BufReader::new(key_pem.as_slice()),
    ).collect::<Result<_, _>>().unwrap();
    rustls::ServerConfig::builder().with_no_client_auth().with_single_cert(
        certs,
        keys.remove(0).into(),
    )
}

/// Relies on `rcgen::generate_simple_self_signed`: a fresh key pair and a
/// self-signed certificate covering the given subject names, both
/// PEM-encoded. The key pair is freshly random, so nothing is promised
/// about the bytes.
#[verifier::external_body]
fn generate_self_signed_pem(names: Vec<String>) -> (r: Result<(Vec<u8>, Vec<u8>), rcgen::Error>) {
    let rcgen::CertifiedKey { cert, key_pair } = rcgen::generate_simple_self_signed(names)?;
    Ok((cert.pem().into_bytes(), key_pair.serialize_pem().into_bytes()))
}

/// The fixed host identities a generated development certificate covers.
fn self_signed_names() -> (r: Vec<String>)
    ensures
        r@.len() == 3,
        r@[0]@ == "localhost"@,
        r@[1]@ == "hermit.local"@,
        r@[2]@ == "127.0.0.1"@,
{
    let mut names: Vec<String> = Vec::new();
    names.push("localhost".to_owned());
    names.push("hermit.local".to_owned());
    names.push("127.0.0.1".to_owned());
    names
}

/// Build the server context from a PEM pair. It succeeds exactly when
/// both PEMs parse, the key PEM holds a private key, and the TLS stack
/// accepts the pair; then the returned material holds exactly the given
/// bytes. Each failure names the first stage that refused them.
pub fn build_tls_config(cert_pem: Vec<u8>, key_pem: Vec<u8>) -> (r: Result<TlsConfig, ConfigError>)
    ensures
        r matches Ok(cfg) ==> {
            &&& cfg.cert_pem@ == cert_pem@
            &&& cfg.key_pem@ == key_pem@
            &&& cfg.wf()
        },
        r is Ok <==> cert_pem_parses(cert_pem@) && key_pem_parses(key_pem@) && pkcs8_key_count(
            key_pem@,
        ) > 0 && server_config_builds(cert_pem@, key_pem@),
        r == Err::<TlsConfig, ConfigError>(ConfigError::CertParse) <==> !cert_pem_parses(
            cert_pem@,
        ),
        r == Err::<TlsConfig, ConfigError>(ConfigError::KeyParse) <==> cert_pem_parses(cert_pem@)
            && !key_pem_parses(key_pem@),
        r == Err::<TlsConfig, ConfigError>(ConfigError::NoPrivateKey) <==> cert_pem_parses(
            cert_pem@,
        ) && key_pem_parses(key_pem@) && pkcs8_key_count(key_pem@) == 0,
        r == Err::<TlsConfig, ConfigError>(ConfigError::ContextBuild) <==> cert_pem_parses(
            cert_pem@,
        ) && key_pem_parses(key_pem@) && pkcs8_key_count(key_pem@) > 0 && !server_config_builds(
            cert_pem@,
            key_pem@,
        ),
        r != Err::<TlsConfig, ConfigError>(ConfigError::Generate),
{
    match parse_cert_pem(&cert_pem) {
        Ok(_) => {},
        Err(_) => {
            return Err(ConfigError::CertParse);
        },
    };
    let keys = match parse_key_pem(&key_pem) {
        Ok(k) => k,
        Err(_) => {
            return Err(ConfigError::KeyParse);
        },
    };
    if keys.len() == 0 {
        return Err(ConfigError::NoPrivateKey);
    }
    match build_server_config_from_pems(&cert_pem, &key_pem) {
        Ok(config) => Ok(
            TlsConfig { cert_pem, key_pem, server_config: std::sync::Arc::new(config) },
        ),
        Err(_) => Err(ConfigError::ContextBuild),
    }
}

/// Resolve the TLS material. When both PEM parts are supplied they are
/// used verbatim; otherwise a fresh self-signed certificate is generated
/// for the fixed host identities `localhost`, `hermit.local` and
/// `127.0.0.1`. On success the material's server context is always
/// derivable from its PEM pair.
pub fn resolve_tls_config(cert_pem: Option<Vec<u8>>, key_pem: Option<Vec<u8>>) -> (r: Result<
    TlsConfig,
    ConfigError,
>)
    ensures
        r matches Ok(cfg) ==> cfg.wf(),
        cert_pem is Some && key_pem is Some ==> {
            let c = cert_pem->0;
            let k = key_pem->0;
            &&& (r matches Ok(cfg) ==> cfg.cert_pem@ == c@ && cfg.key_pem@ == k@)
            &&& (r is Ok <==> cert_pem_parses(c@) && key_pem_parses(k@) && pkcs8_key_count(k@) > 0
                && server_config_builds(c@, k@))
            &&& (r == Err::<TlsConfig, ConfigError>(ConfigError::CertParse) <==> !cert_pem_parses(
                c@,
            ))
            &&& (r == Err::<TlsConfig, ConfigError>(ConfigError::KeyParse) <==> cert_pem_parses(c@)
                && !key_pem_parses(k@))
            &&& (r == Err::<TlsConfig, ConfigError>(ConfigError::NoPrivateKey)
                <==> cert_pem_parses(c@) && key_pem_parses(k@) && pkcs8_key_count(k@) == 0)
            &&& (r == Err::<TlsConfig, ConfigError>(ConfigError::ContextBuild)
                <==> cert_pem_parses(c@) && key_pem_parses(k@) && pkcs8_key_count(k@) > 0
                && !server_config_builds(c@, k@))
            &&& r != Err::<TlsConfig, ConfigError>(ConfigError::Generate)
        },
{
    let pems: (Vec<u8>, Vec<u8>) = match (cert_pem, key_pem) {
        (Some(c), Some(k)) => (c, k),
        _ => {
            match generate_self_signed_pem(self_signed_names()) {
                Ok(generated) => generated,
                Err(_) => {
                    return Err(ConfigError::Generate);
                },
            }
        },
    };
    build_tls_config(pems.0, pems.1)
}

} // verus!
