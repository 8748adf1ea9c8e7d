//! Service configuration: listen address, versioned path prefix, and the
//! cross-origin and TLS policies. A configuration is fixed at startup and
//! never changes while the server runs.

use vstd::prelude::*;

verus! {

/// Cross-origin resource sharing policy. Only the installation mechanism is
/// decided here: when `enabled` holds, a response layer allowing `allow_origin`
/// is installed; otherwise no such layer exists.
#[derive(Debug, Clone)]
pub struct HttpCorsConfig {
    pub enabled: bool,
    pub allow_origin: String,
}

/// Transport-layer security policy. The server carries these fields but
/// performs no TLS termination of its own.
#[derive(Debug, Clone)]
pub struct HttpTlsConfig {
    pub enabled: bool,
    pub cert_path: String,
    pub key_path: String,
}

/// The immutable configuration of one API server: where it listens and under
/// which `{path}/{version}` prefix its registered routes answer.
#[derive(Debug, Clone)]
pub struct HttpConfig {
    pub address: String,
    pub path: String,
    pub cors: HttpCorsConfig,
    pub tls: HttpTlsConfig,
    pub version: String,
}

impl Default for HttpCorsConfig {
    /// Cross-origin requests are disallowed unless configured.
    fn default() -> (r: Self)
        ensures
            !r.enabled,
            r.allow_origin@ == Seq::<char>::empty(),
    {
        HttpCorsConfig { enabled: false, allow_origin: String::new() }
    }
}

impl Default for HttpTlsConfig {
    /// TLS is off unless configured.
    fn default() -> (r: Self)
        ensures
            !r.enabled,
            r.cert_path@ == Seq::<char>::empty(),
            r.key_path@ == Seq::<char>::empty(),
    {
        HttpTlsConfig { enabled: false, cert_path: String::new(), key_path: String::new() }
    }
}

} // verus!
