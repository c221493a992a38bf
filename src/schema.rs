use vstd::prelude::*;

use crate::error::{classify, ConfigError, IoFailure};

verus! {

/// A local service that the daemon exposes under a DNS name.
#[derive(Debug, Clone, PartialEq, Eq)]
pub struct Endpoint {
    /// The local port the service listens on.
    pub port: u16,
    /// The DNS name the service is reached under.
    pub dns: String,
    /// The cap on concurrently open connections.
    pub maxconns: u16,
    /// The cap on idle pooled connections.
    pub maxidle: u16,
    /// Whether the endpoint is active.
    pub enabled: bool,
}

/// Settings of the optional SSH tunnel.
#[derive(Debug, Clone, PartialEq, Eq)]
pub struct Ssh {
    /// The cap on concurrently open connections.
    pub maxconns: u16,
    /// The local SSH port.
    pub port: u16,
    /// Whether the tunnel is active.
    pub enabled: bool,
    /// The cap on idle pooled connections.
    pub maxidle: u16,
    /// The host name to present; absent means the one the OS reports.
    pub hostname_override: Option<String>,
}

impl Ssh {
    /// SSH settings with the default limits (20 connections, 5 idle) on port 22.
    pub fn new(enabled: bool, hostname: Option<String>) -> (r: Ssh)
        ensures
            r.maxconns == 20,
            r.port == 22,
            r.enabled == enabled,
            r.maxidle == 5,
            r.hostname_override == hostname,
    {
        Ssh { maxconns: 20, port: 22, enabled, hostname_override: hostname, maxidle: 5 }
    }
}

/// The daemon's persisted configuration.
#[derive(Debug, Clone, PartialEq, Eq)]
pub struct EbbflowDaemonConfig {
    /// The endpoints to host, in file order.
    pub endpoints: Vec<Endpoint>,
    /// The SSH tunnel settings; absent means no tunnel.
    pub ssh: Option<Ssh>,
}

/// A configuration document: one that holds no value, or a configuration.
#[derive(Debug, Clone, PartialEq, Eq)]
pub enum PossiblyEmptyEbbflowDaemonConfig {
    Empty,
    EbbflowDaemonConfig(EbbflowDaemonConfig),
}

/// The configuration a daemon runs with before it is configured.
pub open spec fn is_empty_config(c: EbbflowDaemonConfig) -> bool {
    c.endpoints@.len() == 0 && c.ssh is None
}

/// The bytes that YAML reads as white space between tokens.
pub open spec fn is_document_space(b: u8) -> bool {
    b == 0x20 || b == 0x09 || b == 0x0a || b == 0x0d
}

/// A document with nothing but white space in it, zero bytes included.
pub open spec fn is_blank(b: Seq<u8>) -> bool {
    forall|i: int| 0 <= i < b.len() ==> is_document_space(#[trigger] b[i])
}

/// What loading gives for the bytes of a configuration file, and for what the
/// YAML parser made of them (`None`: they are not a document of the schema).
pub open spec fn document_result(
    bytes: Seq<u8>,
    parsed: Option<PossiblyEmptyEbbflowDaemonConfig>,
) -> Result<EbbflowDaemonConfig, ConfigError> {
    if is_blank(bytes) {
        Err(ConfigError::Empty)
    } else {
        match parsed {
            None => Err(ConfigError::Parsing),
            Some(PossiblyEmptyEbbflowDaemonConfig::Empty) => Err(ConfigError::Empty),
            Some(PossiblyEmptyEbbflowDaemonConfig::EbbflowDaemonConfig(c)) => Ok(c),
        }
    }
}

/// What loading gives for the outcome of reading the configuration file.
pub open spec fn load_result(
    read: Result<Seq<u8>, IoFailure>,
    parsed: Option<PossiblyEmptyEbbflowDaemonConfig>,
) -> Result<EbbflowDaemonConfig, ConfigError> {
    match read {
        Err(f) => Err(classify(f)),
        Ok(bytes) => document_result(bytes, parsed),
    }
}

/// How loading with a fallback relates to plain loading: `Empty` and
/// `FileNotFound` give an empty configuration, all else is passed on.
pub open spec fn falls_back(
    loaded: Result<EbbflowDaemonConfig, ConfigError>,
    r: Result<EbbflowDaemonConfig, ConfigError>,
) -> bool {
    match loaded {
        Ok(c) => r == Ok::<EbbflowDaemonConfig, ConfigError>(c),
        Err(e) => if e == ConfigError::Empty || e == ConfigError::FileNotFound {
            r is Ok && is_empty_config(r->Ok_0)
        } else {
            r == Err::<EbbflowDaemonConfig, ConfigError>(e)
        },
    }
}

/// Whether the bytes of a document are all white space.
pub fn is_blank_document(bytes: &[u8]) -> (r: bool)
    ensures
        r == is_blank(bytes@),
{
    let mut i: usize = 0;
    while i < bytes.len()
        invariant
            i <= bytes@.len(),
            forall|k: int| 0 <= k < i ==> is_document_space(#[trigger] bytes@[k]),
        decreases bytes@.len() - i,
    {
        let b = bytes[i];
        if !(b == 0x20 || b == 0x09 || b == 0x0a || b == 0x0d) {
            return false;
        }
        i = i + 1;
    }
    true
}

impl EbbflowDaemonConfig {
    /// The empty configuration: no endpoints and no SSH tunnel.
    pub fn new() -> (r: EbbflowDaemonConfig)
        ensures
            is_empty_config(r),
    {
        EbbflowDaemonConfig { endpoints: Vec::new(), ssh: None }
    }

    /// The configuration in a document, from its bytes and from what the YAML
    /// parser made of them. Blank bytes and a document without a value are
    /// `Empty`; bytes the parser refused are `Parsing`.
    pub fn from_document(
        bytes: &[u8],
        parsed: Option<PossiblyEmptyEbbflowDaemonConfig>,
    ) -> (r: Result<EbbflowDaemonConfig, ConfigError>)
        ensures
            r == document_result(bytes@, parsed),
    {
        if is_blank_document(bytes) {
            return Err(ConfigError::Empty);
        }
        match parsed {
            None => Err(ConfigError::Parsing),
            Some(PossiblyEmptyEbbflowDaemonConfig::Empty) => Err(ConfigError::Empty),
            Some(PossiblyEmptyEbbflowDaemonConfig::EbbflowDaemonConfig(c)) => Ok(c),
        }
    }

    /// The configuration that loading the file gives, from the outcome of
    /// reading it and from what the YAML parser made of the bytes read.
    pub fn from_read(
        read: Result<Vec<u8>, IoFailure>,
        parsed: Option<PossiblyEmptyEbbflowDaemonConfig>,
    ) -> (r: Result<EbbflowDaemonConfig, ConfigError>)
        ensures
            r == load_result(
                match read {
                    Ok(b) => Ok(b@),
                    Err(f) => Err(f),
                },
                parsed,
            ),
    {
        match read {
            Err(f) => Err(ConfigError::from_io(f)),
            Ok(bytes) => Self::from_document(bytes.as_slice(), parsed),
        }
    }

    /// Loading with a fallback: a missing or empty configuration becomes the
    /// empty one, any other error is passed on unchanged.
    pub fn or_new(loaded: Result<EbbflowDaemonConfig, ConfigError>) -> (r: Result<
        EbbflowDaemonConfig,
        ConfigError,
    >)
        ensures
            falls_back(loaded, r),
    {
        match loaded {
            Ok(c) => Ok(c),
            Err(e) => if e.is_recoverable() {
                Ok(Self::new())
            } else {
                Err(e)
            },
        }
    }
}

/// A zero-byte configuration file loads as `Empty`, and loading it with a
/// fallback gives the empty configuration, whatever the parser made of it.
pub proof fn lemma_zero_byte_file_is_empty(
    parsed: Option<PossiblyEmptyEbbflowDaemonConfig>,
    r: Result<EbbflowDaemonConfig, ConfigError>,
)
    requires
        falls_back(load_result(Ok(Seq::<u8>::empty()), parsed), r),
    ensures
        load_result(Ok(Seq::<u8>::empty()), parsed) == Err::<EbbflowDaemonConfig, ConfigError>(
            ConfigError::Empty,
        ),
        r is Ok && is_empty_config(r->Ok_0),
{
}

/// A missing configuration file loads as `FileNotFound`, and loading it with a
/// fallback gives the empty configuration.
pub proof fn lemma_missing_file_is_not_found(
    parsed: Option<PossiblyEmptyEbbflowDaemonConfig>,
    r: Result<EbbflowDaemonConfig, ConfigError>,
)
    requires
        falls_back(load_result(Err(IoFailure::NotFound), parsed), r),
    ensures
        load_result(Err(IoFailure::NotFound), parsed) == Err::<EbbflowDaemonConfig, ConfigError>(
            ConfigError::FileNotFound,
        ),
        r is Ok && is_empty_config(r->Ok_0),
{
}

/// Loading hands on exactly the configuration that the parser read from bytes
/// that are not blank, so a written configuration that parses back to itself
/// loads as itself.
pub proof fn lemma_parsed_config_is_loaded(bytes: Seq<u8>, c: EbbflowDaemonConfig)
    requires
        !is_blank(bytes),
    ensures
        load_result(Ok(bytes), Some(PossiblyEmptyEbbflowDaemonConfig::EbbflowDaemonConfig(c)))
            == Ok::<EbbflowDaemonConfig, ConfigError>(c),
{
}

/// Bytes that are not blank and that the parser refuses load as `Parsing`,
/// and loading them with a fallback passes `Parsing` on.
pub proof fn lemma_malformed_file_is_parsing(
    bytes: Seq<u8>,
    r: Result<EbbflowDaemonConfig, ConfigError>,
)
    requires
        !is_blank(bytes),
        falls_back(load_result(Ok(bytes), None), r),
    ensures
        load_result(Ok(bytes), None) == Err::<EbbflowDaemonConfig, ConfigError>(
            ConfigError::Parsing,
        ),
        r == Err::<EbbflowDaemonConfig, ConfigError>(ConfigError::Parsing),
{
}

} // verus!
