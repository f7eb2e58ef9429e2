//! Client configuration sent to the daemon during negotiation, and the
//! capability payload the daemon answers with.

use vstd::prelude::*;

use crate::json::json_bool;
use crate::json::json_bool_field;
use crate::json::json_str_field;
use crate::json::json_string;
use crate::json::json_u64;
use crate::json::json_u64_field;

verus! {

/// Configuration the client sends to the daemon inside the Identify command.
///
/// The daemon answers with an [`NsqdConfig`] describing what it actually
/// granted; the handshake decisions are driven by that answer.
#[derive(Debug, PartialEq)]
pub struct Config {
    /// Identifier sent to the daemon representing this client.
    ///
    /// Default: the hostname where the connection is started.
    pub client_id: Option<String>,

    /// Hostname where the client is deployed.
    ///
    /// Default: the hostname where the connection is started.
    pub hostname: Option<String>,

    /// Enable feature negotiation.
    ///
    /// Default: `true`.
    pub feature_negotiation: bool,

    /// Duration of time between heartbeats, in milliseconds.
    ///
    /// Valid values: `-1` disables heartbeats; otherwise
    /// `1000 <= heartbeat_interval <= <server max>`.
    ///
    /// Default: `30000`.
    pub heartbeat_interval: i64,

    /// Size in bytes of the buffer the daemon uses when writing to this
    /// connection.
    ///
    /// Valid values: `-1` disables the buffer; otherwise
    /// `64 <= output_buffer_size <= <server max>`.
    ///
    /// Default: `16384`.
    pub output_buffer_size: u64,

    /// Timeout in milliseconds after which buffered data is flushed to this
    /// client.
    ///
    /// Default: `250`.
    pub output_buffer_timeout: u32,

    /// Enable TLS negotiation.
    ///
    /// Default: `false`.
    pub tls_v1: bool,

    /// Enable snappy compression.
    ///
    /// Default: `false`.
    pub snappy: bool,

    /// Enable deflate compression.
    ///
    /// Default: `false`.
    pub deflate: bool,

    /// Deflate compression level, `1 <= deflate_level <= <server max>`.
    ///
    /// Default: `6`.
    pub deflate_level: u16,

    /// Integer percentage of received messages to sample to this connection.
    ///
    /// Default: `0`.
    pub sample_rate: u16,

    /// String identifying the agent for this connection.
    ///
    /// Default: `"nsq_client"`.
    pub user_agent: String,

    /// Timeout in milliseconds the daemon uses before requeueing a message
    /// (`0` keeps the server default).
    ///
    /// Default: `0`.
    pub message_timeout: u32,

    /// Private certificate-authority chain used to verify the server
    /// certificate; empty selects the public CA list.
    ///
    /// Default: empty.
    pub private_ca: String,

    /// Whether the server certificate is verified at all.
    ///
    /// Default: `true`.
    pub verify_server: bool,
}

/// Relies on `hostname::get_hostname`: returns the machine's hostname, a
/// value that depends on the machine this process runs on, or `None` when
/// it cannot be read.
#[verifier::external_body]
fn machine_hostname() -> Option<String> {
    hostname::get_hostname()
}

/// Holds when every field of `c` that does not come from the machine's
/// hostname has its documented default value.
pub open spec fn is_default_config(c: Config) -> bool {
    &&& c.feature_negotiation == true
    &&& c.heartbeat_interval == 30000i64
    &&& c.output_buffer_size == 16384u64
    &&& c.output_buffer_timeout == 250u32
    &&& c.tls_v1 == false
    &&& c.snappy == false
    &&& c.deflate == false
    &&& c.deflate_level == 6u16
    &&& c.sample_rate == 0u16
    &&& c.user_agent@ == "nsq_client"@
    &&& c.message_timeout == 0u32
    &&& c.private_ca@ == Seq::<char>::empty()
    &&& c.verify_server == true
}

impl Default for Config {
    /// All fields take their documented defaults; `client_id` and `hostname`
    /// are read from the machine and are whatever it reports.
    fn default() -> (c: Config)
        ensures
            is_default_config(c),
    {
        Config {
            client_id: machine_hostname(),
            hostname: machine_hostname(),
            feature_negotiation: true,
            heartbeat_interval: 30000,
            output_buffer_size: 16384,
            output_buffer_timeout: 250,
            tls_v1: false,
            snappy: false,
            deflate: false,
            deflate_level: 6,
            sample_rate: 0,
            user_agent: "nsq_client".to_string(),
            message_timeout: 0,
            private_ca: String::new(),
            verify_server: true,
        }
    }
}

impl Clone for Config {
    fn clone(&self) -> (c: Config)
        ensures
            c == *self,
    {
        Config {
            client_id: self.client_id.clone(),
            hostname: self.hostname.clone(),
            feature_negotiation: self.feature_negotiation,
            heartbeat_interval: self.heartbeat_interval,
            output_buffer_size: self.output_buffer_size,
            output_buffer_timeout: self.output_buffer_timeout,
            tls_v1: self.tls_v1,
            snappy: self.snappy,
            deflate: self.deflate,
            deflate_level: self.deflate_level,
            sample_rate: self.sample_rate,
            user_agent: self.user_agent.clone(),
            message_timeout: self.message_timeout,
            private_ca: self.private_ca.clone(),
            verify_server: self.verify_server,
        }
    }
}

impl Config {
    /// Create a default `Config`.
    pub fn new() -> (c: Config)
        ensures
            is_default_config(c),
    {
        Config { ..Default::default() }
    }

    /// Change `client_id`.
    pub fn client_id(self, client_id: String) -> (c: Config)
        ensures
            c == (Config { client_id: Some(client_id), ..self }),
    {
        Config { client_id: Some(client_id), ..self }
    }

    /// Change `hostname`.
    pub fn hostname(self, hostname: String) -> (c: Config)
        ensures
            c == (Config { hostname: Some(hostname), ..self }),
    {
        Config { hostname: Some(hostname), ..self }
    }

    /// Change `user_agent`.
    pub fn user_agent(self, user_agent: String) -> (c: Config)
        ensures
            c == (Config { user_agent: user_agent, ..self }),
    {
        Config { user_agent: user_agent, ..self }
    }

    /// Enable TLS negotiation and choose how the server certificate is
    /// verified.
    pub fn tls(&mut self, verify_server_cert: VerifyServerCert)
        ensures
            final(self).tls_v1 == true,
            match verify_server_cert {
                VerifyServerCert::NoVerify => {
                    &&& final(self).verify_server == false
                    &&& final(self).private_ca == old(self).private_ca
                },
                VerifyServerCert::PrivateCA(s) => {
                    &&& final(self).verify_server == true
                    &&& final(self).private_ca == s
                },
                VerifyServerCert::PublicCA => {
                    &&& final(self).verify_server == true
                    &&& final(self).private_ca == old(self).private_ca
                },
            },
            *final(self) == (Config {
                tls_v1: true,
                verify_server: final(self).verify_server,
                private_ca: final(self).private_ca,
                ..*old(self)
            }),
    {
        self.tls_v1 = true;
        match verify_server_cert {
            VerifyServerCert::NoVerify => {
                self.verify_server = false;
            },
            VerifyServerCert::PrivateCA(s) => {
                self.verify_server = true;
                self.private_ca = s;
            },
            VerifyServerCert::PublicCA => {
                self.verify_server = true;
            },
        }
    }

    /// Enable deflate compression at the given level.
    pub fn deflate(&mut self, level: u16)
        ensures
            *final(self) == (Config { deflate: true, deflate_level: level, ..*old(self) }),
    {
        self.deflate = true;
        self.deflate_level = level;
    }
}

/// Capability and limit payload the daemon answers the Identify command
/// with. Immutable once received; it drives the TLS and authentication
/// branches of the handshake.
#[derive(Debug, PartialEq)]
pub struct NsqdConfig {
    pub max_rdy_count: u32,
    pub version: String,
    pub max_msg_timeout: u64,
    pub msg_timeout: u64,
    pub tls_v1: bool,
    pub deflate: bool,
    pub deflate_level: u16,
    pub max_deflate_level: u16,
    pub snappy: bool,
    pub sample_rate: u16,
    pub auth_required: bool,
    pub output_buffer_size: u64,
    pub output_buffer_timeout: u32,
}

impl Clone for NsqdConfig {
    fn clone(&self) -> (c: NsqdConfig)
        ensures
            c == *self,
    {
        NsqdConfig {
            max_rdy_count: self.max_rdy_count,
            version: self.version.clone(),
            max_msg_timeout: self.max_msg_timeout,
            msg_timeout: self.msg_timeout,
            tls_v1: self.tls_v1,
            deflate: self.deflate,
            deflate_level: self.deflate_level,
            max_deflate_level: self.max_deflate_level,
            snappy: self.snappy,
            sample_rate: self.sample_rate,
            auth_required: self.auth_required,
            output_buffer_size: self.output_buffer_size,
            output_buffer_timeout: self.output_buffer_timeout,
        }
    }
}

impl Default for NsqdConfig {
    fn default() -> (c: NsqdConfig)
        ensures
            c == (NsqdConfig {
                max_rdy_count: 0u32,
                version: c.version,
                max_msg_timeout: 0u64,
                msg_timeout: 0u64,
                tls_v1: false,
                deflate: false,
                deflate_level: 0u16,
                max_deflate_level: 0u16,
                snappy: false,
                sample_rate: 0u16,
                auth_required: false,
                output_buffer_size: 0u64,
                output_buffer_timeout: 0u32,
            }),
            c.version@ == Seq::<char>::empty(),
    {
        NsqdConfig {
            max_rdy_count: 0,
            version: String::new(),
            max_msg_timeout: 0,
            msg_timeout: 0,
            tls_v1: false,
            deflate: false,
            deflate_level: 0,
            max_deflate_level: 0,
            snappy: false,
            sample_rate: 0,
            auth_required: false,
            output_buffer_size: 0,
            output_buffer_timeout: 0,
        }
    }
}

/// Holds when the text carries every field of [`NsqdConfig`] with a value
/// of the right type and range: exactly the payloads the decoder accepts.
pub open spec fn negotiation_decodes(s: Seq<char>) -> bool {
    &&& (json_u64_field(s, "max_rdy_count"@) matches Some(x) && x <= u32::MAX)
    &&& json_str_field(s, "version"@) is Some
    &&& json_u64_field(s, "max_msg_timeout"@) is Some
    &&& json_u64_field(s, "msg_timeout"@) is Some
    &&& json_bool_field(s, "tls_v1"@) is Some
    &&& json_bool_field(s, "deflate"@) is Some
    &&& (json_u64_field(s, "deflate_level"@) matches Some(x) && x <= u16::MAX)
    &&& (json_u64_field(s, "max_deflate_level"@) matches Some(x) && x <= u16::MAX)
    &&& json_bool_field(s, "snappy"@) is Some
    &&& (json_u64_field(s, "sample_rate"@) matches Some(x) && x <= u16::MAX)
    &&& json_bool_field(s, "auth_required"@) is Some
    &&& json_u64_field(s, "output_buffer_size"@) is Some
    &&& (json_u64_field(s, "output_buffer_timeout"@) matches Some(x) && x <= u32::MAX)
}

/// Holds when `c` is the capability payload the text decodes to: every
/// field equals what stands in the text under its key.
pub open spec fn decoded_negotiation(s: Seq<char>, c: NsqdConfig) -> bool {
    &&& json_u64_field(s, "max_rdy_count"@) == Some(c.max_rdy_count as u64)
    &&& json_str_field(s, "version"@) == Some(c.version@)
    &&& json_u64_field(s, "max_msg_timeout"@) == Some(c.max_msg_timeout)
    &&& json_u64_field(s, "msg_timeout"@) == Some(c.msg_timeout)
    &&& json_bool_field(s, "tls_v1"@) == Some(c.tls_v1)
    &&& json_bool_field(s, "deflate"@) == Some(c.deflate)
    &&& json_u64_field(s, "deflate_level"@) == Some(c.deflate_level as u64)
    &&& json_u64_field(s, "max_deflate_level"@) == Some(c.max_deflate_level as u64)
    &&& json_bool_field(s, "snappy"@) == Some(c.snappy)
    &&& json_u64_field(s, "sample_rate"@) == Some(c.sample_rate as u64)
    &&& json_bool_field(s, "auth_required"@) == Some(c.auth_required)
    &&& json_u64_field(s, "output_buffer_size"@) == Some(c.output_buffer_size)
    &&& json_u64_field(s, "output_buffer_timeout"@) == Some(c.output_buffer_timeout as u64)
}

impl NsqdConfig {
    /// Decode the daemon's negotiation payload. The payload is JSON; every
    /// field of [`NsqdConfig`] must be present with a value of the right
    /// type and range, or the whole response is rejected with `None`, which
    /// the connection engine treats as fatal. Exactly the texts
    /// `negotiation_decodes` admits are accepted, and the decoded value is
    /// field for field what the text carries.
    pub fn parse(s: &str) -> (r: Option<NsqdConfig>)
        ensures
            (r is Some) == negotiation_decodes(s@),
            (r matches Some(c) ==> decoded_negotiation(s@, c)),
    {
        let max_rdy_count = match json_u64(s, "max_rdy_count") {
            Some(x) => {
                if x <= u32::MAX as u64 {
                    x as u32
                } else {
                    return None;
                }
            },
            None => {
                return None;
            },
        };
        let version = match json_string(s, "version") {
            Some(v) => v,
            None => {
                return None;
            },
        };
        let max_msg_timeout = match json_u64(s, "max_msg_timeout") {
            Some(x) => x,
            None => {
                return None;
            },
        };
        let msg_timeout = match json_u64(s, "msg_timeout") {
            Some(x) => x,
            None => {
                return None;
            },
        };
        let tls_v1 = match json_bool(s, "tls_v1") {
            Some(b) => b,
            None => {
                return None;
            },
        };
        let deflate = match json_bool(s, "deflate") {
            Some(b) => b,
            None => {
                return None;
            },
        };
        let deflate_level = match json_u64(s, "deflate_level") {
            Some(x) => {
                if x <= u16::MAX as u64 {
                    x as u16
                } else {
                    return None;
                }
            },
            None => {
                return None;
            },
        };
        let max_deflate_level = match json_u64(s, "max_deflate_level") {
            Some(x) => {
                if x <= u16::MAX as u64 {
                    x as u16
                } else {
                    return None;
                }
            },
            None => {
                return None;
            },
        };
        let snappy = match json_bool(s, "snappy") {
            Some(b) => b,
            None => {
                return None;
            },
        };
        let sample_rate = match json_u64(s, "sample_rate") {
            Some(x) => {
                if x <= u16::MAX as u64 {
                    x as u16
                } else {
                    return None;
                }
            },
            None => {
                return None;
            },
        };
        let auth_required = match json_bool(s, "auth_required") {
            Some(b) => b,
            None => {
                return None;
            },
        };
        let output_buffer_size = match json_u64(s, "output_buffer_size") {
            Some(x) => x,
            None => {
                return None;
            },
        };
        let output_buffer_timeout = match json_u64(s, "output_buffer_timeout") {
            Some(x) => {
                if x <= u32::MAX as u64 {
                    x as u32
                } else {
                    return None;
                }
            },
            None => {
                return None;
            },
        };
        Some(NsqdConfig {
            max_rdy_count,
            version,
            max_msg_timeout,
            msg_timeout,
            tls_v1,
            deflate,
            deflate_level,
            max_deflate_level,
            snappy,
            sample_rate,
            auth_required,
            output_buffer_size,
            output_buffer_timeout,
        })
    }
}

/// How the server certificate is verified when TLS is negotiated.
#[derive(PartialEq)]
pub enum VerifyServerCert {
    /// No verification at all; never use outside tests.
    NoVerify,
    /// Verify against a private certificate-authority chain.
    PrivateCA(String),
    /// Verify against the public certificate-authority list.
    PublicCA,
}

impl Clone for VerifyServerCert {
    fn clone(&self) -> (c: VerifyServerCert)
        ensures
            c == *self,
    {
        match self {
            VerifyServerCert::NoVerify => VerifyServerCert::NoVerify,
            VerifyServerCert::PrivateCA(s) => VerifyServerCert::PrivateCA(s.clone()),
            VerifyServerCert::PublicCA => VerifyServerCert::PublicCA,
        }
    }
}

} // verus!
