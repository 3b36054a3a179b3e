//! Protocol table, configuration defaults and checks, and transport construction.

use vstd::prelude::*;
use crate::config::{ConfigMap, TransportConfig, lookup, opt_view};
use crate::error::{AsyncApiError, AsyncApiResult, ConfigErrorKind, ErrorCategory};
use crate::text::{concat, ends_with, ends_with_char, lower_of, lowercase, str_eq};

verus! {

/// The protocol names the factory lists as supported, in listing order.
pub open spec fn supported_names() -> Seq<Seq<char>> {
    seq!["http"@, "https"@, "ws"@, "wss"@, "websocket"@]
}

/// Names of the WebSocket family.
pub open spec fn is_websocket_name(n: Seq<char>) -> bool {
    n == "ws"@ || n == "wss"@ || n == "websocket"@
}

/// Names of the HTTP family.
pub open spec fn is_http_name(n: Seq<char>) -> bool {
    n == "http"@ || n == "https"@
}

/// The default port and TLS flag of a (lowercase) protocol name.
pub open spec fn default_settings(n: Seq<char>) -> Option<(u16, bool)> {
    if n == "ws"@ || n == "websocket"@ {
        Some((80u16, false))
    } else if n == "wss"@ {
        Some((443u16, true))
    } else if n == "http"@ {
        Some((80u16, false))
    } else if n == "https"@ {
        Some((443u16, true))
    } else {
        None
    }
}

/// The message of an unsupported-protocol error.
pub open spec fn unsupported_message(protocol: Seq<char>) -> Seq<char> {
    "Unsupported protocol: "@ + protocol
}

/// The standard port of a (lowercase) protocol name: 443 for `wss` and `https`, else 80.
pub open spec fn standard_port(n: Seq<char>) -> u16 {
    if n == "wss"@ || n == "https"@ {
        443
    } else {
        80
    }
}

/// The first rule that a configuration breaks, if any.
pub open spec fn validation_error(c: TransportConfig) -> Option<ConfigErrorKind> {
    if !supported_names().contains(lower_of(c.protocol@)) {
        Some(ConfigErrorKind::UnsupportedProtocol)
    } else if c.host@.len() == 0 {
        Some(ConfigErrorKind::EmptyHost)
    } else if c.port == 0 {
        Some(ConfigErrorKind::ZeroPort)
    } else {
        None
    }
}

/// The kind of transport a (lowercase) protocol name can be built as; only the
/// WebSocket family has a transport.
pub open spec fn transport_kind(n: Seq<char>) -> Option<TransportKind> {
    if is_websocket_name(n) {
        Some(TransportKind::WebSocket)
    } else {
        None
    }
}

/// Whether every entry's protocol can be built as a transport.
pub open spec fn all_constructible(configs: Seq<(String, TransportConfig)>) -> bool {
    forall|i: int| 0 <= i < configs.len() ==> (#[trigger] transport_kind(lower_of(configs[i].1.protocol@))) is Some
}

/// Whether a configuration built from these fields uses TLS: the protocol ends
/// with `s`, or the option `tls` is `true`.
pub open spec fn server_tls(protocol: Seq<char>, options: Map<Seq<char>, Seq<char>>) -> bool {
    ends_with_char(protocol, 's') || lookup(options, "tls"@) == Some("true"@)
}

/// Whether a configuration uses a port other than its protocol's standard one,
/// the protocol compared without regard to case, without declaring it through
/// the option `custom_port`.
pub open spec fn nonstandard_port(c: TransportConfig) -> bool {
    c.port != standard_port(lower_of(c.protocol@)) && !c.additional_config@.contains_key("custom_port"@)
}

/// The protocol families that have a transport implementation.
#[derive(Clone, Copy, Debug, PartialEq, Eq, Structural)]
pub enum TransportKind {
    WebSocket,
}

/// A transport built from a configuration, which it owns.
#[derive(Debug)]
pub struct Transport {
    pub kind: TransportKind,
    pub config: TransportConfig,
}

impl Transport {
    /// The configuration the transport was built from.
    pub fn config(&self) -> (r: &TransportConfig)
        ensures
            *r == self.config,
    {
        &self.config
    }
}

/// A supported name belongs to the HTTP or the WebSocket family, and conversely.
pub proof fn lemma_supported_families(n: Seq<char>)
    ensures
        supported_names().contains(n) <==> (is_http_name(n) || is_websocket_name(n)),
{
    let s = supported_names();
    if is_http_name(n) || is_websocket_name(n) {
        if n == "http"@ {
            assert(s[0] == n);
        } else if n == "https"@ {
            assert(s[1] == n);
        } else if n == "ws"@ {
            assert(s[2] == n);
        } else if n == "wss"@ {
            assert(s[3] == n);
        } else {
            assert(s[4] == n);
        }
    }
}

/// A zero-state factory: every operation is an associated function.
pub struct TransportFactory;

impl TransportFactory {
    /// The protocol names the factory recognises, HTTP ones first.
    pub fn supported_protocols() -> (r: Vec<&'static str>)
        ensures
            r@.len() == supported_names().len(),
            forall|i: int| 0 <= i < r@.len() ==> #[trigger] r@[i]@ == supported_names()[i],
    {
        let mut protocols: Vec<&'static str> = Vec::new();
        protocols.push("http");
        protocols.push("https");
        protocols.push("ws");
        protocols.push("wss");
        protocols.push("websocket");
        protocols
    }

    /// Whether an already lowercased name is among the supported protocols.
    pub fn is_supported_name(name: &str) -> (r: bool)
        ensures
            r == supported_names().contains(name@),
    {
        let protocols = Self::supported_protocols();
        let mut i: usize = 0;
        while i < protocols.len()
            invariant
                protocols@.len() == supported_names().len(),
                forall|j: int| 0 <= j < protocols@.len() ==> #[trigger] protocols@[j]@ == supported_names()[j],
                i <= protocols@.len(),
                forall|j: int| 0 <= j < i ==> supported_names()[j] != name@,
            decreases protocols@.len() - i,
        {
            if str_eq(protocols[i], name) {
                assert(supported_names()[i as int] == name@);
                return true;
            }
            i = i + 1;
        }
        false
    }

    /// Whether the protocol, compared without regard to case, is supported.
    pub fn is_protocol_supported(protocol: &str) -> (r: bool)
        ensures
            r == supported_names().contains(lower_of(protocol@)),
    {
        let lower = lowercase(protocol);
        Self::is_supported_name(lower.as_str())
    }

    /// The default port and TLS flag of an already lowercased name.
    pub fn default_settings_for(name: &str) -> (r: Option<(u16, bool)>)
        ensures
            r == default_settings(name@),
    {
        if str_eq(name, "ws") || str_eq(name, "websocket") {
            Some((80, false))
        } else if str_eq(name, "wss") {
            Some((443, true))
        } else if str_eq(name, "http") {
            Some((80, false))
        } else if str_eq(name, "https") {
            Some((443, true))
        } else {
            None
        }
    }

    /// The error for a protocol with no entry in the table consulted.
    fn unsupported_protocol(protocol: &str) -> (e: AsyncApiError)
        ensures
            e.category == ErrorCategory::Configuration,
            e.kind == ConfigErrorKind::UnsupportedProtocol,
            e.message@ == unsupported_message(protocol@),
            e.cause is None,
    {
        AsyncApiError::configuration(
            ConfigErrorKind::UnsupportedProtocol,
            concat("Unsupported protocol: ", protocol),
        )
    }

    /// A canonical configuration for the protocol: host `localhost`, and the
    /// protocol's default port and TLS flag.
    pub fn default_config(protocol: &str) -> (r: AsyncApiResult<TransportConfig>)
        ensures
            match default_settings(lower_of(protocol@)) {
                Some((port, tls)) => r matches Ok(c) && c.protocol@ == protocol@
                    && c.host@ == "localhost"@ && c.port == port && c.tls == tls
                    && c.username is None && c.password is None
                    && c.additional_config@ == Map::<Seq<char>, Seq<char>>::empty()
                    && c.additional_config.wf(),
                None => r matches Err(e) && e.category == ErrorCategory::Configuration
                    && e.kind == ConfigErrorKind::UnsupportedProtocol
                    && e.message@ == unsupported_message(protocol@) && e.cause is None,
            },
    {
        let lower = lowercase(protocol);
        match Self::default_settings_for(lower.as_str()) {
            Some((port, tls)) => Ok(TransportConfig {
                protocol: protocol.to_owned(),
                host: "localhost".to_owned(),
                port,
                tls,
                username: None,
                password: None,
                additional_config: ConfigMap::new(),
            }),
            None => Err(Self::unsupported_protocol(protocol)),
        }
    }
    /// The transport kind of an already lowercased name.
    pub fn transport_kind_for(name: &str) -> (r: Option<TransportKind>)
        ensures
            r == transport_kind(name@),
    {
        if str_eq(name, "ws") || str_eq(name, "wss") || str_eq(name, "websocket") {
            Some(TransportKind::WebSocket)
        } else {
            None
        }
    }

    /// Builds the transport of the configuration's protocol, compared without
    /// regard to case; a protocol without a transport is an error.
    pub fn create_transport(config: TransportConfig) -> (r: AsyncApiResult<Transport>)
        ensures
            match transport_kind(lower_of(config.protocol@)) {
                Some(kind) => r matches Ok(t) && t.kind == kind && t.config == config,
                None => r matches Err(e) && e.category == ErrorCategory::Configuration
                    && e.kind == ConfigErrorKind::UnsupportedProtocol
                    && e.message@ == unsupported_message(config.protocol@) && e.cause is None,
            },
    {
        let lower = lowercase(config.protocol.as_str());
        match Self::transport_kind_for(lower.as_str()) {
            Some(kind) => Ok(Transport { kind, config }),
            None => Err(Self::unsupported_protocol(config.protocol.as_str())),
        }
    }

    /// Builds a transport for every named configuration. The first failure is
    /// returned and the transports built so far are dropped. The result keeps
    /// the entries' order, and entries that share a name each give a transport.
    pub fn create_transports(configs: Vec<(String, TransportConfig)>) -> (r: AsyncApiResult<Vec<(String, Transport)>>)
        ensures
            r is Ok <==> all_constructible(configs@),
            r matches Ok(v) ==> v@.len() == configs@.len() && forall|i: int| 0 <= i < v@.len() ==> {
                &&& #[trigger] v@[i].0 == configs@[i].0
                &&& v@[i].1.config == configs@[i].1
                &&& Some(v@[i].1.kind) == transport_kind(lower_of(configs@[i].1.protocol@))
            },
            r matches Err(e) ==> e.category == ErrorCategory::Configuration && e.cause is None
                && e.kind == ConfigErrorKind::UnsupportedProtocol && exists|i: int| 0 <= i < configs@.len()
                && (#[trigger] transport_kind(lower_of(configs@[i].1.protocol@))) is None
                && e.message@ == unsupported_message(configs@[i].1.protocol@),
    {
        let ghost all = configs@;
        let n = configs.len();
        let mut rest = configs;
        let mut built: Vec<(String, Transport)> = Vec::new();
        while rest.len() > 0
            invariant
                all == configs@,
                rest@.len() <= n == all.len(),
                rest@ == all.subrange(0, rest@.len() as int),
                built@.len() + rest@.len() == n,
                forall|j: int| 0 <= j < built@.len() ==> {
                    let k = n - 1 - j;
                    &&& #[trigger] built@[j].0 == all[k].0
                    &&& built@[j].1.config == all[k].1
                    &&& Some(built@[j].1.kind) == transport_kind(lower_of(all[k].1.protocol@))
                },
            decreases rest@.len(),
        {
            let (name, config) = rest.pop().unwrap();
            let ghost k = rest@.len() as int;
            assert(all[k] == (name, config));
            match Self::create_transport(config) {
                Ok(t) => built.push((name, t)),
                Err(e) => {
                    assert(transport_kind(lower_of(all[k].1.protocol@)) is None);
                    assert(e.message@ == unsupported_message(all[k].1.protocol@));
                    assert(0 <= k < all.len());
                    return Err(e);
                },
            }
        }
        let mut out: Vec<(String, Transport)> = Vec::new();
        let ghost rev = built@;
        while built.len() > 0
            invariant
                rev.len() == n,
                built@ == rev.subrange(0, built@.len() as int),
                out@.len() + built@.len() == n,
                forall|j: int| 0 <= j < out@.len() ==> #[trigger] out@[j] == rev[n - 1 - j],
            decreases built@.len(),
        {
            let entry = built.pop().unwrap();
            out.push(entry);
        }
        assert forall|i: int| 0 <= i < n implies {
            &&& #[trigger] out@[i].0 == all[i].0
            &&& out@[i].1.config == all[i].1
            &&& Some(out@[i].1.kind) == transport_kind(lower_of(all[i].1.protocol@))
        } by {
            let j = n - 1 - i;
            assert(rev[j] == out@[i]);
            assert(rev[j].0 == all[n - 1 - j].0);
        }
        assert forall|i: int| 0 <= i < n implies (#[trigger] transport_kind(lower_of(all[i].1.protocol@))) is Some by {
            assert(out@[i].0 == all[i].0);
        }
        Ok(out)
    }

    /// A configuration built from discrete fields. The server name is not used.
    /// TLS is on when the protocol ends with `s` or the option `tls` is `true`;
    /// the credentials come from the options `username` and `password`.
    pub fn config_from_server(
        _server_name: &str,
        protocol: &str,
        host: &str,
        port: u16,
        additional_config: ConfigMap,
    ) -> (r: TransportConfig)
        ensures
            r.protocol@ == protocol@,
            r.host@ == host@,
            r.port == port,
            r.tls == server_tls(protocol@, additional_config@),
            opt_view(r.username) == lookup(additional_config@, "username"@),
            opt_view(r.password) == lookup(additional_config@, "password"@),
            r.additional_config == additional_config,
    {
        let username = additional_config.get_cloned("username");
        let password = additional_config.get_cloned("password");
        let tls_option = match additional_config.get("tls") {
            Some(v) => str_eq(v.as_str(), "true"),
            None => false,
        };
        let tls = ends_with(protocol, 's') || tls_option;
        TransportConfig {
            protocol: protocol.to_owned(),
            host: host.to_owned(),
            port,
            tls,
            username,
            password,
            additional_config,
        }
    }

    /// Whether the configuration's port differs from its protocol's standard port
    /// with no `custom_port` option; such a configuration is valid but worth a warning.
    pub fn uses_nonstandard_port(config: &TransportConfig) -> (r: bool)
        ensures
            r == nonstandard_port(*config),
    {
        let lower = lowercase(config.protocol.as_str());
        let standard: u16 = if str_eq(lower.as_str(), "wss") || str_eq(lower.as_str(), "https") {
            443
        } else {
            80
        };
        config.port != standard && !config.additional_config.contains_key("custom_port")
    }

    /// Checks, in order, that the protocol is supported (without regard to case),
    /// that the host is not empty and that the port is not zero. A non-standard
    /// port is no error.
    pub fn validate_config(config: &TransportConfig) -> (r: AsyncApiResult<()>)
        ensures
            match validation_error(*config) {
                None => r is Ok,
                Some(kind) => r matches Err(e) && e.category == ErrorCategory::Configuration
                    && e.kind == kind && e.cause is None,
            },
            r matches Err(e) ==> (e.kind == ConfigErrorKind::UnsupportedProtocol
                ==> e.message@ == unsupported_message(config.protocol@)),
            r matches Err(e) ==> (e.kind == ConfigErrorKind::EmptyHost
                ==> e.message@ == "Host cannot be empty"@),
            r matches Err(e) ==> (e.kind == ConfigErrorKind::ZeroPort
                ==> e.message@ == "Port cannot be zero"@),
    {
        let lower = lowercase(config.protocol.as_str());
        if !Self::is_supported_name(lower.as_str()) {
            return Err(Self::unsupported_protocol(config.protocol.as_str()));
        }
        if config.host.as_str().is_empty() {
            return Err(AsyncApiError::configuration(ConfigErrorKind::EmptyHost, "Host cannot be empty".to_owned()));
        }
        if config.port == 0 {
            return Err(AsyncApiError::configuration(ConfigErrorKind::ZeroPort, "Port cannot be zero".to_owned()));
        }
        let name = lower.as_str();
        let ws = str_eq(name, "ws") || str_eq(name, "wss") || str_eq(name, "websocket");
        let http = str_eq(name, "http") || str_eq(name, "https");
        proof {
            lemma_supported_families(lower@);
        }
        if !ws && !http {
            return Err(AsyncApiError::configuration(
                ConfigErrorKind::UnknownProtocolForValidation,
                concat("Unknown protocol for validation: ", config.protocol.as_str()),
            ));
        }
        Ok(())
    }
}

} // verus!
