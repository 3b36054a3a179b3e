//! Laws relating the factory's operations, stated over their specifications.

use vstd::prelude::*;
use crate::config::{ConfigMap, TransportConfig};
use crate::factory::{
    all_constructible, default_settings, server_tls, supported_names, transport_kind,
    validation_error,
};
use crate::text::{ends_with_char, lower_of};

verus! {

/// The protocol names the factory knows of in any table.
pub open spec fn known_names() -> Set<Seq<char>> {
    set!["http"@, "https"@, "ws"@, "wss"@, "websocket"@]
}

/// A protocol whose lowercase form is none of the known names is not supported,
/// has no transport and has no default configuration; so `is_protocol_supported`
/// answers false and `create_transport` and `default_config` return an error.
pub proof fn unknown_protocol_rejected(protocol: Seq<char>)
    requires
        !known_names().contains(lower_of(protocol)),
    ensures
        !supported_names().contains(lower_of(protocol)),
        transport_kind(lower_of(protocol)) is None,
        default_settings(lower_of(protocol)) is None,
{
    let n = lower_of(protocol);
    if supported_names().contains(n) {
        let i = choose|i: int| 0 <= i < supported_names().len() && supported_names()[i] == n;
        assert(known_names().contains(supported_names()[i]));
    }
}

/// Support is decided on the lowercase form alone: two protocols that lowercase
/// alike are both supported or both not.
pub proof fn support_ignores_case(a: Seq<char>, b: Seq<char>)
    requires
        lower_of(a) == lower_of(b),
    ensures
        supported_names().contains(lower_of(a)) == supported_names().contains(lower_of(b)),
        transport_kind(lower_of(a)) == transport_kind(lower_of(b)),
        default_settings(lower_of(a)) == default_settings(lower_of(b)),
{
}

/// A configuration with an empty host fails validation, whatever its protocol and port.
pub proof fn empty_host_invalid(c: TransportConfig)
    requires
        c.host@.len() == 0,
    ensures
        validation_error(c) is Some,
{
}

/// A configuration with port zero fails validation, whatever its protocol and host.
pub proof fn zero_port_invalid(c: TransportConfig)
    requires
        c.port == 0,
    ensures
        validation_error(c) is Some,
{
}

/// Any nonzero port passes validation, standard or not, with or without a
/// `custom_port` option: a non-standard port is never an error.
pub proof fn nonzero_port_valid(c: TransportConfig, d: TransportConfig)
    requires
        validation_error(c) is None,
        d.protocol == c.protocol,
        d.host == c.host,
        d.port != 0,
    ensures
        validation_error(d) is None,
{
}

/// One entry whose protocol has no transport makes the whole batch fail: there
/// is no result holding the transports of the other entries.
pub proof fn one_bad_entry_fails_batch(configs: Seq<(String, TransportConfig)>, i: int)
    requires
        0 <= i < configs.len(),
        transport_kind(lower_of(configs[i].1.protocol@)) is None,
    ensures
        !all_constructible(configs),
{
}

/// A protocol name ending in `s` gives a TLS configuration even when the options
/// hold no `tls` key.
pub proof fn trailing_s_means_tls(protocol: Seq<char>, options: ConfigMap)
    requires
        ends_with_char(protocol, 's'),
    ensures
        server_tls(protocol, options@),
{
}

} // verus!
