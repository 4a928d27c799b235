//! Choice of the MQTT transport and its application to the connection
//! options.
use rumqttc::v5::MqttOptions;
use rumqttc::{TlsConfiguration, Transport};
use vstd::prelude::*;

verus! {

/// The connection options of the MQTT client. Nothing of them is visible
/// here but the transport they hold, under the name
/// [`configured_transport`].
#[verifier::external_type_specification]
#[verifier::external_body]
pub struct ExMqttOptions(MqttOptions);

/// The transport of one MQTT connection. `M` is the TLS material that the
/// two secure variants carry.
#[derive(Debug, Clone, PartialEq, Eq)]
pub enum TransportConfig<M> {
    /// MQTT over TCP.
    Plain,
    /// MQTT over TLS.
    Tls(M),
    /// MQTT over WebSocket.
    WebSocket,
    /// MQTT over WebSocket over TLS.
    WebSocketTls(M),
}

impl<M> TransportConfig<M> {
    /// Whether the transport is secured by TLS.
    pub open spec fn tls_enabled(self) -> bool {
        self is Tls || self is WebSocketTls
    }

    /// Whether MQTT is framed in WebSocket.
    pub open spec fn over_websocket(self) -> bool {
        self is WebSocket || self is WebSocketTls
    }

    /// The TLS material of a secure transport.
    pub open spec fn material(self) -> Option<M> {
        match self {
            TransportConfig::Tls(m) => Some(m),
            TransportConfig::WebSocketTls(m) => Some(m),
            _ => None,
        }
    }

    /// The line that tells an operator which transport was chosen.
    pub open spec fn description(self) -> Seq<char> {
        match self {
            TransportConfig::WebSocketTls(_) => "Transport: MQTT over WebSocket; TLS enabled"@,
            TransportConfig::Tls(_) => "Transport: standard MQTT; TLS enabled"@,
            TransportConfig::WebSocket => "Transport: MQTT over WebSocket; TLS disabled"@,
            TransportConfig::Plain => "Transport: standard MQTT; TLS disabled"@,
        }
    }

    /// Returns the line that tells an operator which transport was chosen.
    /// It is for a log only: nothing is decided by it.
    pub fn describe(&self) -> (line: &'static str)
        ensures
            line@ == self.description(),
    {
        match self {
            TransportConfig::WebSocketTls(_) => "Transport: MQTT over WebSocket; TLS enabled",
            TransportConfig::Tls(_) => "Transport: standard MQTT; TLS enabled",
            TransportConfig::WebSocket => "Transport: MQTT over WebSocket; TLS disabled",
            TransportConfig::Plain => "Transport: standard MQTT; TLS disabled",
        }
    }
}

/// The decision table of the transport: TLS material makes the transport
/// secure, the flag frames it in WebSocket, and the material is carried
/// unchanged.
pub open spec fn selected<M>(tls: Option<M>, use_websocket: bool) -> TransportConfig<M> {
    match (tls, use_websocket) {
        (Some(m), true) => TransportConfig::WebSocketTls(m),
        (Some(m), false) => TransportConfig::Tls(m),
        (None, true) => TransportConfig::WebSocket,
        (None, false) => TransportConfig::Plain,
    }
}

/// Picks the transport for the TLS material, if any, and the WebSocket
/// flag. It cannot fail.
pub fn select<M>(tls: Option<M>, use_websocket: bool) -> (config: TransportConfig<M>)
    ensures
        config == selected(tls, use_websocket),
{
    match tls {
        Some(material) => {
            if use_websocket {
                TransportConfig::WebSocketTls(material)
            } else {
                TransportConfig::Tls(material)
            }
        },
        None => {
            if use_websocket {
                TransportConfig::WebSocket
            } else {
                TransportConfig::Plain
            }
        },
    }
}

/// The four transports are told apart by their two properties alone, and
/// every pair of properties is the transport of exactly one row of the
/// table.
pub proof fn selection_is_exhaustive<M>(tls: Option<M>, use_websocket: bool)
    ensures
        selected(tls, use_websocket).tls_enabled() == tls.is_some(),
        selected(tls, use_websocket).over_websocket() == use_websocket,
        selected(tls, use_websocket).material() == tls,
        forall|other: TransportConfig<M>|
            other.tls_enabled() == tls.is_some() && other.over_websocket() == use_websocket
                && other.material() == tls ==> other == selected(tls, use_websocket),
{
}

/// The transport that connection options hold: what
/// `MqttOptions::transport` returns, variant for variant.
pub uninterp spec fn configured_transport(options: MqttOptions) -> TransportConfig<TlsConfiguration>;

/// Calls `MqttOptions::set_transport` with the rumqttc transport of the same
/// variant and the same TLS configuration. The call stores that transport
/// in the options, which is all the contract claims.
#[verifier::external_body]
fn set_transport(options: &mut MqttOptions, config: TransportConfig<TlsConfiguration>)
    ensures
        configured_transport(*final(options)) == config,
{
    let transport = match config {
        TransportConfig::Plain => Transport::Tcp,
        TransportConfig::Tls(tls) => Transport::Tls(tls),
        TransportConfig::WebSocket => Transport::Ws,
        TransportConfig::WebSocketTls(tls) => Transport::Wss(tls),
    };
    options.set_transport(transport);
}

/// Selects the transport and stores it in the connection options. Returns
/// the line to log for it.
pub fn configure_transport(
    tls_configuration: Option<TlsConfiguration>,
    use_websocket: bool,
    mqtt_options: &mut MqttOptions,
) -> (line: &'static str)
    ensures
        configured_transport(*final(mqtt_options)) == selected(tls_configuration, use_websocket),
        line@ == selected(tls_configuration, use_websocket).description(),
{
    let config = select(tls_configuration, use_websocket);
    let line = config.describe();
    set_transport(mqtt_options, config);
    line
}

} // verus!
