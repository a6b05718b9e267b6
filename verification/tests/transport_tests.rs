use witty_jsonrpc::handler::RegistryHandle;
use witty_jsonrpc::http::{HttpTransport, HttpTransportSettings};
use witty_jsonrpc::live_tcp::LiveTcpTransport;
use witty_jsonrpc::tcp::{TcpTransport, TcpTransportSettings};
use witty_jsonrpc::transports::{Transport, TransportError};
use witty_jsonrpc::ws::{WsTransport, WsTransportSettings};

fn echo_first_param(
    params: jsonrpc_core::Params,
) -> futures::future::Ready<Result<jsonrpc_core::Value, jsonrpc_core::Error>> {
    let value = match params {
        jsonrpc_core::Params::Array(mut items) => items.pop().unwrap_or(jsonrpc_core::Value::Null),
        _ => jsonrpc_core::Value::Null,
    };
    futures::future::ready(Ok(value))
}

#[test]
fn requires_reset_is_constant_per_variant() {
    let http = HttpTransport::new(HttpTransportSettings { address: "127.0.0.1:0".to_string() });
    let tcp = TcpTransport::new(TcpTransportSettings { address: "127.0.0.1:0".to_string() });
    let ws = WsTransport::new(WsTransportSettings { address: "127.0.0.1:0".to_string() });
    let live = LiveTcpTransport::new(TcpTransportSettings { address: "127.0.0.1:0".to_string() });
    assert!(http.requires_reset());
    assert!(tcp.requires_reset());
    assert!(ws.requires_reset());
    assert!(!live.requires_reset());
}

#[test]
fn start_before_bind_fails_with_no_handler() {
    let mut http = HttpTransport::new(HttpTransportSettings { address: "127.0.0.1:0".to_string() });
    assert!(matches!(http.start(), Err(TransportError::NoHandler)));
    assert!(!http.running());
    let mut live = LiveTcpTransport::new(TcpTransportSettings { address: "127.0.0.1:0".to_string() });
    assert!(matches!(live.start(), Err(TransportError::NoHandler)));
    assert!(!live.running());
}

#[test]
fn bad_address_fails_with_address_error() {
    let registry = RegistryHandle::new();
    let mut http =
        HttpTransport::new(HttpTransportSettings { address: "not-an-address".to_string() });
    http.set_handler(&registry).unwrap();
    assert!(matches!(http.start(), Err(TransportError::Address)));
    assert!(!http.running());

    let mut live =
        LiveTcpTransport::new(TcpTransportSettings { address: "not-an-address".to_string() });
    live.set_handler(&registry).unwrap();
    assert!(matches!(live.start(), Err(TransportError::Address)));
    assert!(!live.running());
}

#[test]
fn live_transport_start_and_stop_are_idempotent() {
    let registry = RegistryHandle::new();
    let mut live = LiveTcpTransport::new(TcpTransportSettings {
        address: "127.0.0.1:9100".to_string(),
    });
    live.set_handler(&registry).unwrap();
    assert!(live.start().is_ok());
    assert!(live.running());
    assert!(live.start().is_ok());
    assert!(live.running());
    assert!(live.stop().is_ok());
    assert!(!live.running());
    assert!(live.stop().is_ok());
    assert!(!live.running());
}

#[test]
fn live_transport_hands_out_dispatcher_once_bound() {
    let mut registry = RegistryHandle::new();
    registry.add_method("echo", echo_first_param);
    let mut live = LiveTcpTransport::new(TcpTransportSettings {
        address: "127.0.0.1:9100".to_string(),
    });
    assert!(live.dispatch_handle().is_none());
    live.set_handler(&registry).unwrap();
    let dispatcher = live.dispatch_handle().expect("bound transport has a dispatcher");
    let response = dispatcher.dispatch(
        "{\"jsonrpc\":\"2.0\",\"method\":\"echo\",\"params\":[\"x\"],\"id\":1}",
        None,
    );
    assert_eq!(
        response,
        Some("{\"jsonrpc\":\"2.0\",\"result\":\"x\",\"id\":1}".to_string())
    );
}

#[test]
fn http_transport_reset_cycle_preserves_address() {
    let mut registry = RegistryHandle::new();
    registry.add_method("ping", |_params: jsonrpc_core::Params| {
        futures::future::ready(Ok(jsonrpc_core::Value::String("pong".to_string())))
    });
    let mut http = HttpTransport::new(HttpTransportSettings { address: "127.0.0.1:0".to_string() });
    http.set_handler(&registry).unwrap();
    assert!(http.start().is_ok());
    assert!(http.running());
    // The reset cycle a registry mutation triggers: stop, re-bind, restart.
    assert!(http.stop().is_ok());
    assert!(!http.running());
    registry.add_method("ping2", |_params: jsonrpc_core::Params| {
        futures::future::ready(Ok(jsonrpc_core::Value::String("pong".to_string())))
    });
    http.set_handler(&registry).unwrap();
    assert!(http.start().is_ok());
    assert!(http.running());
    assert!(http.stop().is_ok());
}

#[test]
fn http_transport_start_is_idempotent_while_running() {
    let registry = RegistryHandle::new();
    let mut http = HttpTransport::new(HttpTransportSettings { address: "127.0.0.1:0".to_string() });
    http.set_handler(&registry).unwrap();
    assert!(http.start().is_ok());
    assert!(http.running());
    assert!(http.start().is_ok());
    assert!(http.running());
    assert!(http.stop().is_ok());
    assert!(!http.running());
}

#[test]
fn tcp_transport_binds_and_restarts() {
    let registry = RegistryHandle::new();
    let mut tcp = TcpTransport::new(TcpTransportSettings { address: "127.0.0.1:0".to_string() });
    tcp.set_handler(&registry).unwrap();
    assert!(tcp.start().is_ok());
    assert!(tcp.running());
    assert!(tcp.stop().is_ok());
    assert!(!tcp.running());
    tcp.set_handler(&registry).unwrap();
    assert!(tcp.start().is_ok());
    assert!(tcp.running());
    assert!(tcp.stop().is_ok());
}

#[test]
fn ws_transport_binds_and_stops() {
    let registry = RegistryHandle::new();
    let mut ws = WsTransport::new(WsTransportSettings { address: "127.0.0.1:0".to_string() });
    ws.set_handler(&registry).unwrap();
    assert!(ws.start().is_ok());
    assert!(ws.running());
    assert!(ws.stop().is_ok());
    assert!(!ws.running());
}
