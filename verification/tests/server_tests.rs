use witty_jsonrpc::handler::mock_session;
use witty_jsonrpc::http::{HttpTransport, HttpTransportSettings};
use witty_jsonrpc::live_tcp::LiveTcpTransport;
use witty_jsonrpc::server::{
    MultipleTransportsServer, ServerError, SingleTransportServer, WittyMonoServer,
    WittyMultiServer,
};
use witty_jsonrpc::tcp::TcpTransportSettings;
use witty_jsonrpc::transports::{AnyTransport, TransportError};

fn echo_first_param(
    params: jsonrpc_core::Params,
) -> futures::future::Ready<Result<jsonrpc_core::Value, jsonrpc_core::Error>> {
    let value = match params {
        jsonrpc_core::Params::Array(mut items) => items.pop().unwrap_or(jsonrpc_core::Value::Null),
        _ => jsonrpc_core::Value::Null,
    };
    futures::future::ready(Ok(value))
}

fn live_transport(address: &str) -> AnyTransport {
    AnyTransport::LiveTcp(LiveTcpTransport::new(TcpTransportSettings {
        address: address.to_string(),
    }))
}

#[test]
fn describe_api_reflects_every_method_added() {
    let mut server = WittyMultiServer::new();
    assert_eq!(server.describe_api(), Vec::<String>::new());
    server.add_method("alpha", echo_first_param);
    server.add_method("beta", echo_first_param);
    assert_eq!(server.describe_api(), vec!["alpha".to_string(), "beta".to_string()]);
    // Re-registering an existing name replaces the handler, not the name list.
    server.add_method("alpha", echo_first_param);
    assert_eq!(server.describe_api(), vec!["alpha".to_string(), "beta".to_string()]);
}

#[test]
fn add_subscription_registers_subscribe_and_unsubscribe() {
    let mut server = WittyMultiServer::new();
    server.add_subscription(
        "tick",
        ("tick_subscribe", |_params: jsonrpc_core::Params,
                            _meta,
                            _subscriber: jsonrpc_pubsub::Subscriber| {}),
        ("tick_unsubscribe", |_id: jsonrpc_pubsub::SubscriptionId, _meta| {
            futures::future::ready(Ok(jsonrpc_core::Value::Bool(true)))
        }),
    );
    assert_eq!(
        server.describe_api(),
        vec!["tick_subscribe".to_string(), "tick_unsubscribe".to_string()]
    );
}

#[test]
fn handle_request_sync_dispatches_through_registry() {
    let mut server = WittyMultiServer::new();
    server.add_method("echo", echo_first_param);
    let response = server.handle_request_sync(
        "{\"jsonrpc\":\"2.0\",\"method\":\"echo\",\"params\":[\"x\"],\"id\":1}",
        None,
    );
    assert_eq!(
        response,
        Some("{\"jsonrpc\":\"2.0\",\"result\":\"x\",\"id\":1}".to_string())
    );
    let response = response.unwrap();
    assert!(response.contains("\"id\":1"));
    assert!(response.contains("\"result\":\"x\""));
}

#[test]
fn handle_request_sync_accepts_session_metadata() {
    let mut server = WittyMultiServer::new();
    server.add_method("echo", echo_first_param);
    let meta = mock_session();
    assert!(meta.is_some());
    let response = server.handle_request_sync(
        "{\"jsonrpc\":\"2.0\",\"method\":\"echo\",\"params\":[7],\"id\":2}",
        meta,
    );
    assert_eq!(
        response,
        Some("{\"jsonrpc\":\"2.0\",\"result\":7,\"id\":2}".to_string())
    );
}

#[test]
fn unknown_method_yields_method_not_found() {
    let server = WittyMultiServer::new();
    let response = server.handle_request_sync(
        "{\"jsonrpc\":\"2.0\",\"method\":\"missing\",\"id\":3}",
        None,
    );
    let response = response.expect("an error response is produced");
    assert!(response.contains("-32601"));
    assert!(response.contains("\"id\":3"));
}

#[test]
fn live_transport_sees_mutation_while_running() {
    let mut server = WittyMultiServer::new();
    server.add_transport(live_transport("127.0.0.1:9100"));
    server.start().expect("the live transport starts without binding a socket");
    let dispatcher = server.dispatcher();
    // Not registered yet: dispatch produces a method-not-found error.
    let before = dispatcher
        .dispatch("{\"jsonrpc\":\"2.0\",\"method\":\"echo\",\"params\":[\"x\"],\"id\":1}", None)
        .expect("an error response is produced");
    assert!(before.contains("-32601"));
    // Register while the transport is running: no reset is needed, the same
    // dispatcher resolves the method immediately.
    server.add_method("echo", echo_first_param);
    let after = dispatcher
        .dispatch("{\"jsonrpc\":\"2.0\",\"method\":\"echo\",\"params\":[\"x\"],\"id\":1}", None)
        .expect("a response is produced");
    assert_eq!(after, "{\"jsonrpc\":\"2.0\",\"result\":\"x\",\"id\":1}");
}

#[test]
fn server_start_and_stop_are_idempotent() {
    let mut server = WittyMultiServer::new();
    server.add_transport(live_transport("127.0.0.1:9100"));
    assert!(server.start().is_ok());
    assert!(server.start().is_ok());
    assert!(server.stop().is_ok());
    assert!(server.stop().is_ok());
}

#[test]
fn server_start_surfaces_address_error() {
    let mut server = WittyMultiServer::new();
    server.add_transport(live_transport("not-an-address"));
    match server.start() {
        Err(ServerError::Transport(TransportError::Address)) => {},
        other => panic!("expected an address error, got {:?}", other),
    }
}

#[test]
fn registration_while_stopped_is_visible_after_start() {
    let mut server = WittyMultiServer::new();
    server.add_method("early", echo_first_param);
    server.add_transport(live_transport("127.0.0.1:9100"));
    server.start().expect("start succeeds");
    server.add_method("late", echo_first_param);
    assert_eq!(server.describe_api(), vec!["early".to_string(), "late".to_string()]);
}

#[test]
fn single_transport_server_delegates() {
    let mut server: WittyMonoServer = SingleTransportServer::from_transport(live_transport(
        "127.0.0.1:9101",
    ));
    server.add_method("echo", echo_first_param);
    assert_eq!(server.describe_api(), vec!["echo".to_string()]);
    assert!(server.start().is_ok());
    let response = server.handle_request_sync(
        "{\"jsonrpc\":\"2.0\",\"method\":\"echo\",\"params\":[\"y\"],\"id\":4}",
        None,
    );
    assert_eq!(
        response,
        Some("{\"jsonrpc\":\"2.0\",\"result\":\"y\",\"id\":4}".to_string())
    );
    assert!(server.stop().is_ok());
}

#[test]
fn single_transport_server_new_has_no_transport() {
    let mut server: WittyMonoServer = SingleTransportServer::new();
    server.add_method("echo", echo_first_param);
    assert_eq!(server.describe_api(), vec!["echo".to_string()]);
    assert!(server.start().is_ok());
}

#[test]
fn multi_server_generic_over_concrete_transport() {
    let mut server: MultipleTransportsServer<LiveTcpTransport> = MultipleTransportsServer::new();
    server.add_transport(LiveTcpTransport::new(TcpTransportSettings {
        address: "127.0.0.1:9102".to_string(),
    }));
    server.add_transport(LiveTcpTransport::new(TcpTransportSettings {
        address: "127.0.0.1:9103".to_string(),
    }));
    assert!(server.start().is_ok());
    assert!(server.stop().is_ok());
}

#[test]
fn reset_all_transports_restarts_running_snapshot_transport() {
    let mut server = WittyMultiServer::new();
    server.add_transport(AnyTransport::Http(HttpTransport::new(HttpTransportSettings {
        address: "127.0.0.1:0".to_string(),
    })));
    server.start().expect("the HTTP listener binds an ephemeral port");
    assert!(server.reset_all_transports().is_ok());
    assert!(server.stop().is_ok());
}

#[test]
fn mutation_resets_snapshot_transport_and_leaves_live_one_alone() {
    let mut server = WittyMultiServer::new();
    server.add_transport(AnyTransport::Http(HttpTransport::new(HttpTransportSettings {
        address: "127.0.0.1:0".to_string(),
    })));
    server.add_transport(live_transport("127.0.0.1:9104"));
    server.start().expect("both transports start");
    let dispatcher = server.dispatcher();
    server.add_method("echo", echo_first_param);
    assert_eq!(server.describe_api(), vec!["echo".to_string()]);
    let response = dispatcher
        .dispatch("{\"jsonrpc\":\"2.0\",\"method\":\"echo\",\"params\":[true],\"id\":5}", None)
        .expect("a response is produced");
    assert_eq!(response, "{\"jsonrpc\":\"2.0\",\"result\":true,\"id\":5}");
    assert!(server.stop().is_ok());
}
