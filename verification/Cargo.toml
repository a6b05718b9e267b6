[package]
name = "witty_jsonrpc"
version = "0.1.0"
edition = "2021"
publish = false

[dependencies]
jsonrpc-core = "18"
jsonrpc-pubsub = "18"
jsonrpc-http-server = "18"
jsonrpc-tcp-server = "18"
jsonrpc-ws-server = "18"
futures = "0.3"
actix = "0.13"
