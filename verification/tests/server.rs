use bytes::Bytes;
use bytes::BytesMut;
use kyoto_server::protocol::Command;
use kyoto_server::protocol::ErrorType;
use kyoto_server::protocol::FlowResult;
use kyoto_server::protocol::FlowType;
use kyoto_server::protocol::Response;
use kyoto_server::protocol::RetFlowType;
use kyoto_server::protocol::ServerError;
use kyoto_server::server_state::server_config::ServerConfig;
use kyoto_server::Server;
use std::sync::Arc;
use std::sync::Mutex;

fn assert_shareable<T: Send + Sync>() {}

fn payload(result: FlowResult) -> Bytes {
    match result {
        Ok(RetFlowType::ReturnResponse { response: Response::Valid { message } }) => message,
        other => panic!("no valid response was returned: {:?}", other),
    }
}

fn get(server: &mut Server, key: &str) -> Bytes {
    payload(server.execute_command(Command::Get { key: key.to_string() }))
}

fn set(server: &mut Server, key: &str, value: &'static str) -> Bytes {
    payload(server.execute_command(Command::SetValue { key: key.to_string(), value: Bytes::from(value) }))
}

#[test]
fn set_then_get_then_missing() {
    let mut server = Server::new();
    assert_eq!(&set(&mut server, "a", "hello")[..], b"Ok.");
    assert_eq!(&get(&mut server, "a")[..], b"hello");
    assert_eq!(&get(&mut server, "missing")[..], b"Key not found.");
}

#[test]
fn get_of_unset_key_is_a_valid_response() {
    let mut server = Server::new();
    let result = server.execute_command(Command::Get { key: "nothing here".to_string() });
    match result {
        Ok(RetFlowType::ReturnResponse { response: Response::Valid { message } }) => {
            assert_eq!(&message[..], b"Key not found.");
        }
        other => panic!("absence is no failure: {:?}", other),
    }
}

#[test]
fn set_is_acknowledged() {
    let mut server = Server::new();
    let result = server.execute_command(Command::SetValue { key: "k".to_string(), value: Bytes::from("v") });
    match result {
        Ok(RetFlowType::ReturnResponse { response: Response::Valid { message } }) => {
            assert_eq!(&message[..], b"Ok.");
        }
        other => panic!("a write is acknowledged: {:?}", other),
    }
}

#[test]
fn overwrite_through_commands() {
    let mut server = Server::new();
    assert_eq!(&set(&mut server, "k", "v1")[..], b"Ok.");
    assert_eq!(&set(&mut server, "k", "v2")[..], b"Ok.");
    assert_eq!(&get(&mut server, "k")[..], b"v2");
}

#[test]
fn stored_not_found_text_is_still_a_value() {
    let mut server = Server::new();
    assert_eq!(&set(&mut server, "k", "Key not found.")[..], b"Ok.");
    assert_eq!(&get(&mut server, "k")[..], b"Key not found.");
}

#[test]
fn info_of_default_server() {
    let mut server = Server::new();
    let info = payload(server.execute_command(Command::Info {}));
    assert_eq!(&info[..], b"port: 9736");
}

#[test]
fn info_holds_the_configured_port() {
    for port in [0u32, 1, 80, 6379, 65535, 4294967295] {
        let mut server = Server::with_config(ServerConfig { port });
        let info = payload(server.execute_command(Command::Info {}));
        assert_eq!(&info[..], format!("port: {}", port).as_bytes());
    }
}

#[test]
fn info_is_the_same_each_time() {
    let mut server = Server::new();
    let first = payload(server.execute_command(Command::Info {}));
    assert_eq!(&set(&mut server, "a", "hello")[..], b"Ok.");
    let second = payload(server.execute_command(Command::Info {}));
    assert_eq!(first, second);
}

#[test]
fn execute_flow_is_executed() {
    let mut server = Server::new();
    let stored = server.handle_flow(FlowType::ExecuteCommand {
        command: Command::SetValue { key: "a".to_string(), value: Bytes::from("hello") },
    });
    assert_eq!(&payload(stored)[..], b"Ok.");
    let found = server.handle_flow(FlowType::ExecuteCommand { command: Command::Get { key: "a".to_string() } });
    assert_eq!(&payload(found)[..], b"hello");
    let info = server.handle_flow(FlowType::ExecuteCommand { command: Command::Info {} });
    assert_eq!(&payload(info)[..], b"port: 9736");
}

#[test]
fn other_flow_is_invalid() {
    let mut server = Server::new();
    let result = server.handle_flow(FlowType::HandleSocketBuffer { buffer: BytesMut::from("GET a") });
    match result {
        Err(error) => {
            assert_eq!(error, ServerError::InvalidFlow);
            assert_eq!(error.message(), "Invalid flow.");
        }
        Ok(flow) => panic!("the flow was not refused: {:?}", flow),
    }
}

#[test]
fn invalid_flow_changes_nothing() {
    let mut server = Server::new();
    assert_eq!(&set(&mut server, "a", "hello")[..], b"Ok.");
    assert!(server.handle_flow(FlowType::HandleSocketBuffer { buffer: BytesMut::new() }).is_err());
    assert_eq!(&get(&mut server, "a")[..], b"hello");
}

#[test]
fn handles_on_one_locked_server_share_its_state() {
    let first = Arc::new(Mutex::new(Server::new()));
    let second = Arc::clone(&first);
    assert_eq!(&set(&mut first.lock().expect("lock"), "a", "one")[..], b"Ok.");
    assert_eq!(&get(&mut second.lock().expect("lock"), "a")[..], b"one");
    assert_eq!(&set(&mut second.lock().expect("lock"), "a", "two")[..], b"Ok.");
    assert_eq!(&get(&mut first.lock().expect("lock"), "a")[..], b"two");
    drop(first);
    assert_eq!(&get(&mut second.lock().expect("lock"), "a")[..], b"two");
}

#[test]
fn servers_do_not_share_state() {
    let mut first = Server::new();
    let mut second = Server::new();
    assert_eq!(&set(&mut first, "a", "one")[..], b"Ok.");
    assert_eq!(&get(&mut second, "a")[..], b"Key not found.");
}

#[test]
fn interleaved_handles_lose_no_update() {
    let server = Arc::new(Mutex::new(Server::new()));
    let handles: Vec<Arc<Mutex<Server>>> = (0..8).map(|_| Arc::clone(&server)).collect();
    for round in 0..25u32 {
        for (n, handle) in handles.iter().enumerate() {
            let key = format!("key-{}-{}", n, round);
            let value = format!("value-{}-{}", n, round);
            let stored = handle.lock().expect("lock").execute_command(Command::SetValue { key, value: Bytes::from(value) });
            assert_eq!(&payload(stored)[..], b"Ok.");
        }
    }
    for round in 0..25u32 {
        for n in 0..8usize {
            let key = format!("key-{}-{}", n, round);
            let value = format!("value-{}-{}", n, round);
            assert_eq!(&get(&mut server.lock().expect("lock"), &key)[..], value.as_bytes());
        }
    }
}

#[test]
fn state_is_open_to_its_owner() {
    let mut server = Server::new();
    assert_eq!(server.server_config.port, 9736);
    server.server_config.port = 1234;
    assert!(server.db.set("a", Bytes::from("direct")).is_ok());
    assert_eq!(&get(&mut server, "a")[..], b"direct");
    let info = payload(server.execute_command(Command::Info {}));
    assert_eq!(&info[..], b"port: 1234");
}

#[test]
fn empty_stored_value_comes_back() {
    let mut server = Server::new();
    let stored = server.execute_command(Command::SetValue { key: "e".to_string(), value: Bytes::new() });
    assert_eq!(&payload(stored)[..], b"Ok.");
    assert_eq!(get(&mut server, "e").len(), 0);
}

#[test]
fn other_commands_leave_stored_values_alone() {
    let mut server = Server::new();
    assert_eq!(&set(&mut server, "a", "hello")[..], b"Ok.");
    assert_eq!(&get(&mut server, "b")[..], b"Key not found.");
    assert_eq!(&set(&mut server, "b", "other")[..], b"Ok.");
    let _ = payload(server.execute_command(Command::Info {}));
    assert!(server.handle_flow(FlowType::HandleSocketBuffer { buffer: BytesMut::new() }).is_err());
    assert_eq!(&get(&mut server, "a")[..], b"hello");
    assert_eq!(&get(&mut server, "b")[..], b"other");
}

#[test]
fn server_can_be_handed_to_other_threads() {
    assert_shareable::<Server>();
}

#[test]
fn reply_to_get_wraps_what_was_found() {
    let flow = Server::reply_to_get(Some(Bytes::from("hello")));
    assert_eq!(&payload(Ok(flow))[..], b"hello");
    let flow = Server::reply_to_get(Some(Bytes::new()));
    assert_eq!(payload(Ok(flow)).len(), 0);
    let flow = Server::reply_to_get(None);
    assert_eq!(&payload(Ok(flow))[..], b"Key not found.");
}

#[test]
fn reply_to_set_acknowledges_success() {
    assert_eq!(&payload(Server::reply_to_set(Ok(())))[..], b"Ok.");
}

#[test]
fn reply_to_set_hands_a_storage_failure_on() {
    match Server::reply_to_set(Err(ServerError::StorageFailure)) {
        Err(error) => {
            assert_eq!(error, ServerError::StorageFailure);
            assert_eq!(error.message(), "Storage failure.");
        }
        Ok(flow) => panic!("the failure was swallowed: {:?}", flow),
    }
}

#[test]
fn error_types_are_told_apart() {
    assert_ne!(ErrorType::InvalidSyntax, ErrorType::NonExistentKey);
    assert_ne!(ServerError::InvalidFlow, ServerError::StorageFailure);
}
