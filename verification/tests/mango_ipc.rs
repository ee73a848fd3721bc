use hyprcrop_platform::domain::error::{AppError, VarError};
use hyprcrop_platform::platform::system::mango_ipc::{
    check_reply, invalid_response, ipc_json, ipc_start, ipc_step, parse_response, refusal,
    socket_path, IpcAction, IpcNext, IpcPhase, IpcState,
};
use serde_json::Value;
use std::io::{Error, ErrorKind};

fn object(members: Vec<(&str, Value)>) -> Value {
    let mut map = serde_json::Map::new();
    for (key, value) in members {
        map.insert(key.to_owned(), value);
    }
    Value::Object(map)
}

fn broken(text: &'static str) -> Result<Vec<u8>, Error> {
    Err(Error::new(ErrorKind::Other, text))
}

fn state_after(state: IpcState, outcome: Result<Vec<u8>, Error>) -> IpcState {
    match ipc_step(state, "get version", outcome) {
        IpcNext::Continue(after) => after,
        IpcNext::Finished(result) => panic!("ended with {result:?}"),
    }
}

#[test]
fn an_unset_or_empty_variable_names_no_socket() {
    for var in [None, Some(Vec::new())] {
        assert!(matches!(
            socket_path(var),
            Err(AppError::CompositorEnvVar("MANGO_INSTANCE_SIGNATURE", VarError::NotPresent))
        ));
    }
    assert_eq!(socket_path(Some(b"/run/mango".to_vec())).unwrap(), b"/run/mango".to_vec());
    assert_eq!(socket_path(Some(vec![0xff])).unwrap(), vec![0xff]);
}

#[test]
fn an_exchange_connects_sends_and_receives() {
    let state = ipc_start();
    assert_eq!(state.action("get version"), IpcAction::Connect(5));
    let state = state_after(state, Ok(Vec::new()));
    assert_eq!(state.action("get version"), IpcAction::Send("get version\n".to_owned()));
    let state = state_after(state, Ok(Vec::new()));
    assert_eq!(state.action("get version"), IpcAction::Receive);
    match ipc_step(state, "get version", Ok(b"{}".to_vec())) {
        IpcNext::Finished(Ok(reply)) => assert_eq!(reply, b"{}".to_vec()),
        other => panic!("unexpected {other:?}"),
    }
}

#[test]
fn a_failed_attempt_is_repeated_after_a_pause() {
    let state = state_after(ipc_start(), broken("refused"));
    assert_eq!(state, IpcState { retries_left: 1, phase: IpcPhase::Pausing });
    assert_eq!(state.action("get version"), IpcAction::Pause(100));
    let state = state_after(state, Ok(Vec::new()));
    assert_eq!(state.action("get version"), IpcAction::Connect(5));
    let state = state_after(state, Ok(Vec::new()));
    let state = state_after(state, broken("pipe"));
    assert_eq!(state, IpcState { retries_left: 0, phase: IpcPhase::Pausing });
    let state = state_after(state, Ok(Vec::new()));
    let state = state_after(state, Ok(Vec::new()));
    let state = state_after(state, Ok(Vec::new()));
    match ipc_step(state, "get version", Ok(vec![1, 2])) {
        IpcNext::Finished(Ok(reply)) => assert_eq!(reply, vec![1, 2]),
        other => panic!("unexpected {other:?}"),
    }
}

#[test]
fn the_last_failure_is_reported() {
    let stages = ["connecting to socket", "writing to socket", "reading from socket"];
    for (done, stage) in stages.iter().enumerate() {
        let mut state = ipc_start();
        for _ in 0..2 {
            state = state_after(state, broken("early"));
            state = state_after(state, Ok(Vec::new()));
        }
        for _ in 0..done {
            state = state_after(state, Ok(Vec::new()));
        }
        match ipc_step(state, "get version", broken("late")) {
            IpcNext::Finished(Err(AppError::CompositorIpc(text, error))) => {
                assert_eq!(text, format!("mango: get version: {stage}"));
                assert_eq!(error.to_string(), "late");
            }
            other => panic!("unexpected {other:?}"),
        }
    }
}

#[test]
fn an_exchange_ends_after_eleven_actions() {
    let mut state = ipc_start();
    let mut actions = 0;
    loop {
        actions += 1;
        let outcome = if state.phase == IpcPhase::Receiving { broken("x") } else { Ok(Vec::new()) };
        match ipc_step(state, "get version", outcome) {
            IpcNext::Continue(after) => state = after,
            IpcNext::Finished(result) => {
                assert!(result.is_err());
                break;
            }
        }
    }
    assert_eq!(actions, 11);
}

#[test]
fn a_json_reply_is_parsed() {
    let reply = ipc_json("get version", Ok(b"{\"version\": \"1\"}".to_vec())).unwrap();
    assert_eq!(reply, object(vec![("version", Value::from("1"))]));
}

#[test]
fn a_reply_that_is_no_json_is_refused() {
    match ipc_json("get version", Ok(b"{oops".to_vec())) {
        Err(AppError::JsonParse(text, error)) => {
            assert_eq!(text, "mango get version");
            assert!(error.is_syntax());
        }
        other => panic!("unexpected {other:?}"),
    }
}

#[test]
fn a_reported_error_is_handed_on() {
    match ipc_json("get version", Ok(b"{\"error\": \"no such thing\"}".to_vec())) {
        Err(AppError::CompositorProtocol(text)) => assert_eq!(text, "get version: no such thing"),
        other => panic!("unexpected {other:?}"),
    }
}

#[test]
fn a_failed_exchange_is_handed_on() {
    let failed = AppError::CompositorIpc("mango: x".to_owned(), Error::new(ErrorKind::Other, "y"));
    assert!(matches!(
        ipc_json("get version", Err(failed)),
        Err(AppError::CompositorIpc(text, _)) if text == "mango: x"
    ));
}

#[test]
fn only_a_text_under_error_is_an_error() {
    for reply in [
        object(vec![("error", Value::from(7))]),
        object(vec![("error", Value::Null)]),
        object(vec![("message", Value::from("error"))]),
        Value::from("error"),
        Value::Array(vec![Value::from("error")]),
    ] {
        assert_eq!(check_reply("get version", reply.clone()).unwrap(), reply);
    }
}

#[test]
fn a_reply_of_the_wrong_shape_is_reported() {
    let read = |value| serde_json::from_value::<u32>(value).map_err(|error| error.to_string());
    match parse_response("get version", read(Value::from("seven"))) {
        Err(AppError::CompositorProtocol(text)) => assert_eq!(
            text,
            "invalid response for get version: invalid type: string \"seven\", expected u32"
        ),
        other => panic!("unexpected {other:?}"),
    }
    assert_eq!(parse_response("get version", read(Value::from(7))).unwrap(), 7);
}

#[test]
fn errors_of_replies_name_their_request() {
    assert!(matches!(
        refusal("get x", "no"),
        AppError::CompositorProtocol(text) if text == "get x: no"
    ));
    assert!(matches!(
        invalid_response("get x", "odd"),
        AppError::CompositorProtocol(text) if text == "invalid response for get x: odd"
    ));
}
