use kvstore::protocol::{Command, ParseError, Field, Response, Status};
use kvstore::session::{
    answer_at, execute_at, handle_line, handle_line_at, ReadOutcome, Session, State, WriteOutcome,
};
use kvstore::store::Store;

fn text(s: &str) -> String {
    s.to_string()
}

fn command(name: &str, key: &str, value: Option<&str>, ttl: Option<i64>) -> Command {
    Command { command: text(name), key: text(key), value: value.map(text), ttl }
}

#[test]
fn execute_set_then_get() {
    let mut store = Store::new();
    let set = execute_at(&mut store, command("set", "k", Some("v"), None), 100);
    assert_eq!(set, Response::ok());
    let get = execute_at(&mut store, command("get", "k", None, None), 100);
    assert_eq!(get, Response::with_value(text("v")));
}

#[test]
fn execute_set_with_ttl() {
    let mut store = Store::new();
    execute_at(&mut store, command("set", "k", Some("v"), Some(1)), 100);
    assert_eq!(
        execute_at(&mut store, command("get", "k", None, None), 100),
        Response::with_value(text("v"))
    );
    assert_eq!(
        execute_at(&mut store, command("get", "k", None, None), 101),
        Response::with_value(text("v"))
    );
    assert_eq!(
        execute_at(&mut store, command("get", "k", None, None), 102),
        Response::with_value(text(""))
    );
    assert!(store.contains_key("k"));
}

#[test]
fn execute_set_without_value_is_an_error() {
    let mut store = Store::new();
    store.set_at(text("k"), text("before"), None, 0);
    let response = execute_at(&mut store, command("set", "k", None, Some(5)), 100);
    assert_eq!(response, Response::error(text("'set' command requires 'value' field")));
    assert_eq!(store.get_at("k", 100_000), Some(text("before")));
    assert_eq!(store.len(), 1);
}

#[test]
fn execute_get_of_missing_key() {
    let mut store = Store::new();
    let response = execute_at(&mut store, command("get", "missing", None, None), 100);
    assert_eq!(response, Response { status: Status::Okay, message: None, value: Some(text("")) });
    assert_eq!(store.len(), 0);
}

#[test]
fn execute_get_ignores_value_and_ttl() {
    let mut store = Store::new();
    store.set_at(text("k"), text("v"), None, 0);
    let response = execute_at(&mut store, command("get", "k", Some("x"), Some(1)), 100);
    assert_eq!(response, Response::with_value(text("v")));
    assert_eq!(store.get_at("k", 100_000), Some(text("v")));
}

#[test]
fn execute_unknown_command() {
    let mut store = Store::new();
    store.set_at(text("k"), text("v"), None, 0);
    for name in ["delete", "", "SET", "Get", "set "] {
        let response = execute_at(&mut store, command(name, "k", Some("w"), None), 100);
        assert_eq!(response, Response::error(text("unknown command")));
    }
    assert_eq!(store.get_at("k", 100), Some(text("v")));
    assert_eq!(store.len(), 1);
}

#[test]
fn answer_a_parse_error() {
    let mut store = Store::new();
    let response = answer_at(&mut store, Err(ParseError::Missing(Field::Key)), 100);
    assert_eq!(response, Response::error(text("missing field `key`")));
    let malformed = answer_at(&mut store, Err(ParseError::Malformed(text("broken"))), 100);
    assert_eq!(malformed, Response::error(text("broken")));
    assert_eq!(store.len(), 0);
}

#[test]
fn answer_a_command() {
    let mut store = Store::new();
    let response = answer_at(&mut store, Ok(command("set", "k", Some("v"), None)), 100);
    assert_eq!(response, Response::ok());
    assert_eq!(store.get_at("k", 100), Some(text("v")));
}

#[test]
fn round_trip_over_lines() {
    let mut store = Store::new();
    let set = handle_line_at(&mut store, "{\"command\":\"set\",\"key\":\"k\",\"value\":\"v\"}\n", 100);
    assert_eq!(set, "{\"status\":\"ok\"}\n");
    let get = handle_line_at(&mut store, "{\"command\":\"get\",\"key\":\"k\"}\n", 100);
    assert_eq!(get, "{\"status\":\"ok\",\"value\":\"v\"}\n");
}

#[test]
fn ttl_expiry_over_lines() {
    let mut store = Store::new();
    let set = handle_line_at(
        &mut store,
        "{\"command\":\"set\",\"key\":\"k\",\"value\":\"v\",\"ttl\":1}\n",
        1_000,
    );
    assert_eq!(set, "{\"status\":\"ok\"}\n");
    let get = "{\"command\":\"get\",\"key\":\"k\"}\n";
    assert_eq!(handle_line_at(&mut store, get, 1_000), "{\"status\":\"ok\",\"value\":\"v\"}\n");
    assert_eq!(handle_line_at(&mut store, get, 1_001), "{\"status\":\"ok\",\"value\":\"v\"}\n");
    assert_eq!(handle_line_at(&mut store, get, 1_002), "{\"status\":\"ok\",\"value\":\"\"}\n");
}

#[test]
fn no_ttl_persists_over_lines() {
    let mut store = Store::new();
    handle_line_at(&mut store, "{\"command\":\"set\",\"key\":\"k\",\"value\":\"v\"}\n", 1_000);
    let get = "{\"command\":\"get\",\"key\":\"k\"}\n";
    for now in [0, 1_000, 1_000_000, i64::MAX] {
        assert_eq!(handle_line_at(&mut store, get, now), "{\"status\":\"ok\",\"value\":\"v\"}\n");
    }
}

#[test]
fn missing_value_on_set_over_lines() {
    let mut store = Store::new();
    handle_line_at(&mut store, "{\"command\":\"set\",\"key\":\"k\",\"value\":\"prior\"}\n", 100);
    let reply = handle_line_at(&mut store, "{\"command\":\"set\",\"key\":\"k\"}\n", 100);
    assert_eq!(
        reply,
        "{\"message\":\"'set' command requires 'value' field\",\"status\":\"error\"}\n"
    );
    let get = handle_line_at(&mut store, "{\"command\":\"get\",\"key\":\"k\"}\n", 100);
    assert_eq!(get, "{\"status\":\"ok\",\"value\":\"prior\"}\n");
}

#[test]
fn not_found_get_over_lines() {
    let mut store = Store::new();
    let reply = handle_line_at(&mut store, "{\"command\":\"get\",\"key\":\"missing\"}\n", 100);
    assert_eq!(reply, "{\"status\":\"ok\",\"value\":\"\"}\n");
}

#[test]
fn malformed_input_over_lines() {
    let mut store = Store::new();
    let reply = handle_line_at(&mut store, "not json at all\n", 100);
    let value: serde_json::Value = serde_json::from_str(&reply).unwrap();
    assert_eq!(value.get("status").and_then(|v| v.as_str()), Some("error"));
    let message = value.get("message").and_then(|v| v.as_str()).unwrap();
    assert!(!message.is_empty());
    assert_eq!(message, "expected ident at line 1 column 2");
    assert!(value.get("value").is_none());
    assert!(reply.ends_with('\n'));
    assert_eq!(reply.matches('\n').count(), 1);

    let set = handle_line_at(&mut store, "{\"command\":\"set\",\"key\":\"k\",\"value\":\"v\"}\n", 100);
    assert_eq!(set, "{\"status\":\"ok\"}\n");
}

#[test]
fn shape_mismatch_over_lines() {
    let mut store = Store::new();
    let reply = handle_line_at(&mut store, "{\"command\":\"get\"}\n", 100);
    assert_eq!(reply, "{\"message\":\"missing field `key`\",\"status\":\"error\"}\n");
    let reply = handle_line_at(&mut store, "{\"command\":\"set\",\"key\":\"k\",\"value\":1}\n", 100);
    assert_eq!(reply, "{\"message\":\"invalid type for field `value`\",\"status\":\"error\"}\n");
    assert_eq!(store.len(), 0);
}

#[test]
fn unknown_command_over_lines() {
    let mut store = Store::new();
    let reply = handle_line_at(&mut store, "{\"command\":\"drop\",\"key\":\"k\"}\n", 100);
    assert_eq!(reply, "{\"message\":\"unknown command\",\"status\":\"error\"}\n");
}

#[test]
fn reply_is_one_line_whatever_the_value() {
    let mut store = Store::new();
    handle_line_at(
        &mut store,
        "{\"command\":\"set\",\"key\":\"k\",\"value\":\"two\\nlines\"}\n",
        100,
    );
    assert_eq!(store.get_at("k", 100), Some(text("two\nlines")));
    let reply = handle_line_at(&mut store, "{\"command\":\"get\",\"key\":\"k\"}\n", 100);
    assert_eq!(reply, "{\"status\":\"ok\",\"value\":\"two\\nlines\"}\n");
    assert_eq!(reply.matches('\n').count(), 1);
}

#[test]
fn handle_line_with_the_clock() {
    let mut store = Store::new();
    let set = handle_line(
        &mut store,
        "{\"command\":\"set\",\"key\":\"k\",\"value\":\"v\",\"ttl\":3600}\n",
    );
    assert_eq!(set, "{\"status\":\"ok\"}\n");
    let get = handle_line(&mut store, "{\"command\":\"get\",\"key\":\"k\"}\n");
    assert_eq!(get, "{\"status\":\"ok\",\"value\":\"v\"}\n");
    handle_line(&mut store, "{\"command\":\"set\",\"key\":\"old\",\"value\":\"v\",\"ttl\":-3600}\n");
    let gone = handle_line(&mut store, "{\"command\":\"get\",\"key\":\"old\"}\n");
    assert_eq!(gone, "{\"status\":\"ok\",\"value\":\"\"}\n");
}

#[test]
fn session_starts_reading() {
    let session = Session::new();
    assert_eq!(session.state(), State::Reading);
    assert!(!session.is_closed());
    assert_eq!(session.outgoing(), "");
}

#[test]
fn session_handles_requests_in_turn() {
    let mut store = Store::new();
    let mut session = Session::new();

    session.on_read(ReadOutcome::Line(text("{\"command\":\"set\",\"key\":\"k\",\"value\":\"v\"}\n")));
    assert_eq!(session.state(), State::Dispatching);
    session.dispatch_at(&mut store, 100);
    assert_eq!(session.state(), State::Responding);
    assert_eq!(session.outgoing(), "{\"status\":\"ok\"}\n");
    session.on_write(WriteOutcome::Written);
    assert_eq!(session.state(), State::Reading);
    assert_eq!(session.outgoing(), "");

    session.on_read(ReadOutcome::Line(text("{\"command\":\"get\",\"key\":\"k\"}\n")));
    session.dispatch_at(&mut store, 100);
    assert_eq!(session.outgoing(), "{\"status\":\"ok\",\"value\":\"v\"}\n");
    session.on_write(WriteOutcome::Written);
    assert_eq!(session.state(), State::Reading);
}

#[test]
fn sessions_share_the_store() {
    let mut store = Store::new();
    let mut writer = Session::new();
    let mut reader = Session::new();

    writer.on_read(ReadOutcome::Line(text("{\"command\":\"set\",\"key\":\"k\",\"value\":\"v\"}\n")));
    writer.dispatch_at(&mut store, 100);
    writer.on_write(WriteOutcome::Written);

    reader.on_read(ReadOutcome::Line(text("{\"command\":\"get\",\"key\":\"k\"}\n")));
    reader.dispatch_at(&mut store, 100);
    assert_eq!(reader.outgoing(), "{\"status\":\"ok\",\"value\":\"v\"}\n");
}

#[test]
fn session_survives_malformed_input() {
    let mut store = Store::new();
    let mut session = Session::new();

    session.on_read(ReadOutcome::Line(text("garbage\n")));
    assert_eq!(session.state(), State::Dispatching);
    session.dispatch_at(&mut store, 100);
    assert_eq!(session.state(), State::Responding);
    let value: serde_json::Value = serde_json::from_str(session.outgoing()).unwrap();
    assert_eq!(value.get("status").and_then(|v| v.as_str()), Some("error"));
    assert!(!value.get("message").and_then(|v| v.as_str()).unwrap().is_empty());
    session.on_write(WriteOutcome::Written);
    assert_eq!(session.state(), State::Reading);

    session.on_read(ReadOutcome::Line(text("{\"command\":\"set\",\"key\":\"k\",\"value\":\"v\"}\n")));
    session.dispatch_at(&mut store, 100);
    assert_eq!(session.outgoing(), "{\"status\":\"ok\"}\n");
    session.on_write(WriteOutcome::Written);
    assert_eq!(session.state(), State::Reading);
    assert_eq!(store.get_at("k", 100), Some(text("v")));
}

#[test]
fn session_closes_at_end_of_stream() {
    let mut session = Session::new();
    session.on_read(ReadOutcome::EndOfStream);
    assert_eq!(session.state(), State::Closed);
    assert!(session.is_closed());
}

#[test]
fn session_closes_on_a_read_of_zero_length() {
    let mut session = Session::new();
    session.on_read(ReadOutcome::Line(text("")));
    assert_eq!(session.state(), State::Closed);
}

#[test]
fn session_closes_on_read_failure() {
    let mut session = Session::new();
    session.on_read(ReadOutcome::Failed);
    assert_eq!(session.state(), State::Closed);
}

#[test]
fn session_closes_on_write_failure() {
    let mut store = Store::new();
    let mut session = Session::new();
    session.on_read(ReadOutcome::Line(text("{\"command\":\"set\",\"key\":\"k\",\"value\":\"v\"}\n")));
    session.dispatch_at(&mut store, 100);
    session.on_write(WriteOutcome::Failed);
    assert_eq!(session.state(), State::Closed);
    assert_eq!(session.outgoing(), "");
    assert_eq!(store.get_at("k", 100), Some(text("v")));
}

#[test]
fn closed_session_ignores_everything() {
    let mut store = Store::new();
    let mut session = Session::new();
    session.on_read(ReadOutcome::EndOfStream);
    session.on_read(ReadOutcome::Line(text("{\"command\":\"set\",\"key\":\"k\",\"value\":\"v\"}\n")));
    assert_eq!(session.state(), State::Closed);
    session.dispatch_at(&mut store, 100);
    assert_eq!(session.state(), State::Closed);
    session.on_write(WriteOutcome::Written);
    assert_eq!(session.state(), State::Closed);
    assert_eq!(store.len(), 0);
}

#[test]
fn reports_out_of_turn_are_ignored() {
    let mut store = Store::new();
    let mut session = Session::new();
    session.on_write(WriteOutcome::Failed);
    assert_eq!(session.state(), State::Reading);
    session.dispatch_at(&mut store, 100);
    assert_eq!(session.state(), State::Reading);

    session.on_read(ReadOutcome::Line(text("{\"command\":\"get\",\"key\":\"k\"}\n")));
    session.on_read(ReadOutcome::EndOfStream);
    assert_eq!(session.state(), State::Dispatching);
    session.on_write(WriteOutcome::Written);
    assert_eq!(session.state(), State::Dispatching);

    session.dispatch_at(&mut store, 100);
    let reply = text(session.outgoing());
    session.dispatch_at(&mut store, 100);
    session.on_read(ReadOutcome::Failed);
    assert_eq!(session.state(), State::Responding);
    assert_eq!(session.outgoing(), reply);
}

#[test]
fn session_dispatch_with_the_clock() {
    let mut store = Store::new();
    let mut session = Session::new();
    session.on_read(ReadOutcome::Line(text(
        "{\"command\":\"set\",\"key\":\"k\",\"value\":\"v\",\"ttl\":3600}\n",
    )));
    session.dispatch(&mut store);
    assert_eq!(session.outgoing(), "{\"status\":\"ok\"}\n");
    session.on_write(WriteOutcome::Written);
    session.on_read(ReadOutcome::Line(text("{\"command\":\"get\",\"key\":\"k\"}\n")));
    session.dispatch(&mut store);
    assert_eq!(session.outgoing(), "{\"status\":\"ok\",\"value\":\"v\"}\n");
}

#[test]
fn interleaved_sessions_lose_no_write() {
    let mut store = Store::new();
    let count = 16;
    let mut sessions: Vec<Session> = Vec::new();
    for _ in 0..count {
        sessions.push(Session::new());
    }
    for (i, session) in sessions.iter_mut().enumerate() {
        session.on_read(ReadOutcome::Line(format!(
            "{{\"command\":\"set\",\"key\":\"key{}\",\"value\":\"value{}\"}}\n",
            i, i
        )));
    }
    let mut order: Vec<usize> = (0..count).collect();
    order.reverse();
    order.rotate_left(5);
    order.swap(1, 9);
    for &i in &order {
        sessions[i].dispatch_at(&mut store, 100 + i as i64);
    }
    for session in sessions.iter_mut() {
        assert_eq!(session.outgoing(), "{\"status\":\"ok\"}\n");
        session.on_write(WriteOutcome::Written);
        assert_eq!(session.state(), State::Reading);
    }
    assert_eq!(store.len(), count);
    for (i, session) in sessions.iter_mut().enumerate() {
        let other = (i + 7) % count;
        session.on_read(ReadOutcome::Line(format!(
            "{{\"command\":\"get\",\"key\":\"key{}\"}}\n",
            other
        )));
        session.dispatch_at(&mut store, 1_000);
        assert_eq!(
            session.outgoing(),
            format!("{{\"status\":\"ok\",\"value\":\"value{}\"}}\n", other)
        );
    }
}
