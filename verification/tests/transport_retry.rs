use wiz_lights_rs::Error;
use wiz_lights_rs::Ipv4;
use wiz_lights_rs::Light;
use wiz_lights_rs::MessageHistory;
use wiz_lights_rs::transport::CommandPort;
use wiz_lights_rs::transport::send_with_retries;

/// A scripted endpoint: one entry per attempt, consumed in order.
struct ScriptedPort {
    replies: Vec<Result<Vec<u8>, Error>>,
    exchanges: Vec<String>,
    pauses: Vec<u64>,
    clock: u64,
}

impl ScriptedPort {
    fn new(replies: Vec<Result<Vec<u8>, Error>>) -> Self {
        ScriptedPort { replies, exchanges: Vec::new(), pauses: Vec::new(), clock: 0 }
    }
}

impl CommandPort for ScriptedPort {
    fn exchange(
        &mut self,
        _ip: Ipv4,
        port: u16,
        message: &str,
        timeout_ms: u64,
    ) -> Result<Vec<u8>, Error> {
        assert_eq!(port, 38899);
        assert_eq!(timeout_ms, 1000);
        self.exchanges.push(message.to_string());
        if self.replies.is_empty() {
            Err(Error::Socket { action: "receive".to_string(), detail: "timed out".to_string() })
        } else {
            self.replies.remove(0)
        }
    }

    fn pause_ms(&mut self, delay_ms: u64) {
        self.pauses.push(delay_ms);
    }

    fn now_ms(&mut self) -> u64 {
        self.clock += 1;
        self.clock
    }
}

fn timeout_error() -> Error {
    Error::Socket { action: "receive".to_string(), detail: "timed out".to_string() }
}

#[test]
fn silent_endpoint_gets_four_attempts_and_full_backoff() {
    let mut port = ScriptedPort::new(vec![]);
    let mut history = MessageHistory::new();
    let (outcome, _, _) = send_with_retries(
        &mut port,
        &mut history,
        Ipv4::new(10, 0, 0, 1),
        "{\"method\":\"getPilot\"}",
    );

    assert!(matches!(outcome, Err(Error::Socket { .. })));
    assert_eq!(port.exchanges.len(), 4);
    assert_eq!(port.pauses, vec![750, 1500, 3000]);
    assert_eq!(port.pauses.iter().sum::<u64>(), 5250);
    assert!(history.last_error().is_some());
}

#[test]
fn third_attempt_reply_ends_the_retries() {
    let mut port = ScriptedPort::new(vec![
        Err(timeout_error()),
        Err(timeout_error()),
        Ok(b"{\"result\":{\"success\":true}}".to_vec()),
    ]);
    let mut history = MessageHistory::new();
    let (outcome, _, _) = send_with_retries(
        &mut port,
        &mut history,
        Ipv4::new(10, 0, 0, 1),
        "{\"method\":\"getPilot\"}",
    );

    assert_eq!(outcome.unwrap(), "{\"result\":{\"success\":true}}");
    assert_eq!(port.exchanges.len(), 3);
    assert_eq!(port.pauses, vec![750, 1500]);
}

#[test]
fn undecodable_replies_count_as_failed_attempts() {
    let mut port = ScriptedPort::new(vec![
        Ok(b"not json".to_vec()),
        Ok(vec![0xff, 0xfe]),
        Ok(b"{\"ok\":1}".to_vec()),
    ]);
    let mut history = MessageHistory::new();
    let (outcome, _, _) = send_with_retries(
        &mut port,
        &mut history,
        Ipv4::new(10, 0, 0, 1),
        "{\"method\":\"getPilot\"}",
    );

    assert_eq!(outcome.unwrap(), "{\"ok\":1}");
    assert_eq!(port.exchanges.len(), 3);
    assert_eq!(port.pauses, vec![750, 1500]);
}

#[test]
fn exhausted_attempts_surface_the_last_error() {
    let mut port = ScriptedPort::new(vec![
        Err(timeout_error()),
        Err(timeout_error()),
        Err(timeout_error()),
        Ok(b"still not json".to_vec()),
    ]);
    let mut history = MessageHistory::new();
    let (outcome, _, _) = send_with_retries(
        &mut port,
        &mut history,
        Ipv4::new(10, 0, 0, 1),
        "{\"method\":\"getPilot\"}",
    );

    assert!(matches!(outcome, Err(Error::JsonLoad { .. })));
    assert_eq!(port.exchanges.len(), 4);
    assert_eq!(port.pauses, vec![750, 1500, 3000]);
}

#[test]
fn first_reply_means_no_backoff() {
    let mut port = ScriptedPort::new(vec![Ok(b"{}".to_vec())]);
    let mut history = MessageHistory::new();
    let (outcome, _, _) = send_with_retries(
        &mut port,
        &mut history,
        Ipv4::new(10, 0, 0, 1),
        "{\"method\":\"getPilot\"}",
    );
    assert_eq!(outcome.unwrap(), "{}");
    assert_eq!(port.exchanges.len(), 1);
    assert!(port.pauses.is_empty());
    assert!(history.last_error().is_none());
}

#[test]
fn replies_that_are_not_text_surface_a_decode_error() {
    let mut port = ScriptedPort::new(vec![
        Ok(vec![0xff, 0xfe]),
        Ok(vec![0xff, 0xfe]),
        Ok(vec![0xff, 0xfe]),
        Ok(vec![0xff, 0xfe]),
    ]);
    let mut history = MessageHistory::new();
    let (outcome, _, _) = send_with_retries(
        &mut port,
        &mut history,
        Ipv4::new(10, 0, 0, 1),
        "{\"method\":\"getPilot\"}",
    );
    assert!(matches!(outcome, Err(Error::Utf8Decode { .. })));
    assert_eq!(port.exchanges.len(), 4);
}

#[test]
fn light_send_command_records_history() {
    let mut port = ScriptedPort::new(vec![Ok(b"{\"method\":\"getPilot\",\"result\":{}}".to_vec())]);
    let mut light = Light::new(Ipv4::new(10, 0, 0, 7), Some("desk"));
    let (outcome, _, _) = light.send_command(&mut port, "{\"method\":\"getPilot\"}");
    assert!(outcome.is_ok());
    let summary = light.history().summary();
    assert_eq!(summary.send_count, 1);
    assert_eq!(summary.receive_count, 1);
    assert_eq!(port.exchanges, vec!["{\"method\":\"getPilot\"}".to_string()]);
}
