use monoio_tcp_proxy::copy::{CopyError, CopyLoop, CopyRequest, CopyStep, IoOutcome};
use monoio_tcp_proxy::relay::{relay_name, Direction, RelayTask, Side};

/// A byte pipe in memory with a bounded number of bytes in flight.
struct Pipe {
    bytes: Vec<u8>,
    read_at: usize,
    closed: bool,
}

impl Pipe {
    fn new() -> Pipe {
        Pipe { bytes: Vec::new(), read_at: 0, closed: false }
    }

    fn pending(&self) -> usize {
        self.bytes.len() - self.read_at
    }

    fn read(&mut self, buf: &mut Vec<u8>, capacity: usize, piece: usize) -> Option<usize> {
        let n = self.pending().min(capacity).min(piece);
        if n == 0 && !self.closed {
            return None;
        }
        buf.clear();
        buf.extend_from_slice(&self.bytes[self.read_at..self.read_at + n]);
        self.read_at += n;
        Some(n)
    }

    fn write(&mut self, bytes: &[u8], piece: usize) -> usize {
        let n = bytes.len().min(piece);
        self.bytes.extend_from_slice(&bytes[..n]);
        n
    }
}

/// One direction of a relay over two pipes, stepped one operation at a time.
struct Half {
    state: Option<CopyLoop>,
    buf: Vec<u8>,
    result: Option<Result<u64, CopyError<i32>>>,
    read_piece: usize,
    write_piece: usize,
}

impl Half {
    fn new(buf_size: usize, read_piece: usize, write_piece: usize) -> Half {
        Half {
            state: Some(CopyLoop::new(buf_size)),
            buf: Vec::with_capacity(buf_size),
            result: None,
            read_piece,
            write_piece,
        }
    }

    /// Performs one operation, if the loop is running and the source has
    /// something to say. Returns whether an operation was performed.
    fn step(&mut self, from: &mut Pipe, to: &mut Pipe) -> bool {
        let state = match self.state.take() {
            Some(state) => state,
            None => return false,
        };
        let outcome = match state.request() {
            CopyRequest::Read { capacity } => {
                match from.read(&mut self.buf, capacity, self.read_piece) {
                    Some(n) => IoOutcome::Done(n),
                    None => {
                        self.state = Some(state);
                        return false;
                    }
                }
            }
            CopyRequest::Write { start, end } => {
                IoOutcome::Done(to.write(&self.buf[start..end], self.write_piece))
            }
        };
        assert!(state.accepts(&outcome));
        match state.advance(outcome) {
            CopyStep::Continue(next) => self.state = Some(next),
            CopyStep::Finished(result) => {
                to.closed = true;
                self.result = Some(result);
            }
        }
        true
    }
}

fn pseudo_random(len: usize, seed: u64) -> Vec<u8> {
    let mut x = seed;
    let mut out = Vec::with_capacity(len);
    for _ in 0..len {
        x ^= x << 13;
        x ^= x >> 7;
        x ^= x << 17;
        out.push((x >> 24) as u8);
    }
    out
}

/// A client, the proxy and an echoing server in memory: the client's bytes
/// go through one direction of the relay to the server, which sends them
/// back through the other direction. Returns what the client received and
/// how the two directions ended.
fn echo_through_relay(
    payload: &[u8],
    buf_size: usize,
) -> (Vec<u8>, RelayTask<i32>) {
    let mut client_to_proxy = Pipe::new();
    let mut proxy_to_server = Pipe::new();
    let mut server_to_proxy = Pipe::new();
    let mut proxy_to_client = Pipe::new();
    let mut forward = Half::new(buf_size, 1500, 1000);
    let mut backward = Half::new(buf_size, 900, 1300);
    let mut task = RelayTask::new(relay_name("127.0.0.1:40000", "127.0.0.1:50005"));
    let mut sent = 0;
    let mut echoed = 0;
    loop {
        let mut progress = false;
        if sent < payload.len() {
            let n = (payload.len() - sent).min(4096);
            client_to_proxy.bytes.extend_from_slice(&payload[sent..sent + n]);
            sent += n;
            progress = true;
            if sent == payload.len() {
                client_to_proxy.closed = true;
            }
        } else if !client_to_proxy.closed {
            client_to_proxy.closed = true;
            progress = true;
        }
        progress |= forward.step(&mut client_to_proxy, &mut proxy_to_server);
        if proxy_to_server.bytes.len() > echoed {
            server_to_proxy.bytes.extend_from_slice(&proxy_to_server.bytes[echoed..]);
            echoed = proxy_to_server.bytes.len();
            progress = true;
        }
        if proxy_to_server.closed && !server_to_proxy.closed {
            server_to_proxy.closed = true;
            progress = true;
        }
        progress |= backward.step(&mut server_to_proxy, &mut proxy_to_client);
        if let Some(result) = forward.result.take() {
            assert!(task.is_running(Direction::InboundToOutbound));
            task = task.finish(Direction::InboundToOutbound, result);
        }
        if let Some(result) = backward.result.take() {
            assert!(task.is_running(Direction::OutboundToInbound));
            task = task.finish(Direction::OutboundToInbound, result);
        }
        if task.is_complete() {
            break;
        }
        assert!(progress, "the relay is stuck");
    }
    (proxy_to_client.bytes, task)
}

#[test]
fn relay_name_joins_the_two_peers() {
    assert_eq!(
        relay_name("10.0.0.1:51234", "1.2.3.4:80"),
        "10.0.0.1:51234 <-> 1.2.3.4:80"
    );
    assert_eq!(relay_name("", ""), " <-> ");
    assert_eq!(relay_name("[::1]:9", "[fe80::1]:443"), "[::1]:9 <-> [fe80::1]:443");
}

#[test]
fn directions_read_and_write_opposite_sides() {
    assert_eq!(Direction::InboundToOutbound.source(), Side::Inbound);
    assert_eq!(Direction::InboundToOutbound.sink(), Side::Outbound);
    assert_eq!(Direction::OutboundToInbound.source(), Side::Outbound);
    assert_eq!(Direction::OutboundToInbound.sink(), Side::Inbound);
    assert_eq!(Direction::InboundToOutbound.reverse(), Direction::OutboundToInbound);
    assert_eq!(Direction::OutboundToInbound.reverse(), Direction::InboundToOutbound);
}

#[test]
fn relay_is_over_only_when_both_directions_are() {
    let task: RelayTask<i32> = RelayTask::new("a <-> b".to_string());
    assert_eq!(task.name, "a <-> b");
    assert!(!task.is_complete());
    assert!(task.is_running(Direction::InboundToOutbound));
    assert!(task.is_running(Direction::OutboundToInbound));
    let task = task.finish(Direction::OutboundToInbound, Err(CopyError::WriteZero));
    assert!(!task.is_complete());
    assert!(task.is_running(Direction::InboundToOutbound));
    assert!(!task.is_running(Direction::OutboundToInbound));
    assert_eq!(task.outbound_to_inbound, Some(Err(CopyError::WriteZero)));
    assert_eq!(task.inbound_to_outbound, None);
    let task = task.finish(Direction::InboundToOutbound, Ok(12));
    assert!(task.is_complete());
    assert_eq!(task.inbound_to_outbound, Some(Ok(12)));
    assert_eq!(task.outbound_to_inbound, Some(Err(CopyError::WriteZero)));
    assert_eq!(task.name, "a <-> b");
}

#[test]
fn one_direction_drains_after_the_other_has_ended() {
    let mut inbound = Pipe::new();
    let mut outbound = Pipe::new();
    let mut to_client = Pipe::new();
    let mut to_server = Pipe::new();
    let mut forward = Half::new(64, 64, 64);
    let mut backward = Half::new(64, 10, 10);
    inbound.closed = true;
    outbound.bytes = pseudo_random(500, 3);
    outbound.closed = true;
    assert!(forward.step(&mut inbound, &mut to_server));
    assert_eq!(forward.result, Some(Ok(0)));
    while backward.step(&mut outbound, &mut to_client) {}
    assert_eq!(backward.result, Some(Ok(500)));
    assert_eq!(to_client.bytes, pseudo_random(500, 3));
    assert!(to_server.bytes.is_empty());
}

#[test]
fn small_payloads_come_back_unchanged() {
    for len in [0usize, 1, 2, 63, 64, 65, 4096, 10_000] {
        let payload = pseudo_random(len, 0x9e37_79b9_7f4a_7c15);
        let (received, task) = echo_through_relay(&payload, 64);
        assert_eq!(received, payload);
        assert_eq!(task.inbound_to_outbound, Some(Ok(len as u64)));
        assert_eq!(task.outbound_to_inbound, Some(Ok(len as u64)));
    }
}

#[test]
fn a_million_bytes_come_back_unchanged() {
    let payload = pseudo_random(1_000_000, 0x0123_4567_89ab_cdef);
    let (received, task) = echo_through_relay(&payload, 131072);
    assert_eq!(received.len(), 1_000_000);
    assert!(received == payload);
    assert_eq!(task.name, "127.0.0.1:40000 <-> 127.0.0.1:50005");
    assert_eq!(task.inbound_to_outbound, Some(Ok(1_000_000)));
    assert_eq!(task.outbound_to_inbound, Some(Ok(1_000_000)));
}

#[test]
fn two_connections_do_not_mix() {
    let len = 50_000;
    let all_a = vec![b'A'; len];
    let all_b = vec![b'B'; len];
    let mut in_a = Pipe::new();
    let mut in_b = Pipe::new();
    let mut out_a = Pipe::new();
    let mut out_b = Pipe::new();
    in_a.bytes = all_a.clone();
    in_a.closed = true;
    in_b.bytes = all_b.clone();
    in_b.closed = true;
    let mut relay_a = Half::new(4096, 1000, 700);
    let mut relay_b = Half::new(4096, 1300, 450);
    let mut turn = 0usize;
    while relay_a.result.is_none() || relay_b.result.is_none() {
        if turn % 3 != 0 {
            relay_a.step(&mut in_a, &mut out_a);
        }
        if turn % 2 == 0 {
            relay_b.step(&mut in_b, &mut out_b);
        }
        turn += 1;
        assert!(turn < 1_000_000, "the relays are stuck");
    }
    assert_eq!(relay_a.result, Some(Ok(len as u64)));
    assert_eq!(relay_b.result, Some(Ok(len as u64)));
    assert!(out_a.bytes == all_a);
    assert!(out_b.bytes == all_b);
}
