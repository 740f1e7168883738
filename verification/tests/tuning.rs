use monoio_tcp_proxy::config::{Args, Endpoint, Host, Tuning, DEFAULT_COPY_BUF};
use monoio_tcp_proxy::tuning::{
    after_get, after_set, apply_tuning, check_buffer, check_congestion, configure_relay,
    configure_socket, congestion_name, same_bytes, SocketOption, TcpInfo, TuningFault,
};
use nix::sys::socket::{socket, AddressFamily, SockFlag, SockType};

fn local() -> Endpoint {
    Endpoint { host: Host::V4([127, 0, 0, 1]), port: 50005 }
}

fn tcp_socket() -> i32 {
    socket(AddressFamily::Inet, SockType::Stream, SockFlag::empty(), None).unwrap()
}

fn close(fd: i32) {
    nix::unistd::close(fd).unwrap();
}

#[test]
fn default_copy_buffer_is_128_kib() {
    assert_eq!(DEFAULT_COPY_BUF, 131072);
    assert_eq!(DEFAULT_COPY_BUF, 128 * 1024);
}

#[test]
fn new_args_ask_for_nothing() {
    let args = Args::new(local(), Endpoint { host: Host::V6([0, 0, 0, 0, 0, 0, 0, 1]), port: 80 });
    assert_eq!(args.bind, local());
    assert_eq!(args.target.port, 80);
    assert_eq!(args.send_buf, None);
    assert_eq!(args.recv_buf, None);
    assert_eq!(args.congestion_controller, None);
    assert_eq!(args.copy_buf, 131072);
    assert!(args.tunings().is_empty());
}

#[test]
fn plan_keeps_the_order_send_receive_congestion() {
    let mut args = Args::new(local(), local());
    args.congestion_controller = Some("reno".to_string());
    args.recv_buf = Some(4096);
    args.send_buf = Some(8192);
    assert_eq!(
        args.tunings(),
        vec![
            Tuning::SendBuffer(8192),
            Tuning::ReceiveBuffer(4096),
            Tuning::Congestion("reno".to_string()),
        ]
    );
    args.send_buf = None;
    assert_eq!(
        args.tunings(),
        vec![Tuning::ReceiveBuffer(4096), Tuning::Congestion("reno".to_string())]
    );
    args.congestion_controller = None;
    assert_eq!(args.tunings(), vec![Tuning::ReceiveBuffer(4096)]);
}

#[test]
fn buffer_must_read_back_doubled() {
    assert_eq!(check_buffer(SocketOption::SendBuffer, 65536, 131072), Ok(()));
    assert_eq!(check_buffer(SocketOption::ReceiveBuffer, 0, 0), Ok(()));
    assert_eq!(
        check_buffer(SocketOption::SendBuffer, 65536, 65536),
        Err(TuningFault::BufferMismatch {
            option: SocketOption::SendBuffer,
            requested: 65536,
            reported: 65536,
        })
    );
    assert_eq!(
        check_buffer(SocketOption::ReceiveBuffer, 100, 201),
        Err(TuningFault::BufferMismatch {
            option: SocketOption::ReceiveBuffer,
            requested: 100,
            reported: 201,
        })
    );
    assert_eq!(
        check_buffer(SocketOption::ReceiveBuffer, 100, 199),
        Err(TuningFault::BufferMismatch {
            option: SocketOption::ReceiveBuffer,
            requested: 100,
            reported: 199,
        })
    );
}

#[test]
fn buffer_request_whose_double_does_not_fit_never_matches() {
    let huge = usize::MAX / 2 + 1;
    assert!(check_buffer(SocketOption::SendBuffer, huge, 0).is_err());
    assert!(check_buffer(SocketOption::SendBuffer, huge, usize::MAX).is_err());
    assert!(check_buffer(SocketOption::SendBuffer, usize::MAX / 2, usize::MAX - 1).is_ok());
}

#[test]
fn name_ends_at_the_first_zero_byte() {
    assert_eq!(congestion_name(b"cubic\0\0\0\0\0\0\0\0\0\0\0"), b"cubic");
    assert_eq!(congestion_name(b"bbr\0xyz\0"), b"bbr");
    assert_eq!(congestion_name(b"reno"), b"reno");
    assert_eq!(congestion_name(b"\0reno"), b"");
    assert_eq!(congestion_name(b""), b"");
}

#[test]
fn same_bytes_compares_length_and_content() {
    assert!(same_bytes(b"", b""));
    assert!(same_bytes(b"abc", b"abc"));
    assert!(!same_bytes(b"abc", b"abd"));
    assert!(!same_bytes(b"abc", b"ab"));
    assert!(!same_bytes(b"ab", b"abc"));
}

#[test]
fn congestion_name_must_read_back_exactly() {
    assert_eq!(check_congestion("cubic", b"cubic\0\0\0\0\0\0\0\0\0\0\0"), Ok(()));
    assert_eq!(check_congestion("cubic", b"cubic"), Ok(()));
    assert_eq!(
        check_congestion("cubic", b"reno\0\0\0\0\0\0\0\0\0\0\0\0"),
        Err(TuningFault::CongestionMismatch {
            requested: "cubic".to_string(),
            reported: b"reno".to_vec(),
        })
    );
    assert_eq!(
        check_congestion("cubic", b"cubi\0"),
        Err(TuningFault::CongestionMismatch {
            requested: "cubic".to_string(),
            reported: b"cubi".to_vec(),
        })
    );
    assert_eq!(
        check_congestion("cubic", b"Cubic\0"),
        Err(TuningFault::CongestionMismatch {
            requested: "cubic".to_string(),
            reported: b"Cubic".to_vec(),
        })
    );
    assert_eq!(
        check_congestion("bbr", b"\xff\xfe\0"),
        Err(TuningFault::CongestionMismatch {
            requested: "bbr".to_string(),
            reported: vec![0xff, 0xfe],
        })
    );
}

#[test]
fn report_takes_the_name_out_of_its_field() {
    assert_eq!(
        TcpInfo::assemble(131072, 262144, b"cubic\0\0\0\0\0\0\0\0\0\0\0"),
        Ok(TcpInfo {
            send_buf: 131072,
            recv_buf: 262144,
            congestion_controller: "cubic".to_string(),
        })
    );
    assert_eq!(
        TcpInfo::assemble(1, 2, "r\u{e9}no\0".as_bytes()),
        Ok(TcpInfo { send_buf: 1, recv_buf: 2, congestion_controller: "r\u{e9}no".to_string() })
    );
}

#[test]
fn report_refuses_a_name_that_is_not_text() {
    assert_eq!(
        TcpInfo::assemble(1, 2, b"bb\xff\0\0"),
        Err(TuningFault::NameNotText { reported: vec![b'b', b'b', 0xff] })
    );
    assert_eq!(
        TcpInfo::assemble(1, 2, b"\xc3\0"),
        Err(TuningFault::NameNotText { reported: vec![0xc3] })
    );
}

#[test]
fn configuring_nothing_succeeds_on_any_descriptor() {
    let args = Args::new(local(), local());
    assert_eq!(configure_socket(-1, &args), Ok(()));
}

#[test]
fn send_buffer_reads_back_doubled_on_a_socket() {
    let fd = tcp_socket();
    let mut args = Args::new(local(), local());
    args.send_buf = Some(65536);
    assert_eq!(configure_socket(fd, &args), Ok(()));
    let info = TcpInfo::from(fd).unwrap();
    assert_eq!(info.send_buf, 131072);
    close(fd);
}

#[test]
fn receive_buffer_reads_back_doubled_on_a_socket() {
    let fd = tcp_socket();
    let mut args = Args::new(local(), local());
    args.recv_buf = Some(32768);
    assert_eq!(configure_socket(fd, &args), Ok(()));
    let info = TcpInfo::from(fd).unwrap();
    assert_eq!(info.recv_buf, 65536);
    close(fd);
}

#[test]
fn congestion_control_reads_back_as_set_on_a_socket() {
    let fd = tcp_socket();
    let before = TcpInfo::from(fd).unwrap();
    assert!(!before.congestion_controller.is_empty());
    assert!(!before.congestion_controller.contains('\0'));
    let mut args = Args::new(local(), local());
    args.congestion_controller = Some("reno".to_string());
    assert_eq!(configure_socket(fd, &args), Ok(()));
    assert_eq!(TcpInfo::from(fd).unwrap().congestion_controller, "reno");
    close(fd);
}

#[test]
fn unknown_congestion_control_is_a_fault() {
    let fd = tcp_socket();
    let tuning = Tuning::Congestion("no-such-algo".to_string());
    match apply_tuning(fd, &tuning) {
        Err(TuningFault::SetFailed { option, errno }) => {
            assert_eq!(option, SocketOption::CongestionControl);
            assert_eq!(errno, nix::errno::Errno::ENOENT as i32);
        }
        other => panic!("unexpected: {:?}", other),
    }
    let mut args = Args::new(local(), local());
    args.send_buf = Some(16384);
    args.congestion_controller = Some("no-such-algo".to_string());
    assert!(matches!(
        configure_socket(fd, &args),
        Err(TuningFault::SetFailed { option: SocketOption::CongestionControl, .. })
    ));
    assert_eq!(TcpInfo::from(fd).unwrap().send_buf, 32768);
    close(fd);
}

#[test]
fn tuning_a_descriptor_that_is_no_socket_is_a_fault() {
    let mut args = Args::new(local(), local());
    args.recv_buf = Some(4096);
    assert_eq!(
        configure_socket(-1, &args),
        Err(TuningFault::SetFailed {
            option: SocketOption::ReceiveBuffer,
            errno: nix::errno::Errno::EBADF as i32,
        })
    );
    assert_eq!(
        TcpInfo::from(-1),
        Err(TuningFault::GetFailed {
            option: SocketOption::SendBuffer,
            errno: nix::errno::Errno::EBADF as i32,
        })
    );
}

#[test]
fn buffer_that_the_system_clamps_is_a_fault() {
    let fd = tcp_socket();
    let requested = 1usize << 30;
    match apply_tuning(fd, &Tuning::SendBuffer(requested)) {
        Err(TuningFault::BufferMismatch { option, requested: asked, reported }) => {
            assert_eq!(option, SocketOption::SendBuffer);
            assert_eq!(asked, requested);
            assert_ne!(reported, 2 * requested);
        }
        Ok(()) => {
            assert_eq!(TcpInfo::from(fd).unwrap().send_buf, 2 * requested);
        }
        other => panic!("unexpected: {:?}", other),
    }
    close(fd);
}

#[test]
fn both_ends_of_a_relay_are_tuned() {
    let inbound = tcp_socket();
    let outbound = tcp_socket();
    let mut args = Args::new(local(), local());
    args.send_buf = Some(20000);
    args.recv_buf = Some(30000);
    assert_eq!(configure_relay(inbound, outbound, &args), Ok(()));
    for fd in [inbound, outbound] {
        let info = TcpInfo::from(fd).unwrap();
        assert_eq!(info.send_buf, 40000);
        assert_eq!(info.recv_buf, 60000);
    }
    close(inbound);
    close(outbound);
}

#[test]
fn a_fault_at_the_inbound_end_leaves_the_outbound_end_alone() {
    let outbound = tcp_socket();
    let before = TcpInfo::from(outbound).unwrap();
    let mut args = Args::new(local(), local());
    args.send_buf = Some(20000);
    assert_eq!(
        configure_relay(-1, outbound, &args),
        Err(TuningFault::SetFailed {
            option: SocketOption::SendBuffer,
            errno: nix::errno::Errno::EBADF as i32,
        })
    );
    assert_eq!(TcpInfo::from(outbound).unwrap(), before);
    assert_eq!(configure_relay(7, 8, &Args::new(local(), local())), Ok(()));
    close(outbound);
}

#[test]
fn a_refused_set_is_a_fault_of_its_option() {
    assert_eq!(after_set(SocketOption::SendBuffer, Ok(())), Ok(()));
    assert_eq!(
        after_set(SocketOption::ReceiveBuffer, Err(9)),
        Err(TuningFault::SetFailed { option: SocketOption::ReceiveBuffer, errno: 9 })
    );
    assert_eq!(
        after_set(SocketOption::CongestionControl, Err(2)),
        Err(TuningFault::SetFailed { option: SocketOption::CongestionControl, errno: 2 })
    );
}

#[test]
fn a_refused_read_is_a_fault_of_its_option() {
    assert_eq!(after_get(SocketOption::SendBuffer, Ok(131072usize)), Ok(131072));
    assert_eq!(
        after_get(SocketOption::CongestionControl, Ok(b"bbr\0".to_vec())),
        Ok(b"bbr\0".to_vec())
    );
    assert_eq!(
        after_get::<usize>(SocketOption::SendBuffer, Err(88)),
        Err(TuningFault::GetFailed { option: SocketOption::SendBuffer, errno: 88 })
    );
    assert_eq!(
        after_get::<Vec<u8>>(SocketOption::CongestionControl, Err(9)),
        Err(TuningFault::GetFailed { option: SocketOption::CongestionControl, errno: 9 })
    );
}
