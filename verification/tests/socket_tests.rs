use sysmaster_core::records::{
    ExecCommand, KillMode, PortType, SectionSocket, SocketCommand, SocketReFrame, SocketResult,
    SocketState,
};
use sysmaster_core::reli::{ReliConf, Reliability};
use sysmaster_core::socketpid::SocketPid;
use sysmaster_core::socketre::SocketRe;

#[test]
fn test_socket_pid() {
    let mut pid = SocketPid::new();

    pid.set_control(5);
    assert_eq!(pid.control().unwrap(), 5);
}

#[test]
fn socket_pid_update_and_unwatch() {
    let mut pid = SocketPid::new();
    pid.update_control(Some(9));
    assert_eq!(pid.control(), Some(9));
    assert_eq!(pid.unwatch_control(), Some(9));
    assert_eq!(pid.control(), None);
    pid.update_control(None);
    assert_eq!(pid.control(), None);
}

fn sample_section() -> SectionSocket {
    SectionSocket {
        exec_start_pre: None,
        exec_start_chown: None,
        exec_start_post: None,
        exec_stop_pre: None,
        exec_stop_post: None,
        listen_stream: Some(vec![String::from("/run/test.sock")]),
        listen_datagram: None,
        listen_netlink: None,
        listen_sequential_packet: None,
        listen_fifo: None,
        listen_special: None,
        accept: false,
        flush_pending: false,
        service: Some(String::from("test.service")),
        receive_buffer: Some(4096),
        send_buffer: None,
        pass_credentials: Some(true),
        pass_packet_info: None,
        keep_alive: None,
        keep_alive_time_sec: None,
        keep_alive_interval_sec: None,
        keep_alive_probes: None,
        broadcast: None,
        remove_on_stop: false,
        symlinks: None,
        pass_security: None,
        socket_mode: 0o666,
        socket_user: String::new(),
        socket_group: String::new(),
        kill_mode: KillMode::KillNone,
        kill_signal: String::from("SIGTERM"),
    }
}

fn fresh_reli() -> Reliability {
    Reliability::new(&ReliConf::new(), String::from("/tmp/relihome"), false)
}

#[test]
fn socket_conf_roundtrip() {
    let mut reli = fresh_reli();
    let re = SocketRe::new(&mut reli);
    let section = sample_section();
    re.conf_insert(&mut reli.history, "test.socket", &section, Some(String::from("test.service")));
    let (got, service) = re.conf_get(&reli.history, "test.socket").unwrap();
    assert_eq!(got, section);
    assert_eq!(service, Some(String::from("test.service")));
    assert!(re.conf_get(&reli.history, "other.socket").is_none());
    re.conf_remove(&mut reli.history, "test.socket");
    assert!(re.conf_get(&reli.history, "test.socket").is_none());
}

#[test]
fn socket_mng_roundtrip() {
    let mut reli = fresh_reli();
    let re = SocketRe::new(&mut reli);
    let ports = vec![(PortType::Socket, String::from("/run/test.sock"), 7)];
    re.mng_insert(
        &mut reli.history,
        "test.socket",
        SocketState::Listening,
        SocketResult::Success,
        Some(1234),
        Some(SocketCommand::StartPost),
        2,
        0,
        ports,
    );
    let (state, result, pid, cmd, len, refused, got_ports) =
        re.mng_get(&reli.history, "test.socket").unwrap();
    assert_eq!(state, SocketState::Listening);
    assert_eq!(result, SocketResult::Success);
    assert_eq!(pid, Some(1234));
    assert_eq!(cmd, Some(SocketCommand::StartPost));
    assert_eq!(len, 2);
    assert_eq!(refused, 0);
    assert_eq!(got_ports, vec![(PortType::Socket, String::from("/run/test.sock"), 7)]);
    re.mng_remove(&mut reli.history, "test.socket");
    assert!(re.mng_get(&reli.history, "test.socket").is_none());
}

#[test]
fn socket_conf_keeps_exec_commands() {
    let mut reli = fresh_reli();
    let re = SocketRe::new(&mut reli);
    let mut section = sample_section();
    section.exec_start_pre = Some(vec![ExecCommand {
        path: String::from("/bin/true"),
        argv: vec![String::from("-q")],
    }]);
    re.conf_insert(&mut reli.history, "test.socket", &section, None);
    let (got, _) = re.conf_get(&reli.history, "test.socket").unwrap();
    assert_eq!(got, section);
    let cmds = got.exec_start_pre.unwrap();
    assert_eq!(cmds[0].path, "/bin/true");
    assert_eq!(cmds[0].argv, vec![String::from("-q")]);
}

#[test]
fn socket_frame_marker() {
    let mut reli = fresh_reli();
    let re = SocketRe::new(&mut reli);
    assert_eq!(re.last_frame(&reli.history), None);
    re.set_last_frame(&mut reli.history, SocketReFrame::FdListen(true));
    assert_eq!(re.last_frame(&reli.history), Some(SocketReFrame::FdListen(true)));
    re.clear_last_frame(&mut reli.history);
    assert_eq!(re.last_frame(&reli.history), None);
}
