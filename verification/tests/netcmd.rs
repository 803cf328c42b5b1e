use canvas_layout::netcmd::{
    decide, parse_command, process, NetAction, NetCmdDispatch, NetCommand, DEFAULT_PORT,
    UDP_TEST_SIZE,
};

#[test]
fn net_constants() {
    assert_eq!(DEFAULT_PORT, 6502);
    assert_eq!(UDP_TEST_SIZE, 64);
}

#[test]
fn dispatch_numbers() {
    assert_eq!(NetCmdDispatch::UdpTest1.to_usize(), Some(0));
    assert_eq!(NetCmdDispatch::UdpTest2.to_usize(), Some(1));
    assert_eq!(NetCmdDispatch::from_usize(0), Some(NetCmdDispatch::UdpTest1));
    assert_eq!(NetCmdDispatch::from_usize(1), Some(NetCmdDispatch::UdpTest2));
    assert_eq!(NetCmdDispatch::from_usize(2), None);
    assert_eq!(NetCmdDispatch::from_usize(usize::MAX), None);
}

#[test]
fn commands_by_their_first_word() {
    assert_eq!(parse_command("udp"), NetCommand::Udp { port: 6502 });
    assert_eq!(parse_command("udpclose"), NetCommand::UdpClose);
    assert_eq!(parse_command("udpclone"), NetCommand::UdpClone);
    assert_eq!(parse_command("udpcloneclose"), NetCommand::UdpCloneClose);
    assert_eq!(parse_command("udpclose now"), NetCommand::UdpClose);
    assert_eq!(parse_command("udpclone 80"), NetCommand::UdpClone);
}

#[test]
fn anything_else_asks_for_help() {
    for line in ["", " ", " udp", "help", "ud", "udpx", "UDP", "udpclos", "udpclonex", "udp\t80", "üdp", "udp\u{a0}80"] {
        assert_eq!(parse_command(line), NetCommand::Help, "{:?}", line);
    }
}

#[test]
fn udp_with_a_port() {
    assert_eq!(parse_command("udp 80"), NetCommand::Udp { port: 80 });
    assert_eq!(parse_command("udp 0"), NetCommand::Udp { port: 0 });
    assert_eq!(parse_command("udp 65535"), NetCommand::Udp { port: 65535 });
    assert_eq!(parse_command("udp +443"), NetCommand::Udp { port: 443 });
    assert_eq!(parse_command("udp 00080"), NetCommand::Udp { port: 80 });
    assert_eq!(parse_command("udp 0000000000000000000065535"), NetCommand::Udp { port: 65535 });
    assert_eq!(parse_command("udp 8080 9090"), NetCommand::Udp { port: 8080 });
}

#[test]
fn udp_with_what_is_no_port_listens_on_the_default() {
    for line in [
        "udp ", "udp  80", "udp 65536", "udp 99999999999999999999", "udp -1", "udp +", "udp ++1",
        "udp 8o", "udp 80x", "udp x80", "udp 8 0x", "udp 1.5", "udp ٣", "udp +-1", "udp 4294967376",
    ] {
        let expected = if line == "udp 8 0x" { 8 } else { 6502 };
        assert_eq!(parse_command(line), NetCommand::Udp { port: expected }, "{:?}", line);
    }
}

#[test]
fn ports_agree_with_the_standard_parser() {
    let words = [
        "0", "1", "9", "10", "65534", "65535", "65536", "65545", "70000", "655350", "+0", "+65535",
        "+65536", "", "+", "-", "-0", "a", "1a", "a1", " 1", "1 ", "０", "6553５", "000", "+000",
    ];
    for word in words {
        if word.contains(' ') {
            continue;
        }
        let line = format!("udp {}", word);
        let expected = word.parse::<u16>().unwrap_or(6502);
        assert_eq!(parse_command(&line), NetCommand::Udp { port: expected }, "{:?}", word);
    }
}

#[test]
fn what_the_shell_does() {
    assert_eq!(decide(NetCommand::Udp { port: 80 }, false), NetAction::Bind { port: 80 });
    assert_eq!(decide(NetCommand::Udp { port: 80 }, true), NetAction::ReportInstalled);
    assert_eq!(decide(NetCommand::UdpClose, false), NetAction::ClosePrimary);
    assert_eq!(decide(NetCommand::UdpClose, true), NetAction::ClosePrimary);
    assert_eq!(decide(NetCommand::UdpClone, true), NetAction::Duplicate);
    assert_eq!(decide(NetCommand::UdpClone, false), NetAction::ReportNoSocket);
    assert_eq!(decide(NetCommand::UdpCloneClose, false), NetAction::CloseClone);
    assert_eq!(decide(NetCommand::UdpCloneClose, true), NetAction::CloseClone);
    assert_eq!(decide(NetCommand::Help, false), NetAction::Help);
    assert_eq!(decide(NetCommand::Help, true), NetAction::Help);
}

#[test]
fn from_line_to_action() {
    assert_eq!(process("udp 7", false), NetAction::Bind { port: 7 });
    assert_eq!(process("udp", false), NetAction::Bind { port: 6502 });
    assert_eq!(process("udp 7", true), NetAction::ReportInstalled);
    assert_eq!(process("udpclone", false), NetAction::ReportNoSocket);
    assert_eq!(process("udpclone", true), NetAction::Duplicate);
    assert_eq!(process("what", true), NetAction::Help);
}
