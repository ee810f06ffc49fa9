use hid_driver::error::{check_status, status_of, HidError, HostOp, Registration, EINVAL, EIO, EPROTO};
use hid_driver::id::{build_id_table, table_matches, DeviceKind, HidDeviceId, RawDeviceId, BUS_BLUETOOTH, BUS_USB};
use hid_driver::mask::{bit, compose, ConnectionMask, ConnectionRequest};
use hid_driver::nintendo::{
    driver_name, handshake_report, is_handshake_ack, is_procon, nintendo_id_table, nintendo_ids,
    ConnectionState, Controller, HostRequest, ReportEvent, Stage, HANDSHAKE_MAX_TRIES,
    MAX_UNMATCHED_REPORTS,
};
use hid_driver::send::{SendAction, SendSync};

const ALL: [ConnectionRequest; 7] = [
    ConnectionRequest::HidInput,
    ConnectionRequest::HidInputForce,
    ConnectionRequest::HidRaw,
    ConnectionRequest::HidDev,
    ConnectionRequest::HidDevForce,
    ConnectionRequest::FF,
    ConnectionRequest::Driver,
];

#[test]
fn bit_values() {
    assert_eq!(bit(0), 1);
    assert_eq!(bit(2), 4);
    assert_eq!(bit(6), 64);
    assert_eq!(bit(31), 0x8000_0000);
}

#[test]
fn request_from_is_single_bit() {
    assert_eq!(ConnectionMask::from(ConnectionRequest::HidInput).bits(), 1);
    assert_eq!(ConnectionMask::from(ConnectionRequest::HidRaw).bits(), 4);
    assert_eq!(ConnectionMask::from(ConnectionRequest::FF).bits(), 32);
    assert_eq!(ConnectionMask::from(ConnectionRequest::Driver).bits(), 64);
}

#[test]
fn bitor_is_plain_or() {
    let a = ConnectionMask::from(ConnectionRequest::HidInput);
    let b = ConnectionMask::from(ConnectionRequest::HidDev);
    let m = a.bitor(b);
    assert_eq!(m.bits(), 1 | 8);
    assert!(m.contains(ConnectionRequest::HidInput));
    assert!(m.contains(ConnectionRequest::HidDev));
    assert!(!m.contains(ConnectionRequest::HidRaw));
}

#[test]
fn compose_empty_is_empty_mask() {
    let m = compose(&Vec::new());
    assert_eq!(m.bits(), 0);
    assert!(m.requests().is_empty());
    assert_eq!(ConnectionMask::empty().bits(), 0);
}

#[test]
fn compose_exact_bits() {
    let m = compose(&vec![ConnectionRequest::HidRaw, ConnectionRequest::FF, ConnectionRequest::HidRaw]);
    assert_eq!(m.bits(), 4 | 32);
    let all = compose(&ALL.to_vec());
    assert_eq!(all.bits(), 127);
}

#[test]
fn compose_order_independent() {
    let a = vec![ConnectionRequest::Driver, ConnectionRequest::HidInput, ConnectionRequest::HidDevForce];
    let b = vec![ConnectionRequest::HidDevForce, ConnectionRequest::Driver, ConnectionRequest::HidInput];
    let c = vec![ConnectionRequest::HidInput, ConnectionRequest::HidDevForce, ConnectionRequest::Driver];
    assert_eq!(compose(&a), compose(&b));
    assert_eq!(compose(&b), compose(&c));
    assert_eq!(compose(&a).bits(), 1 | 16 | 64);
}

#[test]
fn compose_decode_round_trip_every_subset() {
    for subset in 1u32..128 {
        let flags: Vec<ConnectionRequest> =
            ALL.iter().copied().filter(|q| subset & (1 << q.index()) != 0).collect();
        let m = compose(&flags);
        assert_eq!(m.bits(), subset);
        assert_eq!(m.requests(), flags);
    }
}

#[test]
fn with_adds_flag() {
    let m = ConnectionMask::empty().with(ConnectionRequest::HidInputForce);
    assert_eq!(m.bits(), 2);
    assert_eq!(m.requests(), vec![ConnectionRequest::HidInputForce]);
}

#[test]
fn bus_ids() {
    assert_eq!(DeviceKind::USB.bus_id(), 3);
    assert_eq!(DeviceKind::Bluetooth.bus_id(), 5);
    assert_eq!(BUS_USB, 3);
    assert_eq!(BUS_BLUETOOTH, 5);
}

#[test]
fn to_rawid_fields() {
    let id = HidDeviceId { kind: DeviceKind::Bluetooth, vendor: 0x057e, product: 0x2006 };
    let raw = id.to_rawid();
    assert_eq!(raw, RawDeviceId { bus: 5, group: 0, vendor: 0x057e, product: 0x2006, driver_data: 0 });
}

#[test]
fn id_table_has_sentinel_and_matches_entries() {
    let entries = vec![
        HidDeviceId { kind: DeviceKind::USB, vendor: 1, product: 2 },
        HidDeviceId { kind: DeviceKind::Bluetooth, vendor: 0xffff, product: 0xffff },
    ];
    let t = build_id_table(&entries);
    assert_eq!(t.len(), 3);
    assert_eq!(t[2], RawDeviceId::sentinel());
    assert!(table_matches(&t, 3, 1, 2));
    assert!(table_matches(&t, 5, 0xffff, 0xffff));
    assert!(!table_matches(&t, 5, 1, 2));
    assert!(!table_matches(&t, 3, 0, 0));
    assert!(!RawDeviceId::sentinel().matches(3, 0, 0));
}

#[test]
fn id_table_empty_entries() {
    let t = build_id_table(&Vec::new());
    assert_eq!(t, vec![RawDeviceId::sentinel()]);
    assert!(!table_matches(&t, 0, 0, 0));
}

#[test]
fn table_walk_stops_at_sentinel() {
    let after = RawDeviceId { bus: 3, group: 0, vendor: 9, product: 9, driver_data: 0 };
    let t = vec![RawDeviceId::sentinel(), after];
    assert!(!table_matches(&t, 3, 9, 9));
}

#[test]
fn nintendo_table_connect_identity_present() {
    let t = nintendo_id_table();
    assert_eq!(t.len(), nintendo_ids().len() + 1);
    assert_eq!(t.len(), 6);
    assert_eq!(*t.last().unwrap(), RawDeviceId::sentinel());
    assert!(table_matches(&t, DeviceKind::USB.bus_id(), 0x057e, 0x2009));
    assert!(table_matches(&t, DeviceKind::Bluetooth.bus_id(), 0x057e, 0x2007));
    assert!(!table_matches(&t, DeviceKind::USB.bus_id(), 0x057e, 0x2006));
    assert_eq!(driver_name(), "nintendo");
}

#[test]
fn check_status_kinds() {
    assert_eq!(check_status(HostOp::Parse, 0), Ok(()));
    assert_eq!(check_status(HostOp::HwOpen, 7), Ok(()));
    assert_eq!(check_status(HostOp::Parse, -22), Err(HidError::Descriptor(-22)));
    assert_eq!(check_status(HostOp::HwStart, -12), Err(HidError::HardwareStart(-12)));
    assert_eq!(check_status(HostOp::HwOpen, -19), Err(HidError::Open(-19)));
    assert_eq!(check_status(HostOp::OutputReport, -5), Err(HidError::Transport(-5)));
    assert_eq!(check_status(HostOp::Register, -16), Err(HidError::Registration(-16)));
}

#[test]
fn status_of_results() {
    assert_eq!(status_of(&Ok(())), 0);
    assert_eq!(status_of(&Err(HidError::Open(-19))), -19);
    assert_eq!(status_of(&Err(HidError::Protocol)), -EPROTO);
    assert_eq!(status_of(&Err(HidError::Transport(-100000))), -EINVAL);
    assert_eq!(status_of(&Err(HidError::Descriptor(3))), -EINVAL);
    assert_eq!(HidError::Registration(-4095).errno(), -4095);
}

#[test]
fn registration_once() {
    let mut r = Registration::new();
    assert!(!r.registered());
    assert_eq!(r.register(-17), Err(HidError::Registration(-17)));
    assert!(!r.registered());
    assert_eq!(r.register(0), Ok(()));
    assert!(r.registered());
    r.unregister();
    assert!(!r.registered());
}

fn drive(max_tries: u32, outcomes: &[Result<(), HidError>]) -> (Result<(), HidError>, u32) {
    let mut s = SendSync::new(max_tries, 100);
    let mut next = 0;
    loop {
        match s.action() {
            SendAction::Attempt => {
                s.record(outcomes[next]);
                next += 1;
            }
            SendAction::Done(r) => return (r, s.attempts()),
        }
    }
}

#[test]
fn send_sync_persistent_failure_two_tries() {
    let e = HidError::Transport(-110);
    let (r, n) = drive(2, &[Err(e), Err(e), Err(e)]);
    assert_eq!(r, Err(e));
    assert_eq!(n, 2);
}

#[test]
fn send_sync_returns_last_failure() {
    let (r, n) = drive(3, &[Err(HidError::Transport(-1)), Err(HidError::Transport(-2)), Err(HidError::Transport(-3))]);
    assert_eq!(r, Err(HidError::Transport(-3)));
    assert_eq!(n, 3);
}

#[test]
fn send_sync_success_on_attempt() {
    let e = Err(HidError::Transport(-5));
    assert_eq!(drive(4, &[Ok(())]), (Ok(()), 1));
    assert_eq!(drive(4, &[e, e, Ok(())]), (Ok(()), 3));
    assert_eq!(drive(2, &[e, Ok(())]), (Ok(()), 2));
}

#[test]
fn send_sync_zero_tries() {
    let s = SendSync::new(0, 5);
    assert!(matches!(s.action(), SendAction::Done(Err(HidError::Transport(c))) if c == -EIO));
    assert_eq!(s.attempts(), 0);
    assert_eq!(s.timeout_ms(), 5);
}

fn bring_up(c: &mut Controller) {
    assert!(matches!(c.connect(), HostRequest::Parse));
    match c.advance(0) {
        HostRequest::HwStart(m) => assert_eq!(m.bits(), 4),
        other => panic!("unexpected {:?}", other),
    }
    assert!(matches!(c.advance(0), HostRequest::HwOpen));
    assert!(matches!(c.advance(0), HostRequest::IoStart));
    assert!(matches!(c.advance(0), HostRequest::SendHandshake));
}

#[test]
fn connect_success_awaits_ack() {
    let t = nintendo_id_table();
    assert!(table_matches(&t, DeviceKind::USB.bus_id(), 0x057e, 0x2009));
    let mut c = Controller::new();
    assert_eq!(c.state(), ConnectionState::Init);
    assert_eq!(c.stage(), Stage::Idle);
    bring_up(&mut c);
    assert_eq!(c.state(), ConnectionState::Init);
    assert_eq!(handshake_report(), vec![0x80, 0x02]);
    assert!(matches!(c.advance(0), HostRequest::Finished(Ok(()))));
    assert_eq!(c.state(), ConnectionState::AwaitingHandshakeAck);
    assert_eq!(c.stage(), Stage::Done);
    let td = c.disconnect();
    assert!(td.close && td.stop);
}

#[test]
fn connect_hardware_start_failure() {
    let mut c = Controller::new();
    c.connect();
    assert!(matches!(c.advance(0), HostRequest::HwStart(_)));
    assert!(matches!(c.advance(-12), HostRequest::Finished(Err(HidError::HardwareStart(-12)))));
    assert_eq!(c.state(), ConnectionState::Failed);
    assert_eq!(c.on_report(&[0x81, 0x02]), Ok(ReportEvent::Ignored));
    assert_eq!(c.state(), ConnectionState::Failed);
    let td = c.disconnect();
    assert!(!td.close && !td.stop);
}

#[test]
fn connect_descriptor_and_open_failures() {
    let mut c = Controller::new();
    c.connect();
    assert!(matches!(c.advance(-22), HostRequest::Finished(Err(HidError::Descriptor(-22)))));
    assert_eq!(c.state(), ConnectionState::Failed);

    let mut c = Controller::new();
    c.connect();
    c.advance(0);
    c.advance(0);
    assert!(matches!(c.advance(-19), HostRequest::Finished(Err(HidError::Open(-19)))));
    assert_eq!(c.state(), ConnectionState::Failed);
    let td = c.disconnect();
    assert!(!td.close && td.stop);
}

#[test]
fn connect_handshake_send_fails_every_time() {
    let mut c = Controller::new();
    bring_up(&mut c);
    let mut sends = 1;
    loop {
        match c.advance(-110) {
            HostRequest::SendHandshake => sends += 1,
            HostRequest::Finished(r) => {
                assert_eq!(r, Err(HidError::Transport(-110)));
                break;
            }
            other => panic!("unexpected {:?}", other),
        }
    }
    assert_eq!(sends, HANDSHAKE_MAX_TRIES);
    assert_eq!(c.state(), ConnectionState::Failed);
}

#[test]
fn connect_handshake_retry_then_success() {
    let mut c = Controller::new();
    bring_up(&mut c);
    assert!(matches!(c.advance(-5), HostRequest::SendHandshake));
    assert!(matches!(c.advance(0), HostRequest::Finished(Ok(()))));
    assert_eq!(c.state(), ConnectionState::AwaitingHandshakeAck);
}

#[test]
fn handshake_ack_makes_active() {
    let mut c = Controller::new();
    bring_up(&mut c);
    c.advance(0);
    assert_eq!(c.on_report(&[0x81, 0x02, 0x00, 0x03]), Ok(ReportEvent::Acknowledged));
    assert_eq!(c.state(), ConnectionState::Active);
    assert_eq!(c.on_report(&[0x81, 0x02]), Ok(ReportEvent::Dispatched));
    assert_eq!(c.on_report(&[0x30]), Ok(ReportEvent::Dispatched));
    assert_eq!(c.state(), ConnectionState::Active);
}

#[test]
fn unmatched_reports_then_protocol_error() {
    let mut c = Controller::new();
    bring_up(&mut c);
    c.advance(0);
    for _ in 0..MAX_UNMATCHED_REPORTS - 1 {
        assert_eq!(c.on_report(&[0x30, 0x00]), Ok(ReportEvent::Unmatched));
        assert_eq!(c.state(), ConnectionState::AwaitingHandshakeAck);
    }
    assert_eq!(c.on_report(&[0x81]), Err(HidError::Protocol));
    assert_eq!(c.state(), ConnectionState::Failed);
    assert_eq!(c.on_report(&[0x81, 0x02]), Ok(ReportEvent::Ignored));
}

#[test]
fn report_before_connect_is_ignored() {
    let mut c = Controller::new();
    assert_eq!(c.on_report(&[0x81, 0x02]), Ok(ReportEvent::Ignored));
    assert_eq!(c.state(), ConnectionState::Init);
}

#[test]
fn ack_signature() {
    assert!(is_handshake_ack(&[0x81, 0x02]));
    assert!(!is_handshake_ack(&[0x81]));
    assert!(!is_handshake_ack(&[0x80, 0x02]));
    assert!(!is_handshake_ack(&[]));
}

#[test]
fn procon_product() {
    assert!(is_procon(0x2009));
    assert!(!is_procon(0x2006));
}
