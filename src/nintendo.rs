use vstd::prelude::*;
use crate::error::{check_status, check_status_spec, HidError, HostOp};
use crate::id::{build_id_table, id_table_spec, DeviceKind, HidDeviceId, RawDeviceId};
use crate::mask::{bit, bit_spec, ConnectionMask, ConnectionRequest};
use crate::send::{SendAction, SendSync};

verus! {

/// Product id checked to tell the Pro Controller model apart.
pub const PRODUCT_JOYCON: u32 = 0x2009;

/// Nintendo's USB vendor id.
pub const VENDOR_NINTENDO: u16 = 0x057e;

/// First byte of a USB command report sent to the controller.
pub const OUTPUT_USB_CMD: u8 = 0x80;

/// USB command that starts the handshake.
pub const USB_CMD_HANDSHAKE: u8 = 0x02;

/// First byte of the controller's answer to a USB command.
pub const INPUT_USB_RESPONSE: u8 = 0x81;

/// Attempts allowed for delivering the handshake report.
pub const HANDSHAKE_MAX_TRIES: u32 = 2;

/// Per-attempt bound for delivering the handshake report, in milliseconds.
pub const HANDSHAKE_TIMEOUT_MS: u32 = 1000;

/// Reports that may arrive before the handshake acknowledgement; the next
/// non-matching one fails the connection.
pub const MAX_UNMATCHED_REPORTS: u32 = 16;

/// Where a connected controller stands.
#[derive(Clone, Copy, Debug, PartialEq, Eq, Structural)]
pub enum ConnectionState {
    Init,
    AwaitingHandshakeAck,
    Active,
    Failed,
}

/// Which host step of bringing the device up is under way.
#[derive(Clone, Copy, Debug, PartialEq, Eq, Structural)]
pub enum Stage {
    /// Connect has not begun.
    Idle,
    Parsing,
    Starting,
    Opening,
    Activating,
    Handshaking,
    /// Connect has finished, with success or failure.
    Done,
}

impl Stage {
    /// Stages in which the controller waits for the status of a host call.
    pub open spec fn awaits_host(self) -> bool {
        match self {
            Stage::Parsing | Stage::Starting | Stage::Opening | Stage::Activating
            | Stage::Handshaking => true,
            _ => false,
        }
    }
}

/// The host call the caller is to make next, or the end of connect.
#[derive(Clone, Copy, Debug)]
pub enum HostRequest {
    /// Parse the report descriptor.
    Parse,
    /// Start the host subsystems in the mask.
    HwStart(ConnectionMask),
    /// Open the transport.
    HwOpen,
    /// Mark the device ready for I/O.
    IoStart,
    /// Send `handshake_report()` once, bounded by `HANDSHAKE_TIMEOUT_MS`.
    SendHandshake,
    /// Connect is over with this result.
    Finished(Result<(), HidError>),
}

/// What an inbound report did.
#[derive(Clone, Copy, Debug, PartialEq, Eq, Structural)]
pub enum ReportEvent {
    /// The report came while no handshake was pending or after a failure;
    /// it was dropped.
    Ignored,
    /// The report acknowledged the handshake; the controller is active.
    Acknowledged,
    /// The report was not the acknowledgement; still waiting for it.
    Unmatched,
    /// The report belongs to the active session.
    Dispatched,
}

/// Host resources to release when the device goes away.
#[derive(Clone, Copy, Debug, PartialEq, Eq, Structural)]
pub struct Teardown {
    /// The transport was opened and must be closed.
    pub close: bool,
    /// The hardware was started and must be stopped.
    pub stop: bool,
}

/// The subsystems requested at bring-up: raw reports only.
pub open spec fn bring_up_mask() -> ConnectionMask {
    ConnectionMask(bit_spec(ConnectionRequest::HidRaw.index_spec()))
}

/// The report that starts the handshake.
pub open spec fn handshake_report_spec() -> Seq<u8> {
    seq![OUTPUT_USB_CMD, USB_CMD_HANDSHAKE]
}

/// Whether `data` begins with the handshake acknowledgement.
pub open spec fn is_handshake_ack_spec(data: Seq<u8>) -> bool {
    data.len() >= 2 && data[0] == INPUT_USB_RESPONSE && data[1] == USB_CMD_HANDSHAKE
}

/// The per-device context of a connected controller.
#[derive(Clone, Copy, Debug)]
pub struct Controller {
    state: ConnectionState,
    stage: Stage,
    hw_started: bool,
    hw_opened: bool,
    unmatched: u32,
    sender: SendSync,
}

impl Controller {
    pub closed spec fn state_spec(self) -> ConnectionState {
        self.state
    }

    pub closed spec fn stage_spec(self) -> Stage {
        self.stage
    }

    pub closed spec fn hw_started_spec(self) -> bool {
        self.hw_started
    }

    pub closed spec fn hw_opened_spec(self) -> bool {
        self.hw_opened
    }

    pub closed spec fn unmatched_spec(self) -> u32 {
        self.unmatched
    }

    pub closed spec fn sender_spec(self) -> SendSync {
        self.sender
    }

    pub closed spec fn wf(self) -> bool {
        &&& (self.stage == Stage::Done) == (self.state != ConnectionState::Init)
        &&& self.hw_opened ==> self.hw_started
        &&& (self.stage == Stage::Idle || self.stage == Stage::Parsing || self.stage
            == Stage::Starting) ==> !self.hw_started
        &&& self.stage == Stage::Opening ==> self.hw_started && !self.hw_opened
        &&& (self.stage == Stage::Activating || self.stage == Stage::Handshaking)
            ==> self.hw_opened
        &&& self.unmatched < MAX_UNMATCHED_REPORTS
        &&& self.stage == Stage::Handshaking ==> {
            &&& self.sender.wf()
            &&& self.sender.action_spec() == SendAction::Attempt
        }
    }

    /// A controller before connect.
    pub fn new() -> (r: Controller)
        ensures
            r.wf(),
            r.state_spec() == ConnectionState::Init,
            r.stage_spec() == Stage::Idle,
            !r.hw_started_spec(),
            !r.hw_opened_spec(),
    {
        Controller {
            state: ConnectionState::Init,
            stage: Stage::Idle,
            hw_started: false,
            hw_opened: false,
            unmatched: 0,
            sender: SendSync::new(0, 0),
        }
    }

    /// Where the connection stands.
    pub fn state(&self) -> (r: ConnectionState)
        ensures
            r == self.state_spec(),
    {
        self.state
    }

    /// Which bring-up step is under way.
    pub fn stage(&self) -> (r: Stage)
        ensures
            r == self.stage_spec(),
    {
        self.stage
    }

    /// Begins connect: the first host call is the descriptor parse.
    pub fn connect(&mut self) -> (r: HostRequest)
        requires
            old(self).wf(),
            old(self).stage_spec() == Stage::Idle,
        ensures
            final(self).wf(),
            r == HostRequest::Parse,
            final(self).stage_spec() == Stage::Parsing,
            final(self).state_spec() == ConnectionState::Init,
            final(self).hw_started_spec() == old(self).hw_started_spec(),
            final(self).hw_opened_spec() == old(self).hw_opened_spec(),
    {
        self.stage = Stage::Parsing;
        HostRequest::Parse
    }

    fn fail(&mut self, e: HidError) -> (r: HostRequest)
        requires
            old(self).stage_spec().awaits_host(),
            old(self).state_spec() == ConnectionState::Init,
            old(self).hw_opened_spec() ==> old(self).hw_started_spec(),
            old(self).unmatched_spec() < MAX_UNMATCHED_REPORTS,
        ensures
            final(self).wf(),
            r == HostRequest::Finished(Err(e)),
            final(self).state_spec() == ConnectionState::Failed,
            final(self).stage_spec() == Stage::Done,
            final(self).hw_started_spec() == old(self).hw_started_spec(),
            final(self).hw_opened_spec() == old(self).hw_opened_spec(),
            final(self).unmatched_spec() == old(self).unmatched_spec(),
    {
        self.state = ConnectionState::Failed;
        self.stage = Stage::Done;
        HostRequest::Finished(Err(e))
    }

    /// Takes the status of the host call last requested and says what comes
    /// next. Bring-up runs parse, hardware start, open and I/O activation in
    /// that order and stops at the first failure with that step's error; then
    /// the handshake report is sent with bounded retries. Connect ends in
    /// `AwaitingHandshakeAck` on success and in `Failed` on any failure.
    pub fn advance(&mut self, status: i32) -> (r: HostRequest)
        requires
            old(self).wf(),
            old(self).stage_spec().awaits_host(),
        ensures
            final(self).wf(),
            final(self).unmatched_spec() == old(self).unmatched_spec(),
            old(self).stage_spec() == Stage::Parsing ==> if status < 0 {
                &&& r == HostRequest::Finished(Err(HidError::Descriptor(status)))
                &&& final(self).state_spec() == ConnectionState::Failed
                &&& final(self).stage_spec() == Stage::Done
                &&& !final(self).hw_started_spec()
            } else {
                &&& r == HostRequest::HwStart(bring_up_mask())
                &&& final(self).stage_spec() == Stage::Starting
                &&& final(self).state_spec() == ConnectionState::Init
            },
            old(self).stage_spec() == Stage::Starting ==> if status < 0 {
                &&& r == HostRequest::Finished(Err(HidError::HardwareStart(status)))
                &&& final(self).state_spec() == ConnectionState::Failed
                &&& final(self).stage_spec() == Stage::Done
                &&& !final(self).hw_started_spec()
            } else {
                &&& r == HostRequest::HwOpen
                &&& final(self).stage_spec() == Stage::Opening
                &&& final(self).state_spec() == ConnectionState::Init
                &&& final(self).hw_started_spec()
            },
            old(self).stage_spec() == Stage::Opening ==> if status < 0 {
                &&& r == HostRequest::Finished(Err(HidError::Open(status)))
                &&& final(self).state_spec() == ConnectionState::Failed
                &&& final(self).stage_spec() == Stage::Done
                &&& final(self).hw_started_spec()
                &&& !final(self).hw_opened_spec()
            } else {
                &&& r == HostRequest::IoStart
                &&& final(self).stage_spec() == Stage::Activating
                &&& final(self).state_spec() == ConnectionState::Init
                &&& final(self).hw_opened_spec()
            },
            old(self).stage_spec() == Stage::Activating ==> {
                &&& r == HostRequest::SendHandshake
                &&& final(self).stage_spec() == Stage::Handshaking
                &&& final(self).state_spec() == ConnectionState::Init
                &&& final(self).sender_spec() == SendSync::new_spec(
                    HANDSHAKE_MAX_TRIES,
                    HANDSHAKE_TIMEOUT_MS,
                )
            },
            old(self).stage_spec() == Stage::Handshaking ==> {
                let sent = old(self).sender_spec().record_spec(
                    check_status_spec(HostOp::OutputReport, status),
                );
                match sent.action_spec() {
                    SendAction::Attempt => {
                        &&& r == HostRequest::SendHandshake
                        &&& final(self).stage_spec() == Stage::Handshaking
                        &&& final(self).state_spec() == ConnectionState::Init
                        &&& final(self).sender_spec() == sent
                    },
                    SendAction::Done(Ok(())) => {
                        &&& r == HostRequest::Finished(Ok(()))
                        &&& final(self).stage_spec() == Stage::Done
                        &&& final(self).state_spec() == ConnectionState::AwaitingHandshakeAck
                    },
                    SendAction::Done(Err(e)) => {
                        &&& r == HostRequest::Finished(Err(e))
                        &&& final(self).stage_spec() == Stage::Done
                        &&& final(self).state_spec() == ConnectionState::Failed
                    },
                }
            },
            old(self).stage_spec() == Stage::Activating || old(self).stage_spec()
                == Stage::Handshaking ==> {
                &&& final(self).hw_started_spec() == old(self).hw_started_spec()
                &&& final(self).hw_opened_spec() == old(self).hw_opened_spec()
            },
            match r {
                HostRequest::Finished(Ok(())) => final(self).state_spec()
                    == ConnectionState::AwaitingHandshakeAck,
                HostRequest::Finished(Err(_)) => final(self).state_spec()
                    == ConnectionState::Failed,
                _ => final(self).state_spec() == ConnectionState::Init,
            },
    {
        match self.stage {
            Stage::Parsing => {
                if status < 0 {
                    self.fail(HidError::Descriptor(status))
                } else {
                    self.stage = Stage::Starting;
                    HostRequest::HwStart(ConnectionMask(bit(ConnectionRequest::HidRaw.index())))
                }
            },
            Stage::Starting => {
                if status < 0 {
                    self.fail(HidError::HardwareStart(status))
                } else {
                    self.hw_started = true;
                    self.stage = Stage::Opening;
                    HostRequest::HwOpen
                }
            },
            Stage::Opening => {
                if status < 0 {
                    self.fail(HidError::Open(status))
                } else {
                    self.hw_opened = true;
                    self.stage = Stage::Activating;
                    HostRequest::IoStart
                }
            },
            Stage::Activating => {
                self.sender = SendSync::new(HANDSHAKE_MAX_TRIES, HANDSHAKE_TIMEOUT_MS);
                self.stage = Stage::Handshaking;
                HostRequest::SendHandshake
            },
            _ => {
                self.sender.record(check_status(HostOp::OutputReport, status));
                match self.sender.action() {
                    SendAction::Attempt => HostRequest::SendHandshake,
                    SendAction::Done(Ok(())) => {
                        self.state = ConnectionState::AwaitingHandshakeAck;
                        self.stage = Stage::Done;
                        HostRequest::Finished(Ok(()))
                    },
                    SendAction::Done(Err(e)) => self.fail(e),
                }
            },
        }
    }

    /// Handles one inbound report. While the handshake is pending, the
    /// acknowledgement makes the controller active and other reports are
    /// counted, the connection failing once too many came; an active
    /// controller keeps its state; before connect completes or after a
    /// failure the report is ignored. No report moves an active controller
    /// back to waiting for the handshake.
    pub fn on_report(&mut self, data: &[u8]) -> (r: Result<ReportEvent, HidError>)
        requires
            old(self).wf(),
        ensures
            final(self).wf(),
            final(self).stage_spec() == old(self).stage_spec(),
            final(self).hw_started_spec() == old(self).hw_started_spec(),
            final(self).hw_opened_spec() == old(self).hw_opened_spec(),
            old(self).state_spec() == ConnectionState::AwaitingHandshakeAck ==> if is_handshake_ack_spec(data@) {
                &&& r == Ok::<ReportEvent, HidError>(ReportEvent::Acknowledged)
                &&& final(self).state_spec() == ConnectionState::Active
            } else if old(self).unmatched_spec() + 1 < MAX_UNMATCHED_REPORTS {
                &&& r == Ok::<ReportEvent, HidError>(ReportEvent::Unmatched)
                &&& final(self).state_spec() == ConnectionState::AwaitingHandshakeAck
                &&& final(self).unmatched_spec() == old(self).unmatched_spec() + 1
            } else {
                &&& r == Err::<ReportEvent, HidError>(HidError::Protocol)
                &&& final(self).state_spec() == ConnectionState::Failed
            },
            old(self).state_spec() == ConnectionState::Active ==> {
                &&& r == Ok::<ReportEvent, HidError>(ReportEvent::Dispatched)
                &&& final(self).state_spec() == ConnectionState::Active
            },
            old(self).state_spec() == ConnectionState::Init || old(self).state_spec()
                == ConnectionState::Failed ==> {
                &&& r == Ok::<ReportEvent, HidError>(ReportEvent::Ignored)
                &&& *final(self) == *old(self)
            },
            !(old(self).state_spec() == ConnectionState::Active && final(self).state_spec()
                == ConnectionState::AwaitingHandshakeAck),
    {
        match self.state {
            ConnectionState::AwaitingHandshakeAck => {
                if is_handshake_ack(data) {
                    self.state = ConnectionState::Active;
                    Ok(ReportEvent::Acknowledged)
                } else if self.unmatched + 1 < MAX_UNMATCHED_REPORTS {
                    self.unmatched = self.unmatched + 1;
                    Ok(ReportEvent::Unmatched)
                } else {
                    self.state = ConnectionState::Failed;
                    Err(HidError::Protocol)
                }
            },
            ConnectionState::Active => Ok(ReportEvent::Dispatched),
            _ => Ok(ReportEvent::Ignored),
        }
    }

    /// Ends the device's context and names the host resources to release:
    /// only those that bring-up acquired.
    pub fn disconnect(self) -> (r: Teardown)
        requires
            self.wf(),
        ensures
            r.close == self.hw_opened_spec(),
            r.stop == self.hw_started_spec(),
    {
        Teardown { close: self.hw_opened, stop: self.hw_started }
    }
}

/// The report that starts the handshake.
pub fn handshake_report() -> (r: Vec<u8>)
    ensures
        r@ == handshake_report_spec(),
{
    let mut r: Vec<u8> = Vec::new();
    r.push(OUTPUT_USB_CMD);
    r.push(USB_CMD_HANDSHAKE);
    assert(r@ =~= handshake_report_spec());
    r
}

/// Whether `data` begins with the handshake acknowledgement.
pub fn is_handshake_ack(data: &[u8]) -> (r: bool)
    ensures
        r == is_handshake_ack_spec(data@),
{
    data.len() >= 2 && data[0] == INPUT_USB_RESPONSE && data[1] == USB_CMD_HANDSHAKE
}

/// Whether the device with this product id is the Pro Controller.
pub fn is_procon(product_id: u32) -> (r: bool)
    ensures
        r == (product_id == PRODUCT_JOYCON),
{
    product_id == PRODUCT_JOYCON
}

/// The devices this driver handles, as authored.
pub open spec fn nintendo_ids_spec() -> Seq<HidDeviceId> {
    seq![
        HidDeviceId { kind: DeviceKind::USB, vendor: VENDOR_NINTENDO, product: 0x2009 },
        HidDeviceId { kind: DeviceKind::Bluetooth, vendor: VENDOR_NINTENDO, product: 0x2009 },
        HidDeviceId { kind: DeviceKind::USB, vendor: VENDOR_NINTENDO, product: 0x200e },
        HidDeviceId { kind: DeviceKind::Bluetooth, vendor: VENDOR_NINTENDO, product: 0x2006 },
        HidDeviceId { kind: DeviceKind::Bluetooth, vendor: VENDOR_NINTENDO, product: 0x2007 },
    ]
}

/// The devices this driver handles, as authored.
pub fn nintendo_ids() -> (r: Vec<HidDeviceId>)
    ensures
        r@ == nintendo_ids_spec(),
{
    let r = vec![
        HidDeviceId { kind: DeviceKind::USB, vendor: VENDOR_NINTENDO, product: 0x2009 },
        HidDeviceId { kind: DeviceKind::Bluetooth, vendor: VENDOR_NINTENDO, product: 0x2009 },
        HidDeviceId { kind: DeviceKind::USB, vendor: VENDOR_NINTENDO, product: 0x200e },
        HidDeviceId { kind: DeviceKind::Bluetooth, vendor: VENDOR_NINTENDO, product: 0x2006 },
        HidDeviceId { kind: DeviceKind::Bluetooth, vendor: VENDOR_NINTENDO, product: 0x2007 },
    ];
    assert(r@ =~= nintendo_ids_spec());
    r
}

/// The host table of the devices this driver handles.
pub fn nintendo_id_table() -> (r: Vec<RawDeviceId>)
    ensures
        r@ == id_table_spec(nintendo_ids_spec()),
{
    let ids = nintendo_ids();
    build_id_table(&ids)
}

/// The driver's name.
pub fn driver_name() -> (r: &'static str)
    ensures
        r@ == "nintendo"@,
{
    "nintendo"
}

} // verus!
