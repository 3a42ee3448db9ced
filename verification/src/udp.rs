//! The UDP remote control: what a datagram asks for, and how the listener recovers from failures.
use vstd::prelude::*;

use crate::bytes::to_signed;
use crate::config;
use crate::protocol::Command;

verus! {

/// The length of every datagram.
pub const PACKET_LEN: usize = 8;

/// A datagram, read: the packet type, the two drive speeds, flags, the lift power, and three bytes
/// of padding.
#[derive(Debug, Clone, Copy, PartialEq, Eq, Structural)]
pub enum UdpPacket {
    /// Manual driving.
    Manual { left: i8, right: i8, lift: i8 },
    /// A request for the automatic mode, which the robot does not have by itself.
    AutoMode,
    Unknown { packet_type: u8 },
    Malformed { size: usize },
}

pub open spec fn packet_of(bytes: Seq<u8>) -> UdpPacket {
    if bytes.len() != PACKET_LEN {
        UdpPacket::Malformed { size: bytes.len() as usize }
    } else if bytes[0] == 0x01 {
        UdpPacket::Manual {
            left: crate::bytes::signed(bytes[1]),
            right: crate::bytes::signed(bytes[2]),
            lift: crate::bytes::signed(bytes[4]),
        }
    } else if bytes[0] == 0x02 {
        UdpPacket::AutoMode
    } else {
        UdpPacket::Unknown { packet_type: bytes[0] }
    }
}

/// Reads a datagram.
pub fn decode_packet(bytes: &[u8]) -> (packet: UdpPacket)
    ensures
        packet == packet_of(bytes@),
{
    if bytes.len() != PACKET_LEN {
        return UdpPacket::Malformed { size: bytes.len() };
    }
    let packet_type: u8 = bytes[0];
    let left: i8 = to_signed(bytes[1]);
    let right: i8 = to_signed(bytes[2]);
    let lift: i8 = to_signed(bytes[4]);
    match packet_type {
        0x01 => UdpPacket::Manual { left, right, lift },
        0x02 => UdpPacket::AutoMode,
        _ => UdpPacket::Unknown { packet_type },
    }
}

impl UdpPacket {
    pub open spec fn requested(self) -> Seq<Command> {
        match self {
            UdpPacket::Manual { left, right, lift } => seq![
                Command::Drive { left, right },
                Command::Lift { power: lift },
            ],
            _ => Seq::empty(),
        }
    }

    /// The commands that a datagram stands for, in the order in which they are to be queued.
    pub fn commands(&self) -> (commands: Vec<Command>)
        ensures
            commands@ == self.requested(),
    {
        let mut commands: Vec<Command> = Vec::new();
        if let UdpPacket::Manual { left, right, lift } = *self {
            commands.push(Command::Drive { left, right });
            commands.push(Command::Lift { power: lift });
        }
        commands
    }
}

/// What became of the listener's last action.
#[derive(Debug, Clone, Copy, PartialEq, Eq, Structural)]
pub enum ListenerEvent {
    LinkDown,
    LinkUp,
    WaitOver,
    BindFailed,
    Bound,
    Received,
    ReceiveFailed,
}

/// What the listener is to do next.
#[derive(Debug, Clone, Copy, PartialEq, Eq, Structural)]
pub enum ListenerAction {
    CheckLink,
    Wait { millis: u64 },
    /// Open a socket and bind it to a port.
    Bind { port: u16 },
    Receive,
}

/// The listener looks for a link every half second, tries again a second after a failed bind, and
/// starts over with the link when it can no longer receive.
pub open spec fn listener_action(event: ListenerEvent) -> ListenerAction {
    match event {
        ListenerEvent::LinkDown => ListenerAction::Wait { millis: 500 },
        ListenerEvent::LinkUp => ListenerAction::Bind { port: config::UDP_PORT },
        ListenerEvent::WaitOver => ListenerAction::CheckLink,
        ListenerEvent::BindFailed => ListenerAction::Wait { millis: 1000 },
        ListenerEvent::Bound => ListenerAction::Receive,
        ListenerEvent::Received => ListenerAction::Receive,
        ListenerEvent::ReceiveFailed => ListenerAction::CheckLink,
    }
}

/// The listener's next action.
pub fn next_listener_action(event: ListenerEvent) -> (action: ListenerAction)
    ensures
        action == listener_action(event),
{
    match event {
        ListenerEvent::LinkDown => ListenerAction::Wait { millis: 500 },
        ListenerEvent::LinkUp => ListenerAction::Bind { port: config::UDP_PORT },
        ListenerEvent::WaitOver => ListenerAction::CheckLink,
        ListenerEvent::BindFailed => ListenerAction::Wait { millis: 1000 },
        ListenerEvent::Bound => ListenerAction::Receive,
        ListenerEvent::Received => ListenerAction::Receive,
        ListenerEvent::ReceiveFailed => ListenerAction::CheckLink,
    }
}

/// A datagram asks for movement exactly when it is eight bytes long and of the manual type, and
/// then the drive command comes before the lift command. The flags and the padding are without
/// effect.
pub proof fn law_only_manual_packets_ask_for_movement(bytes: Seq<u8>)
    ensures
        packet_of(bytes).requested().len() != 0 <==> bytes.len() == PACKET_LEN && bytes[0] == 0x01,
        bytes.len() == PACKET_LEN && bytes[0] == 0x01 ==> packet_of(bytes).requested() == seq![
            Command::Drive {
                left: crate::bytes::signed(bytes[1]),
                right: crate::bytes::signed(bytes[2]),
            },
            Command::Lift { power: crate::bytes::signed(bytes[4]) },
        ],
{
}

/// Every combination of speeds can be sent: the datagram that encodes them is read back as them.
pub proof fn law_manual_packet_is_read_back(bytes: Seq<u8>, left: i8, right: i8, lift: i8)
    requires
        bytes.len() == PACKET_LEN,
        bytes[0] == 0x01,
        bytes[1] == crate::bytes::unsigned(left),
        bytes[2] == crate::bytes::unsigned(right),
        bytes[4] == crate::bytes::unsigned(lift),
    ensures
        packet_of(bytes) == (UdpPacket::Manual { left, right, lift }),
{
}

/// A datagram in numbers. One that is not eight bytes long is malformed, whatever it holds. The
/// first byte of any other says what it is: of a manual one, the second byte is the left speed, the
/// third the right speed and the fifth the power of the lift, each in two's complement.
pub proof fn law_packet_in_numbers(bytes: Seq<u8>)
    requires
        bytes.len() <= usize::MAX,
    ensures
        bytes.len() != 8 <==> packet_of(bytes) is Malformed,
        bytes.len() != 8 ==> packet_of(bytes)->size == bytes.len(),
        bytes.len() == 8 ==> match packet_of(bytes) {
            UdpPacket::Manual { left, right, lift } => {
                &&& bytes[0] == 1
                &&& (bytes[1] - left) % 0x100 == 0
                &&& (bytes[2] - right) % 0x100 == 0
                &&& (bytes[4] - lift) % 0x100 == 0
            },
            UdpPacket::AutoMode => bytes[0] == 2,
            UdpPacket::Unknown { packet_type } => bytes[0] == packet_type && packet_type != 1
                && packet_type != 2,
            UdpPacket::Malformed { size } => false,
        },
{
    if bytes.len() == 8 {
        crate::bytes::law_readings_agree_with_their_bytes(bytes[1], 0, 0, 0, 0);
        crate::bytes::law_readings_agree_with_their_bytes(bytes[2], 0, 0, 0, 0);
        crate::bytes::law_readings_agree_with_their_bytes(bytes[4], 0, 0, 0, 0);
    }
}

/// A manual datagram asks first for its two drive speeds, left and right, and then for its lift
/// power, with nothing changed or left out, zeros included; any other one asks for nothing.
pub proof fn law_packet_asks_for_its_speeds(packet: UdpPacket)
    ensures
        packet matches UdpPacket::Manual { left, right, lift } ==> {
            let commands = packet.requested();
            &&& commands.len() == 2
            &&& commands[0] == (Command::Drive { left, right })
            &&& commands[1] == (Command::Lift { power: lift })
        },
        !(packet is Manual) ==> packet.requested().len() == 0,
{
}

/// When the listener does what. It receives just when it is bound or has just received, it looks
/// for the link after a wait or a failure to receive, and with a link it binds to port 5005. It
/// waits half a second for a link, and twice as long after a bind that failed.
pub proof fn law_listener_never_gives_up(event: ListenerEvent)
    ensures
        listener_action(event) is Receive <==> event is Bound || event is Received,
        listener_action(event) is CheckLink <==> event is WaitOver || event is ReceiveFailed,
        listener_action(event) is Bind <==> event is LinkUp,
        event is LinkUp ==> listener_action(event)->port == 5005,
        listener_action(event) is Wait <==> event is LinkDown || event is BindFailed,
        event is LinkDown ==> listener_action(event)->millis == 500,
        event is BindFailed ==> listener_action(event)->millis == 2 * 500,
{
}

} // verus!
