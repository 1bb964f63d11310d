//! Wake-on-LAN: the packet, and where it goes.

use crate::config::MacAddress;
use crate::failure::{IoError, IoErrorView};
use crate::net::{Ipv4Addr, SocketAddrV4};
use vstd::prelude::*;

verus! {

/// The length of a magic packet.
pub const MAGIC_PACKET_LEN: usize = 102;

/// The port that magic packets go to.
pub const DEFAULT_WOL_PORT: u16 = 9;

/// The magic packet for a hardware address: six bytes `0xff`, then the address sixteen times.
pub open spec fn magic_packet(mac: Seq<u8>) -> Seq<u8> {
    Seq::new(
        102,
        |i: int|
            if i < 6 {
                0xffu8
            } else {
                mac[(i - 6) % 6]
            },
    )
}

/// The magic packet for `mac`.
pub fn build_magic_packet(mac: &MacAddress) -> (packet: [u8; MAGIC_PACKET_LEN])
    ensures
        packet@ == magic_packet(mac@),
{
    let mut packet: [u8; MAGIC_PACKET_LEN] = [0xff; MAGIC_PACKET_LEN];
    let octets = mac.octets();
    for i in 6..MAGIC_PACKET_LEN
        invariant
            octets@ == mac@,
            forall|j: int| 0 <= j < i ==> packet[j] == magic_packet(mac@)[j],
    {
        packet[i] = octets[(i - 6) % 6];
    }
    assert(packet@ =~= magic_packet(mac@));
    packet
}

/// The step at which sending a packet failed.
#[derive(Debug, PartialEq, Eq)]
pub enum WakeOnLanError {
    /// The network refused.
    Io {
        /// What was being done.
        action: &'static str,
        /// What happened.
        source: IoError,
    },
}

/// What a `WakeOnLanError` says.
pub enum WakeOnLanErrorView {
    /// The network refused.
    Io {
        /// What was being done.
        action: Seq<char>,
        /// What happened.
        source: IoErrorView,
    },
}

impl View for WakeOnLanError {
    type V = WakeOnLanErrorView;

    open spec fn view(&self) -> WakeOnLanErrorView {
        match self {
            WakeOnLanError::Io { action, source } => WakeOnLanErrorView::Io {
                action: action@,
                source: source@,
            },
        }
    }
}

impl WakeOnLanErrorView {
    /// The error in words.
    pub open spec fn text(self) -> Seq<char> {
        match self {
            WakeOnLanErrorView::Io { action, source } => "failed to "@ + action + ": "@
                + source.message,
        }
    }
}

impl WakeOnLanError {
    /// The error in words.
    pub fn to_string(&self) -> (text: String)
        ensures
            text@ == self@.text(),
    {
        match self {
            WakeOnLanError::Io { action, source } => "failed to ".to_owned().concat(action).concat(
                ": ",
            ).concat(source.message.as_str()),
        }
    }
}

/// Sends magic packets over UDP.
#[derive(Debug, Clone, Copy, PartialEq, Eq, Structural)]
pub struct UdpWakeOnLanSender {
    /// Where packets are sent from.
    pub bind_addr: SocketAddrV4,
    /// Where packets are sent to, where the sending does not say.
    pub target_addr: SocketAddrV4,
    /// The network mask, where the sending does not say.
    pub subnet_mask: Option<Ipv4Addr>,
}

/// The directed broadcast address of the network of `ip`: the bits that `mask` leaves to
/// the host are set.
pub open spec fn broadcast_of(ip: Ipv4Addr, mask: Ipv4Addr) -> Ipv4Addr {
    Ipv4Addr { a: ip.a | !mask.a, b: ip.b | !mask.b, c: ip.c | !mask.c, d: ip.d | !mask.d }
}

impl Default for UdpWakeOnLanSender {
    fn default() -> (sender: Self)
        ensures
            sender.bind_addr == (SocketAddrV4 { ip: Ipv4Addr { a: 0, b: 0, c: 0, d: 0 }, port: 0 }),
            sender.target_addr == (SocketAddrV4 {
                ip: Ipv4Addr { a: 255, b: 255, c: 255, d: 255 },
                port: DEFAULT_WOL_PORT,
            }),
            sender.subnet_mask is None,
    {
        UdpWakeOnLanSender::broadcast(DEFAULT_WOL_PORT)
    }
}

impl UdpWakeOnLanSender {
    /// Where a packet goes. With the address of the machine to wake it goes to the directed
    /// broadcast address of that machine's network, at the port of `target_addr`; the mask
    /// is the given one, else that of the sender, else 255.255.255.0.
    pub open spec fn target(self, target_ip: Option<Ipv4Addr>, subnet_mask: Option<Ipv4Addr>) -> SocketAddrV4 {
        match target_ip {
            Some(ip) => SocketAddrV4 {
                ip: broadcast_of(
                    ip,
                    if let Some(mask) = subnet_mask {
                        mask
                    } else if let Some(mask) = self.subnet_mask {
                        mask
                    } else {
                        Ipv4Addr { a: 255, b: 255, c: 255, d: 0 }
                    },
                ),
                port: self.target_addr.port,
            },
            None => self.target_addr,
        }
    }

    /// A sender without a mask of its own.
    pub fn new(bind_addr: SocketAddrV4, target_addr: SocketAddrV4) -> (sender: Self)
        ensures
            sender == (UdpWakeOnLanSender { bind_addr, target_addr, subnet_mask: None }),
    {
        UdpWakeOnLanSender { bind_addr, target_addr, subnet_mask: None }
    }

    /// A sender with a mask of its own.
    pub fn with_subnet_mask(
        bind_addr: SocketAddrV4,
        target_addr: SocketAddrV4,
        subnet_mask: Option<Ipv4Addr>,
    ) -> (sender: Self)
        ensures
            sender == (UdpWakeOnLanSender { bind_addr, target_addr, subnet_mask }),
    {
        UdpWakeOnLanSender { bind_addr, target_addr, subnet_mask }
    }

    /// A sender from any local address to every machine.
    pub fn broadcast(port: u16) -> (sender: Self)
        ensures
            sender == (UdpWakeOnLanSender {
                bind_addr: SocketAddrV4 { ip: Ipv4Addr { a: 0, b: 0, c: 0, d: 0 }, port: 0 },
                target_addr: SocketAddrV4 { ip: Ipv4Addr { a: 255, b: 255, c: 255, d: 255 }, port },
                subnet_mask: None,
            }),
    {
        UdpWakeOnLanSender::new(
            SocketAddrV4::new(Ipv4Addr::new(0, 0, 0, 0), 0),
            SocketAddrV4::new(Ipv4Addr::new(255, 255, 255, 255), port),
        )
    }

    /// Where packets are sent from.
    pub fn bind_addr(&self) -> (address: SocketAddrV4)
        ensures
            address == self.bind_addr,
    {
        self.bind_addr
    }

    /// Where packets are sent to, where the sending does not say.
    pub fn target_addr(&self) -> (address: SocketAddrV4)
        ensures
            address == self.target_addr,
    {
        self.target_addr
    }

    /// The directed broadcast address of the network of `ip`.
    pub fn calculate_broadcast_addr(ip: Ipv4Addr, mask: Ipv4Addr) -> (address: Ipv4Addr)
        ensures
            address == broadcast_of(ip, mask),
    {
        Ipv4Addr::new(ip.a | !mask.a, ip.b | !mask.b, ip.c | !mask.c, ip.d | !mask.d)
    }
}

/// What it takes to send a magic packet.
#[derive(Debug, Clone, Copy, PartialEq, Eq)]
pub struct MagicPacketSend {
    /// Where the socket is bound.
    pub bind_addr: SocketAddrV4,
    /// Where the packet goes.
    pub target_addr: SocketAddrV4,
    /// The packet.
    pub packet: [u8; MAGIC_PACKET_LEN],
}

/// What has to be done with the socket, in this order.
#[derive(Debug, Clone, Copy, PartialEq, Eq, Structural)]
pub enum SendStage {
    /// Bind it.
    Bind,
    /// Allow it to broadcast.
    EnableBroadcast,
    /// Send the packet.
    Send,
}

/// Something that sends magic packets.
pub trait WakeOnLanSender {
    /// How the packet for `mac` is sent, to the machine at `target_ip` where one is given.
    fn send_magic_packet(
        &self,
        mac: &MacAddress,
        target_ip: Option<Ipv4Addr>,
        subnet_mask: Option<Ipv4Addr>,
    ) -> MagicPacketSend;
}

impl WakeOnLanSender for UdpWakeOnLanSender {
    fn send_magic_packet(
        &self,
        mac: &MacAddress,
        target_ip: Option<Ipv4Addr>,
        subnet_mask: Option<Ipv4Addr>,
    ) -> (send: MagicPacketSend)
        ensures
            send.bind_addr == self.bind_addr,
            send.target_addr == self.target(target_ip, subnet_mask),
            send.packet@ == magic_packet(mac@),
    {
        let target_addr = match target_ip {
            Some(ip) => {
                let mask = match (subnet_mask, self.subnet_mask) {
                    (Some(mask), _) => mask,
                    (None, Some(mask)) => mask,
                    (None, None) => Ipv4Addr::new(255, 255, 255, 0),
                };
                SocketAddrV4::new(
                    UdpWakeOnLanSender::calculate_broadcast_addr(ip, mask),
                    self.target_addr.port,
                )
            },
            None => self.target_addr,
        };
        MagicPacketSend { bind_addr: self.bind_addr, target_addr, packet: build_magic_packet(mac) }
    }
}

impl SendStage {
    /// What is being done, in words.
    pub open spec fn text(self) -> Seq<char> {
        match self {
            SendStage::Bind => "bind UDP socket"@,
            SendStage::EnableBroadcast => "enable UDP broadcast"@,
            SendStage::Send => "send Wake-on-LAN packet"@,
        }
    }

    /// What has to be done next, if anything.
    pub open spec fn following(self) -> Option<SendStage> {
        match self {
            SendStage::Bind => Some(SendStage::EnableBroadcast),
            SendStage::EnableBroadcast => Some(SendStage::Send),
            SendStage::Send => None,
        }
    }

    /// What has to be done first.
    pub fn first() -> (stage: SendStage)
        ensures
            stage == SendStage::Bind,
    {
        SendStage::Bind
    }

    /// What has to be done next, if anything, given what came of this. A failure ends the
    /// sending and names what was being done.
    pub fn next(self, outcome: Result<(), IoError>) -> (next: Result<
        Option<SendStage>,
        WakeOnLanError,
    >)
        ensures
            match (outcome, next) {
                (Ok(_), Ok(stage)) => stage == self.following(),
                (Err(failure), Err(error)) => error@ == (WakeOnLanErrorView::Io {
                    action: self.text(),
                    source: failure@,
                }),
                _ => false,
            },
    {
        match outcome {
            Ok(_) => Ok(
                match self {
                    SendStage::Bind => Some(SendStage::EnableBroadcast),
                    SendStage::EnableBroadcast => Some(SendStage::Send),
                    SendStage::Send => None,
                },
            ),
            Err(source) => {
                let action = match self {
                    SendStage::Bind => "bind UDP socket",
                    SendStage::EnableBroadcast => "enable UDP broadcast",
                    SendStage::Send => "send Wake-on-LAN packet",
                };
                Err(WakeOnLanError::Io { action, source })
            },
        }
    }
}

/// Different hardware addresses have different magic packets.
pub proof fn magic_packet_tells_the_address(first: MacAddress, second: MacAddress)
    requires
        magic_packet(first@) == magic_packet(second@),
    ensures
        first == second,
{
    let packet = magic_packet(first@);
    assert(packet[6] == first.a && packet[6] == second.a);
    assert(packet[7] == first.b && packet[7] == second.b);
    assert(packet[8] == first.c && packet[8] == second.c);
    assert(packet[9] == first.d && packet[9] == second.d);
    assert(packet[10] == first.e && packet[10] == second.e);
    assert(packet[11] == first.f && packet[11] == second.f);
}

/// The parts of a magic packet: six bytes `0xff`, and sixteen times the address.
pub proof fn magic_packet_layout(mac: MacAddress, copy: int)
    requires
        0 <= copy < 16,
    ensures
        magic_packet(mac@).len() == 6 + 16 * 6,
        forall|i: int| 0 <= i < 6 ==> magic_packet(mac@)[i] == 0xff,
        magic_packet(mac@).subrange(6 + 6 * copy, 12 + 6 * copy) == mac@,
{
    let part = magic_packet(mac@).subrange(6 + 6 * copy, 12 + 6 * copy);
    assert forall|i: int| 0 <= i < 6 implies part[i] == mac@[i] by {
        assert(part[i] == mac@[(6 * copy + i) % 6]);
    }
    assert(part =~= mac@);
}

/// The address as one number.
pub open spec fn bits(address: Ipv4Addr) -> u32 {
    ((address.a as u32) << 24) | ((address.b as u32) << 16) | ((address.c as u32) << 8) | (
    address.d as u32)
}

/// The directed broadcast address has the network part of the address and every bit of the
/// host part set.
pub proof fn broadcast_sets_the_host_part(ip: Ipv4Addr, mask: Ipv4Addr)
    ensures
        bits(broadcast_of(ip, mask)) == bits(ip) | !bits(mask),
        bits(broadcast_of(ip, mask)) & bits(mask) == bits(ip) & bits(mask),
        bits(broadcast_of(ip, mask)) | bits(mask) == 0xffff_ffffu32,
{
    let (a, b, c, d) = (ip.a, ip.b, ip.c, ip.d);
    let (p, q, r, s) = (mask.a, mask.b, mask.c, mask.d);
    assert((((a | !p) as u32) << 24) | (((b | !q) as u32) << 16) | (((c | !r) as u32) << 8) | ((d
        | !s) as u32) == (((a as u32) << 24) | ((b as u32) << 16) | ((c as u32) << 8) | (d as u32))
        | !(((p as u32) << 24) | ((q as u32) << 16) | ((r as u32) << 8) | (s as u32)))
        by (bit_vector);
    let (whole, network) = (bits(ip), bits(mask));
    assert((whole | !network) & network == whole & network) by (bit_vector);
    assert((whole | !network) | network == 0xffff_ffffu32) by (bit_vector);
}

/// All addresses of a network have the same directed broadcast address, which is its own.
pub proof fn broadcast_is_shared(ip: Ipv4Addr, other: Ipv4Addr, mask: Ipv4Addr)
    requires
        bits(ip) & bits(mask) == bits(other) & bits(mask),
    ensures
        broadcast_of(ip, mask) == broadcast_of(other, mask),
        broadcast_of(broadcast_of(ip, mask), mask) == broadcast_of(ip, mask),
{
    lemma_octets_agree(ip, other, mask);
    lemma_octet_broadcast(ip.a, other.a, mask.a);
    lemma_octet_broadcast(ip.b, other.b, mask.b);
    lemma_octet_broadcast(ip.c, other.c, mask.c);
    lemma_octet_broadcast(ip.d, other.d, mask.d);
}

proof fn lemma_octet_broadcast(x: u8, y: u8, m: u8)
    requires
        x & m == y & m,
    ensures
        x | !m == y | !m,
        (x | !m) | !m == x | !m,
{
    assert(x & m == y & m ==> x | !m == y | !m) by (bit_vector);
    assert((x | !m) | !m == x | !m) by (bit_vector);
}

proof fn lemma_octets_agree(ip: Ipv4Addr, other: Ipv4Addr, mask: Ipv4Addr)
    requires
        bits(ip) & bits(mask) == bits(other) & bits(mask),
    ensures
        ip.a & mask.a == other.a & mask.a,
        ip.b & mask.b == other.b & mask.b,
        ip.c & mask.c == other.c & mask.c,
        ip.d & mask.d == other.d & mask.d,
{
    let (a, b, c, d) = (ip.a, ip.b, ip.c, ip.d);
    let (e, f, g, h) = (other.a, other.b, other.c, other.d);
    let (p, q, r, s) = (mask.a, mask.b, mask.c, mask.d);
    assert(a & p == e & p && b & q == f & q && c & r == g & r && d & s == h & s) by (bit_vector)
        requires
            (((a as u32) << 24) | ((b as u32) << 16) | ((c as u32) << 8) | (d as u32)) & (((
            p as u32) << 24) | ((q as u32) << 16) | ((r as u32) << 8) | (s as u32)) == (((
            e as u32) << 24) | ((f as u32) << 16) | ((g as u32) << 8) | (h as u32)) & (((
            p as u32) << 24) | ((q as u32) << 16) | ((r as u32) << 8) | (s as u32)),
    ;
}

/// Where a packet goes: to the directed broadcast address under the mask that was given, else
/// under the sender's own, else under that of a network of two hundred and fifty-six addresses,
/// at the port of the sender; and where no machine is named, to the address of the sender.
pub proof fn given_mask_comes_first(
    sender: UdpWakeOnLanSender,
    ip: Ipv4Addr,
    given: Ipv4Addr,
    own: Ipv4Addr,
)
    ensures
        sender.target(Some(ip), Some(given)).ip == broadcast_of(ip, given),
        sender.subnet_mask == Some(own) ==> sender.target(Some(ip), None).ip == broadcast_of(
            ip,
            own,
        ),
        sender.subnet_mask is None ==> sender.target(Some(ip), None).ip == (Ipv4Addr {
            a: ip.a,
            b: ip.b,
            c: ip.c,
            d: 255,
        }),
        forall|mask: Option<Ipv4Addr>|
            (#[trigger] sender.target(Some(ip), mask)).port == sender.target_addr.port,
        forall|mask: Option<Ipv4Addr>|
            #[trigger] sender.target(None, mask) == sender.target_addr,
{
    let (a, b, c, d) = (ip.a, ip.b, ip.c, ip.d);
    assert(a | !255u8 == a) by (bit_vector);
    assert(b | !255u8 == b) by (bit_vector);
    assert(c | !255u8 == c) by (bit_vector);
    assert(d | !0u8 == 255u8) by (bit_vector);
}

/// The mask of the whole address leaves it alone, and the empty mask makes every address the
/// broadcast address of all.
pub proof fn extreme_masks(ip: Ipv4Addr)
    ensures
        broadcast_of(ip, Ipv4Addr { a: 255, b: 255, c: 255, d: 255 }) == ip,
        broadcast_of(ip, Ipv4Addr { a: 0, b: 0, c: 0, d: 0 }) == (Ipv4Addr {
            a: 255,
            b: 255,
            c: 255,
            d: 255,
        }),
{
    let (a, b, c, d) = (ip.a, ip.b, ip.c, ip.d);
    assert(a | !255u8 == a && a | !0u8 == 255u8) by (bit_vector);
    assert(b | !255u8 == b && b | !0u8 == 255u8) by (bit_vector);
    assert(c | !255u8 == c && c | !0u8 == 255u8) by (bit_vector);
    assert(d | !255u8 == d && d | !0u8 == 255u8) by (bit_vector);
}

/// An error names what was being done and then what happened.
pub proof fn send_error_in_words(action: Seq<char>, source: IoErrorView)
    ensures
        (WakeOnLanErrorView::Io { action, source }).text() == "failed to "@ + (action + ": "@
            + source.message),
{
    assert((WakeOnLanErrorView::Io { action, source }).text() =~= "failed to "@ + (action + ": "@
        + source.message));
}

} // verus!
