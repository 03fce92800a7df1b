//! The client side of a SOCKS5 handshake.
//!
//! The client offers one authentication method, "none", and asks the proxy
//! to connect to a target that it names by host name and port, so that the
//! name is looked up at the proxy. Nothing here touches a socket: the
//! handshake is a state machine that says what to send and how many bytes to
//! read, and is told what came.

use vstd::pervasive::unreached;
use vstd::prelude::*;
use vstd::utf8::encode_utf8;

use crate::error::SocksError;

verus! {

/// The protocol version that every message begins with.
pub const VERSION: u8 = 5;

/// The authentication method "none".
pub const NO_AUTH: u8 = 0;

/// The proxy's answer where it accepts none of the methods offered.
pub const NO_ACCEPTABLE_METHOD: u8 = 255;

/// The command that asks for a connection to the target.
pub const CONNECT: u8 = 1;

/// The address type of an IPv4 address.
pub const ADDRESS_V4: u8 = 1;

/// The address type of a host name.
pub const ADDRESS_DOMAIN: u8 = 3;

/// The address type of an IPv6 address.
pub const ADDRESS_V6: u8 = 4;

/// The reply code of a request that was granted.
pub const SUCCEEDED: u8 = 0;

/// The greeting: version 5, one method offered, and that method is "none".
pub open spec fn spec_greeting() -> Seq<u8> {
    seq![VERSION, 1u8, NO_AUTH]
}

/// A host name that a request can carry: its length must fit in one byte,
/// and an empty name names nothing.
pub open spec fn valid_host(host: Seq<u8>) -> bool {
    1 <= host.len() <= 255
}

/// The request to connect to `host` at `port`: version, command, a reserved
/// zero, the address type of a host name, the name's length and the name,
/// and the port with its high byte first.
pub open spec fn spec_connect_request(host: Seq<u8>, port: u16) -> Seq<u8> {
    seq![VERSION, CONNECT, 0u8, ADDRESS_DOMAIN, host.len() as u8] + host + seq![
        (port / 256) as u8,
        (port % 256) as u8,
    ]
}

/// The greeting that opens the handshake.
pub fn greeting() -> (bytes: Vec<u8>)
    ensures
        bytes@ == spec_greeting(),
{
    let mut bytes: Vec<u8> = Vec::new();
    bytes.push(VERSION);
    bytes.push(1u8);
    bytes.push(NO_AUTH);
    assert(bytes@ =~= spec_greeting());
    bytes
}

/// The request to connect to `host` at `port`, or `InvalidTarget` where the
/// host name is empty or longer than 255 bytes.
pub fn connect_request(host: &[u8], port: u16) -> (request: Result<Vec<u8>, SocksError>)
    ensures
        match request {
            Ok(bytes) => valid_host(host@) && bytes@ == spec_connect_request(host@, port),
            Err(e) => !valid_host(host@) && e == SocksError::InvalidTarget,
        },
{
    if host.len() == 0 || host.len() > 255 {
        return Err(SocksError::InvalidTarget);
    }
    let mut bytes: Vec<u8> = Vec::new();
    bytes.push(VERSION);
    bytes.push(CONNECT);
    bytes.push(0u8);
    bytes.push(ADDRESS_DOMAIN);
    bytes.push(host.len() as u8);
    bytes.extend_from_slice(host);
    bytes.push((port / 256) as u8);
    bytes.push((port % 256) as u8);
    assert(bytes@ =~= spec_connect_request(host@, port));
    Ok(bytes)
}

/// What the proxy's choice of method means: two bytes, the version and the
/// method. Only "none" was offered, so only "none" is accepted.
pub open spec fn spec_method_selection(reply: Seq<u8>) -> Result<(), SocksError> {
    if reply.len() < 2 {
        Err(SocksError::UnexpectedEof)
    } else if reply[0] != VERSION {
        Err(SocksError::InvalidVersion(reply[0]))
    } else if reply[1] == NO_AUTH {
        Ok(())
    } else if reply[1] == NO_ACCEPTABLE_METHOD {
        Err(SocksError::NoAcceptableAuthMethod)
    } else {
        Err(SocksError::UnsupportedAuthMethod(reply[1]))
    }
}

/// Reads the proxy's choice of method.
pub fn method_selection(reply: &[u8]) -> (choice: Result<(), SocksError>)
    ensures
        choice == spec_method_selection(reply@),
{
    if reply.len() < 2 {
        Err(SocksError::UnexpectedEof)
    } else if reply[0] != VERSION {
        Err(SocksError::InvalidVersion(reply[0]))
    } else if reply[1] == NO_AUTH {
        Ok(())
    } else if reply[1] == NO_ACCEPTABLE_METHOD {
        Err(SocksError::NoAcceptableAuthMethod)
    } else {
        Err(SocksError::UnsupportedAuthMethod(reply[1]))
    }
}

/// The kind of address that the proxy reports to have bound.
#[derive(Debug, Clone, Copy, PartialEq, Eq, Structural, Hash)]
pub enum AddressKind {
    V4,
    Domain,
    V6,
}

/// What the head of the proxy's reply means: four bytes, the version, the
/// reply code, a reserved zero and the type of the address that follows.
/// They are judged in that order, so a refusal is reported as such whatever
/// follows the reply code.
pub open spec fn spec_reply_head(head: Seq<u8>) -> Result<AddressKind, SocksError> {
    if head.len() < 4 {
        Err(SocksError::UnexpectedEof)
    } else if head[0] != VERSION {
        Err(SocksError::InvalidVersion(head[0]))
    } else if head[1] != SUCCEEDED {
        Err(SocksError::Rejected(head[1]))
    } else if head[2] != 0 {
        Err(SocksError::InvalidReservedByte(head[2]))
    } else if head[3] == ADDRESS_V4 {
        Ok(AddressKind::V4)
    } else if head[3] == ADDRESS_DOMAIN {
        Ok(AddressKind::Domain)
    } else if head[3] == ADDRESS_V6 {
        Ok(AddressKind::V6)
    } else {
        Err(SocksError::UnknownAddressType(head[3]))
    }
}

/// Reads the head of the proxy's reply to the request.
pub fn reply_head(head: &[u8]) -> (kind: Result<AddressKind, SocksError>)
    ensures
        kind == spec_reply_head(head@),
{
    if head.len() < 4 {
        Err(SocksError::UnexpectedEof)
    } else if head[0] != VERSION {
        Err(SocksError::InvalidVersion(head[0]))
    } else if head[1] != SUCCEEDED {
        Err(SocksError::Rejected(head[1]))
    } else if head[2] != 0 {
        Err(SocksError::InvalidReservedByte(head[2]))
    } else if head[3] == ADDRESS_V4 {
        Ok(AddressKind::V4)
    } else if head[3] == ADDRESS_DOMAIN {
        Ok(AddressKind::Domain)
    } else if head[3] == ADDRESS_V6 {
        Ok(AddressKind::V6)
    } else {
        Err(SocksError::UnknownAddressType(head[3]))
    }
}

/// Where a handshake stands.
#[derive(Debug, Clone, Copy, PartialEq, Eq, Structural, Hash)]
pub enum Phase {
    /// The greeting goes out and the proxy's choice of method is awaited.
    Method,
    /// The request goes out and the head of the reply is awaited.
    ReplyHead,
    /// The proxy bound a host name, whose length is awaited.
    DomainLength,
    /// The rest of the reply is awaited: `len` bytes of address and port.
    BoundAddress { len: usize },
    /// The proxy granted the request: the stream now leads to the target.
    Established,
    /// The handshake was given up.
    Failed(SocksError),
}

impl Phase {
    /// Whether the handshake is over, one way or the other.
    pub open spec fn is_final(self) -> bool {
        self is Established || self is Failed
    }

    /// The number of bytes that the phase waits for.
    pub open spec fn awaited(self) -> nat {
        match self {
            Phase::Method => 2,
            Phase::ReplyHead => 4,
            Phase::DomainLength => 1,
            Phase::BoundAddress { len } => len as nat,
            Phase::Established => 0,
            Phase::Failed(_) => 0,
        }
    }

    /// The phase that follows when the awaited bytes have come. A handshake
    /// that is over stays as it is. Bytes in any other number than the
    /// awaited one mean that the stream ended early.
    pub open spec fn after(self, bytes: Seq<u8>) -> Phase {
        if self.is_final() {
            self
        } else if bytes.len() != self.awaited() {
            Phase::Failed(SocksError::UnexpectedEof)
        } else {
            match self {
                Phase::Method => match spec_method_selection(bytes) {
                    Ok(_) => Phase::ReplyHead,
                    Err(e) => Phase::Failed(e),
                },
                Phase::ReplyHead => match spec_reply_head(bytes) {
                    Ok(AddressKind::V4) => Phase::BoundAddress { len: 6 },
                    Ok(AddressKind::Domain) => Phase::DomainLength,
                    Ok(AddressKind::V6) => Phase::BoundAddress { len: 18 },
                    Err(e) => Phase::Failed(e),
                },
                Phase::DomainLength => Phase::BoundAddress { len: (bytes[0] + 2) as usize },
                _ => Phase::Established,
            }
        }
    }

    /// The phase that follows when the stream ends: a handshake that is not
    /// over has failed.
    pub open spec fn after_close(self) -> Phase {
        if self.is_final() {
            self
        } else {
            Phase::Failed(SocksError::UnexpectedEof)
        }
    }
}

/// What the one who holds the socket is to do next.
#[derive(Debug, Clone, PartialEq, Eq, Hash)]
pub enum Action {
    /// Write `bytes`, then read exactly `then_read` bytes.
    Send { bytes: Vec<u8>, then_read: usize },
    /// Read exactly this many bytes.
    Read(usize),
    /// Nothing more: the stream is connected to the target, and every
    /// further byte on it is the target's.
    Done,
    /// Nothing more: drop the stream and report the error.
    Fail(SocksError),
}

/// The mathematical value of an [`Action`].
pub enum ActionView {
    Send { bytes: Seq<u8>, then_read: usize },
    Read(usize),
    Done,
    Fail(SocksError),
}

impl View for Action {
    type V = ActionView;

    open spec fn view(&self) -> ActionView {
        match self {
            Action::Send { bytes, then_read } => ActionView::Send {
                bytes: bytes@,
                then_read: *then_read,
            },
            Action::Read(n) => ActionView::Read(*n),
            Action::Done => ActionView::Done,
            Action::Fail(e) => ActionView::Fail(*e),
        }
    }
}

/// The action that a phase begins with, in a handshake for `host` and
/// `port`.
pub open spec fn spec_action(phase: Phase, host: Seq<u8>, port: u16) -> ActionView {
    match phase {
        Phase::Method => ActionView::Send { bytes: spec_greeting(), then_read: 2 },
        Phase::ReplyHead => ActionView::Send {
            bytes: spec_connect_request(host, port),
            then_read: 4,
        },
        Phase::DomainLength => ActionView::Read(1),
        Phase::BoundAddress { len } => ActionView::Read(len),
        Phase::Established => ActionView::Done,
        Phase::Failed(e) => ActionView::Fail(e),
    }
}

/// A SOCKS5 handshake with one proxy for one target.
#[derive(Debug)]
pub struct Handshake {
    phase: Phase,
    host: Vec<u8>,
    port: u16,
}

/// The mathematical value of a [`Handshake`].
pub struct HandshakeView {
    pub phase: Phase,
    pub host: Seq<u8>,
    pub port: u16,
}

impl View for Handshake {
    type V = HandshakeView;

    closed spec fn view(&self) -> HandshakeView {
        HandshakeView { phase: self.phase, host: self.host@, port: self.port }
    }
}

impl Handshake {
    /// Every handshake is for a host name that a request can carry.
    #[verifier::type_invariant]
    spec fn inv(self) -> bool {
        valid_host(self.host@)
    }

    /// A handshake for the target `host` at `port`, about to send its
    /// greeting; or `InvalidTarget` where the host name is empty or longer
    /// than 255 bytes.
    pub fn start(host: &str, port: u16) -> (handshake: Result<Handshake, SocksError>)
        ensures
            match handshake {
                Ok(h) => valid_host(encode_utf8(host@)) && h@ == (HandshakeView {
                    phase: Phase::Method,
                    host: encode_utf8(host@),
                    port,
                }),
                Err(e) => !valid_host(encode_utf8(host@)) && e == SocksError::InvalidTarget,
            },
    {
        let name: &[u8] = host.as_bytes();
        if name.len() == 0 || name.len() > 255 {
            return Err(SocksError::InvalidTarget);
        }
        let mut bytes: Vec<u8> = Vec::new();
        bytes.extend_from_slice(name);
        assert(bytes@ =~= name@);
        Ok(Handshake { phase: Phase::Method, host: bytes, port })
    }

    /// The phase that the handshake is in.
    pub fn phase(&self) -> (phase: Phase)
        ensures
            phase == self@.phase,
    {
        self.phase
    }

    /// The action that the present phase begins with.
    pub fn action(&self) -> (action: Action)
        ensures
            action@ == spec_action(self@.phase, self@.host, self@.port),
    {
        proof {
            use_type_invariant(self);
        }
        match self.phase {
            Phase::Method => Action::Send { bytes: greeting(), then_read: 2 },
            Phase::ReplyHead => {
                match connect_request(self.host.as_slice(), self.port) {
                    Ok(bytes) => Action::Send { bytes, then_read: 4 },
                    Err(_) => unreached(),
                }
            },
            Phase::DomainLength => Action::Read(1),
            Phase::BoundAddress { len } => Action::Read(len),
            Phase::Established => Action::Done,
            Phase::Failed(e) => Action::Fail(e),
        }
    }

    /// Takes the bytes that were read and moves to the next phase, whose
    /// action is returned.
    pub fn receive(&mut self, bytes: &[u8]) -> (action: Action)
        ensures
            final(self)@.phase == old(self)@.phase.after(bytes@),
            final(self)@.host == old(self)@.host,
            final(self)@.port == old(self)@.port,
            action@ == spec_action(final(self)@.phase, final(self)@.host, final(self)@.port),
    {
        let next: Phase = match self.phase {
            Phase::Established => Phase::Established,
            Phase::Failed(e) => Phase::Failed(e),
            Phase::Method => {
                if bytes.len() != 2 {
                    Phase::Failed(SocksError::UnexpectedEof)
                } else {
                    match method_selection(bytes) {
                        Ok(_) => Phase::ReplyHead,
                        Err(e) => Phase::Failed(e),
                    }
                }
            },
            Phase::ReplyHead => {
                if bytes.len() != 4 {
                    Phase::Failed(SocksError::UnexpectedEof)
                } else {
                    match reply_head(bytes) {
                        Ok(AddressKind::V4) => Phase::BoundAddress { len: 6 },
                        Ok(AddressKind::Domain) => Phase::DomainLength,
                        Ok(AddressKind::V6) => Phase::BoundAddress { len: 18 },
                        Err(e) => Phase::Failed(e),
                    }
                }
            },
            Phase::DomainLength => {
                if bytes.len() != 1 {
                    Phase::Failed(SocksError::UnexpectedEof)
                } else {
                    let n: usize = bytes[0] as usize;
                    Phase::BoundAddress { len: n + 2 }
                }
            },
            Phase::BoundAddress { len } => {
                if bytes.len() != len {
                    Phase::Failed(SocksError::UnexpectedEof)
                } else {
                    Phase::Established
                }
            },
        };
        proof {
            use_type_invariant(&*self);
        }
        self.phase = next;
        self.action()
    }

    /// Takes note that the stream ended and moves to the next phase, whose
    /// action is returned.
    pub fn closed(&mut self) -> (action: Action)
        ensures
            final(self)@.phase == old(self)@.phase.after_close(),
            final(self)@.host == old(self)@.host,
            final(self)@.port == old(self)@.port,
            action@ == spec_action(final(self)@.phase, final(self)@.host, final(self)@.port),
    {
        let next: Phase = match self.phase {
            Phase::Established => Phase::Established,
            Phase::Failed(e) => Phase::Failed(e),
            _ => Phase::Failed(SocksError::UnexpectedEof),
        };
        proof {
            use_type_invariant(&*self);
        }
        self.phase = next;
        self.action()
    }
}

/// The phase that a handshake is in after it was handed `chunks`, one
/// after the other, starting in `phase`.
pub open spec fn spec_run(phase: Phase, chunks: Seq<Seq<u8>>) -> Phase
    decreases chunks.len(),
{
    if chunks.len() == 0 {
        phase
    } else {
        spec_run(phase.after(chunks[0]), chunks.drop_first())
    }
}

/// A proxy that answers the request with a reply code other than zero has
/// refused it: the handshake fails with `Rejected` and that code, whatever
/// else the reply holds, and the action is to give up.
pub proof fn lemma_refusal_fails(head: Seq<u8>, host: Seq<u8>, port: u16)
    requires
        head.len() == 4,
        head[0] == VERSION,
        head[1] != SUCCEEDED,
    ensures
        Phase::ReplyHead.after(head) == Phase::Failed(SocksError::Rejected(head[1])),
        spec_action(Phase::ReplyHead.after(head), host, port) == ActionView::Fail(
            SocksError::Rejected(head[1]),
        ),
{
}

/// A handshake that is over stays as it is, whatever comes after.
pub proof fn lemma_final_phase_stays(phase: Phase, chunks: Seq<Seq<u8>>)
    requires
        phase.is_final(),
    ensures
        spec_run(phase, chunks) == phase,
    decreases chunks.len(),
{
    if chunks.len() > 0 {
        lemma_final_phase_stays(phase, chunks.drop_first());
    }
}

/// Only the greeting and the request are ever sent, each once: the greeting
/// at the start, the request when the proxy has accepted the method. When
/// the handshake is over nothing is sent or read any more.
pub proof fn lemma_what_is_sent(phase: Phase, host: Seq<u8>, port: u16)
    ensures
        match spec_action(phase, host, port) {
            ActionView::Send { bytes, then_read } => {
                &&& then_read == phase.awaited()
                &&& phase is Method ==> bytes == spec_greeting()
                &&& phase is ReplyHead ==> bytes == spec_connect_request(host, port)
                &&& phase is Method || phase is ReplyHead
            },
            ActionView::Read(n) => n == phase.awaited() && !phase.is_final(),
            ActionView::Done => phase is Established,
            ActionView::Fail(e) => phase == Phase::Failed(e),
        },
{
}

/// The request names its target: the host name and the port can be read
/// back from the bytes, so two targets never share a request.
pub proof fn lemma_request_names_target(host: Seq<u8>, port: u16)
    requires
        valid_host(host),
    ensures
        ({
            let request = spec_connect_request(host, port);
            let n = host.len() as int;
            &&& request.len() == n + 7
            &&& request[0] == VERSION
            &&& request[1] == CONNECT
            &&& request[2] == 0
            &&& request[3] == ADDRESS_DOMAIN
            &&& request[4] == host.len()
            &&& request.subrange(5, 5 + n) == host
            &&& request[5 + n] * 256 + request[6 + n] == port
        }),
{
    let request = spec_connect_request(host, port);
    assert(request.subrange(5, 5 + host.len() as int) =~= host);
}

/// Where a handshake stands when the proxy has sent `received` in all:
/// the proxy's side of the handshake read as one stream of bytes. Two bytes
/// choose the method, four are the head of the reply, and the address type
/// in the head tells how many more belong to the reply.
pub open spec fn spec_progress(received: Seq<u8>) -> Phase {
    if received.len() < 2 {
        Phase::Method
    } else {
        match spec_method_selection(received.subrange(0, 2)) {
            Err(e) => Phase::Failed(e),
            Ok(_) => if received.len() < 6 {
                Phase::ReplyHead
            } else {
                match spec_reply_head(received.subrange(2, 6)) {
                    Err(e) => Phase::Failed(e),
                    Ok(AddressKind::V4) => if received.len() < 12 {
                        Phase::BoundAddress { len: 6 }
                    } else {
                        Phase::Established
                    },
                    Ok(AddressKind::V6) => if received.len() < 24 {
                        Phase::BoundAddress { len: 18 }
                    } else {
                        Phase::Established
                    },
                    Ok(AddressKind::Domain) => if received.len() < 7 {
                        Phase::DomainLength
                    } else if received.len() < 9 + received[6] {
                        Phase::BoundAddress { len: (received[6] + 2) as usize }
                    } else {
                        Phase::Established
                    },
                }
            },
        }
    }
}

/// The chunks laid end to end.
pub open spec fn spec_joined(chunks: Seq<Seq<u8>>) -> Seq<u8>
    decreases chunks.len(),
{
    if chunks.len() == 0 {
        Seq::empty()
    } else {
        chunks[0] + spec_joined(chunks.drop_first())
    }
}

/// Whether the chunks are what the handshake asked for, starting in
/// `phase`: each holds as many bytes as the phase it came in waited for,
/// and none came when the handshake was over.
pub open spec fn read_as_asked(phase: Phase, chunks: Seq<Seq<u8>>) -> bool
    decreases chunks.len(),
{
    chunks.len() == 0 || (!phase.is_final() && chunks[0].len() == phase.awaited() && read_as_asked(
        phase.after(chunks[0]),
        chunks.drop_first(),
    ))
}

/// The length of the proxy's side of a handshake that was granted: the
/// choice of method, the head of the reply, and the bound address and port
/// in the form that the head announces.
pub open spec fn spec_granted_len(received: Seq<u8>) -> nat {
    if received[5] == ADDRESS_V4 {
        12
    } else if received[5] == ADDRESS_V6 {
        24
    } else {
        (9 + received[6]) as nat
    }
}

/// Whether `received` ends where a read of the handshake ends, so that the
/// next byte is the first of what the present phase waits for.
pub open spec fn ends_at_read(received: Seq<u8>) -> bool {
    match spec_progress(received) {
        Phase::Method => received.len() == 0,
        Phase::ReplyHead => received.len() == 2,
        Phase::DomainLength => received.len() == 6,
        Phase::BoundAddress { .. } => if received[5] == ADDRESS_DOMAIN {
            received.len() == 7
        } else {
            received.len() == 6
        },
        Phase::Established => received.len() == spec_granted_len(received),
        Phase::Failed(_) => true,
    }
}

/// One read more: the phase after the read is where the longer stream
/// stands.
proof fn lemma_read_agrees(received: Seq<u8>, chunk: Seq<u8>)
    requires
        ends_at_read(received),
        !spec_progress(received).is_final(),
        chunk.len() == spec_progress(received).awaited(),
    ensures
        spec_progress(received + chunk) == spec_progress(received).after(chunk),
        ends_at_read(received + chunk),
{
    let longer = received + chunk;
    match spec_progress(received) {
        Phase::Method => {
            assert(longer.subrange(0, 2) =~= chunk);
        },
        Phase::ReplyHead => {
            assert(longer.subrange(0, 2) =~= received.subrange(0, 2));
            assert(longer.subrange(2, 6) =~= chunk);
            assert(longer[5] == chunk[3]);
        },
        Phase::DomainLength => {
            assert(longer.subrange(0, 2) =~= received.subrange(0, 2));
            assert(longer.subrange(2, 6) =~= received.subrange(2, 6));
            assert(longer[6] == chunk[0]);
            assert(longer[5] == received[5]);
        },
        Phase::BoundAddress { len } => {
            assert(longer.subrange(0, 2) =~= received.subrange(0, 2));
            assert(longer.subrange(2, 6) =~= received.subrange(2, 6));
            assert(received.subrange(2, 6)[3] == received[5]);
            if received[5] == ADDRESS_DOMAIN {
                assert(longer[6] == received[6]);
            }
        },
        _ => {},
    }
}

/// Reads that follow a stream that ends at a read: the handshake ends up
/// where the whole stream stands.
proof fn lemma_reads_agree(received: Seq<u8>, chunks: Seq<Seq<u8>>)
    requires
        ends_at_read(received),
        read_as_asked(spec_progress(received), chunks),
    ensures
        spec_run(spec_progress(received), chunks) == spec_progress(received + spec_joined(chunks)),
        ends_at_read(received + spec_joined(chunks)),
    decreases chunks.len(),
{
    if chunks.len() == 0 {
        assert(received + spec_joined(chunks) =~= received);
    } else {
        let longer = received + chunks[0];
        lemma_read_agrees(received, chunks[0]);
        lemma_reads_agree(longer, chunks.drop_first());
        assert(longer + spec_joined(chunks.drop_first()) =~= received + spec_joined(chunks));
    }
}

/// The handshake reads the proxy's stream as it is meant: handed the
/// proxy's bytes in the amounts it asked for, from the start, it ends up in
/// the phase that the bytes, laid end to end, stand for.
pub proof fn lemma_handshake_follows_stream(chunks: Seq<Seq<u8>>)
    requires
        read_as_asked(Phase::Method, chunks),
    ensures
        spec_run(Phase::Method, chunks) == spec_progress(spec_joined(chunks)),
{
    let nothing = Seq::<u8>::empty();
    lemma_reads_agree(nothing, chunks);
    assert(nothing + spec_joined(chunks) =~= spec_joined(chunks));
}

/// The handshake reads the proxy's reply and not a byte more: when it is
/// established, what it has read is as long as the reply, so the next byte
/// on the stream is the target's.
pub proof fn lemma_nothing_read_beyond_reply(chunks: Seq<Seq<u8>>)
    requires
        read_as_asked(Phase::Method, chunks),
        spec_run(Phase::Method, chunks) is Established,
    ensures
        spec_joined(chunks).len() == spec_granted_len(spec_joined(chunks)),
{
    let nothing = Seq::<u8>::empty();
    lemma_reads_agree(nothing, chunks);
    assert(nothing + spec_joined(chunks) =~= spec_joined(chunks));
}

/// A handshake is established only by a proxy that chose the method "none"
/// and answered the request with the reply code zero.
pub proof fn lemma_established_was_granted(received: Seq<u8>)
    requires
        spec_progress(received) is Established,
    ensures
        received.len() >= 9,
        received[0] == VERSION,
        received[1] == NO_AUTH,
        received[2] == VERSION,
        received[3] == SUCCEEDED,
{
    assert(received.subrange(0, 2)[0] == received[0]);
    assert(received.subrange(0, 2)[1] == received[1]);
    assert(received.subrange(2, 6)[0] == received[2]);
    assert(received.subrange(2, 6)[1] == received[3]);
    assert(received.subrange(2, 6)[3] == received[5]);
}

} // verus!
