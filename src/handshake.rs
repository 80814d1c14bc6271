//! The per-connection SOCKS5 handshake: greeting, method selection, the
//! username/password sub-negotiation and the request, as a state machine
//! that is fed the bytes it asks for and answers with the bytes to write.
use crate::config::AuthMode;
use crate::endpoint::{decode_request_endpoint, parse_address, Endpoint, EndpointView};
use crate::reply::{
    reply_error, reply_frame, REP_ADDRESS_TYPE_NOT_SUPPORTED, REP_COMMAND_NOT_SUPPORTED,
    REP_GENERAL_FAILURE,
};
use vstd::prelude::*;

verus! {

pub const SOCKS_VERSION: u8 = 0x05;
pub const AUTH_VERSION: u8 = 0x01;
pub const METHOD_NO_AUTH: u8 = 0x00;
pub const METHOD_USER_PASS: u8 = 0x02;
pub const METHOD_NONE_ACCEPTABLE: u8 = 0xFF;
pub const CMD_CONNECT: u8 = 0x01;
pub const CMD_UDP_ASSOCIATE: u8 = 0x03;

/// The commands this server carries out.
#[derive(Clone, Copy, Debug, PartialEq, Eq)]
pub enum Command {
    Connect,
    UdpAssociate,
}

/// A parsed request; the target is not resolved.
#[derive(Clone, Debug, PartialEq, Eq)]
pub struct Request {
    pub command: Command,
    pub target: Endpoint,
}

/// Why a handshake ended without a request.
#[derive(Clone, Copy, Debug, PartialEq, Eq)]
pub enum HandshakeError {
    /// A bad version byte, or input after the handshake ended.
    ProtocolError,
    NoAcceptableMethod,
    AuthFailed,
    UnsupportedCommand,
    UnsupportedAddressType,
    /// A domain name of length zero.
    MalformedAddress,
}

/// What the handshake waits for next.
#[derive(Clone, Copy, Debug, PartialEq, Eq)]
pub enum Phase {
    /// VER | NMETHODS
    Greeting,
    /// NMETHODS method identifiers
    Methods,
    /// AVER of the username/password sub-negotiation
    AuthVersion,
    UserLength,
    User,
    PassLength,
    Pass,
    /// VER | CMD | RSV | ATYP
    RequestHead,
    /// The length byte of a domain name
    DomainLength { command: Command },
    /// The rest of the address, through the port
    Address { command: Command },
    /// Ended, with a request or a failure
    Finished,
}

/// What the caller does after writing the reply of a step.
#[derive(Clone, Debug, PartialEq, Eq)]
pub enum Next {
    /// Read exactly this many bytes and feed them.
    Read(usize),
    /// The handshake is complete.
    Ready(Request),
    /// Close the connection.
    Failed(HandshakeError),
}

/// The outcome of feeding one chunk: bytes to write, then what follows.
#[derive(Clone, Debug, PartialEq, Eq)]
pub struct Step {
    pub reply: Vec<u8>,
    pub next: Next,
}

pub enum NextView {
    Read(nat),
    Ready(Command, EndpointView),
    Failed(HandshakeError),
}

impl View for Next {
    type V = NextView;

    open spec fn view(&self) -> NextView {
        match self {
            Next::Read(n) => NextView::Read(*n as nat),
            Next::Ready(req) => NextView::Ready(req.command, req.target@),
            Next::Failed(e) => NextView::Failed(*e),
        }
    }
}

/// Model of a handshake in progress: the phase, the number of bytes it waits
/// for, the username received so far, and the address bytes received so far.
pub struct HandshakeView {
    pub phase: Phase,
    pub want: nat,
    pub user: Seq<u8>,
    pub address: Seq<u8>,
}

impl HandshakeView {
    /// The number of bytes waited for fits the phase's fixed-size fields.
    pub open spec fn wf(self) -> bool {
        match self.phase {
            Phase::Greeting => self.want == 2,
            Phase::AuthVersion | Phase::UserLength | Phase::PassLength => self.want == 1,
            Phase::DomainLength { .. } => self.want == 1,
            Phase::RequestHead => self.want == 4,
            _ => true,
        }
    }
}

/// The model of one step: the state after it, the reply, and what follows.
pub struct Transition {
    pub state: HandshakeView,
    pub reply: Seq<u8>,
    pub next: NextView,
}

pub open spec fn goto(h: HandshakeView, phase: Phase, want: nat, reply: Seq<u8>) -> Transition {
    Transition {
        state: HandshakeView { phase, want, ..h },
        reply,
        next: NextView::Read(want),
    }
}

pub open spec fn fail(h: HandshakeView, reply: Seq<u8>, err: HandshakeError) -> Transition {
    Transition {
        state: HandshakeView { phase: Phase::Finished, want: 0, ..h },
        reply,
        next: NextView::Failed(err),
    }
}

pub open spec fn method_reply(method: u8) -> Seq<u8> {
    seq![SOCKS_VERSION, method]
}

pub open spec fn auth_reply(status: u8) -> Seq<u8> {
    seq![AUTH_VERSION, status]
}

/// One step of the handshake: what the chunk `input` (of the length the
/// state waits for) does, given the configured credentials `creds`.
pub open spec fn transition(
    creds: Option<(Seq<u8>, Seq<u8>)>,
    h: HandshakeView,
    input: Seq<u8>,
) -> Transition {
    match h.phase {
        Phase::Greeting => {
            if input[0] != SOCKS_VERSION {
                fail(h, seq![], HandshakeError::ProtocolError)
            } else {
                goto(h, Phase::Methods, input[1] as nat, seq![])
            }
        },
        Phase::Methods => {
            match creds {
                None => {
                    if input.contains(METHOD_NO_AUTH) {
                        goto(h, Phase::RequestHead, 4, method_reply(METHOD_NO_AUTH))
                    } else {
                        fail(
                            h,
                            method_reply(METHOD_NONE_ACCEPTABLE),
                            HandshakeError::NoAcceptableMethod,
                        )
                    }
                },
                Some(_) => {
                    if input.contains(METHOD_USER_PASS) {
                        goto(h, Phase::AuthVersion, 1, method_reply(METHOD_USER_PASS))
                    } else {
                        fail(
                            h,
                            method_reply(METHOD_NONE_ACCEPTABLE),
                            HandshakeError::NoAcceptableMethod,
                        )
                    }
                },
            }
        },
        Phase::AuthVersion => {
            if input[0] != AUTH_VERSION {
                fail(h, seq![], HandshakeError::ProtocolError)
            } else {
                goto(h, Phase::UserLength, 1, seq![])
            }
        },
        Phase::UserLength => goto(h, Phase::User, input[0] as nat, seq![]),
        Phase::User => goto(HandshakeView { user: input, ..h }, Phase::PassLength, 1, seq![]),
        Phase::PassLength => goto(h, Phase::Pass, input[0] as nat, seq![]),
        Phase::Pass => {
            if creds == Some((h.user, input)) {
                goto(h, Phase::RequestHead, 4, auth_reply(0x00))
            } else {
                fail(h, auth_reply(0x01), HandshakeError::AuthFailed)
            }
        },
        Phase::RequestHead => {
            let cmd = input[1];
            let atyp = input[3];
            let command = if cmd == CMD_CONNECT {
                Command::Connect
            } else {
                Command::UdpAssociate
            };
            if input[0] != SOCKS_VERSION {
                fail(h, seq![], HandshakeError::ProtocolError)
            } else if cmd != CMD_CONNECT && cmd != CMD_UDP_ASSOCIATE {
                fail(
                    h,
                    reply_frame(REP_COMMAND_NOT_SUPPORTED, 0),
                    HandshakeError::UnsupportedCommand,
                )
            } else if atyp == 0x01 {
                goto(
                    HandshakeView { address: seq![atyp], ..h },
                    Phase::Address { command },
                    6,
                    seq![],
                )
            } else if atyp == 0x04 {
                goto(
                    HandshakeView { address: seq![atyp], ..h },
                    Phase::Address { command },
                    18,
                    seq![],
                )
            } else if atyp == 0x03 {
                goto(
                    HandshakeView { address: seq![atyp], ..h },
                    Phase::DomainLength { command },
                    1,
                    seq![],
                )
            } else {
                fail(
                    h,
                    reply_frame(REP_ADDRESS_TYPE_NOT_SUPPORTED, 0),
                    HandshakeError::UnsupportedAddressType,
                )
            }
        },
        Phase::DomainLength { command } => {
            if input[0] == 0 {
                fail(h, reply_frame(REP_GENERAL_FAILURE, 0), HandshakeError::MalformedAddress)
            } else {
                goto(
                    HandshakeView { address: h.address + input, ..h },
                    Phase::Address { command },
                    (input[0] + 2) as nat,
                    seq![],
                )
            }
        },
        Phase::Address { command } => {
            match parse_address(h.address + input) {
                Ok((target, _)) => Transition {
                    state: HandshakeView { phase: Phase::Finished, want: 0, ..h },
                    reply: seq![],
                    next: NextView::Ready(command, target),
                },
                Err(_) => fail(
                    h,
                    reply_frame(REP_GENERAL_FAILURE, 0),
                    HandshakeError::MalformedAddress,
                ),
            }
        },
        Phase::Finished => fail(h, seq![], HandshakeError::ProtocolError),
    }
}

/// The position of a phase in the order the handshake goes through them.
pub open spec fn phase_rank(p: Phase) -> int {
    match p {
        Phase::Greeting => 0,
        Phase::Methods => 1,
        Phase::AuthVersion => 2,
        Phase::UserLength => 3,
        Phase::User => 4,
        Phase::PassLength => 5,
        Phase::Pass => 6,
        Phase::RequestHead => 7,
        Phase::DomainLength { .. } => 8,
        Phase::Address { .. } => 9,
        Phase::Finished => 10,
    }
}

/// What a handshake in state `h` writes back when the client sends the
/// stream `input`, fed in the chunks the handshake asks for; and how it
/// ends, or `None` when the stream runs out first.
pub open spec fn run(creds: Option<(Seq<u8>, Seq<u8>)>, h: HandshakeView, input: Seq<u8>) -> (
    Seq<u8>,
    Option<NextView>,
)
    decreases input.len(), 10 - phase_rank(h.phase),
{
    if h.want > input.len() {
        (seq![], None)
    } else {
        let t = transition(creds, h, input.take(h.want as int));
        match t.next {
            NextView::Read(_) => {
                let rest = run(creds, t.state, input.skip(h.want as int));
                (t.reply + rest.0, rest.1)
            },
            other => (t.reply, Some(other)),
        }
    }
}

/// The state of a handshake that has read nothing yet.
pub open spec fn initial() -> HandshakeView {
    HandshakeView { phase: Phase::Greeting, want: 2, user: seq![], address: seq![] }
}

/// Whether `v` holds `b`.
fn contains_byte(v: &[u8], b: u8) -> (r: bool)
    ensures
        r == v@.contains(b),
{
    let mut i: usize = 0;
    while i < v.len()
        invariant
            i <= v.len(),
            forall|k: int| 0 <= k < i ==> v@[k] != b,
        decreases v.len() - i,
    {
        if v[i] == b {
            return true;
        }
        i = i + 1;
    }
    false
}

/// Byte-for-byte equality whose running time depends on the lengths alone,
/// not on where the first difference lies.
pub fn constant_time_eq(a: &[u8], b: &[u8]) -> (r: bool)
    ensures
        r == (a@ == b@),
{
    let mut diff: u8 = if a.len() == b.len() {
        0
    } else {
        1
    };
    let n = if a.len() < b.len() {
        a.len()
    } else {
        b.len()
    };
    let mut i: usize = 0;
    while i < n
        invariant
            i <= n,
            n <= a.len(),
            n <= b.len(),
            n == a.len() || n == b.len(),
            (diff == 0) <==> (a.len() == b.len() && forall|k: int| 0 <= k < i ==> a@[k] == b@[k]),
        decreases n - i,
    {
        let x = a[i];
        let y = b[i];
        let d = diff;
        assert(((d | (x ^ y)) == 0u8) <==> (d == 0u8 && x == y)) by (bit_vector);
        diff = diff | (x ^ y);
        i = i + 1;
    }
    if diff == 0 {
        assert(a@ =~= b@);
    } else if a.len() == b.len() {
        assert(!(forall|k: int| 0 <= k < n ==> a@[k] == b@[k]));
        let ghost k = choose|k: int| 0 <= k < n && a@[k] != b@[k];
        assert(a@[k] != b@[k]);
    }
    diff == 0
}

fn copy_bytes(s: &[u8]) -> (r: Vec<u8>)
    ensures
        r@ == s@,
{
    let mut v: Vec<u8> = Vec::new();
    v.extend_from_slice(s);
    v
}

/// A SOCKS5 handshake on one client connection.
pub struct Handshake {
    auth: AuthMode,
    phase: Phase,
    want: usize,
    user: Vec<u8>,
    address: Vec<u8>,
}

impl View for Handshake {
    type V = HandshakeView;

    closed spec fn view(&self) -> HandshakeView {
        HandshakeView {
            phase: self.phase,
            want: self.want as nat,
            user: self.user@,
            address: self.address@,
        }
    }
}

impl Handshake {
    /// The configured authentication mode.
    pub closed spec fn auth_mode(&self) -> AuthMode {
        self.auth
    }

    /// A handshake that waits for the greeting.
    pub fn new(auth: AuthMode) -> (r: Handshake)
        ensures
            r.auth_mode() == auth,
            r@.wf(),
            r@ == initial(),
    {
        Handshake { auth, phase: Phase::Greeting, want: 2, user: Vec::new(), address: Vec::new() }
    }

    /// The number of bytes to read and feed next.
    pub fn wanted(&self) -> (r: usize)
        ensures
            r == self@.want,
    {
        self.want
    }

    /// The phase the handshake is in.
    pub fn phase(&self) -> (r: Phase)
        ensures
            r == self@.phase,
    {
        self.phase
    }

    fn advance(&mut self, phase: Phase, want: usize, reply: Vec<u8>) -> (r: Step)
        ensures
            final(self).auth == old(self).auth,
            (Transition { state: final(self)@, reply: r.reply@, next: r.next@ }) == goto(
                old(self)@,
                phase,
                want as nat,
                reply@,
            ),
    {
        self.phase = phase;
        self.want = want;
        Step { reply, next: Next::Read(want) }
    }

    fn finish(&mut self, reply: Vec<u8>, err: HandshakeError) -> (r: Step)
        ensures
            final(self).auth == old(self).auth,
            (Transition { state: final(self)@, reply: r.reply@, next: r.next@ }) == fail(
                old(self)@,
                reply@,
                err,
            ),
    {
        self.phase = Phase::Finished;
        self.want = 0;
        Step { reply, next: Next::Failed(err) }
    }

    /// Feeds the bytes the handshake waits for; returns what to write back
    /// and what follows.
    pub fn feed(&mut self, input: &[u8]) -> (r: Step)
        requires
            old(self)@.wf(),
            input@.len() == old(self)@.want,
        ensures
            final(self)@.wf(),
            final(self).auth_mode() == old(self).auth_mode(),
            (Transition { state: final(self)@, reply: r.reply@, next: r.next@ }) == transition(
                old(self).auth_mode().credentials(),
                old(self)@,
                input@,
            ),
    {
        match self.phase {
            Phase::Greeting => {
                if input[0] != SOCKS_VERSION {
                    self.finish(Vec::new(), HandshakeError::ProtocolError)
                } else {
                    self.advance(Phase::Methods, input[1] as usize, Vec::new())
                }
            },
            Phase::Methods => {
                let accepted = match &self.auth {
                    AuthMode::NoAuth => {
                        if contains_byte(input, METHOD_NO_AUTH) {
                            Some((METHOD_NO_AUTH, Phase::RequestHead, 4usize))
                        } else {
                            None
                        }
                    },
                    AuthMode::UserPass { .. } => {
                        if contains_byte(input, METHOD_USER_PASS) {
                            Some((METHOD_USER_PASS, Phase::AuthVersion, 1usize))
                        } else {
                            None
                        }
                    },
                };
                match accepted {
                    Some((method, phase, want)) => {
                        let reply = vec![SOCKS_VERSION, method];
                        assert(reply@ =~= method_reply(method));
                        self.advance(phase, want, reply)
                    },
                    None => {
                        let reply = vec![SOCKS_VERSION, METHOD_NONE_ACCEPTABLE];
                        assert(reply@ =~= method_reply(METHOD_NONE_ACCEPTABLE));
                        self.finish(reply, HandshakeError::NoAcceptableMethod)
                    },
                }
            },
            Phase::AuthVersion => {
                if input[0] != AUTH_VERSION {
                    self.finish(Vec::new(), HandshakeError::ProtocolError)
                } else {
                    self.advance(Phase::UserLength, 1, Vec::new())
                }
            },
            Phase::UserLength => self.advance(Phase::User, input[0] as usize, Vec::new()),
            Phase::User => {
                self.user = copy_bytes(input);
                self.advance(Phase::PassLength, 1, Vec::new())
            },
            Phase::PassLength => self.advance(Phase::Pass, input[0] as usize, Vec::new()),
            Phase::Pass => {
                let ok = match &self.auth {
                    AuthMode::NoAuth => false,
                    AuthMode::UserPass { username, password } => {
                        let user_ok = constant_time_eq(self.user.as_slice(), username.as_slice());
                        let pass_ok = constant_time_eq(input, password.as_slice());
                        if user_ok {
                            pass_ok
                        } else {
                            false
                        }
                    },
                };
                if ok {
                    let reply = vec![AUTH_VERSION, 0x00];
                    assert(reply@ =~= auth_reply(0x00));
                    self.advance(Phase::RequestHead, 4, reply)
                } else {
                    let reply = vec![AUTH_VERSION, 0x01];
                    assert(reply@ =~= auth_reply(0x01));
                    self.finish(reply, HandshakeError::AuthFailed)
                }
            },
            Phase::RequestHead => {
                let cmd = input[1];
                let atyp = input[3];
                let command = if cmd == CMD_CONNECT {
                    Command::Connect
                } else {
                    Command::UdpAssociate
                };
                if input[0] != SOCKS_VERSION {
                    self.finish(Vec::new(), HandshakeError::ProtocolError)
                } else if cmd != CMD_CONNECT && cmd != CMD_UDP_ASSOCIATE {
                    self.finish(
                        reply_error(REP_COMMAND_NOT_SUPPORTED),
                        HandshakeError::UnsupportedCommand,
                    )
                } else if atyp == 0x01 || atyp == 0x04 || atyp == 0x03 {
                    self.address = vec![atyp];
                    assert(self.address@ =~= seq![atyp]);
                    if atyp == 0x01 {
                        self.advance(Phase::Address { command }, 6, Vec::new())
                    } else if atyp == 0x04 {
                        self.advance(Phase::Address { command }, 18, Vec::new())
                    } else {
                        self.advance(Phase::DomainLength { command }, 1, Vec::new())
                    }
                } else {
                    self.finish(
                        reply_error(REP_ADDRESS_TYPE_NOT_SUPPORTED),
                        HandshakeError::UnsupportedAddressType,
                    )
                }
            },
            Phase::DomainLength { command } => {
                if input[0] == 0 {
                    self.finish(reply_error(REP_GENERAL_FAILURE), HandshakeError::MalformedAddress)
                } else {
                    self.address.push(input[0]);
                    assert(self.address@ =~= old(self)@.address + input@);
                    self.advance(Phase::Address { command }, input[0] as usize + 2, Vec::new())
                }
            },
            Phase::Address { command } => {
                let mut full = copy_bytes(self.address.as_slice());
                full.extend_from_slice(input);
                assert(full@ =~= old(self)@.address + input@);
                match decode_request_endpoint(full.as_slice()) {
                    Ok((target, _)) => {
                        self.phase = Phase::Finished;
                        self.want = 0;
                        Step { reply: Vec::new(), next: Next::Ready(Request { command, target }) }
                    },
                    Err(_) => self.finish(
                        reply_error(REP_GENERAL_FAILURE),
                        HandshakeError::MalformedAddress,
                    ),
                }
            },
            Phase::Finished => self.finish(Vec::new(), HandshakeError::ProtocolError),
        }
    }
}

/// A greeting whose version byte is not 5 ends the handshake with nothing
/// written back.
pub proof fn lemma_bad_greeting_version_closes_silently(
    creds: Option<(Seq<u8>, Seq<u8>)>,
    h: HandshakeView,
    input: Seq<u8>,
)
    requires
        h.phase == Phase::Greeting,
        h.wf(),
        input.len() == h.want,
        input[0] != SOCKS_VERSION,
    ensures
        transition(creds, h, input).reply.len() == 0,
        transition(creds, h, input).next == NextView::Failed(HandshakeError::ProtocolError),
        transition(creds, h, input).state.phase == Phase::Finished,
{
}

/// A version-5 request whose command is neither CONNECT nor UDP ASSOCIATE
/// gets exactly one reply, with REP 0x07, and the handshake ends.
pub proof fn lemma_unsupported_command_rejected(
    creds: Option<(Seq<u8>, Seq<u8>)>,
    h: HandshakeView,
    input: Seq<u8>,
)
    requires
        h.phase == Phase::RequestHead,
        h.wf(),
        input.len() == h.want,
        input[0] == SOCKS_VERSION,
        input[1] != CMD_CONNECT,
        input[1] != CMD_UDP_ASSOCIATE,
    ensures
        transition(creds, h, input).reply == reply_frame(REP_COMMAND_NOT_SUPPORTED, 0),
        transition(creds, h, input).next == NextView::Failed(HandshakeError::UnsupportedCommand),
        transition(creds, h, input).state.phase == Phase::Finished,
{
}

/// Once the handshake has ended, nothing more is ever written back.
pub proof fn lemma_finished_is_silent(
    creds: Option<(Seq<u8>, Seq<u8>)>,
    h: HandshakeView,
    input: Seq<u8>,
)
    requires
        h.phase == Phase::Finished,
    ensures
        transition(creds, h, input).reply.len() == 0,
        transition(creds, h, input).next is Failed,
        transition(creds, h, input).state.phase == Phase::Finished,
{
}

/// With credentials configured, a method list that lacks 0x02 (0x00 alone,
/// for one) is refused with `05 FF` and the handshake ends.
pub proof fn lemma_auth_required_refuses_other_methods(
    creds: Option<(Seq<u8>, Seq<u8>)>,
    h: HandshakeView,
    methods: Seq<u8>,
)
    requires
        creds is Some,
        h.phase == Phase::Methods,
        methods.len() == h.want,
        !methods.contains(METHOD_USER_PASS),
    ensures
        transition(creds, h, methods).reply == method_reply(METHOD_NONE_ACCEPTABLE),
        transition(creds, h, methods).next == NextView::Failed(HandshakeError::NoAcceptableMethod),
{
}

/// With credentials configured, the only step into the request phase is the
/// password step, on the configured username and password.
pub proof fn lemma_auth_gate(creds: Option<(Seq<u8>, Seq<u8>)>, h: HandshakeView, input: Seq<u8>)
    requires
        creds is Some,
        h.phase != Phase::RequestHead,
        transition(creds, h, input).state.phase == Phase::RequestHead,
    ensures
        h.phase == Phase::Pass,
        creds == Some((h.user, input)),
        transition(creds, h, input).reply == auth_reply(0x00),
{
}

/// A client whose greeting carries a version other than 5 gets nothing
/// written back, and the connection ends there, whatever it sends after.
pub proof fn lemma_bad_version_session(creds: Option<(Seq<u8>, Seq<u8>)>, input: Seq<u8>)
    requires
        input.len() >= 2,
        input[0] != SOCKS_VERSION,
    ensures
        run(creds, initial(), input) == (
            Seq::<u8>::empty(),
            Some(NextView::Failed(HandshakeError::ProtocolError)),
        ),
{
    assert(input.take(2)[0] == input[0]);
    assert(seq![] =~= Seq::<u8>::empty());
}

/// With credentials configured, a client whose greeting offers no method
/// 0x02 (0x00 alone, for one) gets `05 FF` and the connection ends there:
/// it never authenticates, whatever it sends after.
pub proof fn lemma_auth_required_session(
    creds: Option<(Seq<u8>, Seq<u8>)>,
    methods: Seq<u8>,
    rest: Seq<u8>,
)
    requires
        creds is Some,
        methods.len() <= 255,
        !methods.contains(METHOD_USER_PASS),
    ensures
        run(creds, initial(), seq![SOCKS_VERSION, methods.len() as u8] + methods + rest) == (
            method_reply(METHOD_NONE_ACCEPTABLE),
            Some(NextView::Failed(HandshakeError::NoAcceptableMethod)),
        ),
{
    let input = seq![SOCKS_VERSION, methods.len() as u8] + methods + rest;
    assert(input.take(2) =~= seq![SOCKS_VERSION, methods.len() as u8]);
    let t1 = transition(creds, initial(), input.take(2));
    let s1 = t1.state;
    assert(s1.want == methods.len());
    let input1 = input.skip(2);
    assert(input1.take(methods.len() as int) =~= methods);
    assert(run(creds, s1, input1).0 == method_reply(METHOD_NONE_ACCEPTABLE));
    assert(seq![] + method_reply(METHOD_NONE_ACCEPTABLE) =~= method_reply(METHOD_NONE_ACCEPTABLE));
}

/// Without credentials, a client that offers method 0x00 and then sends a
/// version-5 request whose command is neither CONNECT nor UDP ASSOCIATE gets
/// the method reply and then exactly one reply, with REP 0x07; the
/// connection ends there, whatever it sends after.
pub proof fn lemma_unsupported_command_session(methods: Seq<u8>, request: Seq<u8>)
    requires
        methods.len() <= 255,
        methods.contains(METHOD_NO_AUTH),
        request.len() >= 4,
        request[0] == SOCKS_VERSION,
        request[1] != CMD_CONNECT,
        request[1] != CMD_UDP_ASSOCIATE,
    ensures
        run(None, initial(), seq![SOCKS_VERSION, methods.len() as u8] + methods + request) == (
            method_reply(METHOD_NO_AUTH) + reply_frame(REP_COMMAND_NOT_SUPPORTED, 0),
            Some(NextView::Failed(HandshakeError::UnsupportedCommand)),
        ),
{
    let creds: Option<(Seq<u8>, Seq<u8>)> = None;
    let input = seq![SOCKS_VERSION, methods.len() as u8] + methods + request;
    assert(input.take(2) =~= seq![SOCKS_VERSION, methods.len() as u8]);
    let s1 = transition(creds, initial(), input.take(2)).state;
    let input1 = input.skip(2);
    assert(input1.take(methods.len() as int) =~= methods);
    let s2 = transition(creds, s1, methods).state;
    assert(s2.phase == Phase::RequestHead);
    let input2 = input1.skip(methods.len() as int);
    assert(input2 =~= request);
    assert(input2.take(4)[0] == request[0]);
    assert(input2.take(4)[1] == request[1]);
    assert(run(creds, s2, input2).0 == reply_frame(REP_COMMAND_NOT_SUPPORTED, 0));
    assert(run(creds, s1, input1).0 =~= method_reply(METHOD_NO_AUTH) + reply_frame(
        REP_COMMAND_NOT_SUPPORTED,
        0,
    ));
    assert(seq![] + run(creds, s1, input1).0 =~= run(creds, s1, input1).0);
}

} // verus!
