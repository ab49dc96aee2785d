//! Remote-debugging protocol state machine.
//!
//! A debug session is driven one byte at a time: packets arrive framed as
//! `$<payload>#<checksum>`, with the checksum the low byte of the sum of
//! the payload bytes, written as two hex digits. The session transitions
//! among four states: `Idle` (reading protocol bytes), `Running` (control
//! handed back to the run loop), `InterruptRequested` (asynchronous
//! break-in), and `Disconnected`. Each pumped byte yields the bytes to
//! write back on the connection; the connection itself is owned by the
//! embedder, which performs the blocking reads and the writes.

use vstd::prelude::*;

verus! {

/// Packet-start byte `$`.
pub const PACKET_START: u8 = 0x24;

/// Payload-end byte `#`.
pub const PACKET_END: u8 = 0x23;

/// Acknowledgement byte `+`.
pub const ACK: u8 = 0x2B;

/// Negative acknowledgement byte `-`: the sender must retransmit.
pub const NAK: u8 = 0x2D;

/// Asynchronous break-in byte (ETX).
pub const CTRL_C: u8 = 0x03;

/// Command byte `c`: continue.
pub const CMD_CONTINUE: u8 = 0x63;

/// Command byte `C`: continue with signal.
pub const CMD_CONTINUE_SIG: u8 = 0x43;

/// Command byte `s`: single step.
pub const CMD_STEP: u8 = 0x73;

/// Command byte `S`: single step with signal.
pub const CMD_STEP_SIG: u8 = 0x53;

/// Command byte `D`: detach.
pub const CMD_DETACH: u8 = 0x44;

/// Command byte `k`: kill.
pub const CMD_KILL: u8 = 0x6B;

/// Command byte `?`: report why the target halted.
pub const CMD_HALT_REASON: u8 = 0x3F;

/// Lifecycle state of a debug session.
#[derive(Clone, Copy, Debug, PartialEq, Eq, Structural)]
pub enum SessionState {
    /// Waiting for the debugger to send protocol bytes.
    Idle,
    /// Guest code is executing; the pump has handed control back to the
    /// run loop.
    Running,
    /// The debugger sent an asynchronous break-in.
    InterruptRequested,
    /// The connection is closed.
    Disconnected,
}

/// Where the packet decoder stands within a frame.
#[derive(Clone, Copy, Debug, PartialEq, Eq, Structural)]
pub enum ParserPhase {
    /// Outside a packet.
    Ready,
    /// Accumulating payload bytes after `$`.
    Payload,
    /// Seen `#`, awaiting the first checksum digit.
    Check1,
    /// Awaiting the second checksum digit.
    Check2,
}

/// The session as specifications see it.
#[verifier::ext_equal]
pub struct SessionView {
    pub state: SessionState,
    pub phase: ParserPhase,
    pub payload: Seq<u8>,
    pub sum: u8,
    pub check_hi: u8,
}

/// A debug session: the protocol state machine and its packet buffers.
/// Exactly one exists per debug target; constructing a new one replaces
/// the old.
pub struct DebugSession {
    state: SessionState,
    phase: ParserPhase,
    payload: Vec<u8>,
    sum: u8,
    check_hi: u8,
}

impl View for DebugSession {
    type V = SessionView;

    closed spec fn view(&self) -> SessionView {
        SessionView {
            state: self.state,
            phase: self.phase,
            payload: self.payload@,
            sum: self.sum,
            check_hi: self.check_hi,
        }
    }
}

/// Value of an ASCII hex digit, or `None` for any other byte.
pub open spec fn hex_digit_val(b: u8) -> Option<u8> {
    if 0x30 <= b <= 0x39 {
        Some((b - 0x30) as u8)
    } else if 0x61 <= b <= 0x66 {
        Some((b - 0x61 + 10) as u8)
    } else if 0x41 <= b <= 0x46 {
        Some((b - 0x41 + 10) as u8)
    } else {
        None
    }
}

/// ASCII hex digit for a value below 16.
pub open spec fn hex_digit_char(v: int) -> u8 {
    if v < 10 {
        (0x30 + v) as u8
    } else {
        (0x57 + v) as u8
    }
}

/// Low byte of the sum of the bytes of `s`: the packet checksum.
pub open spec fn checksum_spec(s: Seq<u8>) -> int
    decreases s.len(),
{
    if s.len() == 0 {
        0
    } else {
        (checksum_spec(s.drop_last()) + s.last()) % 256
    }
}

/// The full frame for payload `s`: `$`, the payload, `#`, two checksum
/// hex digits.
pub open spec fn packet_spec(s: Seq<u8>) -> Seq<u8> {
    seq![PACKET_START] + s + seq![
        PACKET_END,
        hex_digit_char(checksum_spec(s) / 16),
        hex_digit_char(checksum_spec(s) % 16),
    ]
}

/// Session state after a complete, checksum-valid packet is dispatched:
/// resume commands hand control to the run loop, detach and kill end the
/// session, everything else is answered and leaves the session idle.
pub open spec fn dispatch_state(payload: Seq<u8>) -> SessionState {
    if payload.len() == 0 {
        SessionState::Idle
    } else if payload[0] == CMD_CONTINUE || payload[0] == CMD_STEP
        || payload[0] == CMD_CONTINUE_SIG || payload[0] == CMD_STEP_SIG {
        SessionState::Running
    } else if payload[0] == CMD_DETACH || payload[0] == CMD_KILL {
        SessionState::Disconnected
    } else {
        SessionState::Idle
    }
}

/// Reply sent for a complete, checksum-valid packet (not counting the
/// acknowledgement): resume and kill commands get no immediate reply,
/// detach is answered `OK`, a halt-reason query reports a stop, and an
/// unrecognized command gets the empty packet.
pub open spec fn dispatch_output(payload: Seq<u8>) -> Seq<u8> {
    if payload.len() == 0 {
        packet_spec(Seq::empty())
    } else if payload[0] == CMD_CONTINUE || payload[0] == CMD_STEP
        || payload[0] == CMD_CONTINUE_SIG || payload[0] == CMD_STEP_SIG
        || payload[0] == CMD_KILL {
        Seq::empty()
    } else if payload[0] == CMD_DETACH {
        packet_spec(seq![0x4Fu8, 0x4Bu8])
    } else if payload[0] == CMD_HALT_REASON {
        packet_spec(stop_reply_payload())
    } else {
        packet_spec(Seq::empty())
    }
}

/// Payload of a stop reply: `S05`, signal 5 (trap).
pub open spec fn stop_reply_payload() -> Seq<u8> {
    seq![0x53u8, 0x30u8, 0x35u8]
}

/// The session after one byte is pumped in the `Idle` state.
pub open spec fn step_state(v: SessionView, b: u8) -> SessionView {
    match v.phase {
        ParserPhase::Ready => {
            if b == CTRL_C {
                SessionView { state: SessionState::InterruptRequested, ..v }
            } else if b == PACKET_START {
                SessionView { phase: ParserPhase::Payload, payload: Seq::empty(), sum: 0, ..v }
            } else {
                v
            }
        },
        ParserPhase::Payload => {
            if b == PACKET_END {
                SessionView { phase: ParserPhase::Check1, ..v }
            } else {
                SessionView {
                    payload: v.payload.push(b),
                    sum: ((v.sum + b) % 256) as u8,
                    ..v
                }
            }
        },
        ParserPhase::Check1 => {
            match hex_digit_val(b) {
                Some(h) => SessionView { phase: ParserPhase::Check2, check_hi: h, ..v },
                None => SessionView { phase: ParserPhase::Ready, ..v },
            }
        },
        ParserPhase::Check2 => {
            match hex_digit_val(b) {
                Some(l) => {
                    if v.check_hi * 16 + l == v.sum {
                        SessionView {
                            phase: ParserPhase::Ready,
                            state: dispatch_state(v.payload),
                            ..v
                        }
                    } else {
                        SessionView { phase: ParserPhase::Ready, ..v }
                    }
                },
                None => SessionView { phase: ParserPhase::Ready, ..v },
            }
        },
    }
}

/// The bytes written back on the connection for one pumped byte: nothing
/// until a frame completes, then an acknowledgement and the command's
/// reply, or a negative acknowledgement for a bad checksum.
pub open spec fn step_output(v: SessionView, b: u8) -> Seq<u8> {
    match v.phase {
        ParserPhase::Ready => Seq::empty(),
        ParserPhase::Payload => Seq::empty(),
        ParserPhase::Check1 => {
            match hex_digit_val(b) {
                Some(_) => Seq::empty(),
                None => seq![NAK],
            }
        },
        ParserPhase::Check2 => {
            match hex_digit_val(b) {
                Some(l) => {
                    if v.check_hi * 16 + l == v.sum {
                        seq![ACK] + dispatch_output(v.payload)
                    } else {
                        seq![NAK]
                    }
                },
                None => seq![NAK],
            }
        },
    }
}

/// Value of an ASCII hex digit, or `None` for any other byte.
fn hex_digit(b: u8) -> (r: Option<u8>)
    ensures
        r == hex_digit_val(b),
{
    if 0x30 <= b && b <= 0x39 {
        Some(b - 0x30)
    } else if 0x61 <= b && b <= 0x66 {
        Some(b - 0x61 + 10)
    } else if 0x41 <= b && b <= 0x46 {
        Some(b - 0x41 + 10)
    } else {
        None
    }
}

/// Frames `payload` as a packet: `$`, the payload, `#`, two checksum hex
/// digits.
pub fn make_packet(payload: &Vec<u8>) -> (r: Vec<u8>)
    ensures
        r@ == packet_spec(payload@),
{
    let mut sum: u8 = 0;
    let mut i: usize = 0;
    let n = payload.len();
    while i < n
        invariant
            i <= n,
            n == payload@.len(),
            sum == checksum_spec(payload@.subrange(0, i as int)),
        decreases n - i,
    {
        proof {
            assert(payload@.subrange(0, i + 1).drop_last() =~= payload@.subrange(0, i as int));
            assert(payload@.subrange(0, i + 1).last() == payload@[i as int]);
        }
        sum = sum.wrapping_add(payload[i]);
        i += 1;
    }
    proof {
        assert(payload@.subrange(0, n as int) =~= payload@);
    }
    let mut r: Vec<u8> = Vec::new();
    r.push(PACKET_START);
    let mut j: usize = 0;
    while j < n
        invariant
            j <= n,
            n == payload@.len(),
            r@.len() == j + 1,
            r@[0] == PACKET_START,
            forall|k: int| 0 <= k < j ==> r@[k + 1] == payload@[k],
        decreases n - j,
    {
        r.push(payload[j]);
        j += 1;
    }
    r.push(PACKET_END);
    let hi = sum / 16;
    let lo = sum % 16;
    if hi < 10 {
        r.push(0x30 + hi);
    } else {
        r.push(0x57 + hi);
    }
    if lo < 10 {
        r.push(0x30 + lo);
    } else {
        r.push(0x57 + lo);
    }
    proof {
        assert(r@ =~= packet_spec(payload@));
    }
    r
}

impl DebugSession {
    /// A fresh session: idle, outside any packet.
    pub fn new() -> (r: DebugSession)
        ensures
            r@.state is Idle,
            r@.phase is Ready,
            r@.payload.len() == 0,
            r@.sum == 0,
            r@.check_hi == 0,
    {
        DebugSession {
            state: SessionState::Idle,
            phase: ParserPhase::Ready,
            payload: Vec::new(),
            sum: 0,
            check_hi: 0,
        }
    }

    /// Current lifecycle state.
    pub fn state(&self) -> (r: SessionState)
        ensures
            r == self@.state,
    {
        self.state
    }

    /// Feeds one byte read from the connection to the protocol decoder and
    /// returns the bytes to write back. Only an idle session reads bytes.
    pub fn pump_byte(&mut self, b: u8) -> (out: Vec<u8>)
        requires
            old(self)@.state is Idle,
        ensures
            final(self)@ == step_state(old(self)@, b),
            out@ == step_output(old(self)@, b),
    {
        let ghost pre = self@;
        let mut out: Vec<u8> = Vec::new();
        match self.phase {
            ParserPhase::Ready => {
                if b == CTRL_C {
                    self.state = SessionState::InterruptRequested;
                } else if b == PACKET_START {
                    self.phase = ParserPhase::Payload;
                    self.payload = Vec::new();
                    self.sum = 0;
                }
            },
            ParserPhase::Payload => {
                if b == PACKET_END {
                    self.phase = ParserPhase::Check1;
                } else {
                    self.payload.push(b);
                    self.sum = self.sum.wrapping_add(b);
                }
            },
            ParserPhase::Check1 => {
                match hex_digit(b) {
                    Some(h) => {
                        self.check_hi = h;
                        self.phase = ParserPhase::Check2;
                    },
                    None => {
                        self.phase = ParserPhase::Ready;
                        out.push(NAK);
                    },
                }
            },
            ParserPhase::Check2 => {
                self.phase = ParserPhase::Ready;
                match hex_digit(b) {
                    Some(l) => {
                        let expected = (self.check_hi as u32) * 16 + (l as u32);
                        if expected == self.sum as u32 {
                            out.push(ACK);
                            let reply = self.dispatch();
                            let mut k: usize = 0;
                            let m = reply.len();
                            while k < m
                                invariant
                                    k <= m,
                                    m == reply@.len(),
                                    out@.len() == k + 1,
                                    out@[0] == ACK,
                                    forall|t: int| 0 <= t < k ==> out@[t + 1] == reply@[t],
                                decreases m - k,
                            {
                                out.push(reply[k]);
                                k += 1;
                            }
                            proof {
                                assert(out@ =~= seq![ACK] + reply@);
                            }
                        } else {
                            out.push(NAK);
                        }
                    },
                    None => {
                        out.push(NAK);
                    },
                }
            },
        }
        proof {
            assert(self@ =~= step_state(pre, b));
            assert(out@ =~= step_output(pre, b));
        }
        out
    }

    /// Reply for the completed packet in the payload buffer, and the state
    /// transition it commands.
    fn dispatch(&mut self) -> (r: Vec<u8>)
        ensures
            r@ == dispatch_output(old(self)@.payload),
            final(self)@.state == dispatch_state(old(self)@.payload),
            final(self)@.phase == old(self)@.phase,
            final(self)@.payload == old(self)@.payload,
            final(self)@.sum == old(self)@.sum,
            final(self)@.check_hi == old(self)@.check_hi,
    {
        if self.payload.len() == 0 {
            self.state = SessionState::Idle;
            let empty: Vec<u8> = Vec::new();
            return make_packet(&empty);
        }
        let c = self.payload[0];
        if c == CMD_CONTINUE || c == CMD_STEP || c == CMD_CONTINUE_SIG || c == CMD_STEP_SIG {
            self.state = SessionState::Running;
            Vec::new()
        } else if c == CMD_KILL {
            self.state = SessionState::Disconnected;
            Vec::new()
        } else if c == CMD_DETACH {
            self.state = SessionState::Disconnected;
            let mut ok: Vec<u8> = Vec::new();
            ok.push(0x4F);
            ok.push(0x4B);
            let r = make_packet(&ok);
            proof {
                assert(ok@ =~= seq![0x4Fu8, 0x4Bu8]);
            }
            r
        } else if c == CMD_HALT_REASON {
            self.state = SessionState::Idle;
            let mut p: Vec<u8> = Vec::new();
            p.push(0x53);
            p.push(0x30);
            p.push(0x35);
            let r = make_packet(&p);
            proof {
                assert(p@ =~= stop_reply_payload());
            }
            r
        } else {
            self.state = SessionState::Idle;
            let empty: Vec<u8> = Vec::new();
            make_packet(&empty)
        }
    }

    /// Reports a stop to the debugger. Only a session whose saved state is
    /// `Running` reports: it becomes idle again and the returned
    /// stop-reason packet must be written to the connection. In any other
    /// state nothing happens.
    pub fn report_stop(&mut self) -> (r: Option<Vec<u8>>)
        ensures
            old(self)@.state is Running ==> (
                r matches Some(pkt) && pkt@ == packet_spec(stop_reply_payload())
                && final(self)@ == (SessionView { state: SessionState::Idle, ..old(self)@ })
            ),
            !(old(self)@.state is Running) ==> r is None && *final(self) == *old(self),
    {
        match self.state {
            SessionState::Running => {
                self.state = SessionState::Idle;
                let mut p: Vec<u8> = Vec::new();
                p.push(0x53);
                p.push(0x30);
                p.push(0x35);
                let r = make_packet(&p);
                proof {
                    assert(p@ =~= stop_reply_payload());
                    assert(self@ =~= (SessionView { state: SessionState::Idle, ..old(self)@ }));
                }
                Some(r)
            },
            _ => None,
        }
    }
}

} // verus!
