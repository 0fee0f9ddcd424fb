//! The decisions of a streaming session: a client either plays one of the server's ROMs
//! or uploads its own over the socket, then sends controller input.
//!
//! The upload protocol: the first binary message starts with the ROM's length as a
//! little-endian `u32`, followed by the first bytes of the ROM; every later message
//! carries more bytes. Once exactly that many bytes have arrived the emulation is
//! started. While the emulation runs, the first byte of each binary message is the
//! state of controller 1.
use vstd::prelude::*;

verus! {

/// Where a session stands.
pub enum EmulationState {
    /// Waiting for a ROM from the client.
    Waiting,
    /// Ready to start at once with a ROM of the server.
    Ready { rom: Vec<u8> },
    /// The emulation runs.
    Started,
}

/// A message for the running emulation.
#[derive(Clone, Copy, Debug, PartialEq, Eq, Structural)]
pub enum EmulatorInput {
    /// Stop the emulation.
    Stop,
    /// The new state of controller 1.
    Controller1(u8),
}

/// What the session asks of its owner after an event.
#[derive(Clone, Copy, Debug, PartialEq, Eq, Structural)]
pub enum SessionAction {
    /// Nothing to do.
    Nothing,
    /// Start the emulation with the uploaded ROM ([`WsSession::custom_rom`]), and report
    /// the outcome with [`WsSession::emulation_started`].
    StartCustomRom,
    /// Hand this input to the running emulation.
    Send(EmulatorInput),
}

/// The kind of an [`EmulationState`], for contracts.
#[derive(Clone, Copy, Debug, PartialEq, Eq, Structural)]
pub enum StateKind {
    Waiting,
    Ready,
    Started,
}

/// The session of one client.
pub struct WsSession {
    pub state: EmulationState,
    /// The bytes of the uploaded ROM received so far.
    pub custom_rom: Vec<u8>,
    /// The announced length of the uploaded ROM.
    pub custom_rom_len: usize,
}

/// A session as the contracts see it.
pub struct SessionView {
    pub kind: StateKind,
    /// The server ROM of a ready session.
    pub ready_rom: Seq<u8>,
    pub custom_rom: Seq<u8>,
    pub custom_rom_len: nat,
}

/// The little-endian `u32` in the first four bytes of `b`.
pub open spec fn le_u32(b: Seq<u8>) -> nat {
    (b[0] + 256 * b[1] + 65536 * b[2] + 16777216 * b[3]) as nat
}

impl SessionView {
    /// The session after a binary message `bin`, and what it asks for.
    pub open spec fn after_binary(self, bin: Seq<u8>) -> (SessionView, SessionAction) {
        match self.kind {
            StateKind::Waiting => {
                let next = if self.custom_rom.len() == 0 {
                    SessionView {
                        custom_rom_len: le_u32(bin),
                        custom_rom: bin.subrange(4, bin.len() as int),
                        ..self
                    }
                } else {
                    SessionView { custom_rom: self.custom_rom + bin, ..self }
                };
                (
                    next,
                    if next.custom_rom.len() == next.custom_rom_len {
                        SessionAction::StartCustomRom
                    } else {
                        SessionAction::Nothing
                    },
                )
            },
            StateKind::Started => (
                self,
                if bin.len() > 0 {
                    SessionAction::Send(EmulatorInput::Controller1(bin[0]))
                } else {
                    SessionAction::Nothing
                },
            ),
            StateKind::Ready => (self, SessionAction::Nothing),
        }
    }

    /// Whether a binary message `bin` can be taken in this state: the first message of
    /// an upload must hold the four bytes of the length.
    pub open spec fn accepts(self, bin: Seq<u8>) -> bool {
        self.kind == StateKind::Waiting && self.custom_rom.len() == 0 ==> bin.len() >= 4
    }
}

impl View for WsSession {
    type V = SessionView;

    open spec fn view(&self) -> SessionView {
        SessionView {
            kind: match self.state {
                EmulationState::Waiting => StateKind::Waiting,
                EmulationState::Ready { .. } => StateKind::Ready,
                EmulationState::Started => StateKind::Started,
            },
            ready_rom: match self.state {
                EmulationState::Ready { rom } => rom@,
                _ => Seq::empty(),
            },
            custom_rom: self.custom_rom@,
            custom_rom_len: self.custom_rom_len as nat,
        }
    }
}

impl WsSession {
    /// A session that waits for the client's ROM.
    pub fn waiting() -> (r: Self)
        ensures
            r@.kind == StateKind::Waiting,
            r@.custom_rom == Seq::<u8>::empty(),
            r@.custom_rom_len == 0,
    {
        WsSession { state: EmulationState::Waiting, custom_rom: Vec::new(), custom_rom_len: 0 }
    }

    /// A session that plays the server's `rom`.
    pub fn ready(rom: Vec<u8>) -> (r: Self)
        ensures
            r@.kind == StateKind::Ready,
            r@.ready_rom == rom@,
            r@.custom_rom == Seq::<u8>::empty(),
            r@.custom_rom_len == 0,
    {
        WsSession { state: EmulationState::Ready { rom }, custom_rom: Vec::new(), custom_rom_len: 0 }
    }

    /// When the connection opens: a ready session starts its ROM at once (`Some`).
    pub fn rom_to_start(&self) -> (r: Option<&Vec<u8>>)
        ensures
            match r {
                Some(rom) => self@.kind == StateKind::Ready && rom@ == self@.ready_rom,
                None => self@.kind != StateKind::Ready,
            },
    {
        match &self.state {
            EmulationState::Ready { rom } => Some(rom),
            _ => None,
        }
    }

    /// Takes a binary message from the client; see [`SessionView::after_binary`].
    pub fn on_binary(&mut self, bin: &[u8]) -> (r: SessionAction)
        requires
            old(self)@.accepts(bin@),
        ensures
            (final(self)@, r) == old(self)@.after_binary(bin@),
            old(self)@.kind == StateKind::Ready ==> final(self)@.ready_rom == old(self)@.ready_rom,
    {
        match &self.state {
            EmulationState::Waiting => {
                if self.custom_rom.len() == 0 {
                    // The first four bytes give the ROM's size.
                    let len: u32 = bin[0] as u32 + 256 * (bin[1] as u32) + 65536 * (bin[2] as u32)
                        + 16777216 * (bin[3] as u32);
                    self.custom_rom_len = len as usize;
                    self.custom_rom = Vec::with_capacity(self.custom_rom_len);
                    append(&mut self.custom_rom, slice_from(bin, 4));
                } else {
                    append(&mut self.custom_rom, bin);
                }
                if self.custom_rom.len() == self.custom_rom_len {
                    SessionAction::StartCustomRom
                } else {
                    SessionAction::Nothing
                }
            },
            EmulationState::Started => {
                if bin.len() > 0 {
                    SessionAction::Send(EmulatorInput::Controller1(bin[0]))
                } else {
                    SessionAction::Nothing
                }
            },
            EmulationState::Ready { .. } => SessionAction::Nothing,
        }
    }

    /// Reports whether the emulation asked for could be started; a ROM that fails to
    /// load leaves the session waiting.
    pub fn emulation_started(&mut self, started: bool)
        ensures
            final(self)@ == (if started {
                SessionView { kind: StateKind::Started, ready_rom: Seq::empty(), ..old(self)@ }
            } else {
                old(self)@
            }),
    {
        if started {
            self.state = EmulationState::Started;
        }
    }

    /// When the connection closes: a running emulation is told to stop.
    pub fn on_stopped(&self) -> (r: Option<EmulatorInput>)
        ensures
            r == (if self@.kind == StateKind::Started {
                Some(EmulatorInput::Stop)
            } else {
                None
            }),
    {
        match self.state {
            EmulationState::Started => Some(EmulatorInput::Stop),
            _ => None,
        }
    }
}

/// `bin` from index `start` on.
fn slice_from(bin: &[u8], start: usize) -> (r: &[u8])
    requires
        start <= bin@.len(),
    ensures
        r@ == bin@.subrange(start as int, bin@.len() as int),
{
    vstd::slice::slice_subrange(bin, start, bin.len())
}

/// Appends `more` to `v`.
fn append(v: &mut Vec<u8>, more: &[u8])
    ensures
        final(v)@ == old(v)@ + more@,
{
    let mut i: usize = 0;
    while i < more.len()
        invariant
            i <= more@.len(),
            v@ == old(v)@ + more@.subrange(0, i as int),
        decreases more@.len() - i,
    {
        v.push(more[i]);
        i = i + 1;
        assert(more@.subrange(0, i as int) == more@.subrange(0, i - 1) + seq![more@[i - 1]]);
    }
    assert(more@.subrange(0, more@.len() as int) == more@);
}

/// An upload in two messages: after the header with the first (non-empty) part, and the
/// rest in a second message, the session asks to start with exactly the two parts
/// joined.
pub proof fn lemma_upload_in_two_messages(s: SessionView, first: Seq<u8>, rest: Seq<u8>)
    requires
        s.kind == StateKind::Waiting,
        s.custom_rom.len() == 0,
        first.len() > 4,
        first.len() - 4 < le_u32(first),
        first.len() - 4 + rest.len() == le_u32(first),
    ensures
        ({
            let (s1, a1) = s.after_binary(first);
            let (s2, a2) = s1.after_binary(rest);
            &&& a1 == SessionAction::Nothing
            &&& a2 == SessionAction::StartCustomRom
            &&& s2.custom_rom == first.subrange(4, first.len() as int) + rest
        }),
{
}

/// Once the emulation runs, each non-empty message forwards its first byte as the
/// state of controller 1, and the session is unchanged.
pub proof fn lemma_started_forwards_input(s: SessionView, bin: Seq<u8>)
    requires
        s.kind == StateKind::Started,
        bin.len() > 0,
    ensures
        s.after_binary(bin) == (s, SessionAction::Send(EmulatorInput::Controller1(bin[0]))),
{
}

/// The uploaded bytes carried by messages `0..=j`: the first message without its
/// four-byte header, then the later ones whole.
pub open spec fn upload_bytes(msgs: Seq<Seq<u8>>, j: nat) -> Seq<u8>
    decreases j,
{
    if j == 0 {
        msgs[0].subrange(4, msgs[0].len() as int)
    } else {
        upload_bytes(msgs, (j - 1) as nat) + msgs[j as int]
    }
}

proof fn lemma_upload_bytes_len(msgs: Seq<Seq<u8>>, j: nat)
    requires
        msgs[0].len() >= 4,
    ensures
        upload_bytes(msgs, j).len() >= msgs[0].len() - 4,
    decreases j,
{
    if j > 0 {
        lemma_upload_bytes_len(msgs, (j - 1) as nat);
    }
}

impl SessionView {
    /// The session after the first `n` messages of `msgs`.
    pub open spec fn after_messages(self, msgs: Seq<Seq<u8>>, n: nat) -> SessionView
        decreases n,
    {
        if n == 0 {
            self
        } else {
            self.after_messages(msgs, (n - 1) as nat).after_binary(msgs[n - 1]).0
        }
    }
}

/// An upload in any number of messages: from a waiting session with nothing received,
/// when the first message holds the header and at least one byte, and every earlier
/// prefix of the upload is shorter than the announced length, the session holds exactly
/// the uploaded bytes and the announced length, asks for nothing before the last
/// message, and on the last asks to start exactly when the bytes reach that length.
pub proof fn lemma_upload(s: SessionView, msgs: Seq<Seq<u8>>, k: nat)
    requires
        s.kind == StateKind::Waiting,
        s.custom_rom.len() == 0,
        1 <= k <= msgs.len(),
        msgs[0].len() > 4,
        forall|j: nat| j + 1 < k ==> (#[trigger] upload_bytes(msgs, j)).len() < le_u32(msgs[0]),
    ensures
        s.after_messages(msgs, k).kind == StateKind::Waiting,
        s.after_messages(msgs, k).custom_rom == upload_bytes(msgs, (k - 1) as nat),
        s.after_messages(msgs, k).custom_rom_len == le_u32(msgs[0]),
        forall|j: nat|
            j + 1 < k ==> (#[trigger] s.after_messages(msgs, j)).after_binary(msgs[j as int]).1
                == SessionAction::Nothing,
        s.after_messages(msgs, (k - 1) as nat).after_binary(msgs[k - 1]).1 == if upload_bytes(
            msgs,
            (k - 1) as nat,
        ).len() == le_u32(msgs[0]) {
            SessionAction::StartCustomRom
        } else {
            SessionAction::Nothing
        },
    decreases k,
{
    assert(s.after_messages(msgs, 0) == s);
    if k > 1 {
        lemma_upload(s, msgs, (k - 1) as nat);
        let prev = s.after_messages(msgs, (k - 1) as nat);
        lemma_upload_bytes_len(msgs, (k - 2) as nat);
        assert(prev.custom_rom.len() > 0);
        assert forall|j: nat| j + 1 < k implies (#[trigger] s.after_messages(msgs, j)).after_binary(
            msgs[j as int],
        ).1 == SessionAction::Nothing by {
            if j + 2 < k {
            } else {
                assert(j == k - 2);
            }
        }
    }
}

} // verus!
