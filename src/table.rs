use vstd::prelude::*;
use crate::frame::{button_bit, be_u16, payload, InputError, NetworkControllerState, NUM_BUTTONS};

verus! {

/// Number of player slots.
pub const NUM_PLAYERS: usize = 4;

/// Button capabilities of the emulated controller, in the order of the
/// logical button indices of a frame.
#[derive(Debug, Clone, Copy, PartialEq, Eq, Structural)]
pub enum Button {
    A,
    B,
    X,
    Y,
    L,
    R,
    ZL,
    ZR,
    Minus,
    Plus,
    LeftStick,
    RightStick,
    Up,
    Down,
    Left,
    Right,
    Home,
}

/// Axis capabilities of the emulated controller.
#[derive(Debug, Clone, Copy, PartialEq, Eq, Structural)]
pub enum Axis {
    LeftHorizontal,
    LeftVertical,
    RightHorizontal,
    RightVertical,
}

/// The capability that logical button `i` drives.
pub open spec fn button_at(i: int) -> Button {
    if i == 0 {
        Button::A
    } else if i == 1 {
        Button::B
    } else if i == 2 {
        Button::X
    } else if i == 3 {
        Button::Y
    } else if i == 4 {
        Button::L
    } else if i == 5 {
        Button::R
    } else if i == 6 {
        Button::ZL
    } else if i == 7 {
        Button::ZR
    } else if i == 8 {
        Button::Minus
    } else if i == 9 {
        Button::Plus
    } else if i == 10 {
        Button::LeftStick
    } else if i == 11 {
        Button::RightStick
    } else if i == 12 {
        Button::Up
    } else if i == 13 {
        Button::Down
    } else if i == 14 {
        Button::Left
    } else if i == 15 {
        Button::Right
    } else {
        Button::Home
    }
}

impl Button {
    /// The capability that logical button `index` drives.
    pub fn from_index(index: usize) -> (r: Button)
        requires
            index < NUM_BUTTONS,
        ensures
            r == button_at(index as int),
    {
        match index {
            0 => Button::A,
            1 => Button::B,
            2 => Button::X,
            3 => Button::Y,
            4 => Button::L,
            5 => Button::R,
            6 => Button::ZL,
            7 => Button::ZR,
            8 => Button::Minus,
            9 => Button::Plus,
            10 => Button::LeftStick,
            11 => Button::RightStick,
            12 => Button::Up,
            13 => Button::Down,
            14 => Button::Left,
            15 => Button::Right,
            _ => Button::Home,
        }
    }
}

/// One call on the controller sink.
#[derive(Debug, Clone, Copy, PartialEq, Eq, Structural)]
pub enum SinkOp {
    SetButton { player: u8, button: Button, pressed: bool },
    SetAxis { player: u8, axis: Axis, value: u16 },
    Flush { player: u8 },
}

impl SinkOp {
    /// A write of one button or axis (a flush is not a write).
    pub open spec fn is_write(self) -> bool {
        !(self is Flush)
    }
}

/// The sink calls that bring the controller of player `b[0]` to the state of
/// frame `b`: every button, then every axis, then one flush.
pub open spec fn sink_ops(b: Seq<u8>) -> Seq<SinkOp> {
    let p = b[0];
    Seq::new(17, |i: int| SinkOp::SetButton { player: p, button: button_at(i), pressed: button_bit(b, i) })
        + seq![
        SinkOp::SetAxis { player: p, axis: Axis::LeftHorizontal, value: be_u16(b[5], b[6]) },
        SinkOp::SetAxis { player: p, axis: Axis::LeftVertical, value: be_u16(b[7], b[8]) },
        SinkOp::SetAxis { player: p, axis: Axis::RightHorizontal, value: be_u16(b[9], b[10]) },
        SinkOp::SetAxis { player: p, axis: Axis::RightVertical, value: be_u16(b[11], b[12]) },
        SinkOp::Flush { player: p },
    ]
}

/// What applying frame `f` to the table `t` gives: the new table and either the
/// sink calls to make or an error.
pub open spec fn apply_outcome(t: Seq<NetworkControllerState>, f: NetworkControllerState) -> (
    Seq<NetworkControllerState>,
    Result<Seq<SinkOp>, InputError>,
) {
    let p = f.bytes()[0] as int;
    if p >= 4 {
        (t, Err(InputError::InvalidPlayer))
    } else if payload(t[p].bytes()) == payload(f.bytes()) {
        (t, Ok(Seq::empty()))
    } else {
        (t.update(p, f), Ok(sink_ops(f.bytes())))
    }
}

/// The view of a result that carries sink calls.
pub open spec fn ops_view(r: Result<Vec<SinkOp>, InputError>) -> Result<Seq<SinkOp>, InputError> {
    match r {
        Ok(v) => Ok(v@),
        Err(e) => Err(e),
    }
}

/// Errors of a bank of emulated controllers.
#[derive(Debug, Clone, PartialEq, Eq)]
pub enum ControllerError {
    /// The frame was rejected.
    Input(InputError),
    /// The device failed (on activation or on the final flush of a frame).
    Device(String),
}

/// A bank of emulated controllers, one per player slot, that frames drive.
pub trait Controllers: Sized {
    /// A bank on the USB gadget `gadget_name`.
    fn new(gadget_name: &str) -> Self;

    /// Activates the gadget and starts talking to each controller.
    fn initialize(&mut self) -> Result<(), ControllerError>;

    /// Brings the controller of the frame's player to the frame's state.
    fn set_state(&mut self, state: NetworkControllerState) -> Result<(), ControllerError>;
}

/// The last frame applied for each player slot.
pub struct LastStateTable {
    frames: [NetworkControllerState; 4],
}

impl View for LastStateTable {
    type V = Seq<NetworkControllerState>;

    closed spec fn view(&self) -> Seq<NetworkControllerState> {
        self.frames@
    }
}

impl LastStateTable {
    /// A table of all-zero frames.
    pub fn new() -> (r: LastStateTable)
        ensures
            r@.len() == 4,
            forall|p: int, k: int| 0 <= p < 4 && 0 <= k < 13 ==> r@[p].bytes()[k] == 0,
    {
        let z = NetworkControllerState([0u8; 13]);
        LastStateTable { frames: [z, z, z, z] }
    }

    /// A table holds one frame per player slot.
    pub proof fn lemma_len(&self)
        ensures
            self@.len() == NUM_PLAYERS,
    {
    }

    /// Decodes `bytes` as a frame and applies it.
    pub fn apply_bytes(&mut self, bytes: &[u8]) -> (r: Result<Vec<SinkOp>, InputError>)
        ensures
            bytes@.len() != 13 ==> r is Err && r->Err_0 == InputError::FormatError && final(self)@
                == old(self)@,
            bytes@.len() == 13 ==> exists|f: NetworkControllerState|
                f.bytes() == bytes@ && (final(self)@, ops_view(r)) == #[trigger] apply_outcome(
                    old(self)@,
                    f,
                ),
    {
        match NetworkControllerState::decode(bytes) {
            Ok(frame) => self.apply(frame),
            Err(e) => Err(e),
        }
    }

    /// The frame stored for `player`.
    pub fn frame(&self, player: usize) -> (r: NetworkControllerState)
        requires
            player < NUM_PLAYERS,
        ensures
            r == self@[player as int],
    {
        self.frames[player]
    }

    /// Applies a frame: rejects a nonexistent player; does nothing when the
    /// payload equals the stored one; otherwise stores the frame and returns
    /// the sink calls that bring the controller to its state.
    pub fn apply(&mut self, frame: NetworkControllerState) -> (r: Result<Vec<SinkOp>, InputError>)
        ensures
            (final(self)@, ops_view(r)) == apply_outcome(old(self)@, frame),
            frame.bytes()[0] >= NUM_PLAYERS ==> r is Err && r->Err_0 == InputError::InvalidPlayer
                && final(self)@ == old(self)@,
    {
        let p = frame.player_id();
        if p >= NUM_PLAYERS {
            return Err(InputError::InvalidPlayer);
        }
        if !self.frames[p].diff(&frame) {
            return Ok(Vec::new());
        }
        self.frames[p] = frame;
        let player = frame.0[0];
        let mut ops: Vec<SinkOp> = Vec::new();
        let mut i: usize = 0;
        while i < NUM_BUTTONS
            invariant
                i <= 17,
                player == frame.bytes()[0],
                ops@.len() == i,
                forall|k: int|
                    0 <= k < i ==> ops@[k] == (SinkOp::SetButton {
                        player,
                        button: button_at(k),
                        pressed: button_bit(frame.bytes(), k),
                    }),
            decreases 17 - i,
        {
            ops.push(
                SinkOp::SetButton {
                    player,
                    button: Button::from_index(i),
                    pressed: frame.get_button(i),
                },
            );
            i = i + 1;
        }
        ops.push(SinkOp::SetAxis { player, axis: Axis::LeftHorizontal, value: frame.lh() });
        ops.push(SinkOp::SetAxis { player, axis: Axis::LeftVertical, value: frame.lv() });
        ops.push(SinkOp::SetAxis { player, axis: Axis::RightHorizontal, value: frame.rh() });
        ops.push(SinkOp::SetAxis { player, axis: Axis::RightVertical, value: frame.rv() });
        ops.push(SinkOp::Flush { player });
        assert(ops@ =~= sink_ops(frame.bytes()));
        Ok(ops)
    }
}

/// The number of writes (button and axis calls, not flushes) among sink calls.
pub open spec fn count_writes(ops: Seq<SinkOp>) -> nat
    decreases ops.len(),
{
    if ops.len() == 0 {
        0
    } else {
        count_writes(ops.drop_last()) + if ops.last().is_write() {
            1nat
        } else {
            0nat
        }
    }
}

/// The number of writes that an outcome makes.
pub open spec fn writes(r: Result<Seq<SinkOp>, InputError>) -> nat {
    match r {
        Ok(ops) => count_writes(ops),
        Err(_) => 0,
    }
}

proof fn lemma_count_all_writes(ops: Seq<SinkOp>)
    requires
        forall|i: int| 0 <= i < ops.len() ==> (#[trigger] ops[i]).is_write(),
    ensures
        count_writes(ops) == ops.len(),
    decreases ops.len(),
{
    if ops.len() > 0 {
        lemma_count_all_writes(ops.drop_last());
    }
}

/// Applying a frame whose payload equals that of the frame last applied for
/// the same player makes no sink call at all.
pub proof fn lemma_repeated_payload_writes_nothing(
    t: Seq<NetworkControllerState>,
    f1: NetworkControllerState,
    f2: NetworkControllerState,
)
    requires
        t.len() == NUM_PLAYERS,
        f1.bytes()[0] == f2.bytes()[0],
        payload(f1.bytes()) == payload(f2.bytes()),
    ensures
        ({
            let second = apply_outcome(apply_outcome(t, f1).0, f2).1;
            second is Err || second->Ok_0.len() == 0
        }),
        writes(apply_outcome(apply_outcome(t, f1).0, f2).1) == 0,
{
}

/// The sink calls for a frame are 21 writes (17 buttons, then 4 axes)
/// followed by exactly one flush.
pub proof fn lemma_sink_ops_shape(b: Seq<u8>)
    requires
        b.len() == 13,
    ensures
        sink_ops(b).len() == 22,
        forall|i: int| 0 <= i < 21 ==> (#[trigger] sink_ops(b)[i]).is_write(),
        sink_ops(b)[21] is Flush,
        count_writes(sink_ops(b)) == 21,
{
    let ops = sink_ops(b);
    assert(ops[21] is Flush);
    assert(ops.drop_last() =~= ops.subrange(0, 21));
    lemma_count_all_writes(ops.subrange(0, 21));
}
/// Applying a frame whose payload differs from that of the frame last applied
/// for the same (existing) player stores it and makes exactly 21 writes and
/// one flush.
pub proof fn lemma_changed_payload_writes_all(
    t: Seq<NetworkControllerState>,
    f1: NetworkControllerState,
    f2: NetworkControllerState,
)
    requires
        t.len() == NUM_PLAYERS,
        f1.bytes()[0] == f2.bytes()[0],
        f2.bytes()[0] < NUM_PLAYERS,
        payload(f1.bytes()) != payload(f2.bytes()),
    ensures
        ({
            let (t1, _) = apply_outcome(t, f1);
            let (t2, second) = apply_outcome(t1, f2);
            &&& t2 == t1.update(f2.bytes()[0] as int, f2)
            &&& second is Ok
            &&& second->Ok_0 == sink_ops(f2.bytes())
            &&& second->Ok_0.len() == 22
            &&& second->Ok_0[21] is Flush
            &&& writes(second) == 21
        }),
{
    let p = f2.bytes()[0] as int;
    let (t1, _) = apply_outcome(t, f1);
    assert(payload(t1[p].bytes()) == payload(f1.bytes()));
    lemma_sink_ops_shape(f2.bytes());
}

} // verus!
