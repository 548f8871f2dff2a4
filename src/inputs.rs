use vstd::prelude::*;

use crate::keymap::{device_to_opendeck_n1, spec_device_to_logical, N1_KEY_COUNT};

verus! {

/// N1 input code of the left face button (above the dial).
pub const N1_FACE_BUTTON_LEFT: u8 = 30;
/// N1 input code of the right face button (above the dial).
pub const N1_FACE_BUTTON_RIGHT: u8 = 31;
/// N1 input code of a press on the dial.
pub const N1_DIAL_PRESS: u8 = 35;
/// N1 input code of one counter-clockwise detent of the dial.
pub const N1_DIAL_ROTATE_CCW: u8 = 50;
/// N1 input code of one clockwise detent of the dial.
pub const N1_DIAL_ROTATE_CW: u8 = 51;

/// A translated input: always a full snapshot, never a diff.
#[derive(Debug, Clone, PartialEq, Eq)]
pub enum LogicalEvent {
    NoData,
    ButtonStateChange(Vec<bool>),
    EncoderStateChange(Vec<bool>),
    EncoderTwist(Vec<i8>),
}

pub enum EventModel {
    NoData,
    Buttons(Seq<bool>),
    Encoders(Seq<bool>),
    Twist(Seq<i8>),
}

impl View for LogicalEvent {
    type V = EventModel;

    open spec fn view(&self) -> EventModel {
        match self {
            LogicalEvent::NoData => EventModel::NoData,
            LogicalEvent::ButtonStateChange(v) => EventModel::Buttons(v@),
            LogicalEvent::EncoderStateChange(v) => EventModel::Encoders(v@),
            LogicalEvent::EncoderTwist(v) => EventModel::Twist(v@),
        }
    }
}

/// An input code outside every configured range.
#[derive(Debug, Clone, Copy, PartialEq, Eq, Structural)]
pub struct UnknownInput {
    pub code: u8,
}

/// Input codes of the encoders. Slot `i` of each list belongs to encoder `i`;
/// a code of zero means that the encoder has no such input.
#[derive(Debug, Clone, PartialEq, Eq)]
pub struct EncoderCodes {
    pub press: Vec<u8>,
    pub ccw: Vec<u8>,
    pub cw: Vec<u8>,
}

/// Code `c` stands at some slot of `codes`, and is not the empty code.
pub open spec fn has_code(codes: Seq<u8>, c: u8) -> bool {
    c != 0 && exists|i: int| 0 <= i < codes.len() && codes[i] == c
}

/// The slot of `codes` that holds `c`.
pub open spec fn slot_of(codes: Seq<u8>, c: u8) -> int {
    choose|i: int| 0 <= i < codes.len() && codes[i] == c
}

/// Every non-empty code of `a` differs from every code of `b` at another
/// position (at any position when `a` and `b` are different lists).
pub open spec fn codes_apart(a: Seq<u8>, b: Seq<u8>, same: bool) -> bool {
    forall|i: int, j: int|
        0 <= i < a.len() && 0 <= j < b.len() && a[i] != 0 && (!same || i != j) ==> a[i] != b[j]
}

/// Every non-empty code lies above the grid codes.
pub open spec fn above_grid(a: Seq<u8>) -> bool {
    forall|i: int| 0 <= i < a.len() ==> a[i] == 0 || a[i] > N1_KEY_COUNT
}

impl EncoderCodes {
    pub open spec fn encoder_count(&self) -> nat {
        self.press@.len()
    }

    /// The three lists have one slot per encoder, and every non-empty code is
    /// outside the grid range and used once.
    pub open spec fn wf(&self) -> bool {
        &&& self.ccw@.len() == self.press@.len()
        &&& self.cw@.len() == self.press@.len()
        &&& above_grid(self.press@) && above_grid(self.ccw@) && above_grid(self.cw@)
        &&& codes_apart(self.press@, self.press@, true)
        &&& codes_apart(self.ccw@, self.ccw@, true)
        &&& codes_apart(self.cw@, self.cw@, true)
        &&& codes_apart(self.press@, self.ccw@, false)
        &&& codes_apart(self.press@, self.cw@, false)
        &&& codes_apart(self.ccw@, self.cw@, false)
    }

    /// The N1's encoders: left face button, right face button and the dial,
    /// which alone turns.
    pub fn n1() -> (r: EncoderCodes)
        ensures
            r.wf(),
            r.press@ == seq![N1_FACE_BUTTON_LEFT, N1_FACE_BUTTON_RIGHT, N1_DIAL_PRESS],
            r.ccw@ == seq![0u8, 0u8, N1_DIAL_ROTATE_CCW],
            r.cw@ == seq![0u8, 0u8, N1_DIAL_ROTATE_CW],
    {
        let r = EncoderCodes {
            press: vec![N1_FACE_BUTTON_LEFT, N1_FACE_BUTTON_RIGHT, N1_DIAL_PRESS],
            ccw: vec![0u8, 0u8, N1_DIAL_ROTATE_CCW],
            cw: vec![0u8, 0u8, N1_DIAL_ROTATE_CW],
        };
        assert(r.press@ == seq![N1_FACE_BUTTON_LEFT, N1_FACE_BUTTON_RIGHT, N1_DIAL_PRESS]);
        assert(r.ccw@ == seq![0u8, 0u8, N1_DIAL_ROTATE_CCW]);
        assert(r.cw@ == seq![0u8, 0u8, N1_DIAL_ROTATE_CW]);
        r
    }
}

/// Button snapshot for one grid input: only the key's logical slot may be
/// set, and only when the input is active.
pub open spec fn button_snapshot(code: u8, state: u8) -> Seq<bool> {
    Seq::new(
        N1_KEY_COUNT as nat,
        |i: int| code != 0 && i == spec_device_to_logical(code as int) && state != 0,
    )
}

/// Twist vector with a single unit step at `slot`.
pub open spec fn twist_at(n: nat, slot: int, step: i8) -> Seq<i8> {
    Seq::new(n, |i: int| if i == slot { step } else { 0i8 })
}

/// Whether `code` falls in one of the ranges that `codes` and the grid define.
pub open spec fn is_known_code(codes: EncoderCodes, code: u8) -> bool {
    code <= N1_KEY_COUNT || has_code(codes.press@, code) || has_code(codes.ccw@, code) || has_code(
        codes.cw@,
        code,
    )
}

/// Reads one flag per key from a state buffer whose first byte is a header.
/// Bytes past the end of the buffer read as released.
pub fn read_button_states(states: &[u8], key_count: usize) -> (r: Vec<bool>)
    ensures
        r@ == Seq::new(
            key_count as nat,
            |i: int| i + 1 < states@.len() && states@[i + 1] != 0,
        ),
{
    let mut bools: Vec<bool> = Vec::new();
    let mut i: usize = 0;
    while i < key_count
        invariant
            i <= key_count,
            bools@ == Seq::new(i as nat, |k: int| k + 1 < states@.len() && states@[k + 1] != 0),
        decreases key_count - i,
    {
        let b = if i + 1 < states.len() {
            states[i + 1] != 0
        } else {
            false
        };
        bools.push(b);
        i = i + 1;
        assert(bools@ =~= Seq::new(i as nat, |k: int| k + 1 < states@.len() && states@[k + 1] != 0));
    }
    bools
}

/// Button snapshot for a grid input code. The sync code zero, and any code
/// whose logical slot lies past the grid, give the all-released snapshot.
pub fn read_button_press_n1(input: u8, state: u8) -> (r: LogicalEvent)
    ensures
        r@ == EventModel::Buttons(button_snapshot(input, state)),
{
    let mut button_states: Vec<u8> = vec![0x01];
    let mut k: usize = 0;
    while k < N1_KEY_COUNT + 1
        invariant
            k <= N1_KEY_COUNT + 1,
            button_states@.len() == k + 1,
            button_states@[0] == 0x01,
            forall|j: int| 1 <= j < button_states@.len() ==> button_states@[j] == 0,
        decreases N1_KEY_COUNT + 1 - k,
    {
        button_states.push(0u8);
        k = k + 1;
    }
    if input != 0 {
        let pressed_index: usize = device_to_opendeck_n1(input as usize);
        if pressed_index < N1_KEY_COUNT {
            button_states.set(pressed_index + 1, state);
        }
    }
    let states = read_button_states(button_states.as_slice(), N1_KEY_COUNT);
    assert(states@ =~= button_snapshot(input, state));
    LogicalEvent::ButtonStateChange(states)
}

/// First slot of `codes` holding `c`, if any.
fn find_slot(codes: &Vec<u8>, c: u8) -> (r: Option<usize>)
    ensures
        r is Some <==> exists|i: int| 0 <= i < codes@.len() && codes@[i] == c,
        r matches Some(i) ==> i < codes@.len() && codes@[i as int] == c,
{
    let mut i: usize = 0;
    while i < codes.len()
        invariant
            i <= codes@.len(),
            forall|j: int| 0 <= j < i ==> codes@[j] != c,
        decreases codes@.len() - i,
    {
        if codes[i] == c {
            return Some(i);
        }
        i = i + 1;
    }
    None
}

/// Twist vector of `n` slots with `step` at `slot`.
fn twist_vector(n: usize, slot: usize, step: i8) -> (r: Vec<i8>)
    ensures
        r@ == twist_at(n as nat, slot as int, step),
{
    let mut v: Vec<i8> = Vec::new();
    let mut i: usize = 0;
    while i < n
        invariant
            i <= n,
            v@ == twist_at(i as nat, slot as int, step),
        decreases n - i,
    {
        v.push(if i == slot { step } else { 0i8 });
        i = i + 1;
        assert(v@ =~= twist_at(i as nat, slot as int, step));
    }
    v
}

/// Translates an input code and state into a logical event.
///
/// Grid codes give a full button snapshot with at most the key's slot set.
/// An encoder press sets only that encoder's slot of `encoder_state` and
/// reports the whole updated vector. A rotation code gives a unit twist at
/// its encoder and leaves `encoder_state` alone. Every other code is
/// unknown, and leaves `encoder_state` alone too.
pub fn translate(codes: &EncoderCodes, input: u8, state: u8, encoder_state: &mut Vec<bool>) -> (r:
    Result<LogicalEvent, UnknownInput>)
    requires
        codes.wf(),
        old(encoder_state)@.len() == codes.encoder_count(),
    ensures
        final(encoder_state)@.len() == old(encoder_state)@.len(),
        r is Err <==> !is_known_code(*codes, input),
        r matches Err(e) ==> e.code == input,
        input <= N1_KEY_COUNT ==> r is Ok && r->Ok_0@ == EventModel::Buttons(
            button_snapshot(input, state),
        ),
        has_code(codes.press@, input) ==> r is Ok && r->Ok_0@ == EventModel::Encoders(
            old(encoder_state)@.update(slot_of(codes.press@, input), state != 0),
        ) && final(encoder_state)@ == old(encoder_state)@.update(
            slot_of(codes.press@, input),
            state != 0,
        ),
        has_code(codes.ccw@, input) ==> r is Ok && r->Ok_0@ == EventModel::Twist(
            twist_at(codes.encoder_count(), slot_of(codes.ccw@, input), -1i8),
        ),
        has_code(codes.cw@, input) ==> r is Ok && r->Ok_0@ == EventModel::Twist(
            twist_at(codes.encoder_count(), slot_of(codes.cw@, input), 1i8),
        ),
        !has_code(codes.press@, input) ==> final(encoder_state)@ == old(encoder_state)@,
{
    if (input as usize) <= N1_KEY_COUNT {
        return Ok(read_button_press_n1(input, state));
    }
    let n = codes.press.len();
    match find_slot(&codes.press, input) {
        Some(i) => {
            encoder_state.set(i, state != 0);
            let snapshot = encoder_state.clone();
            proof {
                assert(snapshot@ == encoder_state@);
            }
            return Ok(LogicalEvent::EncoderStateChange(snapshot));
        },
        None => {},
    }
    match find_slot(&codes.ccw, input) {
        Some(i) => {
            return Ok(LogicalEvent::EncoderTwist(twist_vector(n, i, -1)));
        },
        None => {},
    }
    match find_slot(&codes.cw, input) {
        Some(i) => {
            return Ok(LogicalEvent::EncoderTwist(twist_vector(n, i, 1)));
        },
        None => {},
    }
    Err(UnknownInput { code: input })
}

/// Translates an N1 input with the N1's encoder codes.
pub fn process_input_n1(input: u8, state: u8, encoder_state: &mut Vec<bool>) -> (r: Result<
    LogicalEvent,
    UnknownInput,
>)
    requires
        old(encoder_state)@.len() == 3,
    ensures
        final(encoder_state)@.len() == 3,
        r is Err <==> !(input <= N1_KEY_COUNT || input == N1_FACE_BUTTON_LEFT || input
            == N1_FACE_BUTTON_RIGHT || input == N1_DIAL_PRESS || input == N1_DIAL_ROTATE_CCW
            || input == N1_DIAL_ROTATE_CW),
        input <= N1_KEY_COUNT ==> r is Ok && r->Ok_0@ == EventModel::Buttons(
            button_snapshot(input, state),
        ),
        input == N1_FACE_BUTTON_LEFT ==> r is Ok && r->Ok_0@ == EventModel::Encoders(
            final(encoder_state)@,
        ) && final(encoder_state)@ == old(encoder_state)@.update(0, state != 0),
        input == N1_FACE_BUTTON_RIGHT ==> r is Ok && r->Ok_0@ == EventModel::Encoders(
            final(encoder_state)@,
        ) && final(encoder_state)@ == old(encoder_state)@.update(1, state != 0),
        input == N1_DIAL_PRESS ==> r is Ok && r->Ok_0@ == EventModel::Encoders(
            final(encoder_state)@,
        ) && final(encoder_state)@ == old(encoder_state)@.update(2, state != 0),
        input == N1_DIAL_ROTATE_CCW ==> r is Ok && r->Ok_0@ == EventModel::Twist(
            seq![0i8, 0i8, -1i8],
        ),
        input == N1_DIAL_ROTATE_CW ==> r is Ok && r->Ok_0@ == EventModel::Twist(
            seq![0i8, 0i8, 1i8],
        ),
        !(input == N1_FACE_BUTTON_LEFT || input == N1_FACE_BUTTON_RIGHT || input
            == N1_DIAL_PRESS) ==> final(encoder_state)@ == old(encoder_state)@,
{
    let codes = EncoderCodes::n1();
    proof {
        let p = codes.press@;
        let a = codes.ccw@;
        let w = codes.cw@;
        if input == N1_FACE_BUTTON_LEFT {
            assert(p[0] == input);
            assert(has_code(p, input));
            assert(slot_of(p, input) == 0);
        }
        if input == N1_FACE_BUTTON_RIGHT {
            assert(p[1] == input);
            assert(has_code(p, input));
            assert(slot_of(p, input) == 1);
        }
        if input == N1_DIAL_PRESS {
            assert(p[2] == input);
            assert(has_code(p, input));
            assert(slot_of(p, input) == 2);
        }
        if input == N1_DIAL_ROTATE_CCW {
            assert(a[2] == input);
            assert(has_code(a, input));
            assert(slot_of(a, input) == 2);
            assert(twist_at(3, 2, -1i8) =~= seq![0i8, 0i8, -1i8]);
        }
        if input == N1_DIAL_ROTATE_CW {
            assert(w[2] == input);
            assert(has_code(w, input));
            assert(slot_of(w, input) == 2);
            assert(twist_at(3, 2, 1i8) =~= seq![0i8, 0i8, 1i8]);
        }
    }
    translate(&codes, input, state, encoder_state)
}

} // verus!
