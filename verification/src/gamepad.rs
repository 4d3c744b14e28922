//! Local gamepad snapshots translated to session-local GameStream controllers.
//!
//! Local device IDs never become protocol indices: each device holds one of
//! sixteen player slots for as long as it stays attached, and the packets
//! that bring the host in line with the attached devices are planned one at
//! a time, so that a failed send can be retried without losing a release.
use vstd::prelude::*;

use crate::connection::InputError;

verus! {

/// Number of controller slots that GameStream supports.
pub const MAX_GAMEPADS: usize = 16;

/// GameStream controller buttons.
#[derive(Clone, Copy, Debug, PartialEq, Eq)]
pub enum ControllerButton {
    Up,
    Down,
    Left,
    Right,
    Start,
    Back,
    LeftStick,
    RightStick,
    LeftShoulder,
    RightShoulder,
    Home,
    A,
    B,
    X,
    Y,
}

impl ControllerButton {
    /// The button's bit in the GameStream controller packet.
    pub open spec fn spec_bits(self) -> u32 {
        match self {
            ControllerButton::Up => 0x0001,
            ControllerButton::Down => 0x0002,
            ControllerButton::Left => 0x0004,
            ControllerButton::Right => 0x0008,
            ControllerButton::Start => 0x0010,
            ControllerButton::Back => 0x0020,
            ControllerButton::LeftStick => 0x0040,
            ControllerButton::RightStick => 0x0080,
            ControllerButton::LeftShoulder => 0x0100,
            ControllerButton::RightShoulder => 0x0200,
            ControllerButton::Home => 0x0400,
            ControllerButton::A => 0x1000,
            ControllerButton::B => 0x2000,
            ControllerButton::X => 0x4000,
            ControllerButton::Y => 0x8000,
        }
    }

    /// The button's bit in the GameStream controller packet.
    #[verifier::when_used_as_spec(spec_bits)]
    pub fn bits(self) -> (res: u32)
        ensures
            res == self.spec_bits(),
    {
        match self {
            ControllerButton::Up => 0x0001,
            ControllerButton::Down => 0x0002,
            ControllerButton::Left => 0x0004,
            ControllerButton::Right => 0x0008,
            ControllerButton::Start => 0x0010,
            ControllerButton::Back => 0x0020,
            ControllerButton::LeftStick => 0x0040,
            ControllerButton::RightStick => 0x0080,
            ControllerButton::LeftShoulder => 0x0100,
            ControllerButton::RightShoulder => 0x0200,
            ControllerButton::Home => 0x0400,
            ControllerButton::A => 0x1000,
            ControllerButton::B => 0x2000,
            ControllerButton::X => 0x4000,
            ControllerButton::Y => 0x8000,
        }
    }
}

/// State of one remote controller as GameStream transmits it.
#[derive(Clone, Copy, Debug, PartialEq, Eq, Structural)]
pub struct ControllerState {
    /// Pressed buttons, as a combination of [`ControllerButton`] bits.
    pub buttons: u32,
    /// Left trigger pressure.
    pub left_trigger: u8,
    /// Right trigger pressure.
    pub right_trigger: u8,
    /// Left stick, horizontal.
    pub left_x: i16,
    /// Left stick, vertical (up is positive).
    pub left_y: i16,
    /// Right stick, horizontal.
    pub right_x: i16,
    /// Right stick, vertical (up is positive).
    pub right_y: i16,
}

/// The state of a controller at rest.
pub open spec fn spec_rest_state() -> ControllerState {
    ControllerState { buttons: 0, left_trigger: 0, right_trigger: 0, left_x: 0, left_y: 0, right_x: 0, right_y: 0 }
}

impl Default for ControllerState {
    fn default() -> (res: Self)
        ensures
            res == spec_rest_state(),
    {
        ControllerState { buttons: 0, left_trigger: 0, right_trigger: 0, left_x: 0, left_y: 0, right_x: 0, right_y: 0 }
    }
}

/// Buttons of a local gamepad, by position.
#[derive(Clone, Copy, Debug, PartialEq, Eq)]
pub enum GamepadButton {
    South,
    East,
    West,
    North,
    LeftShoulder,
    RightShoulder,
    LeftTrigger,
    RightTrigger,
    Select,
    Start,
    Home,
    LeftStick,
    RightStick,
}

impl GamepadButton {
    /// Bit position of the button in [`GamepadEvent::buttons`].
    pub open spec fn spec_index(self) -> u32 {
        match self {
            GamepadButton::South => 0,
            GamepadButton::East => 1,
            GamepadButton::West => 2,
            GamepadButton::North => 3,
            GamepadButton::LeftShoulder => 4,
            GamepadButton::RightShoulder => 5,
            GamepadButton::LeftTrigger => 6,
            GamepadButton::RightTrigger => 7,
            GamepadButton::Select => 8,
            GamepadButton::Start => 9,
            GamepadButton::Home => 10,
            GamepadButton::LeftStick => 11,
            GamepadButton::RightStick => 12,
        }
    }

    /// Bit position of the button in [`GamepadEvent::buttons`].
    #[verifier::when_used_as_spec(spec_index)]
    pub fn index(self) -> (res: u32)
        ensures
            res == self.spec_index(),
    {
        match self {
            GamepadButton::South => 0,
            GamepadButton::East => 1,
            GamepadButton::West => 2,
            GamepadButton::North => 3,
            GamepadButton::LeftShoulder => 4,
            GamepadButton::RightShoulder => 5,
            GamepadButton::LeftTrigger => 6,
            GamepadButton::RightTrigger => 7,
            GamepadButton::Select => 8,
            GamepadButton::Start => 9,
            GamepadButton::Home => 10,
            GamepadButton::LeftStick => 11,
            GamepadButton::RightStick => 12,
        }
    }
}

/// One snapshot of a local gamepad.
#[derive(Clone, Copy, Debug, Default, PartialEq, Eq)]
pub struct GamepadEvent {
    /// Local identifier of the device.
    pub device_id: u32,
    /// The device was detached or reset; the rest of the snapshot is ignored.
    pub reset: bool,
    /// Pressed buttons: bit [`GamepadButton::index`] for each one.
    pub buttons: u32,
    /// Hat switch, horizontal: negative left, positive right.
    pub hat_x: i8,
    /// Hat switch, vertical: negative up, positive down.
    pub hat_y: i8,
    /// Left stick, horizontal.
    pub left_x: i16,
    /// Left stick, vertical (down is positive).
    pub left_y: i16,
    /// Right stick, horizontal.
    pub right_x: i16,
    /// Right stick, vertical (down is positive).
    pub right_y: i16,
    /// Left trigger axis.
    pub left_trigger: u16,
    /// Right trigger axis.
    pub right_trigger: u16,
    /// Timestamp of the snapshot.
    pub time_ns: u64,
}

impl GamepadEvent {
    /// Whether `button` is pressed in this snapshot.
    pub open spec fn spec_pressed(self, button: GamepadButton) -> bool {
        (self.buttons >> button.spec_index()) & 1 == 1
    }

    /// Whether `button` is pressed in this snapshot.
    #[verifier::when_used_as_spec(spec_pressed)]
    pub fn pressed(self, button: GamepadButton) -> (res: bool)
        ensures
            res == self.spec_pressed(button),
    {
        (self.buttons >> button.index()) & 1 == 1
    }
}

/// `bit` when `pressed`, else 0.
pub open spec fn bit_if(pressed: bool, bit: u32) -> u32 {
    if pressed { bit } else { 0 }
}

/// The remote buttons that a snapshot presses: face buttons by position
/// (south = A, east = B, west = X, north = Y), shoulders, Select/Start/Home,
/// stick clicks and the hat as the D-pad.
pub open spec fn spec_buttons(e: GamepadEvent) -> u32 {
    bit_if(e.spec_pressed(GamepadButton::South), 0x1000)
        | bit_if(e.spec_pressed(GamepadButton::East), 0x2000)
        | bit_if(e.spec_pressed(GamepadButton::West), 0x4000)
        | bit_if(e.spec_pressed(GamepadButton::North), 0x8000)
        | bit_if(e.spec_pressed(GamepadButton::LeftShoulder), 0x0100)
        | bit_if(e.spec_pressed(GamepadButton::RightShoulder), 0x0200)
        | bit_if(e.spec_pressed(GamepadButton::Select), 0x0020)
        | bit_if(e.spec_pressed(GamepadButton::Start), 0x0010)
        | bit_if(e.spec_pressed(GamepadButton::Home), 0x0400)
        | bit_if(e.spec_pressed(GamepadButton::LeftStick), 0x0040)
        | bit_if(e.spec_pressed(GamepadButton::RightStick), 0x0080)
        | bit_if(e.hat_x < 0, 0x0004)
        | bit_if(e.hat_x > 0, 0x0008)
        | bit_if(e.hat_y < 0, 0x0001)
        | bit_if(e.hat_y > 0, 0x0002)
}

/// Trigger pressure: full when only the digital button reports it, else the
/// analog axis (clamped to 32767) scaled to 0..=255 with rounding.
pub open spec fn spec_trigger(value: u16, digital: bool) -> u8 {
    if digital && value == 0 {
        255
    } else {
        (((if value > 32767 { 32767 } else { value as int }) * 255 + 16383) / 32767) as u8
    }
}

/// `-v`, saturating at `i16::MAX`.
pub open spec fn spec_saturating_neg(v: i16) -> i16 {
    if v == i16::MIN { i16::MAX } else { (-v) as i16 }
}

/// The remote controller state for a snapshot; a reset gives the rest state.
pub open spec fn spec_translate(e: GamepadEvent) -> ControllerState {
    if e.reset {
        spec_rest_state()
    } else {
        ControllerState {
            buttons: spec_buttons(e),
            left_trigger: spec_trigger(e.left_trigger, e.spec_pressed(GamepadButton::LeftTrigger)),
            right_trigger: spec_trigger(e.right_trigger, e.spec_pressed(GamepadButton::RightTrigger)),
            left_x: e.left_x,
            left_y: spec_saturating_neg(e.left_y),
            right_x: e.right_x,
            right_y: spec_saturating_neg(e.right_y),
        }
    }
}

fn bit_when(pressed: bool, bit: u32) -> (res: u32)
    ensures
        res == bit_if(pressed, bit),
{
    if pressed { bit } else { 0 }
}

/// Trigger pressure for an analog axis and its digital threshold button.
pub fn trigger(value: u16, digital: bool) -> (res: u8)
    ensures
        res == spec_trigger(value, digital),
{
    if digital && value == 0 {
        255
    } else {
        let clamped: u32 = if value > 32767 { 32767 } else { value as u32 };
        assert((clamped * 255 + 16383) / 32767 <= 255) by (nonlinear_arith)
            requires
                clamped <= 32767,
        ;
        ((clamped * 255 + 16383) / 32767) as u8
    }
}

fn saturating_neg(v: i16) -> (res: i16)
    ensures
        res == spec_saturating_neg(v),
{
    if v == i16::MIN { i16::MAX } else { -v }
}

proof fn lemma_button_bits(
    s: bool,
    e: bool,
    w: bool,
    n: bool,
    ls: bool,
    rs: bool,
    sel: bool,
    st: bool,
    h: bool,
    lk: bool,
    rk: bool,
    l: bool,
    r: bool,
    u: bool,
    d: bool,
    x: u32,
)
    by (bit_vector)
    requires
        x == (bit_if(s, 0x1000) | bit_if(e, 0x2000) | bit_if(w, 0x4000) | bit_if(n, 0x8000) | bit_if(
            ls,
            0x0100,
        ) | bit_if(rs, 0x0200) | bit_if(sel, 0x0020) | bit_if(st, 0x0010) | bit_if(h, 0x0400) | bit_if(
            lk,
            0x0040,
        ) | bit_if(rk, 0x0080) | bit_if(l, 0x0004) | bit_if(r, 0x0008) | bit_if(u, 0x0001) | bit_if(
            d,
            0x0002,
        )),
    ensures
        (x & 0x1000 != 0) == s,
        (x & 0x2000 != 0) == e,
        (x & 0x4000 != 0) == w,
        (x & 0x8000 != 0) == n,
        (x & 0x0100 != 0) == ls,
        (x & 0x0200 != 0) == rs,
        (x & 0x0020 != 0) == sel,
        (x & 0x0010 != 0) == st,
        (x & 0x0400 != 0) == h,
        (x & 0x0040 != 0) == lk,
        (x & 0x0080 != 0) == rk,
        (x & 0x0004 != 0) == l,
        (x & 0x0008 != 0) == r,
        (x & 0x0001 != 0) == u,
        (x & 0x0002 != 0) == d,
        x & 0x0800 == 0,
        x & 0xffff_0000 == 0,
{
}

/// A law of translation: each remote button is pressed exactly when the
/// local control in its position is: the face buttons by position (south
/// A, east B, west X, north Y), the shoulders, Select as Back, Start, Home,
/// the stick clicks, and the hat as the D-pad; no other bit is set.
pub proof fn law_buttons_follow_positions(e: GamepadEvent)
    requires
        !e.reset,
    ensures
        (spec_translate(e).buttons & ControllerButton::A.spec_bits() != 0) == e.spec_pressed(GamepadButton::South),
        (spec_translate(e).buttons & ControllerButton::B.spec_bits() != 0) == e.spec_pressed(GamepadButton::East),
        (spec_translate(e).buttons & ControllerButton::X.spec_bits() != 0) == e.spec_pressed(GamepadButton::West),
        (spec_translate(e).buttons & ControllerButton::Y.spec_bits() != 0) == e.spec_pressed(GamepadButton::North),
        (spec_translate(e).buttons & ControllerButton::LeftShoulder.spec_bits() != 0) == e.spec_pressed(
            GamepadButton::LeftShoulder,
        ),
        (spec_translate(e).buttons & ControllerButton::RightShoulder.spec_bits() != 0) == e.spec_pressed(
            GamepadButton::RightShoulder,
        ),
        (spec_translate(e).buttons & ControllerButton::Back.spec_bits() != 0) == e.spec_pressed(GamepadButton::Select),
        (spec_translate(e).buttons & ControllerButton::Start.spec_bits() != 0) == e.spec_pressed(GamepadButton::Start),
        (spec_translate(e).buttons & ControllerButton::Home.spec_bits() != 0) == e.spec_pressed(GamepadButton::Home),
        (spec_translate(e).buttons & ControllerButton::LeftStick.spec_bits() != 0) == e.spec_pressed(
            GamepadButton::LeftStick,
        ),
        (spec_translate(e).buttons & ControllerButton::RightStick.spec_bits() != 0) == e.spec_pressed(
            GamepadButton::RightStick,
        ),
        (spec_translate(e).buttons & ControllerButton::Left.spec_bits() != 0) == (e.hat_x < 0),
        (spec_translate(e).buttons & ControllerButton::Right.spec_bits() != 0) == (e.hat_x > 0),
        (spec_translate(e).buttons & ControllerButton::Up.spec_bits() != 0) == (e.hat_y < 0),
        (spec_translate(e).buttons & ControllerButton::Down.spec_bits() != 0) == (e.hat_y > 0),
        spec_translate(e).buttons & 0xffff_0800 == 0,
{
    let x = spec_translate(e).buttons;
    let s = e.spec_pressed(GamepadButton::South);
    let ea = e.spec_pressed(GamepadButton::East);
    let w = e.spec_pressed(GamepadButton::West);
    let n = e.spec_pressed(GamepadButton::North);
    let ls = e.spec_pressed(GamepadButton::LeftShoulder);
    let rs = e.spec_pressed(GamepadButton::RightShoulder);
    let sel = e.spec_pressed(GamepadButton::Select);
    let st = e.spec_pressed(GamepadButton::Start);
    let h = e.spec_pressed(GamepadButton::Home);
    let lk = e.spec_pressed(GamepadButton::LeftStick);
    let rk = e.spec_pressed(GamepadButton::RightStick);
    let l = e.hat_x < 0;
    let r = e.hat_x > 0;
    let u = e.hat_y < 0;
    let d = e.hat_y > 0;
    assert(x == (bit_if(s, 0x1000) | bit_if(ea, 0x2000) | bit_if(w, 0x4000) | bit_if(n, 0x8000) | bit_if(
        ls,
        0x0100,
    ) | bit_if(rs, 0x0200) | bit_if(sel, 0x0020) | bit_if(st, 0x0010) | bit_if(h, 0x0400) | bit_if(
        lk,
        0x0040,
    ) | bit_if(rk, 0x0080) | bit_if(l, 0x0004) | bit_if(r, 0x0008) | bit_if(u, 0x0001) | bit_if(d, 0x0002)));
    lemma_button_bits(s, ea, w, n, ls, rs, sel, st, h, lk, rk, l, r, u, d, x);
    assert(x & 0xffff_0800 == 0) by (bit_vector)
        requires
            x & 0x0800 == 0,
            x & 0xffff_0000 == 0,
    ;
}

/// Translate a local snapshot to the remote controller state.
pub fn translate(e: GamepadEvent) -> (res: ControllerState)
    ensures
        res == spec_translate(e),
{
    if e.reset {
        return ControllerState::default();
    }
    let buttons = bit_when(e.pressed(GamepadButton::South), 0x1000)
        | bit_when(e.pressed(GamepadButton::East), 0x2000)
        | bit_when(e.pressed(GamepadButton::West), 0x4000)
        | bit_when(e.pressed(GamepadButton::North), 0x8000)
        | bit_when(e.pressed(GamepadButton::LeftShoulder), 0x0100)
        | bit_when(e.pressed(GamepadButton::RightShoulder), 0x0200)
        | bit_when(e.pressed(GamepadButton::Select), 0x0020)
        | bit_when(e.pressed(GamepadButton::Start), 0x0010)
        | bit_when(e.pressed(GamepadButton::Home), 0x0400)
        | bit_when(e.pressed(GamepadButton::LeftStick), 0x0040)
        | bit_when(e.pressed(GamepadButton::RightStick), 0x0080)
        | bit_when(e.hat_x < 0, 0x0004)
        | bit_when(e.hat_x > 0, 0x0008)
        | bit_when(e.hat_y < 0, 0x0001)
        | bit_when(e.hat_y > 0, 0x0002);
    ControllerState {
        buttons,
        left_trigger: trigger(e.left_trigger, e.pressed(GamepadButton::LeftTrigger)),
        right_trigger: trigger(e.right_trigger, e.pressed(GamepadButton::RightTrigger)),
        left_x: e.left_x,
        left_y: saturating_neg(e.left_y),
        right_x: e.right_x,
        right_y: saturating_neg(e.right_y),
    }
}

/// A local device attached to a player slot, with its latest state.
#[derive(Clone, Copy, Debug, PartialEq, Eq, Structural)]
pub struct Device {
    /// Local identifier.
    pub id: u32,
    /// Remote controller state.
    pub state: ControllerState,
}

/// A controller packet for the host.
#[derive(Clone, Copy, Debug, PartialEq, Eq, Structural)]
pub enum Packet {
    /// Announce a controller in `slot`; `mask` lists the attached slots.
    Arrival { slot: u8, mask: u16 },
    /// Report the state of `slot`; `mask` lists the attached slots.
    State { slot: u8, mask: u16, state: ControllerState },
}

/// Mathematical value of [`Gamepads`].
pub struct GamepadsView {
    /// The device in each slot, as last observed.
    pub devices: Seq<Option<Device>>,
    /// The device in each slot, as last reported to the host.
    pub sent: Seq<Option<Device>>,
}

/// Player slots of attached gamepads and what the host has been told.
pub struct Gamepads {
    devices: Vec<Option<Device>>,
    sent: Vec<Option<Device>>,
}

impl View for Gamepads {
    type V = GamepadsView;

    closed spec fn view(&self) -> GamepadsView {
        GamepadsView { devices: self.devices@, sent: self.sent@ }
    }
}

/// The identifier of the device in a slot.
pub open spec fn id_of(d: Option<Device>) -> Option<u32> {
    match d {
        Some(d) => Some(d.id),
        None => None,
    }
}

/// Whether a slot list has sixteen slots and no device in two of them.
pub open spec fn spec_slots_well_formed(devices: Seq<Option<Device>>) -> bool {
    &&& devices.len() == MAX_GAMEPADS
    &&& forall|i: int, j: int|
        0 <= i < j < devices.len() && devices[i] is Some && devices[j] is Some ==> devices[i]->Some_0.id
            != devices[j]->Some_0.id
}

/// Whether a gamepad set is well formed.
pub open spec fn spec_gamepads_well_formed(v: GamepadsView) -> bool {
    spec_slots_well_formed(v.devices) && v.sent.len() == MAX_GAMEPADS
}

/// The first slot from `i` on that holds device `id`.
pub open spec fn spec_slot_of(devices: Seq<Option<Device>>, id: u32, i: int) -> Option<int>
    decreases devices.len() - i,
{
    if i < 0 || i >= devices.len() {
        None
    } else if id_of(devices[i]) == Some(id) {
        Some(i)
    } else {
        spec_slot_of(devices, id, i + 1)
    }
}

/// The first empty slot from `i` on.
pub open spec fn spec_free_slot(devices: Seq<Option<Device>>, i: int) -> Option<int>
    decreases devices.len() - i,
{
    if i < 0 || i >= devices.len() {
        None
    } else if devices[i] is None {
        Some(i)
    } else {
        spec_free_slot(devices, i + 1)
    }
}

/// The slots after observing snapshot `e`: a reset empties the device's
/// slot (an unknown device is ignored); any other snapshot updates the
/// device in its slot, or attaches it to the first empty slot (a device
/// beyond the sixteenth is ignored).
pub open spec fn spec_observe(devices: Seq<Option<Device>>, e: GamepadEvent) -> Seq<Option<Device>> {
    let existing = spec_slot_of(devices, e.device_id, 0);
    if e.reset {
        match existing {
            Some(s) => devices.update(s, None),
            None => devices,
        }
    } else {
        match (if existing is Some { existing } else { spec_free_slot(devices, 0) }) {
            Some(s) => devices.update(s, Some(Device { id: e.device_id, state: spec_translate(e) })),
            None => devices,
        }
    }
}

/// The attached-slot bitmap of slots `i..16`, shifted down by `i`.
pub open spec fn spec_mask_from(slots: Seq<Option<Device>>, i: int) -> int
    decreases MAX_GAMEPADS - i,
{
    if i < 0 || i >= MAX_GAMEPADS {
        0
    } else {
        (if slots[i] is Some { 1int } else { 0int }) + 2 * spec_mask_from(slots, i + 1)
    }
}

/// The attached-slot bitmap: bit `i` is set when slot `i` holds a device.
pub open spec fn spec_mask(slots: Seq<Option<Device>>) -> u16 {
    spec_mask_from(slots, 0) as u16
}

/// Whether slot `s` still reports a device that has left it.
pub open spec fn needs_release(v: GamepadsView, s: int) -> bool {
    v.sent[s] is Some && id_of(v.sent[s]) != id_of(v.devices[s])
}

/// Whether slot `s` holds a device whose arrival or state the host lacks.
pub open spec fn needs_update(v: GamepadsView, s: int) -> bool {
    v.devices[s] is Some && v.sent[s] != v.devices[s]
}

/// The first slot from `i` on that needs a release.
pub open spec fn spec_first_release(v: GamepadsView, i: int) -> Option<int>
    decreases MAX_GAMEPADS - i,
{
    if i < 0 || i >= MAX_GAMEPADS {
        None
    } else if needs_release(v, i) {
        Some(i)
    } else {
        spec_first_release(v, i + 1)
    }
}

/// The first slot from `i` on that needs an arrival or a state packet.
pub open spec fn spec_first_update(v: GamepadsView, i: int) -> Option<int>
    decreases MAX_GAMEPADS - i,
{
    if i < 0 || i >= MAX_GAMEPADS {
        None
    } else if needs_update(v, i) {
        Some(i)
    } else {
        spec_first_update(v, i + 1)
    }
}

/// The device as announced on arrival: its identity at rest.
pub open spec fn arrived(d: Device) -> Device {
    Device { id: d.id, state: spec_rest_state() }
}

/// The next packet that brings the host in line with the attached devices:
/// first the release of every slot whose device left (slot order), then per
/// slot the arrival of a new device followed by its state.
pub open spec fn spec_next_packet(v: GamepadsView) -> Option<Packet> {
    match spec_first_release(v, 0) {
        Some(s) => Some(
            Packet::State { slot: s as u8, mask: spec_mask(v.sent.update(s, None)), state: spec_rest_state() },
        ),
        None => match spec_first_update(v, 0) {
            Some(s) => if v.sent[s] is None {
                Some(
                    Packet::Arrival {
                        slot: s as u8,
                        mask: spec_mask(v.sent.update(s, Some(arrived(v.devices[s]->Some_0)))),
                    },
                )
            } else {
                Some(Packet::State { slot: s as u8, mask: spec_mask(v.sent), state: v.devices[s]->Some_0.state })
            },
            None => None,
        },
    }
}

/// What the host knows after the next packet was delivered.
pub open spec fn spec_commit(v: GamepadsView) -> GamepadsView {
    match spec_first_release(v, 0) {
        Some(s) => GamepadsView { devices: v.devices, sent: v.sent.update(s, None) },
        None => match spec_first_update(v, 0) {
            Some(s) => GamepadsView {
                devices: v.devices,
                sent: v.sent.update(
                    s,
                    if v.sent[s] is None { Some(arrived(v.devices[s]->Some_0)) } else { v.devices[s] },
                ),
            },
            None => v,
        },
    }
}

proof fn lemma_first_release_bounds(v: GamepadsView, i: int)
    requires
        0 <= i <= MAX_GAMEPADS,
    ensures
        spec_first_release(v, i) matches Some(s) ==> i <= s < MAX_GAMEPADS && needs_release(v, s),
        spec_first_release(v, i) is None ==> forall|s: int| i <= s < MAX_GAMEPADS ==> !needs_release(v, s),
    decreases MAX_GAMEPADS - i,
{
    if i < MAX_GAMEPADS && !needs_release(v, i) {
        lemma_first_release_bounds(v, i + 1);
    }
}

proof fn lemma_first_update_bounds(v: GamepadsView, i: int)
    requires
        0 <= i <= MAX_GAMEPADS,
    ensures
        spec_first_update(v, i) matches Some(s) ==> i <= s < MAX_GAMEPADS && needs_update(v, s),
        spec_first_update(v, i) is None ==> forall|s: int| i <= s < MAX_GAMEPADS ==> !needs_update(v, s),
    decreases MAX_GAMEPADS - i,
{
    if i < MAX_GAMEPADS && !needs_update(v, i) {
        lemma_first_update_bounds(v, i + 1);
    }
}

proof fn lemma_mask_bound(slots: Seq<Option<Device>>, i: int)
    requires
        0 <= i <= MAX_GAMEPADS,
    ensures
        0 <= spec_mask_from(slots, i) < vstd::arithmetic::power2::pow2((MAX_GAMEPADS - i) as nat),
    decreases MAX_GAMEPADS - i,
{
    vstd::arithmetic::power2::lemma2_to64();
    if i < MAX_GAMEPADS {
        lemma_mask_bound(slots, i + 1);
        vstd::arithmetic::power2::lemma_pow2_unfold((MAX_GAMEPADS - i) as nat);
    }
}

/// The attached-slot bitmap of `slots`, with slot `skip` counted as
/// `skip_present` when `skip` is a slot.
fn mask_with(slots: &Vec<Option<Device>>, skip: usize, skip_present: bool) -> (res: u16)
    requires
        slots.len() == MAX_GAMEPADS,
    ensures
        skip < MAX_GAMEPADS ==> res == spec_mask(
            slots@.update(skip as int, if skip_present { Some(arbitrary_device()) } else { None }),
        ),
        skip >= MAX_GAMEPADS ==> res == spec_mask(slots@),
{
    let ghost target = if skip < MAX_GAMEPADS {
        slots@.update(skip as int, if skip_present { Some(arbitrary_device()) } else { None })
    } else {
        slots@
    };
    let mut value: u32 = 0;
    let mut i: usize = MAX_GAMEPADS;
    proof {
        vstd::arithmetic::power2::lemma2_to64();
    }
    while i > 0
        invariant
            i <= MAX_GAMEPADS,
            slots.len() == MAX_GAMEPADS,
            target.len() == MAX_GAMEPADS,
            target == (if skip < MAX_GAMEPADS {
                slots@.update(skip as int, if skip_present { Some(arbitrary_device()) } else { None })
            } else {
                slots@
            }),
            value == spec_mask_from(target, i as int),
        decreases i,
    {
        i = i - 1;
        proof {
            lemma_mask_bound(target, i + 1);
            vstd::arithmetic::power2::lemma2_to64();
        }
        let present = if i == skip { skip_present } else { slots[i].is_some() };
        assert(present == target[i as int] is Some);
        value = (if present { 1 } else { 0 }) + 2 * value;
    }
    proof {
        lemma_mask_bound(target, 0);
        vstd::arithmetic::power2::lemma2_to64();
    }
    value as u16
}

/// Some device; only its presence matters to a slot bitmap.
pub open spec fn arbitrary_device() -> Device {
    Device { id: 0, state: spec_rest_state() }
}

proof fn lemma_mask_presence_only(a: Seq<Option<Device>>, b: Seq<Option<Device>>, i: int)
    requires
        a.len() == MAX_GAMEPADS,
        b.len() == MAX_GAMEPADS,
        forall|k: int| 0 <= k < MAX_GAMEPADS ==> (a[k] is Some <==> b[k] is Some),
    ensures
        spec_mask_from(a, i) == spec_mask_from(b, i),
    decreases MAX_GAMEPADS - i,
{
    if 0 <= i < MAX_GAMEPADS {
        lemma_mask_presence_only(a, b, i + 1);
    }
}

fn same_device(a: Option<Device>, b: Option<Device>) -> (res: bool)
    ensures
        res == (a == b),
{
    match (a, b) {
        (Some(x), Some(y)) => x == y,
        (None, None) => true,
        _ => false,
    }
}

fn same_id(a: Option<Device>, b: Option<Device>) -> (res: bool)
    ensures
        res == (id_of(a) == id_of(b)),
{
    match (a, b) {
        (Some(x), Some(y)) => x.id == y.id,
        (None, None) => true,
        _ => false,
    }
}

/// How many packets slot `s` still needs at most: a release, then an
/// arrival, then a state.
pub open spec fn spec_slot_distance(v: GamepadsView, s: int) -> nat {
    if v.sent[s] == v.devices[s] {
        0
    } else if needs_release(v, s) {
        3
    } else if v.sent[s] is None {
        2
    } else {
        1
    }
}

/// The packets that slots `i..16` still need at most.
pub open spec fn spec_distance_from(v: GamepadsView, i: int) -> nat
    decreases MAX_GAMEPADS - i,
{
    if i < 0 || i >= MAX_GAMEPADS {
        0
    } else {
        spec_slot_distance(v, i) + spec_distance_from(v, i + 1)
    }
}

/// Each of the first `n` packets from `v` on was handed to `send`, which
/// could answer it with `Ok`.
pub open spec fn spec_delivered<F: Fn(Packet) -> Result<(), InputError>>(
    send: F,
    v: GamepadsView,
    n: nat,
) -> bool {
    forall|k: nat|
        k < n ==> match spec_next_packet(#[trigger] spec_commits(v, k)) {
            Some(p) => call_ensures(send, (p,), Ok::<(), InputError>(())),
            None => false,
        }
}

/// The state after `n` packets were delivered.
pub open spec fn spec_commits(v: GamepadsView, n: nat) -> GamepadsView
    decreases n,
{
    if n == 0 {
        v
    } else {
        spec_commit(spec_commits(v, (n - 1) as nat))
    }
}

proof fn lemma_distance_drops(v: GamepadsView, w: GamepadsView, slot: int, i: int)
    requires
        0 <= i <= MAX_GAMEPADS,
        0 <= slot < MAX_GAMEPADS,
        v.sent.len() == MAX_GAMEPADS,
        v.devices.len() == MAX_GAMEPADS,
        w.devices == v.devices,
        w.sent.len() == MAX_GAMEPADS,
        forall|k: int| 0 <= k < MAX_GAMEPADS && k != slot ==> w.sent[k] == v.sent[k],
        spec_slot_distance(w, slot) < spec_slot_distance(v, slot),
    ensures
        spec_distance_from(w, i) <= spec_distance_from(v, i),
        i <= slot ==> spec_distance_from(w, i) < spec_distance_from(v, i),
    decreases MAX_GAMEPADS - i,
{
    if i < MAX_GAMEPADS {
        lemma_distance_drops(v, w, slot, i + 1);
        if i != slot {
            assert(spec_slot_distance(w, i) == spec_slot_distance(v, i));
        }
    }
}

/// Delivering a pending packet brings the host strictly closer to the
/// attached devices.
proof fn lemma_commit_progresses(v: GamepadsView)
    requires
        spec_gamepads_well_formed(v),
        spec_next_packet(v) is Some,
    ensures
        spec_gamepads_well_formed(spec_commit(v)),
        spec_distance_from(spec_commit(v), 0) < spec_distance_from(v, 0),
{
    law_commit_changes_only_packet_slot(v);
    lemma_first_release_bounds(v, 0);
    lemma_first_update_bounds(v, 0);
    let w = spec_commit(v);
    let slot = match spec_first_release(v, 0) {
        Some(s) => s,
        None => spec_first_update(v, 0)->Some_0,
    };
    assert(forall|k: int| 0 <= k < MAX_GAMEPADS && k != slot ==> w.sent[k] == v.sent[k]);
    lemma_distance_drops(v, w, slot, 0);
}

impl Gamepads {
    /// The well-formedness of the slot tables.
    pub closed spec fn well_formed(&self) -> bool {
        spec_gamepads_well_formed(self@)
    }

    /// No attached device and nothing reported.
    pub fn new() -> (res: Self)
        ensures
            res.well_formed(),
            res@.devices == Seq::new(MAX_GAMEPADS as nat, |i: int| None::<Device>),
            res@.sent == Seq::new(MAX_GAMEPADS as nat, |i: int| None::<Device>),
    {
        let mut devices: Vec<Option<Device>> = Vec::new();
        let mut sent: Vec<Option<Device>> = Vec::new();
        let mut i: usize = 0;
        while i < MAX_GAMEPADS
            invariant
                i <= MAX_GAMEPADS,
                devices@ == Seq::new(i as nat, |k: int| None::<Device>),
                sent@ == Seq::new(i as nat, |k: int| None::<Device>),
            decreases MAX_GAMEPADS - i,
        {
            devices.push(None);
            sent.push(None);
            i = i + 1;
            assert(devices@ =~= Seq::new(i as nat, |k: int| None::<Device>));
            assert(sent@ =~= Seq::new(i as nat, |k: int| None::<Device>));
        }
        Gamepads { devices, sent }
    }

    fn slot_of(&self, id: u32) -> (res: Option<usize>)
        requires
            self.well_formed(),
        ensures
            match res {
                Some(s) => spec_slot_of(self@.devices, id, 0) == Some(s as int) && s < MAX_GAMEPADS,
                None => spec_slot_of(self@.devices, id, 0) is None,
            },
    {
        let mut i: usize = 0;
        while i < MAX_GAMEPADS
            invariant
                i <= MAX_GAMEPADS,
                self.devices.len() == MAX_GAMEPADS,
                spec_slot_of(self@.devices, id, 0) == spec_slot_of(self@.devices, id, i as int),
            decreases MAX_GAMEPADS - i,
        {
            match self.devices[i] {
                Some(d) => {
                    if d.id == id {
                        return Some(i);
                    }
                },
                None => {},
            }
            i = i + 1;
        }
        None
    }

    fn free_slot(&self) -> (res: Option<usize>)
        requires
            self.well_formed(),
        ensures
            match res {
                Some(s) => spec_free_slot(self@.devices, 0) == Some(s as int) && s < MAX_GAMEPADS,
                None => spec_free_slot(self@.devices, 0) is None,
            },
    {
        let mut i: usize = 0;
        while i < MAX_GAMEPADS
            invariant
                i <= MAX_GAMEPADS,
                self.devices.len() == MAX_GAMEPADS,
                spec_free_slot(self@.devices, 0) == spec_free_slot(self@.devices, i as int),
            decreases MAX_GAMEPADS - i,
        {
            if self.devices[i].is_none() {
                return Some(i);
            }
            i = i + 1;
        }
        None
    }

    /// Record a snapshot of a local gamepad.
    pub fn observe(&mut self, event: GamepadEvent)
        requires
            old(self).well_formed(),
        ensures
            final(self).well_formed(),
            final(self)@.devices == spec_observe(old(self)@.devices, event),
            final(self)@.sent == old(self)@.sent,
    {
        proof {
            lemma_slot_of_bounds(self@.devices, event.device_id, 0);
            lemma_free_slot_bounds(self@.devices, 0);
        }
        let existing = self.slot_of(event.device_id);
        if event.reset {
            if let Some(slot) = existing {
                self.devices.set(slot, None);
            }
        } else {
            let target = match existing {
                Some(slot) => Some(slot),
                None => self.free_slot(),
            };
            if let Some(slot) = target {
                let state = translate(event);
                self.devices.set(slot, Some(Device { id: event.device_id, state }));
                proof {
                    let old_devices = old(self)@.devices;
                    assert forall|i: int, j: int|
                        0 <= i < j < self@.devices.len() && self@.devices[i] is Some
                            && self@.devices[j] is Some implies self@.devices[i]->Some_0.id
                        != self@.devices[j]->Some_0.id by {
                        if i == slot as int {
                            assert(old_devices[j]->Some_0.id != event.device_id);
                        } else if j == slot as int {
                            assert(old_devices[i]->Some_0.id != event.device_id);
                        }
                    }
                }
            }
        }
    }

    /// The next packet that the host needs, if any.
    pub fn next_packet(&self) -> (res: Option<Packet>)
        requires
            self.well_formed(),
        ensures
            res == spec_next_packet(self@),
    {
        let ghost v = self@;
        let mut i: usize = 0;
        while i < MAX_GAMEPADS
            invariant
                i <= MAX_GAMEPADS,
                v == self@,
                self.devices.len() == MAX_GAMEPADS,
                self.sent.len() == MAX_GAMEPADS,
                spec_first_release(v, 0) == spec_first_release(v, i as int),
            decreases MAX_GAMEPADS - i,
        {
            if self.sent[i].is_some() && !same_id(self.sent[i], self.devices[i]) {
                let mask = mask_with(&self.sent, i, false);
                return Some(Packet::State { slot: i as u8, mask, state: ControllerState::default() });
            }
            i = i + 1;
        }
        let mut j: usize = 0;
        while j < MAX_GAMEPADS
            invariant
                j <= MAX_GAMEPADS,
                v == self@,
                self.devices.len() == MAX_GAMEPADS,
                self.sent.len() == MAX_GAMEPADS,
                spec_first_release(v, 0) is None,
                spec_first_update(v, 0) == spec_first_update(v, j as int),
            decreases MAX_GAMEPADS - j,
        {
            if let Some(device) = self.devices[j] {
                if !same_device(self.sent[j], self.devices[j]) {
                    if self.sent[j].is_none() {
                        let mask = mask_with(&self.sent, j, true);
                        proof {
                            lemma_mask_presence_only(
                                self.sent@.update(j as int, Some(arbitrary_device())),
                                self.sent@.update(j as int, Some(arrived(device))),
                                0,
                            );
                        }
                        return Some(Packet::Arrival { slot: j as u8, mask });
                    } else {
                        let mask = mask_with(&self.sent, MAX_GAMEPADS, false);
                        return Some(Packet::State { slot: j as u8, mask, state: device.state });
                    }
                }
            }
            j = j + 1;
        }
        None
    }

    /// Record that the packet [`Gamepads::next_packet`] returned was
    /// delivered.
    pub fn commit(&mut self)
        requires
            old(self).well_formed(),
        ensures
            final(self).well_formed(),
            final(self)@ == spec_commit(old(self)@),
    {
        let ghost v = self@;
        let mut i: usize = 0;
        while i < MAX_GAMEPADS
            invariant
                i <= MAX_GAMEPADS,
                v == self@,
                v == old(self)@,
                self.well_formed(),
                spec_first_release(v, 0) == spec_first_release(v, i as int),
            decreases MAX_GAMEPADS - i,
        {
            if self.sent[i].is_some() && !same_id(self.sent[i], self.devices[i]) {
                assert(needs_release(v, i as int));
                assert(spec_first_release(v, 0) == Some(i as int));
                self.sent.set(i, None);
                assert(self@.sent == v.sent.update(i as int, None));
                assert(self@.devices == v.devices);
                return;
            }
            i = i + 1;
        }
        let mut j: usize = 0;
        while j < MAX_GAMEPADS
            invariant
                j <= MAX_GAMEPADS,
                v == self@,
                v == old(self)@,
                self.well_formed(),
                spec_first_release(v, 0) is None,
                spec_first_update(v, 0) == spec_first_update(v, j as int),
            decreases MAX_GAMEPADS - j,
        {
            if let Some(device) = self.devices[j] {
                if !same_device(self.sent[j], self.devices[j]) {
                    assert(needs_update(v, j as int));
                    assert(spec_first_update(v, 0) == Some(j as int));
                    if self.sent[j].is_none() {
                        self.sent.set(j, Some(Device { id: device.id, state: ControllerState::default() }));
                    } else {
                        self.sent.set(j, Some(device));
                    }
                    assert(self@.devices == v.devices);
                    return;
                }
            }
            j = j + 1;
        }
    }

    /// Sends the pending packets through `send` in order, each one marked
    /// delivered when it went through, until the host is in line with the
    /// attached devices or a send fails (that packet stays pending).
    pub fn sync<F: Fn(Packet) -> Result<(), InputError>>(&mut self, send: F) -> (res: Result<(), InputError>)
        requires
            old(self).well_formed(),
            forall|p: Packet| call_requires(send, (p,)),
        ensures
            final(self).well_formed(),
            exists|n: nat|
                #![trigger spec_commits(old(self)@, n)]
                final(self)@ == spec_commits(old(self)@, n) && spec_delivered(send, old(self)@, n),
            final(self)@.devices == old(self)@.devices,
            res is Ok ==> final(self)@.sent == final(self)@.devices,
            res matches Err(e) ==> spec_next_packet(final(self)@) matches Some(p) && call_ensures(
                send,
                (p,),
                Err::<(), InputError>(e),
            ),
    {
        let ghost start = self@;
        let ghost mut n: nat = 0;
        assert(spec_commits(start, 0) == start);
        loop
            invariant
                self.well_formed(),
                self@.devices == start.devices,
                start == old(self)@,
                self@ == spec_commits(start, n),
                spec_delivered(send, start, n),
                forall|p: Packet| call_requires(send, (p,)),
            decreases spec_distance_from(self@, 0),
        {
            let packet = match self.next_packet() {
                Some(packet) => packet,
                None => {
                    proof {
                        law_synced_iff_no_packet(self@);
                    }
                    return Ok(());
                },
            };
            let ghost before = self@;
            let outcome = send(packet);
            match outcome {
                Ok(u) => {
                    assert(u == ());
                },
                Err(error) => {
                    return Err(error);
                },
            }
            assert(spec_next_packet(before) == Some(packet));
            assert(outcome == Ok::<(), InputError>(()));
            assert(call_ensures(send, (packet,), Ok::<(), InputError>(())));
            proof {
                lemma_commit_progresses(before);
                law_commit_changes_only_packet_slot(before);
            }
            self.commit();
            proof {
                assert(spec_commits(start, n + 1) == spec_commit(spec_commits(start, n)));
                assert forall|k: nat| k < n + 1 implies match spec_next_packet(
                    #[trigger] spec_commits(start, k),
                ) {
                    Some(p) => call_ensures(send, (p,), Ok::<(), InputError>(())),
                    None => false,
                } by {
                    if k < n {
                        assert(spec_delivered(send, start, n));
                    } else {
                        assert(spec_commits(start, k) == before);
                    }
                }
                n = n + 1;
            }
        }
    }

    /// The attached-slot bitmap of the observed devices.
    pub fn active_mask(&self) -> (res: u16)
        requires
            self.well_formed(),
        ensures
            res == spec_mask(self@.devices),
    {
        mask_with(&self.devices, MAX_GAMEPADS, false)
    }

    /// Detach every device, so that the next packets release every slot.
    pub fn release_devices(&mut self)
        requires
            old(self).well_formed(),
        ensures
            final(self).well_formed(),
            final(self)@.devices == Seq::new(MAX_GAMEPADS as nat, |i: int| None::<Device>),
            final(self)@.sent == old(self)@.sent,
    {
        let mut i: usize = 0;
        while i < MAX_GAMEPADS
            invariant
                i <= MAX_GAMEPADS,
                self.devices.len() == MAX_GAMEPADS,
                self.sent@ == old(self)@.sent,
                forall|k: int| 0 <= k < i ==> self.devices@[k] is None,
            decreases MAX_GAMEPADS - i,
        {
            self.devices.set(i, None);
            i = i + 1;
        }
        assert(self@.devices =~= Seq::new(MAX_GAMEPADS as nat, |i: int| None::<Device>));
    }

    /// Forget what was reported: a new session must announce every device.
    pub fn reset_session(&mut self)
        requires
            old(self).well_formed(),
        ensures
            final(self).well_formed(),
            final(self)@.devices == old(self)@.devices,
            final(self)@.sent == Seq::new(MAX_GAMEPADS as nat, |i: int| None::<Device>),
    {
        let mut i: usize = 0;
        while i < MAX_GAMEPADS
            invariant
                i <= MAX_GAMEPADS,
                self.sent.len() == MAX_GAMEPADS,
                self.devices@ == old(self)@.devices,
                forall|k: int| 0 <= k < i ==> self.sent@[k] is None,
            decreases MAX_GAMEPADS - i,
        {
            self.sent.set(i, None);
            i = i + 1;
        }
        assert(self@.sent =~= Seq::new(MAX_GAMEPADS as nat, |i: int| None::<Device>));
    }

    /// The device reported for `slot`.
    pub fn sent_device(&self, slot: usize) -> (res: Option<Device>)
        requires
            self.well_formed(),
            slot < MAX_GAMEPADS,
        ensures
            res == self@.sent[slot as int],
    {
        self.sent[slot]
    }
}

proof fn lemma_slot_of_bounds(devices: Seq<Option<Device>>, id: u32, i: int)
    requires
        0 <= i <= devices.len(),
    ensures
        spec_slot_of(devices, id, i) matches Some(s) ==> i <= s < devices.len() && id_of(devices[s]) == Some(id),
        spec_slot_of(devices, id, i) is None ==> forall|s: int| i <= s < devices.len() ==> id_of(devices[s]) != Some(id),
    decreases devices.len() - i,
{
    if i < devices.len() && id_of(devices[i]) != Some(id) {
        lemma_slot_of_bounds(devices, id, i + 1);
    }
}

proof fn lemma_free_slot_bounds(devices: Seq<Option<Device>>, i: int)
    requires
        0 <= i <= devices.len(),
    ensures
        spec_free_slot(devices, i) matches Some(s) ==> i <= s < devices.len() && devices[s] is None,
        spec_free_slot(devices, i) is None ==> forall|s: int| i <= s < devices.len() ==> devices[s] is Some,
    decreases devices.len() - i,
{
    if i < devices.len() && devices[i] is Some {
        lemma_free_slot_bounds(devices, i + 1);
    }
}

/// The host has been told everything exactly when no packet is pending: no
/// packet is planned if and only if every slot reports what it holds.
pub proof fn law_synced_iff_no_packet(v: GamepadsView)
    requires
        spec_gamepads_well_formed(v),
    ensures
        spec_next_packet(v) is None <==> v.sent == v.devices,
{
    lemma_first_release_bounds(v, 0);
    lemma_first_update_bounds(v, 0);
    if spec_next_packet(v) is None {
        assert forall|s: int| 0 <= s < MAX_GAMEPADS implies v.sent[s] == v.devices[s] by {
            assert(!needs_release(v, s));
            assert(!needs_update(v, s));
        }
        assert(v.sent =~= v.devices);
    } else if v.sent == v.devices {
        assert(spec_first_release(v, 0) is None) by {
            if let Some(s) = spec_first_release(v, 0) {
                assert(needs_release(v, s));
            }
        }
        assert(spec_first_update(v, 0) is None) by {
            if let Some(s) = spec_first_update(v, 0) {
                assert(needs_update(v, s));
            }
        }
    }
}

/// Delivering a packet changes what the host knows about its slot only:
/// a release empties the slot, an arrival reports the device at rest, and a
/// state packet reports the device's state; observed devices are untouched.
pub proof fn law_commit_changes_only_packet_slot(v: GamepadsView)
    requires
        spec_gamepads_well_formed(v),
        spec_next_packet(v) is Some,
    ensures
        ({
            let w = spec_commit(v);
            let p = spec_next_packet(v)->Some_0;
            let slot = match p {
                Packet::Arrival { slot, .. } => slot as int,
                Packet::State { slot, .. } => slot as int,
            };
            &&& w.devices == v.devices
            &&& 0 <= slot < MAX_GAMEPADS
            &&& forall|k: int| 0 <= k < MAX_GAMEPADS && k != slot ==> w.sent[k] == v.sent[k]
            &&& match p {
                Packet::Arrival { .. } => v.sent[slot] is None && w.sent[slot] == Some(
                    arrived(v.devices[slot]->Some_0),
                ),
                Packet::State { state, .. } => if needs_release(v, slot) {
                    w.sent[slot] is None && state == spec_rest_state()
                } else {
                    w.sent[slot] == v.devices[slot] && v.devices[slot] == Some(
                        Device { id: v.devices[slot]->Some_0.id, state },
                    )
                },
            }
        }),
{
    lemma_first_release_bounds(v, 0);
    lemma_first_update_bounds(v, 0);
    if let Some(s) = spec_first_release(v, 0) {
        assert((s as u8) as int == s);
    } else {
        let s = spec_first_update(v, 0)->Some_0;
        assert((s as u8) as int == s);
        assert(!needs_release(v, s));
    }
}

/// A snapshot moves no other device: every slot that holds a device with
/// another identifier keeps it, and the snapshot's device stays in the slot
/// it already held.
pub proof fn law_observe_keeps_slots(devices: Seq<Option<Device>>, e: GamepadEvent)
    requires
        spec_slots_well_formed(devices),
    ensures
        spec_slots_well_formed(spec_observe(devices, e)),
        forall|k: int|
            0 <= k < MAX_GAMEPADS && devices[k] is Some && devices[k]->Some_0.id != e.device_id
                ==> spec_observe(devices, e)[k] == devices[k],
        forall|k: int|
            0 <= k < MAX_GAMEPADS && id_of(devices[k]) == Some(e.device_id) && !e.reset
                ==> id_of(#[trigger] spec_observe(devices, e)[k]) == Some(e.device_id),
{
    lemma_slot_of_bounds(devices, e.device_id, 0);
    lemma_free_slot_bounds(devices, 0);
    let w = spec_observe(devices, e);
    assert forall|i: int, j: int| 0 <= i < j < w.len() && w[i] is Some && w[j] is Some implies w[i]->Some_0.id
        != w[j]->Some_0.id by {
        let existing = spec_slot_of(devices, e.device_id, 0);
        if !e.reset {
            let target = if existing is Some { existing } else { spec_free_slot(devices, 0) };
            if let Some(s) = target {
                if i == s {
                    assert(devices[j]->Some_0.id != e.device_id);
                } else if j == s {
                    assert(devices[i]->Some_0.id != e.device_id);
                }
            }
        }
    }
    assert forall|k: int|
        0 <= k < MAX_GAMEPADS && id_of(devices[k]) == Some(e.device_id) && !e.reset implies id_of(
        #[trigger] w[k],
    ) == Some(e.device_id) by {
        let s = spec_slot_of(devices, e.device_id, 0)->Some_0;
        if s != k {
            assert(devices[s]->Some_0.id == devices[k]->Some_0.id);
        }
    }
}

} // verus!
