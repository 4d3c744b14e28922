//! What local input is held on the remote host, which shortcut keys and
//! clicks are swallowed, and what must be released when input is given up.
use vstd::prelude::*;

use std::collections::BTreeSet;
use vstd::std_specs::btree::spec_btree_keys_iter;
use vstd::std_specs::cmp::OrdSpec;
use vstd::std_specs::iter::IteratorSpec;

use crate::connection::{InputAction, InputError, MouseButton};
use crate::input::{
    keycode_to_vk, mouse_button_bit, shortcut_modifiers, spec_button_bit, spec_keycode_to_vk,
    KeyEvent, KeyModifiers, PointerButton,
};

verus! {

broadcast use {vstd::laws_cmp::group_laws_cmp, vstd::std_specs::btree::group_btree_axioms};

/// A client command bound to a Ctrl+Alt+Shift shortcut during a stream.
#[derive(Clone, Copy, Debug, PartialEq, Eq, Structural)]
pub enum StreamShortcut {
    /// Ctrl+Alt+Shift+Z: capture or release input.
    ToggleCapture,
    /// Ctrl+Alt+Shift+Q: disconnect the stream.
    Disconnect,
    /// Ctrl+Alt+Shift+X: toggle fullscreen.
    ToggleFullscreen,
}

/// What a key event means for the client's shortcuts.
#[derive(Clone, Copy, Debug, PartialEq, Eq, Structural)]
pub enum ShortcutDispatch {
    /// Not a shortcut: the event goes to the host.
    NotShortcut,
    /// Part of a shortcut already handled (a repeat or the release): drop it.
    Consumed,
    /// A shortcut was pressed.
    Command(StreamShortcut),
}

/// The command of a shortcut key, by virtual key.
pub open spec fn spec_shortcut_command(vk: u16) -> Option<StreamShortcut> {
    if vk == 0x5A {
        Some(StreamShortcut::ToggleCapture)
    } else if vk == 0x51 {
        Some(StreamShortcut::Disconnect)
    } else if vk == 0x58 {
        Some(StreamShortcut::ToggleFullscreen)
    } else {
        None
    }
}

/// Whether `a` comes before `b` in `K`'s order.
spec fn precedes<K: Ord>(a: K, b: K) -> bool {
    a.cmp_spec(&b) is Less
}

/// Record of input sent to the host during one session.
pub struct PressedInput {
    keys: BTreeSet<u16>,
    mouse_buttons: u8,
    suppressed_mouse_buttons: u8,
    suppressed_shortcut_keys: BTreeSet<u16>,
}

/// Mathematical value of a [`PressedInput`].
pub struct PressedInputView {
    /// Virtual keys held on the host.
    pub keys: Set<u16>,
    /// Bits of the local buttons held on the host.
    pub mouse_buttons: u8,
    /// Bits of the local buttons whose capture click is swallowed.
    pub suppressed_mouse_buttons: u8,
    /// Shortcut keys pressed and not yet released.
    pub suppressed_shortcut_keys: Set<u16>,
}

impl View for PressedInput {
    type V = PressedInputView;

    closed spec fn view(&self) -> PressedInputView {
        PressedInputView {
            keys: self.keys@,
            mouse_buttons: self.mouse_buttons,
            suppressed_mouse_buttons: self.suppressed_mouse_buttons,
            suppressed_shortcut_keys: self.suppressed_shortcut_keys@,
        }
    }
}

/// What a key event means for the shortcuts, and the shortcut keys held
/// afterwards. Releasing a held shortcut key is swallowed once; pressing a
/// shortcut with Ctrl+Alt+Shift gives its command the first time and is
/// swallowed while the key stays held.
pub open spec fn spec_classify(held: Set<u16>, event: KeyEvent) -> (ShortcutDispatch, Set<u16>) {
    let (keycode, modifiers, pressed) = match event {
        KeyEvent::Pressed { keycode, modifiers } => (keycode, modifiers, true),
        KeyEvent::Released { keycode, modifiers } => (keycode, modifiers, false),
        KeyEvent::Char { .. } => (crate::input::KeyCode::Unknown, KeyModifiers {
            shift: false,
            control: false,
            alt: false,
            super_key: false,
        }, false),
    };
    match spec_keycode_to_vk(keycode) {
        None => (ShortcutDispatch::NotShortcut, held),
        Some(vk) => if !pressed && held.contains(vk) {
            (ShortcutDispatch::Consumed, held.remove(vk))
        } else if !pressed || !(modifiers.shift && modifiers.control && modifiers.alt) {
            (ShortcutDispatch::NotShortcut, held)
        } else {
            match spec_shortcut_command(vk) {
                None => (ShortcutDispatch::NotShortcut, held),
                Some(command) => if held.contains(vk) {
                    (ShortcutDispatch::Consumed, held)
                } else {
                    (ShortcutDispatch::Command(command), held.insert(vk))
                },
            }
        },
    }
}

/// The remote buttons whose bits are set, in the order left, middle, right.
pub open spec fn spec_held_buttons(bits: u8) -> Seq<MouseButton> {
    (if bits & 0x01 != 0 { seq![MouseButton::Left] } else { Seq::empty() })
        + (if bits & 0x02 != 0 { seq![MouseButton::Middle] } else { Seq::empty() })
        + (if bits & 0x04 != 0 { seq![MouseButton::Right] } else { Seq::empty() })
}

/// What to release on the host when input is given up.
pub struct ReleasePlan {
    /// Held virtual keys, in ascending order.
    pub keys: Vec<u16>,
    /// Held buttons, in the order left, middle, right.
    pub buttons: Vec<MouseButton>,
}

impl PressedInput {
    /// Nothing held, nothing swallowed.
    pub fn new() -> (res: Self)
        ensures
            res@ == (PressedInputView {
                keys: Set::empty(),
                mouse_buttons: 0,
                suppressed_mouse_buttons: 0,
                suppressed_shortcut_keys: Set::empty(),
            }),
    {
        PressedInput {
            keys: BTreeSet::new(),
            mouse_buttons: 0,
            suppressed_mouse_buttons: 0,
            suppressed_shortcut_keys: BTreeSet::new(),
        }
    }

    /// Forgets everything, as at the start of a session.
    pub fn reset(&mut self)
        ensures
            final(self)@ == (PressedInputView {
                keys: Set::empty(),
                mouse_buttons: 0,
                suppressed_mouse_buttons: 0,
                suppressed_shortcut_keys: Set::empty(),
            }),
    {
        *self = PressedInput::new();
    }

    /// Classifies a key event against the client's shortcuts.
    pub fn classify_shortcut(&mut self, event: KeyEvent) -> (res: ShortcutDispatch)
        ensures
            (res, final(self)@.suppressed_shortcut_keys) == spec_classify(
                old(self)@.suppressed_shortcut_keys,
                event,
            ),
            final(self)@.keys == old(self)@.keys,
            final(self)@.mouse_buttons == old(self)@.mouse_buttons,
            final(self)@.suppressed_mouse_buttons == old(self)@.suppressed_mouse_buttons,
    {
        let (keycode, modifiers, pressed) = match event {
            KeyEvent::Pressed { keycode, modifiers } => (keycode, modifiers, true),
            KeyEvent::Released { keycode, modifiers } => (keycode, modifiers, false),
            KeyEvent::Char { .. } => return ShortcutDispatch::NotShortcut,
        };
        let vk = match keycode_to_vk(keycode) {
            Some(vk) => vk,
            None => return ShortcutDispatch::NotShortcut,
        };
        if !pressed && self.suppressed_shortcut_keys.remove(&vk) {
            return ShortcutDispatch::Consumed;
        }
        if !pressed || !shortcut_modifiers(modifiers) {
            return ShortcutDispatch::NotShortcut;
        }
        let command = if vk == 0x5A {
            StreamShortcut::ToggleCapture
        } else if vk == 0x51 {
            StreamShortcut::Disconnect
        } else if vk == 0x58 {
            StreamShortcut::ToggleFullscreen
        } else {
            return ShortcutDispatch::NotShortcut;
        };
        if !self.suppressed_shortcut_keys.insert(vk) {
            return ShortcutDispatch::Consumed;
        }
        ShortcutDispatch::Command(command)
    }

    /// Records a key transition the host accepted.
    pub fn record_key(&mut self, vk: u16, action: InputAction)
        ensures
            final(self)@ == (PressedInputView {
                keys: match action {
                    InputAction::Press => old(self)@.keys.insert(vk),
                    InputAction::Release => old(self)@.keys.remove(vk),
                },
                ..old(self)@
            }),
    {
        match action {
            InputAction::Press => {
                self.keys.insert(vk);
            },
            InputAction::Release => {
                self.keys.remove(&vk);
            },
        }
    }

    /// Swallows the release of the click that asked for input capture.
    pub fn suppress_capture_click(&mut self, button: PointerButton)
        ensures
            final(self)@ == (PressedInputView {
                suppressed_mouse_buttons: old(self)@.suppressed_mouse_buttons | spec_button_bit(button),
                ..old(self)@
            }),
    {
        self.suppressed_mouse_buttons = self.suppressed_mouse_buttons | mouse_button_bit(button);
    }

    /// Whether the release of `button` is one to swallow; it is swallowed
    /// once.
    pub fn consume_suppressed_mouse_release(&mut self, button: PointerButton) -> (res: bool)
        ensures
            res == (old(self)@.suppressed_mouse_buttons & spec_button_bit(button) != 0),
            res ==> final(self)@ == (PressedInputView {
                suppressed_mouse_buttons: old(self)@.suppressed_mouse_buttons & !spec_button_bit(button),
                ..old(self)@
            }),
            !res ==> final(self)@ == old(self)@,
    {
        let bit = mouse_button_bit(button);
        if self.suppressed_mouse_buttons & bit == 0 {
            return false;
        }
        self.suppressed_mouse_buttons = self.suppressed_mouse_buttons & !bit;
        true
    }

    /// Records a button transition the host accepted.
    pub fn record_mouse_button(&mut self, button: PointerButton, pressed: bool)
        ensures
            final(self)@ == (PressedInputView {
                mouse_buttons: if pressed {
                    old(self)@.mouse_buttons | spec_button_bit(button)
                } else {
                    old(self)@.mouse_buttons & !spec_button_bit(button)
                },
                ..old(self)@
            }),
    {
        let bit = mouse_button_bit(button);
        if pressed {
            self.mouse_buttons = self.mouse_buttons | bit;
        } else {
            self.mouse_buttons = self.mouse_buttons & !bit;
        }
    }

    /// Takes everything held on the host, to release it, and forgets the
    /// held keys, buttons and swallowed clicks.
    pub fn take_release_plan(&mut self) -> (plan: ReleasePlan)
        ensures
            final(self)@ == (PressedInputView {
                keys: Set::empty(),
                mouse_buttons: 0,
                suppressed_mouse_buttons: 0,
                ..old(self)@
            }),
            plan.keys@.to_set() == old(self)@.keys,
            forall|i: int, j: int| 0 <= i < j < plan.keys@.len() ==> plan.keys@[i] < plan.keys@[j],
            plan.buttons@ == spec_held_buttons(old(self)@.mouse_buttons),
    {
        let mut keys: Vec<u16> = Vec::new();
        let ghost held = spec_btree_keys_iter(&self.keys).remaining();
        for k in it: self.keys.iter()
            invariant
                it.seq() == held,
                keys@.len() == it.index(),
                forall|i: int| 0 <= i < it.index() ==> keys@[i] == *held[i],
        {
            keys.push(*k);
        }
        proof {
            assert(keys@.len() == held.len());
            assert(keys@ =~= held.unref());
            assert(vstd::std_specs::btree::increasing_seq(held));
            assert(vstd::laws_cmp::obeys_cmp::<&u16>());
            assert forall|i: int, j: int| 0 <= i < j < keys@.len() implies keys@[i] < keys@[j] by {
                assert(precedes::<&u16>(held[i], held[j]));
            }
        }
        let mut buttons: Vec<MouseButton> = Vec::new();
        if self.mouse_buttons & 0x01 != 0 {
            buttons.push(MouseButton::Left);
        }
        if self.mouse_buttons & 0x02 != 0 {
            buttons.push(MouseButton::Middle);
        }
        if self.mouse_buttons & 0x04 != 0 {
            buttons.push(MouseButton::Right);
        }
        assert(buttons@ =~= spec_held_buttons(self.mouse_buttons));
        self.keys = BTreeSet::new();
        self.mouse_buttons = 0;
        self.suppressed_mouse_buttons = 0;
        ReleasePlan { keys, buttons }
    }
}

/// The error of a send result, if it failed.
pub open spec fn spec_error_of(r: Result<(), InputError>) -> Option<InputError> {
    match r {
        Ok(_) => None,
        Err(e) => Some(e),
    }
}

/// The first failure among send results, in order; `None` when all went
/// through.
pub open spec fn spec_first_error(results: Seq<Result<(), InputError>>) -> Option<InputError>
    decreases results.len(),
{
    if results.len() == 0 {
        None
    } else if results[0] is Err {
        spec_error_of(results[0])
    } else {
        spec_first_error(results.drop_first())
    }
}

proof fn lemma_first_error_push(results: Seq<Result<(), InputError>>, r: Result<(), InputError>)
    ensures
        spec_first_error(results.push(r)) == (if spec_first_error(results) is Some {
            spec_first_error(results)
        } else {
            spec_error_of(r)
        }),
    decreases results.len(),
{
    let pushed = results.push(r);
    if results.len() == 0 {
        assert(pushed[0] == r);
        assert(pushed.drop_first() =~= Seq::<Result<(), InputError>>::empty());
        assert(spec_first_error(Seq::<Result<(), InputError>>::empty()) is None);
    } else {
        assert(pushed[0] == results[0]);
        assert(pushed.drop_first() =~= results.drop_first().push(r));
        lemma_first_error_push(results.drop_first(), r);
    }
}

impl PressedInput {
    /// Gives up all input: everything held is forgotten and, when there is
    /// a connection, released on the host — each held key (ascending)
    /// through `send_key`, then each held button (left, middle, right)
    /// through `send_button`. Every release is attempted; the first failure
    /// is returned.
    pub fn release_all<K, B>(&mut self, connected: bool, send_key: K, send_button: B) -> (res: Result<
        (),
        InputError,
    >) where K: Fn(u16) -> Result<(), InputError>, B: Fn(MouseButton) -> Result<(), InputError>
        requires
            forall|k: u16| call_requires(send_key, (k,)),
            forall|b: MouseButton| call_requires(send_button, (b,)),
        ensures
            final(self)@ == (PressedInputView {
                keys: Set::empty(),
                mouse_buttons: 0,
                suppressed_mouse_buttons: 0,
                ..old(self)@
            }),
            !connected ==> res is Ok,
            connected ==> exists|keys: Seq<u16>, results: Seq<Result<(), InputError>>|
                {
                    &&& keys.to_set() == old(self)@.keys
                    &&& forall|i: int, j: int| 0 <= i < j < keys.len() ==> keys[i] < keys[j]
                    &&& results.len() == keys.len() + spec_held_buttons(old(self)@.mouse_buttons).len()
                    &&& forall|i: int|
                        0 <= i < keys.len() ==> call_ensures(send_key, (keys[i],), #[trigger] results[i])
                    &&& forall|j: int|
                        0 <= j < spec_held_buttons(old(self)@.mouse_buttons).len() ==> call_ensures(
                            send_button,
                            (spec_held_buttons(old(self)@.mouse_buttons)[j],),
                            #[trigger] results[keys.len() + j],
                        )
                    &&& spec_error_of(res) == spec_first_error(results)
                },
    {
        let plan = self.take_release_plan();
        if !connected {
            return Ok(());
        }
        let ghost buttons = spec_held_buttons(old(self)@.mouse_buttons);
        let ghost mut results: Seq<Result<(), InputError>> = Seq::empty();
        let mut first: Option<InputError> = None;
        let mut i: usize = 0;
        while i < plan.keys.len()
            invariant
                i <= plan.keys.len(),
                results.len() == i,
                forall|k: u16| call_requires(send_key, (k,)),
                forall|n: int| 0 <= n < i ==> call_ensures(send_key, (plan.keys@[n],), #[trigger] results[n]),
                first == spec_first_error(results),
            decreases plan.keys.len() - i,
        {
            let r = send_key(plan.keys[i]);
            proof {
                lemma_first_error_push(results, r);
                results = results.push(r);
            }
            if first.is_none() {
                if let Err(e) = r {
                    first = Some(e);
                }
            }
            i = i + 1;
        }
        let mut j: usize = 0;
        while j < plan.buttons.len()
            invariant
                j <= plan.buttons.len(),
                plan.buttons@ == buttons,
                results.len() == plan.keys.len() + j,
                forall|b: MouseButton| call_requires(send_button, (b,)),
                forall|n: int|
                    0 <= n < plan.keys.len() ==> call_ensures(send_key, (plan.keys@[n],), #[trigger] results[n]),
                forall|n: int|
                    0 <= n < j ==> call_ensures(
                        send_button,
                        (buttons[n],),
                        #[trigger] results[plan.keys.len() + n],
                    ),
                first == spec_first_error(results),
            decreases plan.buttons.len() - j,
        {
            let r = send_button(plan.buttons[j]);
            proof {
                lemma_first_error_push(results, r);
                results = results.push(r);
            }
            if first.is_none() {
                if let Err(e) = r {
                    first = Some(e);
                }
            }
            j = j + 1;
        }
        proof {
            assert(results.len() == plan.keys@.len() + buttons.len());
        }
        match first {
            None => Ok(()),
            Some(e) => Err(e),
        }
    }
}

/// A law of the shortcuts:/// A law of the shortcuts: pressing a shortcut key with Ctrl+Alt+Shift
/// gives its command once; repeating the press and releasing the key
/// (with any modifiers) are swallowed; after that the key is free again and
/// a further release is no shortcut.
pub proof fn law_shortcut_consumed_once(
    held: Set<u16>,
    keycode: crate::input::KeyCode,
    modifiers: KeyModifiers,
    release_modifiers: KeyModifiers,
)
    requires
        spec_keycode_to_vk(keycode) is Some,
        spec_shortcut_command(spec_keycode_to_vk(keycode)->Some_0) is Some,
        !held.contains(spec_keycode_to_vk(keycode)->Some_0),
        modifiers.shift && modifiers.control && modifiers.alt,
    ensures
        spec_classify(held, KeyEvent::Pressed { keycode, modifiers }).0 == ShortcutDispatch::Command(
            spec_shortcut_command(spec_keycode_to_vk(keycode)->Some_0)->Some_0,
        ),
        spec_classify(
            spec_classify(held, KeyEvent::Pressed { keycode, modifiers }).1,
            KeyEvent::Pressed { keycode, modifiers },
        ).0 == ShortcutDispatch::Consumed,
        spec_classify(
            spec_classify(
                spec_classify(held, KeyEvent::Pressed { keycode, modifiers }).1,
                KeyEvent::Pressed { keycode, modifiers },
            ).1,
            KeyEvent::Released { keycode, modifiers: release_modifiers },
        ) == (ShortcutDispatch::Consumed, held),
        spec_classify(held, KeyEvent::Released { keycode, modifiers: release_modifiers }).0
            == ShortcutDispatch::NotShortcut,
{
    let vk = spec_keycode_to_vk(keycode)->Some_0;
    assert(held.insert(vk).remove(vk) =~= held);
}

} // verus!
