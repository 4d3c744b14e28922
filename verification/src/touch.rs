//! Direct-touch routing: which local contacts reach the host, under which
//! remote identifiers, and whether as touches or as an emulated mouse. The
//! positions in the video are carried as they come (`P`).
use vstd::prelude::*;

use crate::connection::InputError;

verus! {

/// Most contacts sent to the host at once.
pub const MAX_CONTACTS: u32 = 10;

/// Phase of a local touch contact.
#[derive(Clone, Copy, Debug, PartialEq, Eq, Structural)]
pub enum TouchPhase {
    Down,
    Move,
    Up,
    Cancel,
}

/// Touch event kinds of the remote protocol.
#[derive(Clone, Copy, Debug, PartialEq, Eq, Structural)]
pub enum TouchEventType {
    Down,
    Move,
    Up,
    Cancel,
    CancelAll,
}

/// One change of a local contact: its seat, its identifier and phase.
#[derive(Clone, Copy, Debug, PartialEq, Eq, Structural)]
pub struct TouchChange {
    pub seat_id: u32,
    pub id: u64,
    pub phase: TouchPhase,
}

/// One packet for the host.
#[derive(Clone, Copy, Debug)]
pub enum TouchSend<P> {
    /// A touch event for the remote contact.
    Touch(TouchEventType, u32, P),
    /// An absolute mouse position.
    Position(P),
    /// The left mouse button.
    Button(bool),
}

/// A local contact the host knows of.
#[derive(Clone, Copy, Debug)]
pub struct Contact<P> {
    pub seat: u32,
    pub local_id: u64,
    pub remote_id: u32,
    pub position: P,
}

/// The contacts sent to the host, and whether it takes touch events
/// (unknown until the first contact).
pub struct TouchInput<P> {
    native: Option<bool>,
    contacts: Vec<Contact<P>>,
}

/// Mathematical value of a [`TouchInput`].
pub struct TouchInputView<P> {
    pub native: Option<bool>,
    pub contacts: Seq<Contact<P>>,
}

impl<P> View for TouchInput<P> {
    type V = TouchInputView<P>;

    closed spec fn view(&self) -> TouchInputView<P> {
        TouchInputView { native: self.native, contacts: self.contacts@ }
    }
}

/// What routing a change needs.
pub enum TouchRoute<P> {
    /// Nothing to send: whether the change is handled.
    Answer(bool),
    /// Ask the host whether it takes touch events, record the answer, and
    /// route again.
    QueryCapability,
    /// Send these in order (stopping at the first failure when
    /// `stop_on_error`), then commit the outcome.
    Send { sends: Vec<TouchSend<P>>, stop_on_error: bool },
}

/// The index of the contact of `change`, if the host knows it.
pub open spec fn spec_find(contacts: Seq<Contact<impl Sized>>, seat: u32, id: u64) -> Option<int>
    decreases contacts.len(),
{
    if contacts.len() == 0 {
        None
    } else if contacts[0].seat == seat && contacts[0].local_id == id {
        Some(0)
    } else {
        match spec_find(contacts.drop_first(), seat, id) {
            Some(i) => Some(i + 1),
            None => None,
        }
    }
}

/// Whether remote identifier `id` is in use.
pub open spec fn spec_used<P>(contacts: Seq<Contact<P>>, id: u32) -> bool {
    exists|i: int| 0 <= i < contacts.len() && contacts[i].remote_id == id
}

/// The smallest remote identifier below ten not in use.
pub open spec fn spec_free_id_from<P>(contacts: Seq<Contact<P>>, from: u32) -> Option<u32>
    decreases 10 - from,
{
    if from >= 10 {
        None
    } else if !spec_used(contacts, from) {
        Some(from)
    } else {
        spec_free_id_from(contacts, (from + 1) as u32)
    }
}

/// Whether the contacts have distinct remote identifiers below ten, and
/// distinct local identities.
pub open spec fn spec_touch_well_formed<P>(t: TouchInputView<P>) -> bool {
    &&& forall|i: int| 0 <= i < t.contacts.len() ==> #[trigger] t.contacts[i].remote_id < MAX_CONTACTS
    &&& forall|i: int, j: int|
        0 <= i < j < t.contacts.len() ==> #[trigger] t.contacts[i].remote_id != #[trigger] t.contacts[j].remote_id
}

proof fn lemma_find_bounds<P>(contacts: Seq<Contact<P>>, seat: u32, id: u64)
    ensures
        spec_find(contacts, seat, id) matches Some(i) ==> 0 <= i < contacts.len() && contacts[i].seat == seat
            && contacts[i].local_id == id,
    decreases contacts.len(),
{
    if contacts.len() > 0 && !(contacts[0].seat == seat && contacts[0].local_id == id) {
        lemma_find_bounds(contacts.drop_first(), seat, id);
    }
}

fn find<P: Copy>(contacts: &Vec<Contact<P>>, seat: u32, id: u64) -> (res: Option<usize>)
    ensures
        match spec_find(contacts@, seat, id) {
            Some(i) => res == Some(i as usize) && 0 <= i < contacts.len(),
            None => res is None,
        },
        res matches Some(i) ==> i < contacts.len(),
{
    proof {
        lemma_find_bounds(contacts@, seat, id);
    }
    let mut i: usize = 0;
    assert(contacts@.subrange(0, contacts.len() as int) =~= contacts@);
    while i < contacts.len()
        invariant
            i <= contacts.len(),
            spec_find(contacts@, seat, id) == match spec_find(
                contacts@.subrange(i as int, contacts.len() as int),
                seat,
                id,
            ) {
                Some(k) => Some(k + i),
                None => None,
            },
        decreases contacts.len() - i,
    {
        let ghost rest = contacts@.subrange(i as int, contacts.len() as int);
        assert(rest[0] == contacts@[i as int]);
        if contacts[i].seat == seat && contacts[i].local_id == id {
            return Some(i);
        }
        assert(rest.drop_first() =~= contacts@.subrange(i + 1, contacts.len() as int));
        i = i + 1;
    }
    None
}

fn used<P: Copy>(contacts: &Vec<Contact<P>>, id: u32) -> (res: bool)
    ensures
        res == spec_used(contacts@, id),
{
    let mut i: usize = 0;
    while i < contacts.len()
        invariant
            i <= contacts.len(),
            forall|k: int| 0 <= k < i ==> contacts@[k].remote_id != id,
        decreases contacts.len() - i,
    {
        if contacts[i].remote_id == id {
            return true;
        }
        i = i + 1;
    }
    false
}

fn free_id<P: Copy>(contacts: &Vec<Contact<P>>) -> (res: Option<u32>)
    ensures
        res == spec_free_id_from(contacts@, 0),
{
    let mut id: u32 = 0;
    while id < 10
        invariant
            id <= 10,
            spec_free_id_from(contacts@, 0) == spec_free_id_from(contacts@, id),
        decreases 10 - id,
    {
        if !used(contacts, id) {
            return Some(id);
        }
        id = id + 1;
    }
    None
}

/// The remote event kind for a local phase other than `Down`.
pub open spec fn spec_remote_phase(phase: TouchPhase) -> TouchEventType {
    match phase {
        TouchPhase::Down => TouchEventType::Down,
        TouchPhase::Move => TouchEventType::Move,
        TouchPhase::Up => TouchEventType::Up,
        TouchPhase::Cancel => TouchEventType::Cancel,
    }
}

/// Whether `s` is one touch event with the given kind and identifier at
/// `position`.
pub open spec fn is_touch<P>(s: TouchSend<P>, kind: TouchEventType, id: u32, position: P) -> bool {
    s matches TouchSend::Touch(k, i, p) && k == kind && i == id && p == position
}

impl<P: Copy> TouchInput<P> {
    /// No contact, capability unknown.
    pub fn new() -> (res: Self)
        ensures
            res@.native is None,
            res@.contacts.len() == 0,
    {
        TouchInput { native: None, contacts: Vec::new() }
    }

    /// Records whether the host takes touch events.
    pub fn set_native(&mut self, native: bool)
        ensures
            final(self)@.native == Some(native),
            final(self)@.contacts == old(self)@.contacts,
    {
        self.native = Some(native);
    }

    /// How to route a change of a local contact. `point` is its position in
    /// the video: for a new contact, none when it lies outside the image;
    /// for a known one, none when the image has no extent (the last position
    /// is then used). A new contact needs free room: with an emulated mouse
    /// only one contact at a time, and at most ten touches.
    pub fn plan(&self, change: TouchChange, point: Option<P>) -> (res: TouchRoute<P>)
        ensures
            change.phase == TouchPhase::Down ==> if spec_find(self@.contacts, change.seat_id, change.id) is Some {
                res matches TouchRoute::Answer(b) && b
            } else if point is None {
                res matches TouchRoute::Answer(b) && !b
            } else if self@.native is None {
                res is QueryCapability
            } else if !self@.native->Some_0 && self@.contacts.len() > 0 {
                res matches TouchRoute::Answer(b) && !b
            } else if spec_free_id_from(self@.contacts, 0) is None {
                res matches TouchRoute::Answer(b) && !b
            } else if self@.native->Some_0 {
                res matches TouchRoute::Send { sends, stop_on_error } && stop_on_error && sends@.len() == 1
                    && is_touch(
                    sends@[0],
                    TouchEventType::Down,
                    spec_free_id_from(self@.contacts, 0)->Some_0,
                    point->Some_0,
                )
            } else {
                res matches TouchRoute::Send { sends, stop_on_error } && stop_on_error && sends@.len() == 2
                    && sends@[0] == TouchSend::Position(point->Some_0) && sends@[1] == TouchSend::<P>::Button(true)
            },
            change.phase != TouchPhase::Down ==> match spec_find(self@.contacts, change.seat_id, change.id) {
                None => res matches TouchRoute::Answer(b) && !b,
                Some(i) => {
                    let contact = self@.contacts[i];
                    let position = match point {
                        Some(p) => p,
                        None => contact.position,
                    };
                    if self@.native == Some(true) {
                        res matches TouchRoute::Send { sends, stop_on_error } && sends@.len() == 1 && is_touch(
                            sends@[0],
                            spec_remote_phase(change.phase),
                            contact.remote_id,
                            position,
                        )
                    } else if change.phase == TouchPhase::Up {
                        res matches TouchRoute::Send { sends, stop_on_error } && !stop_on_error
                            && sends@.len() == 2 && sends@[0] == TouchSend::Position(position) && sends@[1]
                            == TouchSend::<P>::Button(false)
                    } else if change.phase == TouchPhase::Cancel {
                        res matches TouchRoute::Send { sends, stop_on_error } && sends@.len() == 1
                            && sends@[0] == TouchSend::<P>::Button(false)
                    } else {
                        res matches TouchRoute::Send { sends, stop_on_error } && sends@.len() == 1
                            && sends@[0] == TouchSend::Position(position)
                    }
                },
            },
    {
        let existing = find(&self.contacts, change.seat_id, change.id);
        match change.phase {
            TouchPhase::Down => {
                if existing.is_some() {
                    return TouchRoute::Answer(true);
                }
                let p = match point {
                    Some(p) => p,
                    None => return TouchRoute::Answer(false),
                };
                let native = match self.native {
                    Some(native) => native,
                    None => return TouchRoute::QueryCapability,
                };
                if !native && self.contacts.len() > 0 {
                    return TouchRoute::Answer(false);
                }
                let id = match free_id(&self.contacts) {
                    Some(id) => id,
                    None => return TouchRoute::Answer(false),
                };
                let mut sends: Vec<TouchSend<P>> = Vec::new();
                if native {
                    sends.push(TouchSend::Touch(TouchEventType::Down, id, p));
                } else {
                    sends.push(TouchSend::Position(p));
                    sends.push(TouchSend::Button(true));
                }
                TouchRoute::Send { sends, stop_on_error: true }
            },
            _ => {
                let index = match existing {
                    Some(index) => index,
                    None => return TouchRoute::Answer(false),
                };
                let contact = self.contacts[index];
                let position = match point {
                    Some(p) => p,
                    None => contact.position,
                };
                let mut sends: Vec<TouchSend<P>> = Vec::new();
                let is_native = match self.native {
                    Some(native) => native,
                    None => false,
                };
                if is_native {
                    let kind = match change.phase {
                        TouchPhase::Move => TouchEventType::Move,
                        TouchPhase::Up => TouchEventType::Up,
                        _ => TouchEventType::Cancel,
                    };
                    sends.push(TouchSend::Touch(kind, contact.remote_id, position));
                    TouchRoute::Send { sends, stop_on_error: true }
                } else {
                    match change.phase {
                        TouchPhase::Up => {
                            sends.push(TouchSend::Position(position));
                            sends.push(TouchSend::Button(false));
                            TouchRoute::Send { sends, stop_on_error: false }
                        },
                        TouchPhase::Cancel => {
                            sends.push(TouchSend::Button(false));
                            TouchRoute::Send { sends, stop_on_error: false }
                        },
                        _ => {
                            sends.push(TouchSend::Position(position));
                            TouchRoute::Send { sends, stop_on_error: true }
                        },
                    }
                }
            },
        }
    }

    /// Records the outcome of sending what [`Self::plan`] asked for (the
    /// first failure, if any): a new contact is kept only when its packets
    /// went through; an ending contact is forgotten when they did; any other
    /// keeps its new position.
    pub fn commit(&mut self, change: TouchChange, point: Option<P>, result: Result<(), InputError>) -> (res: Result<
        bool,
        InputError,
    >)
        requires
            spec_touch_well_formed(old(self)@),
        ensures
            spec_touch_well_formed(final(self)@),
            final(self)@.native == old(self)@.native,
            match result {
                Ok(()) => res == Ok::<bool, InputError>(true),
                Err(e) => res == Err::<bool, InputError>(e),
            },
            change.phase == TouchPhase::Down ==> if result is Ok && spec_find(
                old(self)@.contacts,
                change.seat_id,
                change.id,
            ) is None && point is Some && spec_free_id_from(old(self)@.contacts, 0) is Some {
                final(self)@.contacts == old(self)@.contacts.push(
                    Contact {
                        seat: change.seat_id,
                        local_id: change.id,
                        remote_id: spec_free_id_from(old(self)@.contacts, 0)->Some_0,
                        position: point->Some_0,
                    },
                )
            } else {
                final(self)@.contacts == old(self)@.contacts
            },
            change.phase != TouchPhase::Down ==> match spec_find(old(self)@.contacts, change.seat_id, change.id) {
                None => final(self)@.contacts == old(self)@.contacts,
                Some(i) => if (change.phase == TouchPhase::Up || change.phase == TouchPhase::Cancel)
                    && result is Ok {
                    final(self)@.contacts == old(self)@.contacts.remove(i)
                } else {
                    final(self)@.contacts == old(self)@.contacts.update(
                        i,
                        Contact {
                            position: match point {
                                Some(p) => p,
                                None => old(self)@.contacts[i].position,
                            },
                            ..old(self)@.contacts[i]
                        },
                    )
                },
            },
    {
        let existing = find(&self.contacts, change.seat_id, change.id);
        match change.phase {
            TouchPhase::Down => {
                if let Err(e) = result {
                    return Err(e);
                }
                if existing.is_some() {
                    return Ok(true);
                }
                let p = match point {
                    Some(p) => p,
                    None => return Ok(true),
                };
                let id = match free_id(&self.contacts) {
                    Some(id) => id,
                    None => return Ok(true),
                };
                proof {
                    lemma_free_id_is_free(self.contacts@, 0);
                }
                self.contacts.push(Contact { seat: change.seat_id, local_id: change.id, remote_id: id, position: p });
                Ok(true)
            },
            _ => {
                let index = match existing {
                    Some(index) => index,
                    None => {
                        return match result {
                            Ok(()) => Ok(true),
                            Err(e) => Err(e),
                        };
                    },
                };
                let ending = match change.phase {
                    TouchPhase::Up | TouchPhase::Cancel => true,
                    _ => false,
                };
                let ok = result.is_ok();
                if ending && ok {
                    let ghost before = self.contacts@;
                    self.contacts.remove(index);
                    assert forall|i: int, j: int|
                        0 <= i < j < self.contacts@.len() implies #[trigger] self.contacts@[i].remote_id
                        != #[trigger] self.contacts@[j].remote_id by {
                        let oi = if i < index { i } else { i + 1 };
                        let oj = if j < index { j } else { j + 1 };
                        assert(self.contacts@[i] == before[oi]);
                        assert(self.contacts@[j] == before[oj]);
                    }
                    assert forall|i: int| 0 <= i < self.contacts@.len() implies #[trigger] self.contacts@[i].remote_id
                        < MAX_CONTACTS by {
                        let oi = if i < index { i } else { i + 1 };
                        assert(self.contacts@[i] == before[oi]);
                    }
                } else {
                    let mut contact = self.contacts[index];
                    contact.position = match point {
                        Some(p) => p,
                        None => contact.position,
                    };
                    let ghost before = self.contacts@;
                    self.contacts.set(index, contact);
                    assert forall|i: int, j: int|
                        0 <= i < j < self.contacts@.len() implies #[trigger] self.contacts@[i].remote_id
                        != #[trigger] self.contacts@[j].remote_id by {
                        assert(self.contacts@[i].remote_id == before[i].remote_id);
                        assert(self.contacts@[j].remote_id == before[j].remote_id);
                    }
                    assert forall|i: int| 0 <= i < self.contacts@.len() implies #[trigger] self.contacts@[i].remote_id
                        < MAX_CONTACTS by {
                        assert(self.contacts@[i].remote_id == before[i].remote_id);
                    }
                }
                match result {
                    Ok(()) => Ok(true),
                    Err(e) => Err(e),
                }
            },
        }
    }

    /// Gives up every contact: what to send (cancel all touches, at
    /// `origin`, or release the emulated button), if any contact was known.
    /// The capability is asked again for the next contact.
    pub fn release(&mut self, origin: P) -> (res: Option<TouchSend<P>>)
        ensures
            final(self)@.contacts.len() == 0,
            old(self)@.contacts.len() == 0 ==> res is None && final(self)@.native == old(self)@.native,
            old(self)@.contacts.len() > 0 && old(self)@.native == Some(true) ==> res is Some && is_touch(
                res->Some_0,
                TouchEventType::CancelAll,
                0,
                origin,
            ),
            old(self)@.contacts.len() > 0 && old(self)@.native != Some(true) ==> res == Some(
                TouchSend::<P>::Button(false),
            ),
            old(self)@.contacts.len() > 0 ==> final(self)@.native is None,
    {
        if self.contacts.len() == 0 {
            return None;
        }
        let is_native = match self.native {
            Some(native) => native,
            None => false,
        };
        let send = if is_native {
            TouchSend::Touch(TouchEventType::CancelAll, 0, origin)
        } else {
            TouchSend::Button(false)
        };
        self.contacts = Vec::new();
        self.native = None;
        Some(send)
    }
}

proof fn lemma_free_id_is_free<P>(contacts: Seq<Contact<P>>, from: u32)
    requires
        spec_free_id_from(contacts, from) is Some,
    ensures
        !spec_used(contacts, spec_free_id_from(contacts, from)->Some_0),
        spec_free_id_from(contacts, from)->Some_0 < MAX_CONTACTS,
    decreases 10 - from,
{
    if from < 10 && spec_used(contacts, from) {
        lemma_free_id_is_free(contacts, (from + 1) as u32);
    }
}

/// A law of touch routing: a new contact gets a remote identifier that no
/// known contact has, below ten; so the known contacts keep distinct
/// identifiers.
pub proof fn law_new_contact_gets_free_id<P>(contacts: Seq<Contact<P>>)
    requires
        spec_free_id_from(contacts, 0) is Some,
    ensures
        forall|i: int| 0 <= i < contacts.len() ==> #[trigger] contacts[i].remote_id != spec_free_id_from(contacts, 0)->Some_0,
        spec_free_id_from(contacts, 0)->Some_0 < MAX_CONTACTS,
{
    lemma_free_id_is_free(contacts, 0);
}

} // verus!
