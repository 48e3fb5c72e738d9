//! Keyboard state between frames: which keys are held down, which were
//! pressed this frame and which were released this frame.
use vstd::prelude::*;
use std::collections::HashSet;
use vstd::std_specs::iter::IteratorSpec;

verus! {

broadcast use vstd::std_specs::hash::group_hash_axioms;

/// Whether a key went down or up.
#[derive(Clone, Copy, PartialEq, Eq, Structural, Debug)]
pub enum ElementState {
    Pressed,
    Released,
}

/// A keyboard event: the key, where it has a virtual key code, and whether
/// it went down or up.
#[derive(Clone, Copy, Debug)]
pub struct KeyboardInput {
    pub virtual_keycode: Option<u32>,
    pub state: ElementState,
}

/// Group of behaviour that keeps the keyboard state up to date.
#[derive(Clone, Copy, Debug, Default)]
pub struct InputPlugin;

/// The keyboard state, as a resource.
pub struct InputEvents {
    new_event: Option<KeyboardInput>,
    previous_event: Option<KeyboardInput>,
    just_pressed_keys: HashSet<u32>,
    held_down_keys: HashSet<u32>,
    just_released_keys: HashSet<u32>,
    just_released_consumed: HashSet<u32>,
}

/// The key sets after one update: from the keys held down and just pressed
/// before, and the last event.
pub open spec fn next_key_sets(
    held: Set<u32>,
    pressed: Set<u32>,
    event: Option<KeyboardInput>,
) -> (Set<u32>, Set<u32>, Set<u32>) {
    let down = held.union(pressed);
    match event {
        Some(e) => match e.virtual_keycode {
            Some(k) => match e.state {
                ElementState::Released => if down.contains(k) {
                    (down.remove(k), Set::empty(), set![k])
                } else {
                    (down, Set::empty(), Set::empty())
                },
                ElementState::Pressed => if down.contains(k) {
                    (down, Set::empty(), Set::empty())
                } else {
                    (down, set![k], Set::empty())
                },
            },
            None => (down, Set::empty(), Set::empty()),
        },
        None => (down, Set::empty(), Set::empty()),
    }
}

impl InputEvents {
    /// The last event handed in from the event loop.
    pub closed spec fn new_event_spec(&self) -> Option<KeyboardInput> {
        self.new_event
    }

    /// The event before the last one.
    pub closed spec fn previous_event_spec(&self) -> Option<KeyboardInput> {
        self.previous_event
    }

    /// The keys held down.
    pub closed spec fn held(&self) -> Set<u32> {
        self.held_down_keys@
    }

    /// The keys pressed this frame.
    pub closed spec fn pressed(&self) -> Set<u32> {
        self.just_pressed_keys@
    }

    /// The keys released this frame.
    pub closed spec fn released(&self) -> Set<u32> {
        self.just_released_keys@
    }

    /// No key is reported as both held down and pressed, or held down and
    /// released.
    pub open spec fn well_formed(&self) -> bool {
        &&& self.held().disjoint(self.pressed())
        &&& self.held().disjoint(self.released())
    }

    /// No event yet and no key down.
    pub fn new() -> (r: Self)
        ensures
            r.new_event_spec() is None,
            r.previous_event_spec() is None,
            r.held() == Set::<u32>::empty(),
            r.pressed() == Set::<u32>::empty(),
            r.released() == Set::<u32>::empty(),
            r.well_formed(),
    {
        let r = InputEvents {
            new_event: None,
            previous_event: None,
            just_pressed_keys: HashSet::with_capacity(10),
            held_down_keys: HashSet::with_capacity(10),
            just_released_keys: HashSet::with_capacity(10),
            just_released_consumed: HashSet::with_capacity(10),
        };
        proof {
            assert(r.held().disjoint(r.pressed()));
            assert(r.held().disjoint(r.released()));
        }
        r
    }

    /// Called from the event loop with each keyboard event.
    pub fn update(&mut self, new_event: KeyboardInput)
        ensures
            final(self).new_event_spec() == Some(new_event),
            final(self).previous_event_spec() == old(self).previous_event_spec(),
            final(self).held() == old(self).held(),
            final(self).pressed() == old(self).pressed(),
            final(self).released() == old(self).released(),
    {
        self.new_event = Some(new_event);
    }

    /// Whether the event before the last one named a key; the key and the
    /// state asked about are not compared.
    pub fn check_key_state(&self, in_key: u32, in_state: ElementState) -> (b: bool)
        ensures
            b == match self.previous_event_spec() {
                Some(e) => e.virtual_keycode is Some,
                None => false,
            },
    {
        match self.previous_event {
            None => false,
            Some(kb_input) => match kb_input.virtual_keycode {
                Some(_) => true,
                None => false,
            },
        }
    }

    /// Whether `key` is held down.
    pub fn is_key_down(&self, key: u32) -> (b: bool)
        ensures
            b == self.held().contains(key),
    {
        self.held_down_keys.contains(&key)
    }

    /// Whether `key` is up.
    pub fn is_key_up(&self, key: u32) -> (b: bool)
        ensures
            b == !self.held().contains(key),
    {
        !self.held_down_keys.contains(&key)
    }

    /// Whether `key` went down this frame.
    pub fn is_key_just_down(&self, key: u32) -> (b: bool)
        ensures
            b == self.pressed().contains(key),
    {
        self.just_pressed_keys.contains(&key)
    }

    /// Whether `key` went up this frame.
    pub fn is_key_just_up(&self, key: u32) -> (b: bool)
        ensures
            b == self.released().contains(key),
    {
        self.just_released_keys.contains(&key)
    }
}

impl Default for InputEvents {
    /// No event yet and no key down.
    fn default() -> (r: Self)
        ensures
            r.new_event_spec() is None,
            r.previous_event_spec() is None,
            r.held() == Set::<u32>::empty(),
            r.pressed() == Set::<u32>::empty(),
            r.released() == Set::<u32>::empty(),
            r.well_formed(),
    {
        InputEvents::new()
    }
}

/// One frame of the keyboard state: keys pressed last frame are now held
/// down; the last event then presses a key that is not down, or releases a
/// key that is (a duplicate release is ignored).
pub fn update_input(input: &mut InputEvents)
    ensures
        (final(input).held(), final(input).pressed(), final(input).released()) == next_key_sets(
            old(input).held(),
            old(input).pressed(),
            old(input).new_event_spec(),
        ),
        final(input).new_event_spec() == old(input).new_event_spec(),
        final(input).previous_event_spec() == old(input).previous_event_spec(),
        final(input).well_formed(),
        forall|k: u32|
            (#[trigger] old(input).held().contains(k) || old(input).pressed().contains(k)) && !(
            old(input).new_event_spec() matches Some(e) && e.virtual_keycode == Some(k) && e.state
                == ElementState::Released) ==> final(input).held().contains(k),
{
    input.just_released_keys.clear();
    let ghost held0 = input.held_down_keys@;
    let ghost pressed0 = input.just_pressed_keys@;
    proof {
        let sq = vstd::std_specs::hash::spec_hash_keys_iter(&input.just_pressed_keys).remaining();
        assert(sq.unref().to_set() == pressed0);
        assert forall|x: u32| #![trigger pressed0.contains(x)]
            pressed0.contains(x) <==> exists|j: int| 0 <= j < sq.len() && *sq[j] == x by {
            if pressed0.contains(x) {
                assert(sq.unref().contains(x));
                let j = choose|j: int| 0 <= j < sq.unref().len() && sq.unref()[j] == x;
                assert(*sq[j] == x);
            }
            if exists|j: int| 0 <= j < sq.len() && *sq[j] == x {
                let j = choose|j: int| 0 <= j < sq.len() && *sq[j] == x;
                assert(sq.unref()[j] == x);
                assert(sq.unref().contains(x));
            }
        }
    }
    for key in it: input.just_pressed_keys.iter()
        invariant
            pressed0 == input.just_pressed_keys@,
            input.just_released_keys@ == Set::<u32>::empty(),
            input.new_event == old(input).new_event,
            input.previous_event == old(input).previous_event,
            forall|x: u32|
                #![trigger input.held_down_keys@.contains(x)]
                input.held_down_keys@.contains(x) <==> (held0.contains(x) || exists|j: int|
                    0 <= j < it.index() && *it.seq()[j] == x),
            forall|x: u32|
                #![trigger pressed0.contains(x)]
                pressed0.contains(x) <==> exists|j: int| 0 <= j < it.seq().len() && *it.seq()[j] == x,
            it.index() == it.seq().len() ==> input.held_down_keys@ =~= held0.union(pressed0),
    {
        input.held_down_keys.insert(*key);
    }
    input.just_pressed_keys.clear();
    if let Some(new) = input.new_event {
        if let Some(vk) = new.virtual_keycode {
            match new.state {
                ElementState::Released => {
                    if input.held_down_keys.remove(&vk) {
                        input.just_released_keys.insert(vk);
                    }
                },
                ElementState::Pressed => {
                    if !input.held_down_keys.contains(&vk) {
                        input.just_pressed_keys.insert(vk);
                    }
                },
            }
        }
    }
    proof {
        assert(input.held().disjoint(input.pressed()));
        assert(input.held().disjoint(input.released()));
    }
}

/// A key pressed or held in one frame is held down in the next, unless the
/// next event releases that very key (pressing another key releases
/// nothing); a key that is down and released is reported released; a key released in a frame is up afterwards; and no
/// key is both down and newly pressed or released.
pub proof fn law_key_lifecycle(
    held: Set<u32>,
    pressed: Set<u32>,
    event: Option<KeyboardInput>,
    k: u32,
)
    ensures
        ({
            let (h, p, r) = next_key_sets(held, pressed, event);
            let releases_k = event matches Some(e) && e.virtual_keycode == Some(k)
                && e.state == ElementState::Released;
            &&& pressed.contains(k) && !releases_k ==> h.contains(k)
            &&& held.contains(k) && !releases_k ==> h.contains(k)
            &&& releases_k && (held.contains(k) || pressed.contains(k)) ==> r.contains(k)
            &&& r.contains(k) ==> !h.contains(k)
            &&& h.disjoint(p)
            &&& h.disjoint(r)
            &&& p.len() + r.len() <= 1
        }),
{
    match event {
        Some(e) => match e.virtual_keycode {
            Some(key) => {
                assert(set![key].len() == 1) by {
                    assert(set![key] =~= Set::<u32>::empty().insert(key));
                }
            },
            None => {},
        },
        None => {},
    }
}

} // verus!
