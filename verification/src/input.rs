//! What the keyboard and the pointer have done between frames: which keys
//! are down, which were let go since the frame loop last cleared that
//! record, and how far the pointer has moved since its motion was last
//! consumed.

use vstd::prelude::*;

verus! {

/// The keys that the viewer reads.
#[derive(Clone, Copy, PartialEq, Eq, Structural, Hash, Debug)]
pub enum Key {
    KeyW,
    KeyA,
    KeyS,
    KeyD,
    Escape,
}

/// The two directions in which a key can change.
#[derive(Clone, Copy, PartialEq, Eq, Structural, Hash, Debug)]
pub enum KeyState {
    Pressed,
    Released,
}

/// A set of keys, one flag for each key.
#[derive(Clone, Copy, Debug)]
struct KeySet {
    key_w: bool,
    key_a: bool,
    key_s: bool,
    key_d: bool,
    escape: bool,
}

impl View for KeySet {
    type V = Set<Key>;

    closed spec fn view(&self) -> Set<Key> {
        Set::new(
            |key: Key|
                match key {
                    Key::KeyW => self.key_w,
                    Key::KeyA => self.key_a,
                    Key::KeyS => self.key_s,
                    Key::KeyD => self.key_d,
                    Key::Escape => self.escape,
                },
        )
    }
}

impl KeySet {
    fn empty() -> (keys: KeySet)
        ensures
            keys@ == Set::<Key>::empty(),
    {
        let keys = KeySet { key_w: false, key_a: false, key_s: false, key_d: false, escape: false };
        assert(keys@ =~= Set::<Key>::empty());
        keys
    }

    fn contains(&self, key: Key) -> (found: bool)
        ensures
            found == self@.contains(key),
    {
        match key {
            Key::KeyW => self.key_w,
            Key::KeyA => self.key_a,
            Key::KeyS => self.key_s,
            Key::KeyD => self.key_d,
            Key::Escape => self.escape,
        }
    }

    fn put(&mut self, key: Key, present: bool)
        ensures
            final(self)@ == if present {
                old(self)@.insert(key)
            } else {
                old(self)@.remove(key)
            },
    {
        match key {
            Key::KeyW => {
                self.key_w = present;
            },
            Key::KeyA => {
                self.key_a = present;
            },
            Key::KeyS => {
                self.key_s = present;
            },
            Key::KeyD => {
                self.key_d = present;
            },
            Key::Escape => {
                self.escape = present;
            },
        }
        assert(present ==> self@ =~= old(self)@.insert(key));
        assert(!present ==> self@ =~= old(self)@.remove(key));
    }
}

/// The sum of `a` and `b`, kept within what an `i64` holds: a sum beyond
/// either end stays at that end.
pub open spec fn saturating_sum(a: int, b: int) -> int {
    if a + b > i64::MAX {
        i64::MAX as int
    } else if a + b < i64::MIN {
        i64::MIN as int
    } else {
        a + b
    }
}

/// Adds within what an `i64` holds: see [`saturating_sum`].
pub(crate) fn add_saturating(a: i64, b: i64) -> (sum: i64)
    ensures
        sum == saturating_sum(a as int, b as int),
{
    match a.checked_add(b) {
        Some(sum) => sum,
        None => if b > 0 {
            i64::MAX
        } else {
            i64::MIN
        },
    }
}

/// What the keyboard and the pointer have done so far.
///
/// A key is either down or not; `held` is the set of those that are down.
/// `just_released` collects the keys that were let go. It only ever shrinks
/// through [`Input::reset_just_released`]: pressing a key again does not take
/// it out.
///
/// `pointer_delta` is the pointer's motion, horizontal and vertical, summed
/// over all reports since it was last read. Reading it, with
/// [`Input::device_offset`], sets it back to zero.
#[derive(Clone, Copy, Debug)]
pub struct Input {
    held: KeySet,
    just_released: KeySet,
    pointer_dx: i64,
    pointer_dy: i64,
}

impl Input {
    /// The keys that are down.
    pub closed spec fn held(&self) -> Set<Key> {
        self.held@
    }

    /// The keys let go since the last reset.
    pub closed spec fn just_released(&self) -> Set<Key> {
        self.just_released@
    }

    /// The pointer's motion since it was last read: horizontal, then
    /// vertical.
    pub closed spec fn pointer_delta(&self) -> (int, int) {
        (self.pointer_dx as int, self.pointer_dy as int)
    }

    /// No key is down, none has been let go, and the pointer has not moved.
    pub fn new() -> (input: Input)
        ensures
            input.held() == Set::<Key>::empty(),
            input.just_released() == Set::<Key>::empty(),
            input.pointer_delta() == (0int, 0int),
    {
        Input {
            held: KeySet::empty(),
            just_released: KeySet::empty(),
            pointer_dx: 0,
            pointer_dy: 0,
        }
    }

    /// Records one key transition. A press puts the key into `held` and
    /// leaves `just_released` alone; a release takes the key out of `held`
    /// and puts it into `just_released`. Either way no key leaves
    /// `just_released`.
    pub fn process_key_event(&mut self, key: Key, state: KeyState)
        ensures
            old(self).just_released().subset_of(final(self).just_released()),
            final(self).pointer_delta() == old(self).pointer_delta(),
            state == KeyState::Pressed ==> final(self).held() == old(self).held().insert(key)
                && final(self).just_released() == old(self).just_released(),
            state == KeyState::Released ==> final(self).held() == old(self).held().remove(key)
                && final(self).just_released() == old(self).just_released().insert(key),
    {
        match state {
            KeyState::Pressed => {
                self.held.put(key, true);
            },
            KeyState::Released => {
                self.held.put(key, false);
                self.just_released.put(key, true);
            },
        }
    }

    /// Whether `key` is down.
    pub fn key_down(&self, key: Key) -> (down: bool)
        ensures
            down == self.held().contains(key),
    {
        self.held.contains(key)
    }

    /// Whether `key` was let go since the last reset.
    pub fn key_released(&self, key: Key) -> (released: bool)
        ensures
            released == self.just_released().contains(key),
    {
        self.just_released.contains(key)
    }

    /// Forgets which keys were let go. The keys that are down stay down,
    /// and the pointer's motion stays on record.
    pub fn reset_just_released(&mut self)
        ensures
            final(self).held() == old(self).held(),
            final(self).just_released() == Set::<Key>::empty(),
            final(self).pointer_delta() == old(self).pointer_delta(),
    {
        self.just_released = KeySet::empty();
    }

    /// Adds one report of pointer motion to what has gathered, each
    /// direction by itself. The keys are not touched.
    pub fn process_pointer_motion(&mut self, dx: i64, dy: i64)
        ensures
            final(self).pointer_delta() == (
                saturating_sum(old(self).pointer_delta().0, dx as int),
                saturating_sum(old(self).pointer_delta().1, dy as int),
            ),
            final(self).held() == old(self).held(),
            final(self).just_released() == old(self).just_released(),
    {
        self.pointer_dx = add_saturating(self.pointer_dx, dx);
        self.pointer_dy = add_saturating(self.pointer_dy, dy);
    }

    /// Hands out the pointer's motion since the last call, and starts again
    /// from zero. The keys are not touched.
    pub fn device_offset(&mut self) -> (offset: (i64, i64))
        ensures
            (offset.0 as int, offset.1 as int) == old(self).pointer_delta(),
            final(self).pointer_delta() == (0int, 0int),
            final(self).held() == old(self).held(),
            final(self).just_released() == old(self).just_released(),
    {
        let offset = (self.pointer_dx, self.pointer_dy);
        self.pointer_dx = 0;
        self.pointer_dy = 0;
        offset
    }
}

} // verus!
