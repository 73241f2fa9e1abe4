//! Control keys and the snapshot of which of them are held during a tick.
use vstd::prelude::*;

verus! {

/// A control key of the arm.
#[derive(Clone, Copy, Debug, PartialEq, Eq, Structural)]
pub enum Key {
    Q,
    W,
    E,
    R,
    T,
    Z,
    C,
    Left,
    Right,
}

/// Shared key that captures each joint's reference angle.
pub const MARK_KEY: Key = Key::Z;

/// Shared key that pulls each joint back toward its reference angle.
pub const RETURN_KEY: Key = Key::C;

/// Shared rotate-negative key: it turns a joint by `+speed * elapsed`, up to
/// the joint's upper bound.
pub const ROTATE_NEGATIVE_KEY: Key = Key::Left;

/// Shared rotate-positive key: it turns a joint by `-speed * elapsed`, down to
/// the joint's lower bound.
pub const ROTATE_POSITIVE_KEY: Key = Key::Right;

/// The keys held down during one tick.
#[derive(Clone, Debug)]
pub struct KeySet {
    held: Vec<Key>,
}

impl KeySet {
    /// Whether `k` is held in this snapshot.
    pub closed spec fn holds(&self, k: Key) -> bool {
        self.held@.contains(k)
    }

    /// A snapshot with no key held.
    pub fn new() -> (r: KeySet)
        ensures
            forall|k: Key| !r.holds(k),
    {
        KeySet { held: Vec::new() }
    }

    /// A snapshot holding exactly the given keys.
    pub fn from_keys(keys: Vec<Key>) -> (r: KeySet)
        ensures
            forall|k: Key| r.holds(k) <==> keys@.contains(k),
    {
        KeySet { held: keys }
    }

    /// Adds `k` to the held keys.
    pub fn press(&mut self, k: Key)
        ensures
            forall|j: Key| final(self).holds(j) <==> (old(self).holds(j) || j == k),
    {
        self.held.push(k);
        proof {
            assert forall|j: Key| final(self).holds(j) <==> (old(self).holds(j) || j == k) by {
                if old(self).holds(j) {
                    let i = choose|i: int| 0 <= i < old(self).held@.len() && old(self).held@[i] == j;
                    assert(final(self).held@[i] == j);
                }
                if j == k {
                    assert(final(self).held@[old(self).held@.len() as int] == j);
                }
                if final(self).holds(j) && j != k {
                    let i = choose|i: int| 0 <= i < final(self).held@.len() && final(self).held@[i] == j;
                    assert(old(self).held@[i] == j);
                }
            }
        }
    }

    /// Whether `k` is held in this snapshot.
    pub fn is_down(&self, k: Key) -> (r: bool)
        ensures
            r == self.holds(k),
    {
        let mut i: usize = 0;
        while i < self.held.len()
            invariant
                0 <= i <= self.held@.len(),
                forall|j: int| 0 <= j < i ==> self.held@[j] != k,
            decreases self.held@.len() - i,
        {
            if self.held[i] == k {
                return true;
            }
            i = i + 1;
        }
        false
    }
}

} // verus!
