//! Keyboard state tracking: which keys are held down, and when a down or
//! up event amounts to a completed key press.

use vstd::prelude::*;

verus! {

/// The modifier keys held during an event.
#[derive(Clone, Copy, Debug, PartialEq, Eq, Structural)]
pub struct Modifiers {
    pub shift: bool,
    pub alt: bool,
    pub ctrl: bool,
}

/// The set of keys currently held down, by numeric key code.
///
/// A key-down event of a key already held is a repeat and counts as a
/// press; a key-up event always completes a press and releases the key.
pub struct Input {
    key_states: Vec<u32>,
}

impl Input {
    /// Whether `code` is currently held down.
    pub open spec fn spec_is_pressed(self, code: u32) -> bool {
        self.spec_keys().contains(code)
    }

    /// The key codes currently held down.
    pub closed spec fn spec_keys(self) -> Seq<u32> {
        self.key_states@
    }

    /// A tracker with no key held down.
    pub fn new() -> (r: Input)
        ensures
            r.spec_keys().len() == 0,
    {
        Input { key_states: Vec::new() }
    }

    /// Whether `code` is currently held down.
    pub fn is_pressed(&self, code: u32) -> (r: bool)
        ensures
            r == self.spec_is_pressed(code),
    {
        let n = self.key_states.len();
        let mut i: usize = 0;
        while i < n
            invariant
                n == self.key_states@.len(),
                0 <= i <= n,
                forall|j: int| 0 <= j < i ==> self.key_states@[j] != code,
            decreases n - i,
        {
            if self.key_states[i] == code {
                return true;
            }
            i = i + 1;
        }
        false
    }

    /// Record a key-down event of `code`.  Returns whether the event
    /// completes a press: it does exactly where the key was already held,
    /// which makes a held key repeat.
    pub fn key_down(&mut self, code: u32) -> (press: bool)
        ensures
            press == old(self).spec_is_pressed(code),
            forall|c: u32|
                final(self).spec_is_pressed(c) == (c == code || old(self).spec_is_pressed(c)),
    {
        if self.is_pressed(code) {
            true
        } else {
            self.key_states.push(code);
            proof {
                let previous = old(self).spec_keys();
                assert forall|c: u32|
                    self.key_states@.contains(c) == (c == code || previous.contains(c)) by {
                    if self.key_states@.contains(c) {
                        let w = choose|w: int|
                            0 <= w < self.key_states@.len() && self.key_states@[w] == c;
                        if w < previous.len() {
                            assert(previous[w] == c);
                        }
                    }
                    if c == code {
                        assert(self.key_states@[self.key_states@.len() - 1] == c);
                    }
                    if previous.contains(c) {
                        let j = choose|j: int| 0 <= j < previous.len() && previous[j] == c;
                        assert(self.key_states@[j] == c);
                    }
                }
            }
            false
        }
    }

    /// Record a key-up event of `code`: the key is released, and the
    /// event always completes a press.
    pub fn key_up(&mut self, code: u32)
        ensures
            forall|c: u32|
                final(self).spec_is_pressed(c) == (c != code && old(self).spec_is_pressed(c)),
    {
        let mut kept: Vec<u32> = Vec::new();
        let n = self.key_states.len();
        let mut i: usize = 0;
        while i < n
            invariant
                n == self.key_states@.len(),
                0 <= i <= n,
                forall|j: int| 0 <= j < kept@.len() ==> #[trigger] kept@[j] != code,
                forall|j: int|
                    0 <= j < kept@.len() ==> self.key_states@.contains(#[trigger] kept@[j]),
                forall|j: int|
                    0 <= j < i && #[trigger] self.key_states@[j] != code ==> kept@.contains(
                        self.key_states@[j],
                    ),
            decreases n - i,
        {
            let k = self.key_states[i];
            let ghost before = kept@;
            if k != code {
                kept.push(k);
                proof {
                    assert(self.key_states@.contains(k)) by {
                        assert(self.key_states@[i as int] == k);
                    }
                    assert forall|j: int|
                        0 <= j < i + 1 && #[trigger] self.key_states@[j] != code implies kept@
                        .contains(self.key_states@[j]) by {
                        if j < i {
                            let w = choose|w: int|
                                0 <= w < before.len() && before[w] == self.key_states@[j];
                            assert(kept@[w] == self.key_states@[j]);
                        } else {
                            assert(kept@[kept@.len() - 1] == self.key_states@[j]);
                        }
                    }
                }
            }
            i = i + 1;
        }
        let ghost previous = self.key_states@;
        self.key_states = kept;
        proof {
            assert forall|c: u32|
                self.key_states@.contains(c) == (c != code && previous.contains(c)) by {
                if self.key_states@.contains(c) {
                    let w = choose|w: int|
                        0 <= w < self.key_states@.len() && self.key_states@[w] == c;
                    assert(self.key_states@[w] != code);
                    assert(previous.contains(self.key_states@[w]));
                }
                if c != code && previous.contains(c) {
                    let j = choose|j: int| 0 <= j < previous.len() && previous[j] == c;
                    assert(self.key_states@.contains(previous[j]));
                }
            }
        }
    }
}

impl Default for Input {
    /// A tracker with no key held down.
    fn default() -> (r: Input)
        ensures
            r.spec_keys().len() == 0,
    {
        Input::new()
    }
}

} // verus!
