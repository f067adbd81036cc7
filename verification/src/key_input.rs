//! Keyboard state: which keys are held down, fed by key events from the
//! window layer. Keys appear as the numeric codes the shell assigns.

use vstd::prelude::*;

verus! {

/// The set of currently pressed keys.
pub struct KeyInputHelper {
    pressed: Vec<u32>,
}

impl KeyInputHelper {
    /// No key is recorded twice.
    pub closed spec fn wf(&self) -> bool {
        forall|i: int, j: int|
            0 <= i < j < self.pressed@.len() ==> self.pressed@[i] != self.pressed@[j]
    }

    /// Whether a key is currently recorded as pressed.
    pub closed spec fn spec_is_pressed(&self, key: u32) -> bool {
        exists|i: int| 0 <= i < self.pressed@.len() && self.pressed@[i] == key
    }

    /// An input helper with no key pressed.
    pub fn new() -> (k: KeyInputHelper)
        ensures
            k.wf(),
            forall|key: u32| !k.spec_is_pressed(key),
    {
        KeyInputHelper { pressed: Vec::new() }
    }

    /// Feeds one key event. Repeats change nothing; otherwise the key is
    /// recorded as pressed or released and every other key keeps its
    /// state.
    pub fn input(&mut self, key: u32, pressed: bool, repeat: bool)
        requires
            old(self).wf(),
        ensures
            final(self).wf(),
            repeat ==> *final(self) == *old(self),
            !repeat ==> final(self).spec_is_pressed(key) == pressed,
            forall|k: u32|
                k != key ==> final(self).spec_is_pressed(k) == old(self).spec_is_pressed(k),
    {
        if repeat {
            return ;
        }
        if pressed {
            let mut i: usize = 0;
            let len = self.pressed.len();
            while i < len
                invariant
                    i <= len,
                    len == self.pressed@.len(),
                    old(self).wf(),
                    *self == *old(self),
                    !repeat,
                    pressed,
                    forall|j: int| 0 <= j < i ==> self.pressed@[j] != key,
                decreases len - i,
            {
                if self.pressed[i] == key {
                    return ;
                }
                i = i + 1;
            }
            self.pressed.push(key);
            proof {
                assert(self.pressed@.last() == key);
                assert forall|k: u32| k != key implies self.spec_is_pressed(k) == old(
                    self,
                ).spec_is_pressed(k) by {
                    if old(self).spec_is_pressed(k) {
                        let j = choose|j: int|
                            0 <= j < old(self).pressed@.len() && old(self).pressed@[j] == k;
                        assert(self.pressed@[j] == k);
                    }
                    if self.spec_is_pressed(k) {
                        let j = choose|j: int|
                            0 <= j < self.pressed@.len() && self.pressed@[j] == k;
                        assert(j < old(self).pressed@.len());
                        assert(old(self).pressed@[j] == k);
                    }
                }
            }
        } else {
            let mut i: usize = 0;
            let len = self.pressed.len();
            while i < len
                invariant
                    i <= len,
                    len == self.pressed@.len(),
                    old(self).wf(),
                    *self == *old(self),
                    !repeat,
                    !pressed,
                    forall|j: int| 0 <= j < i ==> self.pressed@[j] != key,
                decreases len - i,
            {
                if self.pressed[i] == key {
                    self.pressed.remove(i);
                    proof {
                        let s = old(self).pressed@;
                        assert(self.pressed@ =~= s.subrange(0, i as int) + s.skip(i + 1));
                        assert forall|k: u32| k != key implies self.spec_is_pressed(k) == old(
                            self,
                        ).spec_is_pressed(k) by {
                            if old(self).spec_is_pressed(k) {
                                let j = choose|j: int| 0 <= j < s.len() && s[j] == k;
                                if j < i {
                                    assert(self.pressed@[j] == k);
                                } else {
                                    assert(s[j] == k && s[i as int] == key);
                                    assert(j > i);
                                    assert(self.pressed@[j - 1] == k);
                                }
                            }
                            if self.spec_is_pressed(k) {
                                let j = choose|j: int|
                                    0 <= j < self.pressed@.len() && self.pressed@[j] == k;
                                if j < i {
                                    assert(s[j] == k);
                                } else {
                                    assert(s[j + 1] == k);
                                }
                            }
                        }
                        assert(!self.spec_is_pressed(key)) by {
                            if self.spec_is_pressed(key) {
                                let j = choose|j: int|
                                    0 <= j < self.pressed@.len() && self.pressed@[j] == key;
                                if j < i {
                                    assert(s[j] == key && s[i as int] == key);
                                } else {
                                    assert(s[j + 1] == key && s[i as int] == key);
                                }
                            }
                        }
                    }
                    return ;
                }
                i = i + 1;
            }
        }
    }

    /// Whether the key is held down.
    pub fn is_pressed(&self, key: u32) -> (r: bool)
        ensures
            r == self.spec_is_pressed(key),
    {
        let len = self.pressed.len();
        let mut i: usize = 0;
        while i < len
            invariant
                i <= len,
                len == self.pressed@.len(),
                forall|j: int| 0 <= j < i ==> self.pressed@[j] != key,
            decreases len - i,
        {
            if self.pressed[i] == key {
                return true;
            }
            i = i + 1;
        }
        false
    }
}

impl Default for KeyInputHelper {
    /// No key pressed.
    fn default() -> (k: KeyInputHelper)
        ensures
            k.wf(),
            forall|key: u32| !k.spec_is_pressed(key),
    {
        KeyInputHelper::new()
    }
}

} // verus!
