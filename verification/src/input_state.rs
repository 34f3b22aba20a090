//! The shared input state, as a plain value.
//!
//! The surrounding event loop owns one of these behind its own lock and
//! feeds platform events in; the render loop takes snapshots out. The
//! pressed-key set never holds a key twice, the pointer delta accumulates
//! until it is consumed, and a resize is flagged until it is observed.

use vstd::prelude::*;
use crate::controls::Key;
use crate::fixed::{fx_add, fx_ok, spec_fx_add};

verus! {

/// No key occurs twice.
pub open spec fn unique_keys(s: Seq<Key>) -> bool {
    forall|i: int, j: int| 0 <= i < j < s.len() ==> s[i] != s[j]
}

/// The fields the two loops share: window size (with a pending-resize
/// flag), the pressed-key set, and the accumulated pointer delta.
pub struct InputState {
    pub width: u32,
    pub height: u32,
    pub resized: bool,
    pub pressed_keys: Vec<Key>,
    pub mouse_dx: i64,
    pub mouse_dy: i64,
}

pub open spec fn wf_input(s: InputState) -> bool {
    unique_keys(s.pressed_keys@) && fx_ok(s.mouse_dx) && fx_ok(s.mouse_dy)
}

impl InputState {
    pub fn new(width: u32, height: u32) -> (r: InputState)
        ensures
            r.width == width,
            r.height == height,
            !r.resized,
            r.pressed_keys@.len() == 0,
            r.mouse_dx == 0 && r.mouse_dy == 0,
            wf_input(r),
    {
        InputState {
            width,
            height,
            resized: false,
            pressed_keys: Vec::new(),
            mouse_dx: 0,
            mouse_dy: 0,
        }
    }

    /// Record a key press: the key joins the set unless already held.
    pub fn press(&mut self, k: Key)
        requires
            wf_input(*old(self)),
        ensures
            wf_input(*final(self)),
            final(self).pressed_keys@.contains(k),
            old(self).pressed_keys@.contains(k) ==> final(self).pressed_keys@ == old(
                self,
            ).pressed_keys@,
            !old(self).pressed_keys@.contains(k) ==> final(self).pressed_keys@ == old(
                self,
            ).pressed_keys@.push(k),
            final(self).width == old(self).width && final(self).height == old(self).height
                && final(self).resized == old(self).resized,
            final(self).mouse_dx == old(self).mouse_dx && final(self).mouse_dy == old(
                self,
            ).mouse_dy,
    {
        if !crate::controls::keys_contain(&self.pressed_keys, k) {
            self.pressed_keys.push(k);
            proof {
                assert(self.pressed_keys@[self.pressed_keys@.len() - 1] == k);
            }
        }
    }

    /// Record a key release: the key leaves the set if it was held.
    pub fn release(&mut self, k: Key)
        requires
            wf_input(*old(self)),
        ensures
            wf_input(*final(self)),
            !final(self).pressed_keys@.contains(k),
            forall|k2: Key|
                k2 != k ==> (final(self).pressed_keys@.contains(k2) <==> old(
                    self,
                ).pressed_keys@.contains(k2)),
            !old(self).pressed_keys@.contains(k) ==> final(self).pressed_keys@ == old(
                self,
            ).pressed_keys@,
            final(self).width == old(self).width && final(self).height == old(self).height
                && final(self).resized == old(self).resized,
            final(self).mouse_dx == old(self).mouse_dx && final(self).mouse_dy == old(
                self,
            ).mouse_dy,
    {
        let ghost pre = self.pressed_keys@;
        let mut i: usize = 0;
        while i < self.pressed_keys.len()
            invariant
                0 <= i <= self.pressed_keys@.len(),
                wf_input(*old(self)),
                self.pressed_keys@ == pre,
                pre == old(self).pressed_keys@,
                forall|j: int| 0 <= j < i ==> pre[j] != k,
                unique_keys(pre),
                self.width == old(self).width && self.height == old(self).height
                    && self.resized == old(self).resized,
                self.mouse_dx == old(self).mouse_dx && self.mouse_dy == old(self).mouse_dy,
            decreases self.pressed_keys@.len() - i,
        {
            if self.pressed_keys[i] == k {
                self.pressed_keys.remove(i);
                proof {
                    assert(pre[i as int] == k);
                    assert(pre.contains(k));
                    assert forall|j: int|
                        0 <= j < self.pressed_keys@.len() implies self.pressed_keys@[j] != k by {
                        if j < i {
                            assert(self.pressed_keys@[j] == pre[j]);
                        } else {
                            assert(self.pressed_keys@[j] == pre[j + 1]);
                        }
                    }
                    assert forall|k2: Key|
                        k2 != k && pre.contains(k2) implies self.pressed_keys@.contains(k2) by {
                        let w = choose|w: int| 0 <= w < pre.len() && pre[w] == k2;
                        if w < i {
                            assert(self.pressed_keys@[w] == pre[w]);
                        } else {
                            assert(self.pressed_keys@[w - 1] == pre[w]);
                        }
                    }
                    assert forall|k2: Key|
                        self.pressed_keys@.contains(k2) implies pre.contains(k2) by {
                        let w = choose|w: int|
                            0 <= w < self.pressed_keys@.len() && self.pressed_keys@[w] == k2;
                        if w < i {
                            assert(pre[w] == k2);
                        } else {
                            assert(pre[w + 1] == k2);
                        }
                    }
                    assert forall|a: int, b: int|
                        0 <= a < b < self.pressed_keys@.len() implies self.pressed_keys@[a]
                            != self.pressed_keys@[b] by {
                        let pa: int = if a < i { a } else { a + 1 };
                        let pb: int = if b < i { b } else { b + 1 };
                        assert(self.pressed_keys@[a] == pre[pa]);
                        assert(self.pressed_keys@[b] == pre[pb]);
                    }
                }
                return ;
            }
            i += 1;
        }
        proof {
            assert forall|j: int|
                0 <= j < self.pressed_keys@.len() implies self.pressed_keys@[j] != k by {}
        }
    }

    /// Accumulate pointer motion since the last consumption.
    pub fn accumulate_mouse(&mut self, dx: i64, dy: i64)
        requires
            wf_input(*old(self)),
            fx_ok(dx),
            fx_ok(dy),
        ensures
            wf_input(*final(self)),
            final(self).mouse_dx == spec_fx_add(old(self).mouse_dx as int, dx as int),
            final(self).mouse_dy == spec_fx_add(old(self).mouse_dy as int, dy as int),
            final(self).pressed_keys == old(self).pressed_keys,
            final(self).width == old(self).width && final(self).height == old(self).height
                && final(self).resized == old(self).resized,
    {
        self.mouse_dx = fx_add(self.mouse_dx, dx);
        self.mouse_dy = fx_add(self.mouse_dy, dy);
    }

    /// Consume the accumulated pointer delta: hand it out and reset it,
    /// so each delta is observed at most once.
    pub fn take_mouse_delta(&mut self) -> (r: (i64, i64))
        requires
            wf_input(*old(self)),
        ensures
            wf_input(*final(self)),
            r.0 == old(self).mouse_dx && r.1 == old(self).mouse_dy,
            final(self).mouse_dx == 0 && final(self).mouse_dy == 0,
            final(self).pressed_keys == old(self).pressed_keys,
            final(self).width == old(self).width && final(self).height == old(self).height
                && final(self).resized == old(self).resized,
    {
        let r: (i64, i64) = (self.mouse_dx, self.mouse_dy);
        self.mouse_dx = 0;
        self.mouse_dy = 0;
        r
    }

    /// Record a window resize; the new size stays flagged until observed.
    pub fn set_window_size(&mut self, width: u32, height: u32)
        requires
            wf_input(*old(self)),
        ensures
            wf_input(*final(self)),
            final(self).width == width && final(self).height == height,
            final(self).resized,
            final(self).pressed_keys == old(self).pressed_keys,
            final(self).mouse_dx == old(self).mouse_dx && final(self).mouse_dy == old(
                self,
            ).mouse_dy,
    {
        self.width = width;
        self.height = height;
        self.resized = true;
    }

    /// Observe a pending resize, clearing the flag; yields the new size
    /// only the first time after each resize.
    pub fn take_resize(&mut self) -> (r: Option<(u32, u32)>)
        requires
            wf_input(*old(self)),
        ensures
            wf_input(*final(self)),
            old(self).resized ==> r == Some((old(self).width, old(self).height)),
            !old(self).resized ==> r is None,
            !final(self).resized,
            final(self).width == old(self).width && final(self).height == old(self).height,
            final(self).pressed_keys == old(self).pressed_keys,
            final(self).mouse_dx == old(self).mouse_dx && final(self).mouse_dy == old(
                self,
            ).mouse_dy,
    {
        if self.resized {
            self.resized = false;
            Some((self.width, self.height))
        } else {
            None
        }
    }
}

} // verus!
