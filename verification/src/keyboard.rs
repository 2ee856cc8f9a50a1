//! Keyboard report aggregation.
//!
//! A report holds one modifier byte and ten key slots. A key-down of a
//! modifier sets its bit; a key-down of an ordinary code is idempotent when
//! the code is already held, occupies the first empty slot otherwise, and on
//! a full report evicts the oldest key by shifting every slot left. A key-up
//! clears the modifier bit or removes the slot and closes the gap, so slots
//! stay left-packed.

use vstd::prelude::*;
use crate::keys::{
    is_modifier, BIT0, BIT1, BIT2, BIT3, BIT4, BIT5, BIT6, BIT7, KEY_LEFTCONTROL, KEY_LEFTSHIFT,
    KEY_LEFTALT, KEY_LEFT_GUI, KEY_RIGHTCONTROL, KEY_RIGHTSHIFT, KEY_RIGHTALT, KEY_RIGHT_GUI,
};
use crate::protocol::SoftKeyboard;

verus! {

/// The modifier-byte bit that a modifier usage code controls (zero for
/// non-modifier codes).
pub open spec fn modifier_bit(c: u8) -> u8 {
    if c == KEY_LEFTCONTROL {
        BIT0
    } else if c == KEY_LEFTSHIFT {
        BIT1
    } else if c == KEY_LEFTALT {
        BIT2
    } else if c == KEY_LEFT_GUI {
        BIT3
    } else if c == KEY_RIGHTCONTROL {
        BIT4
    } else if c == KEY_RIGHTSHIFT {
        BIT5
    } else if c == KEY_RIGHTALT {
        BIT6
    } else if c == KEY_RIGHT_GUI {
        BIT7
    } else {
        0
    }
}

/// First index at or after `i` holding `c`, or -1.
pub open spec fn find_from(s: Seq<u8>, c: u8, i: int) -> int
    decreases s.len() - i,
{
    if i < 0 || i >= s.len() {
        -1
    } else if s[i] == c {
        i
    } else {
        find_from(s, c, i + 1)
    }
}

/// First slot index holding `c`, or -1.
pub open spec fn find_slot(s: Seq<u8>, c: u8) -> int {
    find_from(s, c, 0)
}

/// `find_from` returns exactly the first occurrence at or after `i`.
pub proof fn lemma_find_from_props(s: Seq<u8>, c: u8, i: int)
    requires
        0 <= i <= s.len(),
    ensures
        find_from(s, c, i) == -1 ==> forall|j: int| i <= j < s.len() ==> s[j] != c,
        find_from(s, c, i) != -1 ==> i <= find_from(s, c, i) < s.len() && s[find_from(s, c, i)]
            == c && forall|j: int| i <= j < find_from(s, c, i) ==> s[j] != c,
    decreases s.len() - i,
{
    if i < s.len() && s[i] != c {
        lemma_find_from_props(s, c, i + 1);
    }
}

/// `find_slot` returns exactly the first occurrence, if any.
pub proof fn lemma_find_slot_props(s: Seq<u8>, c: u8)
    ensures
        find_slot(s, c) == -1 ==> forall|j: int| 0 <= j < s.len() ==> s[j] != c,
        find_slot(s, c) != -1 ==> 0 <= find_slot(s, c) < s.len() && s[find_slot(s, c)] == c
            && forall|j: int| 0 <= j < find_slot(s, c) ==> s[j] != c,
{
    lemma_find_from_props(s, c, 0);
}

/// The slots after a key-down of (non-modifier) code `c`: unchanged when `c`
/// is already held, first empty slot occupied otherwise, and on a full
/// report every slot shifted left with `c` placed last (FIFO eviction of the
/// oldest key).
pub open spec fn spec_key_down(s: Seq<u8>, c: u8) -> Seq<u8> {
    if s.contains(c) {
        s
    } else if find_slot(s, 0) >= 0 {
        s.update(find_slot(s, 0), c)
    } else {
        s.skip(1) + seq![c]
    }
}

/// The slots after a key-up of (non-modifier) code `c`: unchanged when `c` is
/// absent; otherwise the first slot holding `c` is removed, later slots close
/// the gap, and the freed last slot is zeroed.
pub open spec fn spec_key_up(s: Seq<u8>, c: u8) -> Seq<u8> {
    let i = find_slot(s, c);
    if i == -1 {
        s
    } else {
        s.subrange(0, i) + s.subrange(i + 1, s.len() as int) + seq![0u8]
    }
}

/// No nonzero code occupies two slots.
pub open spec fn slots_distinct(s: Seq<u8>) -> bool {
    forall|i: int, j: int| 0 <= i < j < s.len() && s[i] != 0 ==> s[i] != s[j]
}

/// Empty slots only follow occupied ones (no gaps).
pub open spec fn left_packed(s: Seq<u8>) -> bool {
    forall|i: int, j: int| 0 <= i < j < s.len() && s[i] == 0 ==> s[j] == 0
}

/// Validity of a report's slot vector.
pub open spec fn slots_ok(s: Seq<u8>) -> bool {
    s.len() == 10 && slots_distinct(s) && left_packed(s)
}

/// A key-down preserves slot validity.
pub proof fn lemma_key_down_preserves_ok(s: Seq<u8>, c: u8)
    requires
        slots_ok(s),
    ensures
        slots_ok(spec_key_down(s, c)),
{
    lemma_find_slot_props(s, 0);
    if s.contains(c) {
    } else if find_slot(s, 0) >= 0 {
        let z = find_slot(s, 0);
        let r = s.update(z, c);
        assert(c != 0) by {
            if c == 0 {
                assert(s[z] == 0);
                assert(s.contains(c));
            }
        }
        assert forall|i: int, j: int| 0 <= i < j < 10 && r[i] == 0 implies r[j] == 0 by {
            assert(i != z);
            assert(s[i] == 0);
        }
        assert forall|i: int, j: int| 0 <= i < j < 10 && r[i] != 0 implies r[i] != r[j] by {
            if i == z {
                if r[j] == c {
                    assert(s[j] == c);
                    assert(s.contains(c));
                }
            } else if j == z {
                if r[i] == c {
                    assert(s.contains(c));
                }
            }
        }
    } else {
        let r = s.skip(1) + seq![c];
        assert(forall|j: int| 0 <= j < s.len() ==> s[j] != 0);
        assert forall|i: int, j: int| 0 <= i < j < 10 && r[i] != 0 implies r[i] != r[j] by {
            if j < 9 {
                assert(r[i] == s[i + 1] && r[j] == s[j + 1]);
            } else {
                if r[i] == c {
                    assert(s[i + 1] == c);
                    assert(s.contains(c));
                }
            }
        }
    }
}

/// A key-up preserves slot validity.
pub proof fn lemma_key_up_preserves_ok(s: Seq<u8>, c: u8)
    requires
        slots_ok(s),
    ensures
        slots_ok(spec_key_up(s, c)),
{
    lemma_find_slot_props(s, c);
    let i = find_slot(s, c);
    if i != -1 {
        let r = s.subrange(0, i) + s.subrange(i + 1, 10) + seq![0u8];
        assert forall|a: int, b: int| 0 <= a < b < 10 && r[a] == 0 implies r[b] == 0 by {
            if b < 9 {
                let sa = if a < i { a } else { a + 1 };
                let sb = if b < i { b } else { b + 1 };
                assert(r[a] == s[sa] && r[b] == s[sb]);
            }
        }
        assert forall|a: int, b: int| 0 <= a < b < 10 && r[a] != 0 implies r[a] != r[b] by {
            if b < 9 {
                let sa = if a < i { a } else { a + 1 };
                let sb = if b < i { b } else { b + 1 };
                assert(r[a] == s[sa] && r[b] == s[sb]);
            }
        }
    }
}

/// A key-up of an absent code leaves the slots unchanged; in particular a
/// second key-up of the same code is a no-op.
pub proof fn lemma_key_up_absent(s: Seq<u8>, c: u8)
    requires
        !s.contains(c),
    ensures
        spec_key_up(s, c) == s,
{
    lemma_find_slot_props(s, c);
    if find_slot(s, c) != -1 {
        assert(s.contains(c));
    }
}

/// After a key-up of a validly held code, the code is gone.
pub proof fn lemma_key_up_removes(s: Seq<u8>, c: u8)
    requires
        slots_ok(s),
        c != 0,
    ensures
        !spec_key_up(s, c).contains(c),
{
    lemma_find_slot_props(s, c);
    let i = find_slot(s, c);
    if i == -1 {
        if spec_key_up(s, c).contains(c) {
            let w = choose|w: int| 0 <= w < s.len() && s[w] == c;
        }
    } else {
        let r = s.subrange(0, i) + s.subrange(i + 1, 10) + seq![0u8];
        assert forall|a: int| 0 <= a < 10 implies r[a] != c by {
            if a < i {
                assert(r[a] == s[a]);
            } else if a < 9 {
                assert(r[a] == s[a + 1]);
                assert(s[i] == c);
            }
        }
        if r.contains(c) {
            let w = choose|w: int| 0 <= w < r.len() && r[w] == c;
        }
    }
}

/// Key-up of the same code twice equals key-up once: the second call finds
/// the slot already empty.
pub proof fn lemma_key_up_twice(s: Seq<u8>, c: u8)
    requires
        slots_ok(s),
        c != 0,
    ensures
        spec_key_up(spec_key_up(s, c), c) == spec_key_up(s, c),
{
    lemma_key_up_removes(s, c);
    lemma_key_up_absent(spec_key_up(s, c), c);
}

/// The all-empty slot vector.
pub open spec fn empty_slots() -> Seq<u8> {
    Seq::new(10, |i: int| 0u8)
}

/// The slots after key-downs of each code in `codes`, in order.
pub open spec fn apply_downs(s: Seq<u8>, codes: Seq<u8>) -> Seq<u8>
    decreases codes.len(),
{
    if codes.len() == 0 {
        s
    } else {
        apply_downs(spec_key_down(s, codes[0]), codes.skip(1))
    }
}

/// All entries pairwise distinct.
pub open spec fn seq_distinct(s: Seq<u8>) -> bool {
    forall|i: int, j: int| 0 <= i < j < s.len() ==> s[i] != s[j]
}

/// Generalized left-packing argument: starting from a report whose occupied
/// prefix is `done` and whose tail is empty, pressing the fresh distinct
/// codes `codes` appends them in order, keeping the tail empty.
proof fn lemma_apply_downs_step(done: Seq<u8>, codes: Seq<u8>)
    requires
        done.len() + codes.len() <= 10,
        forall|i: int| 0 <= i < done.len() ==> done[i] != 0,
        seq_distinct(done),
        forall|i: int| 0 <= i < codes.len() ==> codes[i] != 0,
        seq_distinct(codes),
        forall|i: int, j: int|
            0 <= i < done.len() && 0 <= j < codes.len() ==> done[i] != codes[j],
    ensures
        apply_downs(done + Seq::new((10 - done.len()) as nat, |i: int| 0u8), codes) == (done
            + codes) + Seq::new((10 - done.len() - codes.len()) as nat, |i: int| 0u8),
    decreases codes.len(),
{
    let k = (10 - done.len()) as nat;
    let s = done + Seq::new(k, |i: int| 0u8);
    if codes.len() == 0 {
        assert(s =~= (done + codes) + Seq::new((10 - done.len() - codes.len()) as nat, |i: int| 0u8));
    } else {
        let c = codes[0];
        assert(!s.contains(c)) by {
            if s.contains(c) {
                let w = choose|w: int| 0 <= w < s.len() && s[w] == c;
                if w < done.len() {
                    assert(done[w] == c);
                } else {
                    assert(s[w] == 0);
                }
            }
        }
        lemma_find_slot_props(s, 0);
        let z = find_slot(s, 0);
        assert(s[done.len() as int] == 0);
        assert(s.contains(0)) by {
            assert(0 <= done.len() < s.len());
        }
        assert(z != -1);
        assert(z == done.len()) by {
            if z < done.len() {
                assert(s[z] == done[z]);
            } else if z > done.len() {
                assert(s[done.len() as int] != 0);
            }
        }
        let s1 = spec_key_down(s, c);
        assert(s1 == s.update(z, c));
        let done1 = done + seq![c];
        assert(s1 =~= done1 + Seq::new((10 - done1.len()) as nat, |i: int| 0u8));
        assert(forall|i: int| 0 <= i < done1.len() ==> done1[i] != 0);
        assert(seq_distinct(done1)) by {
            assert forall|i: int, j: int| 0 <= i < j < done1.len() implies done1[i] != done1[j] by {
                if j == done1.len() - 1 {
                    assert(done1[i] == done[i] && done1[j] == c);
                }
            }
        }
        let rest = codes.skip(1);
        assert(forall|i: int| 0 <= i < rest.len() ==> rest[i] == codes[i + 1]);
        assert forall|i: int, j: int|
            0 <= i < done1.len() && 0 <= j < rest.len() implies done1[i] != rest[j] by {
            if i < done.len() {
                assert(done1[i] == done[i] && rest[j] == codes[j + 1]);
            } else {
                assert(done1[i] == c && rest[j] == codes[j + 1]);
            }
        }
        lemma_apply_downs_step(done1, rest);
        assert(apply_downs(s, codes) == apply_downs(s1, rest));
        assert((done1 + rest) =~= (done + codes));
        assert((done1 + rest) + Seq::new((10 - done1.len() - rest.len()) as nat, |i: int| 0u8)
            =~= (done + codes) + Seq::new((10 - done.len() - codes.len()) as nat, |i: int| 0u8));
    }
}

/// Pressing up to ten distinct fresh codes on an empty report fills exactly
/// the leading slots with those codes, in order of first insertion.
pub proof fn lemma_key_downs_fill_in_order(codes: Seq<u8>)
    requires
        codes.len() <= 10,
        forall|i: int| 0 <= i < codes.len() ==> codes[i] != 0,
        seq_distinct(codes),
    ensures
        apply_downs(empty_slots(), codes) == codes + Seq::new(
            (10 - codes.len()) as nat,
            |i: int| 0u8,
        ),
{
    assert(empty_slots() =~= Seq::empty() + Seq::new(10nat, |i: int| 0u8));
    lemma_apply_downs_step(Seq::empty(), codes);
    assert((Seq::empty() + codes) =~= codes);
}

/// An eleventh distinct key-down on a full report evicts the oldest key:
/// every slot shifts left and the new code takes the last slot; the report
/// still holds exactly ten slots.
pub proof fn lemma_key_down_full_evicts(s: Seq<u8>, c: u8)
    requires
        s.len() == 10,
        forall|i: int| 0 <= i < 10 ==> s[i] != 0,
        !s.contains(c),
    ensures
        spec_key_down(s, c) == s.skip(1) + seq![c],
        spec_key_down(s, c).len() == 10,
{
    lemma_find_slot_props(s, 0);
    if find_slot(s, 0) >= 0 {
        assert(s[find_slot(s, 0)] == 0);
    }
}

/// A key-down never grows the report beyond its ten slots.
pub proof fn lemma_key_down_len(s: Seq<u8>, c: u8)
    requires
        s.len() == 10,
    ensures
        spec_key_down(s, c).len() == 10,
{
    lemma_find_slot_props(s, 0);
}

/// A key-up leaves the slots gap-free: empty slots only follow occupied
/// ones afterwards.
pub proof fn lemma_key_up_gap_free(s: Seq<u8>, c: u8)
    requires
        slots_ok(s),
    ensures
        left_packed(spec_key_up(s, c)),
        spec_key_up(s, c).len() == 10,
{
    lemma_key_up_preserves_ok(s, c);
    lemma_find_slot_props(s, c);
}

/// First occurrence of `c` among the ten slots.
fn find_code(v: &Vec<u8>, c: u8) -> (r: Option<usize>)
    requires
        v@.len() == 10,
    ensures
        match r {
            Some(i) => i < 10 && v@[i as int] == c && forall|j: int| 0 <= j < i ==> v@[j] != c,
            None => forall|j: int| 0 <= j < 10 ==> v@[j] != c,
        },
{
    let mut i: usize = 0;
    while i < 10
        invariant
            i <= 10,
            v@.len() == 10,
            forall|j: int| 0 <= j < i ==> v@[j] != c,
        decreases 10 - i,
    {
        if v[i] == c {
            return Some(i);
        }
        i = i + 1;
    }
    None
}

impl SoftKeyboard {
    /// Applies a key-down of `code` to the report: a modifier sets its bit,
    /// an ordinary code updates the slots as [`spec_key_down`] describes.
    pub fn key_down(&mut self, code: u8)
        requires
            old(self).wf(),
        ensures
            final(self).wf(),
            final(self).resvel == old(self).resvel,
            is_modifier(code) ==> final(self).ctrl == (old(self).ctrl | modifier_bit(code))
                && final(self).button@ == old(self).button@,
            !is_modifier(code) ==> final(self).ctrl == old(self).ctrl && final(self).button@
                == spec_key_down(old(self).button@, code),
    {
        let ghost s0 = self.button@;
        if code >= KEY_LEFTCONTROL {
            // code <= 0xE7 == KEY_RIGHT_GUI always holds for u8 values
            // reaching the individual comparisons below.
            if code == KEY_LEFTCONTROL {
                self.ctrl = self.ctrl | BIT0;
            } else if code == KEY_LEFTSHIFT {
                self.ctrl = self.ctrl | BIT1;
            } else if code == KEY_LEFTALT {
                self.ctrl = self.ctrl | BIT2;
            } else if code == KEY_LEFT_GUI {
                self.ctrl = self.ctrl | BIT3;
            } else if code == KEY_RIGHTCONTROL {
                self.ctrl = self.ctrl | BIT4;
            } else if code == KEY_RIGHTSHIFT {
                self.ctrl = self.ctrl | BIT5;
            } else if code == KEY_RIGHTALT {
                self.ctrl = self.ctrl | BIT6;
            } else if code == KEY_RIGHT_GUI {
                self.ctrl = self.ctrl | BIT7;
            } else {
                // not a modifier after all: fall through to the slot logic
                self.slot_down(code);
            }
        } else {
            self.slot_down(code);
        }
    }

    /// Slot update of a non-modifier key-down.
    fn slot_down(&mut self, code: u8)
        requires
            old(self).wf(),
        ensures
            final(self).wf(),
            final(self).ctrl == old(self).ctrl,
            final(self).resvel == old(self).resvel,
            final(self).button@ == spec_key_down(old(self).button@, code),
    {
        let ghost s0 = self.button@;
        proof {
            lemma_find_slot_props(s0, code);
            lemma_find_slot_props(s0, 0);
        }
        let present = find_code(&self.button, code);
        match present {
            Some(_) => {
                assert(s0.contains(code));
            },
            None => {
                assert(!s0.contains(code)) by {
                    if s0.contains(code) {
                        let w = choose|w: int| 0 <= w < s0.len() && s0[w] == code;
                    }
                }
                let zpos = find_code(&self.button, 0);
                match zpos {
                    Some(z) => {
                        assert(find_slot(s0, 0) == z) by {
                            let f = find_slot(s0, 0);
                            if f == -1 {
                            } else if f < z {
                                assert(s0[f] == 0);
                            } else if f > z {
                                assert(s0[z as int] == 0);
                            }
                        }
                        self.button.set(z, code);
                    },
                    None => {
                        assert(find_slot(s0, 0) == -1) by {
                            let f = find_slot(s0, 0);
                            if f != -1 {
                                assert(s0[f] == 0);
                            }
                        }
                        let mut t: usize = 0;
                        while t < 9
                            invariant
                                t <= 9,
                                self.button@.len() == 10,
                                self.ctrl == old(self).ctrl,
                                self.resvel == old(self).resvel,
                                forall|j: int| 0 <= j < t ==> self.button@[j] == s0[j + 1],
                                forall|j: int| t <= j < 10 ==> self.button@[j] == s0[j],
                            decreases 9 - t,
                        {
                            let nxt = self.button[t + 1];
                            self.button.set(t, nxt);
                            t = t + 1;
                        }
                        self.button.set(9, code);
                        assert(self.button@ =~= s0.skip(1) + seq![code]);
                    },
                }
            },
        }
    }

    /// Applies a key-up of `code` to the report: a modifier clears its bit,
    /// an ordinary code updates the slots as [`spec_key_up`] describes.
    pub fn key_up(&mut self, code: u8)
        requires
            old(self).wf(),
        ensures
            final(self).wf(),
            final(self).resvel == old(self).resvel,
            is_modifier(code) ==> final(self).ctrl == (old(self).ctrl & !modifier_bit(code))
                && final(self).button@ == old(self).button@,
            !is_modifier(code) ==> final(self).ctrl == old(self).ctrl && final(self).button@
                == spec_key_up(old(self).button@, code),
    {
        if code >= KEY_LEFTCONTROL {
            if code == KEY_LEFTCONTROL {
                self.ctrl = self.ctrl & !BIT0;
            } else if code == KEY_LEFTSHIFT {
                self.ctrl = self.ctrl & !BIT1;
            } else if code == KEY_LEFTALT {
                self.ctrl = self.ctrl & !BIT2;
            } else if code == KEY_LEFT_GUI {
                self.ctrl = self.ctrl & !BIT3;
            } else if code == KEY_RIGHTCONTROL {
                self.ctrl = self.ctrl & !BIT4;
            } else if code == KEY_RIGHTSHIFT {
                self.ctrl = self.ctrl & !BIT5;
            } else if code == KEY_RIGHTALT {
                self.ctrl = self.ctrl & !BIT6;
            } else if code == KEY_RIGHT_GUI {
                self.ctrl = self.ctrl & !BIT7;
            } else {
                self.slot_up(code);
            }
        } else {
            self.slot_up(code);
        }
    }

    /// Slot update of a non-modifier key-up.
    fn slot_up(&mut self, code: u8)
        requires
            old(self).wf(),
        ensures
            final(self).wf(),
            final(self).ctrl == old(self).ctrl,
            final(self).resvel == old(self).resvel,
            final(self).button@ == spec_key_up(old(self).button@, code),
    {
        let ghost s0 = self.button@;
        proof {
            lemma_find_slot_props(s0, code);
        }
        let pos = find_code(&self.button, code);
        match pos {
            Some(i) => {
                assert(find_slot(s0, code) == i) by {
                    let f = find_slot(s0, code);
                    if f == -1 {
                    } else if f < i {
                        assert(s0[f] == code);
                    } else if f > i {
                        assert(s0[i as int] == code);
                    }
                }
                let mut t: usize = i;
                while t < 9
                    invariant
                        i <= t <= 9,
                        i < 10,
                        self.button@.len() == 10,
                        self.ctrl == old(self).ctrl,
                        self.resvel == old(self).resvel,
                        forall|j: int| 0 <= j < i ==> self.button@[j] == s0[j],
                        forall|j: int| i <= j < t ==> self.button@[j] == s0[j + 1],
                        forall|j: int| t <= j < 10 ==> self.button@[j] == s0[j],
                    decreases 9 - t,
                {
                    let nxt = self.button[t + 1];
                    self.button.set(t, nxt);
                    t = t + 1;
                }
                self.button.set(9, 0);
                assert(self.button@ =~= s0.subrange(0, i as int) + s0.subrange(i + 1, 10)
                    + seq![0u8]);
            },
            None => {
                assert(find_slot(s0, code) == -1) by {
                    let f = find_slot(s0, code);
                    if f != -1 {
                        assert(s0[f] == code);
                    }
                }
            },
        }
    }
}

} // verus!

