//! Keyboard input normalizer.
//!
//! Tracks the currently pressed keys by both logical and physical identity,
//! the previous-tick pressed set used for edge detection, and the active
//! modifier set. "Just pressed" and "just released" queries are the set
//! difference between the current and previous-tick sets; the previous set
//! is committed exactly once per tick by the frame driver, after draw.

use vstd::prelude::*;
use crate::seqs::{seq_no_dups, seq_set_rel, lemma_push_set_rel, lemma_present_set_rel,
    lemma_absent_set_rel};

verus! {

/// The logical (layout-dependent) identity of a key.
#[derive(Clone, Copy, Debug, PartialEq, Eq, Structural)]
pub enum LogicalKey {
    /// The platform's designated escape key, which the default key-down
    /// handler turns into a quit request.
    Escape,
    /// Another named, non-character key, under a host-assigned code.
    Named(u32),
    /// A key that produces a character.
    Character(char),
    /// A key with no known logical identity.
    Unidentified,
}

/// The physical (layout-independent) identity of a key.
#[derive(Clone, Copy, Debug, PartialEq, Eq, Structural)]
pub enum PhysicalKey {
    /// A known physical key position, under a host-assigned code.
    Code(u32),
    /// A key with no known physical identity.
    Unidentified,
}

/// The set of modifier keys held down.
#[derive(Clone, Copy, Debug, PartialEq, Eq, Structural)]
pub struct Modifiers {
    pub shift: bool,
    pub ctrl: bool,
    pub alt: bool,
    pub logo: bool,
}

impl Modifiers {
    /// The modifier set with nothing held down.
    pub fn empty() -> (r: Modifiers)
        ensures
            r == (Modifiers { shift: false, ctrl: false, alt: false, logo: false }),
    {
        Modifiers { shift: false, ctrl: false, alt: false, logo: false }
    }
}

/// A normalized key event record: both key identities plus the modifier
/// set active when the event was dispatched. Constructed fresh per raw key
/// event and handed to the key callbacks.
#[derive(Clone, Copy, Debug, PartialEq, Eq, Structural)]
pub struct KeyInput {
    pub logical: LogicalKey,
    pub physical: PhysicalKey,
    pub mods: Modifiers,
}

/// Keyboard sub-context: pressed sets, previous-tick snapshot, modifiers.
pub struct KeyboardContext {
    pressed_logical: Vec<LogicalKey>,
    pressed_physical: Vec<PhysicalKey>,
    previous_logical: Vec<LogicalKey>,
    active_modifiers: Modifiers,
    repeated: bool,
}

impl KeyboardContext {
    /// The logical keys currently held down.
    pub closed spec fn logical_pressed(&self) -> Seq<LogicalKey> {
        self.pressed_logical@
    }

    /// The physical keys currently held down.
    pub closed spec fn physical_pressed(&self) -> Seq<PhysicalKey> {
        self.pressed_physical@
    }

    /// The logical keys that were held down when the previous tick was
    /// committed.
    pub closed spec fn previous_pressed(&self) -> Seq<LogicalKey> {
        self.previous_logical@
    }

    /// The active modifier set.
    pub closed spec fn spec_modifiers(&self) -> Modifiers {
        self.active_modifiers
    }

    /// Whether the most recent key press found its key already held down.
    pub closed spec fn spec_repeated(&self) -> bool {
        self.repeated
    }

    /// The pressed sets hold no duplicates.
    pub open spec fn wf(&self) -> bool {
        &&& seq_no_dups(self.logical_pressed())
        &&& seq_no_dups(self.physical_pressed())
        &&& seq_no_dups(self.previous_pressed())
    }

    /// A key is "just pressed" when it is down now but was not down at the
    /// previous tick's commit.
    pub open spec fn spec_just_pressed(&self, key: LogicalKey) -> bool {
        self.logical_pressed().contains(key) && !self.previous_pressed().contains(key)
    }

    /// A key is "just released" when it is up now but was down at the
    /// previous tick's commit.
    pub open spec fn spec_just_released(&self, key: LogicalKey) -> bool {
        !self.logical_pressed().contains(key) && self.previous_pressed().contains(key)
    }

    /// How a raw key event changes the keyboard state: both identities
    /// join or leave the pressed sets, and the repeat flag notes whether a
    /// press found its logical key already held down.
    pub open spec fn key_event_rel(
        pre: KeyboardContext,
        post: KeyboardContext,
        logical: LogicalKey,
        physical: PhysicalKey,
        pressed: bool,
    ) -> bool {
        &&& seq_set_rel(pre.logical_pressed(), post.logical_pressed(), logical, pressed)
        &&& seq_set_rel(pre.physical_pressed(), post.physical_pressed(), physical, pressed)
        &&& post.previous_pressed() == pre.previous_pressed()
        &&& post.spec_modifiers() == pre.spec_modifiers()
        &&& post.spec_repeated() == (pressed && pre.logical_pressed().contains(logical))
    }

    /// A fresh keyboard context: nothing pressed, no modifiers.
    pub fn new() -> (kc: KeyboardContext)
        ensures
            kc.wf(),
            kc.logical_pressed() == Seq::<LogicalKey>::empty(),
            kc.physical_pressed() == Seq::<PhysicalKey>::empty(),
            kc.previous_pressed() == Seq::<LogicalKey>::empty(),
            kc.spec_modifiers() == (Modifiers { shift: false, ctrl: false, alt: false, logo: false }),
            !kc.spec_repeated(),
    {
        KeyboardContext {
            pressed_logical: Vec::new(),
            pressed_physical: Vec::new(),
            previous_logical: Vec::new(),
            active_modifiers: Modifiers::empty(),
            repeated: false,
        }
    }

    /// Records a logical key going down or up, and notes whether a press
    /// found the key already held down (the repeat flag).
    pub fn set_logical_key(&mut self, key: LogicalKey, pressed: bool)
        requires
            old(self).wf(),
        ensures
            final(self).wf(),
            seq_set_rel(old(self).logical_pressed(), final(self).logical_pressed(), key, pressed),
            final(self).physical_pressed() == old(self).physical_pressed(),
            final(self).previous_pressed() == old(self).previous_pressed(),
            final(self).spec_modifiers() == old(self).spec_modifiers(),
            final(self).spec_repeated() == (pressed && old(self).logical_pressed().contains(key)),
    {
        let already = contains_logical(&self.pressed_logical, key);
        self.repeated = pressed && already;
        if pressed {
            if !already {
                self.pressed_logical.push(key);
                proof {
                    lemma_push_set_rel(old(self).logical_pressed(), key);
                }
            } else {
                proof {
                    lemma_present_set_rel(old(self).logical_pressed(), key);
                }
            }
        } else {
            if already {
                let next = remove_logical(&self.pressed_logical, key);
                self.pressed_logical = next;
            } else {
                proof {
                    lemma_absent_set_rel(old(self).logical_pressed(), key);
                }
            }
        }
    }

    /// Records a physical key going down or up.
    pub fn set_physical_key(&mut self, key: PhysicalKey, pressed: bool)
        requires
            old(self).wf(),
        ensures
            final(self).wf(),
            seq_set_rel(old(self).physical_pressed(), final(self).physical_pressed(), key, pressed),
            final(self).logical_pressed() == old(self).logical_pressed(),
            final(self).previous_pressed() == old(self).previous_pressed(),
            final(self).spec_modifiers() == old(self).spec_modifiers(),
            final(self).spec_repeated() == old(self).spec_repeated(),
    {
        let already = contains_physical(&self.pressed_physical, key);
        if pressed {
            if !already {
                self.pressed_physical.push(key);
                proof {
                    lemma_push_set_rel(old(self).physical_pressed(), key);
                }
            } else {
                proof {
                    lemma_present_set_rel(old(self).physical_pressed(), key);
                }
            }
        } else {
            if already {
                let next = remove_physical(&self.pressed_physical, key);
                self.pressed_physical = next;
            } else {
                proof {
                    lemma_absent_set_rel(old(self).physical_pressed(), key);
                }
            }
        }
    }

    /// Stores the active modifier set reported by the platform.
    pub fn set_modifiers(&mut self, mods: Modifiers)
        requires
            old(self).wf(),
        ensures
            final(self).wf(),
            final(self).spec_modifiers() == mods,
            final(self).logical_pressed() == old(self).logical_pressed(),
            final(self).physical_pressed() == old(self).physical_pressed(),
            final(self).previous_pressed() == old(self).previous_pressed(),
            final(self).spec_repeated() == old(self).spec_repeated(),
    {
        self.active_modifiers = mods;
    }

    /// The active modifier set.
    pub fn active_modifiers(&self) -> (r: Modifiers)
        ensures
            r == self.spec_modifiers(),
    {
        self.active_modifiers
    }

    /// Whether the most recent key press found its key already held down.
    pub fn is_key_repeated(&self) -> (r: bool)
        ensures
            r == self.spec_repeated(),
    {
        self.repeated
    }

    /// Whether the logical key is currently held down.
    pub fn is_key_pressed(&self, key: LogicalKey) -> (r: bool)
        ensures
            r == self.logical_pressed().contains(key),
    {
        contains_logical(&self.pressed_logical, key)
    }

    /// Whether the physical key is currently held down.
    pub fn is_physical_key_pressed(&self, key: PhysicalKey) -> (r: bool)
        ensures
            r == self.physical_pressed().contains(key),
    {
        contains_physical(&self.pressed_physical, key)
    }

    /// Whether the key went down since the previous tick's commit.
    pub fn is_key_just_pressed(&self, key: LogicalKey) -> (r: bool)
        ensures
            r == self.spec_just_pressed(key),
    {
        let now = contains_logical(&self.pressed_logical, key);
        let before = contains_logical(&self.previous_logical, key);
        now && !before
    }

    /// Whether the key went up since the previous tick's commit.
    pub fn is_key_just_released(&self, key: LogicalKey) -> (r: bool)
        ensures
            r == self.spec_just_released(key),
    {
        let now = contains_logical(&self.pressed_logical, key);
        let before = contains_logical(&self.previous_logical, key);
        !now && before
    }

    /// Commits the current pressed set as the previous-tick snapshot. The
    /// frame driver calls this exactly once per tick, after draw.
    pub fn save_keyboard_state(&mut self)
        requires
            old(self).wf(),
        ensures
            final(self).wf(),
            final(self).previous_pressed() == old(self).logical_pressed(),
            final(self).logical_pressed() == old(self).logical_pressed(),
            final(self).physical_pressed() == old(self).physical_pressed(),
            final(self).spec_modifiers() == old(self).spec_modifiers(),
            final(self).spec_repeated() == old(self).spec_repeated(),
    {
        let snapshot = copy_logical(&self.pressed_logical);
        self.previous_logical = snapshot;
    }
}

/// Law: a key reads as "just pressed" only between the raw transition from
/// released to pressed and the next per-tick commit. Once the pressed set
/// has been committed as the previous-tick snapshot with no intervening
/// release, the query is false; and a press that was already recorded at
/// the previous commit is never "just pressed".
pub proof fn lemma_just_pressed_edge(kc: KeyboardContext, key: LogicalKey)
    ensures
        kc.previous_pressed() == kc.logical_pressed() ==> !kc.spec_just_pressed(key),
        kc.previous_pressed().contains(key) ==> !kc.spec_just_pressed(key),
        kc.spec_just_pressed(key) ==> kc.logical_pressed().contains(key),
{
}

fn contains_logical(v: &Vec<LogicalKey>, key: LogicalKey) -> (r: bool)
    ensures
        r == v@.contains(key),
{
    let mut i: usize = 0;
    while i < v.len()
        invariant
            0 <= i <= v@.len(),
            forall|j: int| 0 <= j < i ==> v@[j] != key,
        decreases v@.len() - i,
    {
        if v[i] == key {
            assert(v@[i as int] == key);
            return true;
        }
        i += 1;
    }
    false
}

fn contains_physical(v: &Vec<PhysicalKey>, key: PhysicalKey) -> (r: bool)
    ensures
        r == v@.contains(key),
{
    let mut i: usize = 0;
    while i < v.len()
        invariant
            0 <= i <= v@.len(),
            forall|j: int| 0 <= j < i ==> v@[j] != key,
        decreases v@.len() - i,
    {
        if v[i] == key {
            assert(v@[i as int] == key);
            return true;
        }
        i += 1;
    }
    false
}

fn copy_logical(v: &Vec<LogicalKey>) -> (r: Vec<LogicalKey>)
    ensures
        r@ == v@,
{
    let mut r: Vec<LogicalKey> = Vec::new();
    let mut i: usize = 0;
    while i < v.len()
        invariant
            0 <= i <= v@.len(),
            r@ == v@.take(i as int),
        decreases v@.len() - i,
    {
        r.push(v[i]);
        proof {
            assert(v@.take(i + 1 as int) =~= v@.take(i as int).push(v@[i as int]));
        }
        i += 1;
    }
    proof {
        assert(v@.take(v@.len() as int) =~= v@);
    }
    r
}

fn remove_logical(v: &Vec<LogicalKey>, key: LogicalKey) -> (r: Vec<LogicalKey>)
    requires
        seq_no_dups(v@),
    ensures
        seq_no_dups(r@),
        seq_set_rel(v@, r@, key, false),
{
    let mut r: Vec<LogicalKey> = Vec::new();
    let mut i: usize = 0;
    while i < v.len()
        invariant
            0 <= i <= v@.len(),
            seq_no_dups(v@),
            seq_no_dups(r@),
            forall|x: LogicalKey|
                #[trigger] r@.contains(x) <==> (v@.take(i as int).contains(x) && x != key),
        decreases v@.len() - i,
    {
        let x = v[i];
        if x != key {
            proof {
                assert(!r@.contains(x)) by {
                    if r@.contains(x) {
                        let j = choose|j: int| 0 <= j < i && v@.take(i as int)[j] == x;
                        assert(v@[j] == x && v@[i as int] == x);
                    }
                }
                lemma_push_set_rel(r@, x);
            }
            r.push(x);
        }
        proof {
            assert(v@.take(i + 1 as int) =~= v@.take(i as int).push(v@[i as int]));
            lemma_push_set_rel(v@.take(i as int), v@[i as int]);
        }
        i += 1;
    }
    proof {
        assert(v@.take(v@.len() as int) =~= v@);
    }
    r
}

fn remove_physical(v: &Vec<PhysicalKey>, key: PhysicalKey) -> (r: Vec<PhysicalKey>)
    requires
        seq_no_dups(v@),
    ensures
        seq_no_dups(r@),
        seq_set_rel(v@, r@, key, false),
{
    let mut r: Vec<PhysicalKey> = Vec::new();
    let mut i: usize = 0;
    while i < v.len()
        invariant
            0 <= i <= v@.len(),
            seq_no_dups(v@),
            seq_no_dups(r@),
            forall|x: PhysicalKey|
                #[trigger] r@.contains(x) <==> (v@.take(i as int).contains(x) && x != key),
        decreases v@.len() - i,
    {
        let x = v[i];
        if x != key {
            proof {
                assert(!r@.contains(x)) by {
                    if r@.contains(x) {
                        let j = choose|j: int| 0 <= j < i && v@.take(i as int)[j] == x;
                        assert(v@[j] == x && v@[i as int] == x);
                    }
                }
                lemma_push_set_rel(r@, x);
            }
            r.push(x);
        }
        proof {
            assert(v@.take(i + 1 as int) =~= v@.take(i as int).push(v@[i as int]));
            lemma_push_set_rel(v@.take(i as int), v@[i as int]);
        }
        i += 1;
    }
    proof {
        assert(v@.take(v@.len() as int) =~= v@);
    }
    r
}

} // verus!
