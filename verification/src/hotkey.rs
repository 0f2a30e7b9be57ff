//! Single-hotkey capture: one fixed chord of key codes is watched as a
//! binary signal. The monitor tracks which chord components are currently
//! down; the instant the last component goes down it signals a press, and
//! the instant any component goes back up it signals a release.

use vstd::prelude::*;

verus! {

/// The two transitions a hotkey session reports.
#[derive(Clone, Copy, PartialEq, Eq, Structural, Debug)]
pub enum HotkeySignal {
    Pressed,
    Released,
}

/// The component-down flags after one key transition: the flag of the
/// matching chord component follows the event; every other flag is kept.
pub open spec fn spec_chord_update(chord: Seq<u8>, down: Seq<bool>, code: u8, press: bool) -> Seq<
    bool,
> {
    Seq::new(down.len(), |i: int| if chord[i] == code {
        press
    } else {
        down[i]
    })
}

/// Whether the whole chord is held.
pub open spec fn spec_all_down(down: Seq<bool>) -> bool {
    forall|i: int| 0 <= i < down.len() ==> down[i]
}

/// The signal a transition of the down flags produces: a press exactly when
/// the chord becomes held, a release exactly when it stops being held.
pub open spec fn spec_signal(was_held: bool, held: bool) -> Option<HotkeySignal> {
    if !was_held && held {
        Some(HotkeySignal::Pressed)
    } else if was_held && !held {
        Some(HotkeySignal::Released)
    } else {
        None
    }
}

/// Watches one fixed chord of key codes.
pub struct HotkeyMonitor {
    chord: Vec<u8>,
    down: Vec<bool>,
}

impl HotkeyMonitor {
    /// The chord being watched.
    pub closed spec fn chord(&self) -> Seq<u8> {
        self.chord@
    }

    /// Which chord components are currently down.
    pub closed spec fn down(&self) -> Seq<bool> {
        self.down@
    }

    /// One flag per distinct component.
    pub open spec fn wf(&self) -> bool {
        &&& self.chord().no_duplicates()
        &&& self.down().len() == self.chord().len()
        &&& self.chord().len() >= 1
    }

    /// Set up a monitor for a chord. A chord must name at least one key and
    /// no key twice; anything else is refused.
    pub fn new(chord: Vec<u8>) -> (m: Option<HotkeyMonitor>)
        ensures
            (m is Some) == (chord@.no_duplicates() && chord@.len() >= 1),
            m matches Some(mon) ==> mon.wf() && mon.chord() == chord@ && mon.down() == Seq::new(
                chord@.len(),
                |i: int| false,
            ),
    {
        if chord.len() == 0 {
            return None;
        }
        let n = chord.len();
        let mut i: usize = 0;
        while i < n
            invariant
                i <= n,
                n == chord@.len(),
                forall|a: int, b: int| 0 <= a < b < n && a < i ==> chord@[a] != chord@[b],
            decreases n - i,
        {
            let mut j: usize = i + 1;
            while j < n
                invariant
                    i < j <= n,
                    n == chord@.len(),
                    forall|b: int| i < b < j ==> chord@[i as int] != chord@[b],
                decreases n - j,
            {
                if chord[i] == chord[j] {
                    return None;
                }
                j += 1;
            }
            i += 1;
        }
        let mut down: Vec<bool> = Vec::new();
        let mut k: usize = 0;
        while k < n
            invariant
                k <= n,
                down@.len() == k,
                forall|i: int| 0 <= i < k ==> !down@[i],
            decreases n - k,
        {
            down.push(false);
            k += 1;
        }
        let m = HotkeyMonitor { chord, down };
        proof {
            assert(m.down() =~= Seq::new(m.chord().len(), |i: int| false));
        }
        Some(m)
    }

    /// Whether the whole chord is currently held.
    pub fn is_held(&self) -> (r: bool)
        ensures
            r == spec_all_down(self.down()),
    {
        let mut i: usize = 0;
        while i < self.down.len()
            invariant
                i <= self.down().len(),
                forall|j: int| 0 <= j < i ==> self.down()[j],
            decreases self.down.len() - i,
        {
            if !self.down[i] {
                return false;
            }
            i += 1;
        }
        true
    }

    /// Feed one key transition. The matching component's flag follows the
    /// event; a signal comes exactly on the edge where the whole chord
    /// becomes held or stops being held, so holding the chord and repeating
    /// one of its keys signals nothing.
    pub fn on_event(&mut self, code: u8, press: bool) -> (sig: Option<HotkeySignal>)
        requires
            old(self).wf(),
        ensures
            final(self).wf(),
            final(self).chord() == old(self).chord(),
            final(self).down() == spec_chord_update(old(self).chord(), old(self).down(), code, press),
            sig == spec_signal(
                spec_all_down(old(self).down()),
                spec_all_down(final(self).down()),
            ),
    {
        let was_held = self.is_held();
        let n = self.chord.len();
        let mut i: usize = 0;
        while i < n
            invariant
                i <= n,
                n == self.chord().len(),
                self.wf(),
                self.chord() == old(self).chord(),
                forall|j: int|
                    0 <= j < i ==> self.down()[j] == (if self.chord()[j] == code {
                        press
                    } else {
                        old(self).down()[j]
                    }),
                forall|j: int| i <= j < n ==> self.down()[j] == old(self).down()[j],
            decreases n - i,
        {
            if self.chord[i] == code {
                self.down.set(i, press);
            }
            i += 1;
        }
        proof {
            assert(self.down() =~= spec_chord_update(old(self).chord(), old(self).down(), code, press));
        }
        let held = self.is_held();
        if !was_held && held {
            Some(HotkeySignal::Pressed)
        } else if was_held && !held {
            Some(HotkeySignal::Released)
        } else {
            None
        }
    }
}

} // verus!
