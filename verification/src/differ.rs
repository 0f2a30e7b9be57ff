//! Key set differ. Incremental mode keeps the ordered list of keys currently
//! held down: a press appends a new key at the end, a release removes the
//! first matching entry. Snapshot mode compares two raw polls of the keyboard
//! and reports the freshly translated set only when it changed.

use vstd::prelude::*;
use crate::translate::{spec_translate, translate};

verus! {

/// Pressing a key: the held list unchanged if the key is already down,
/// else the key appended at the end.
pub open spec fn spec_press(held: Seq<Seq<char>>, key: Seq<char>) -> Seq<Seq<char>> {
    if held.contains(key) {
        held
    } else {
        held.push(key)
    }
}

/// Releasing a key: the first matching entry removed; a spurious release of
/// a key that is not down leaves the list unchanged.
pub open spec fn spec_release(held: Seq<Seq<char>>, key: Seq<char>) -> Seq<Seq<char>> {
    held.remove_value(key)
}

/// One simulated keyboard transition, for reasoning about event histories.
pub enum KeyStroke {
    Press(Seq<char>),
    Release(Seq<char>),
}

/// The held list after feeding a whole event history to the differ,
/// starting from no keys down.
pub open spec fn run_events(events: Seq<KeyStroke>) -> Seq<Seq<char>>
    decreases events.len(),
{
    if events.len() == 0 {
        Seq::empty()
    } else {
        let prev = run_events(events.drop_last());
        match events.last() {
            KeyStroke::Press(k) => spec_press(prev, k),
            KeyStroke::Release(k) => spec_release(prev, k),
        }
    }
}

/// Whether a key has been pressed and not released again at the end of an
/// event history.
pub open spec fn key_down(events: Seq<KeyStroke>, key: Seq<char>) -> bool
    decreases events.len(),
{
    if events.len() == 0 {
        false
    } else {
        match events.last() {
            KeyStroke::Press(k) => k == key || key_down(events.drop_last(), key),
            KeyStroke::Release(k) => k != key && key_down(events.drop_last(), key),
        }
    }
}

/// A press keeps the list duplicate-free and adds exactly the pressed key;
/// a fresh key goes to the end, a repeated press changes nothing.
pub proof fn lemma_press_properties(held: Seq<Seq<char>>, key: Seq<char>)
    requires
        held.no_duplicates(),
    ensures
        spec_press(held, key).no_duplicates(),
        forall|k: Seq<char>|
            spec_press(held, key).contains(k) <==> (held.contains(k) || k == key),
{
    if held.contains(key) {
    } else {
        let p = held.push(key);
        assert forall|i: int, j: int|
            0 <= i < p.len() && 0 <= j < p.len() && i != j implies p[i] != p[j] by {
            if i < held.len() && j < held.len() {
            } else if i == held.len() {
                assert(p[j] == held[j]);
                if p[i] == p[j] {
                    assert(held.contains(key));
                }
            } else {
                assert(j == held.len() && p[i] == held[i]);
                if p[i] == p[j] {
                    assert(held.contains(key));
                }
            }
        }
        assert forall|k: Seq<char>| p.contains(k) implies (held.contains(k) || k
            == key) by {
            let i = choose|i: int| 0 <= i < p.len() && p[i] == k;
            if i < held.len() {
                assert(held[i] == k);
            }
        }
        assert forall|k: Seq<char>| held.contains(k) implies p.contains(k) by {
            let i = choose|i: int| 0 <= i < held.len() && held[i] == k;
            assert(p[i] == k);
        }
        assert(p[held.len() as int] == key);
        assert(p.contains(key));
    }
}

/// A release keeps the list duplicate-free and removes exactly the released
/// key; releasing a key that is not down changes nothing.
pub proof fn lemma_release_properties(held: Seq<Seq<char>>, key: Seq<char>)
    requires
        held.no_duplicates(),
    ensures
        spec_release(held, key).no_duplicates(),
        forall|k: Seq<char>|
            spec_release(held, key).contains(k) <==> (held.contains(k) && k != key),
        !held.contains(key) ==> spec_release(held, key) == held,
{
    held.index_of_first_ensures(key);
    match held.index_of_first(key) {
        Option::None => {
        },
        Option::Some(at) => {
            let r = held.remove(at);
            held.remove_ensures(at);
            assert forall|i: int, j: int|
                0 <= i < r.len() && 0 <= j < r.len() && i != j implies r[i] != r[j] by {
                let oi: int = if i < at { i } else { i + 1 };
                let oj: int = if j < at { j } else { j + 1 };
                assert(r[i] == held[oi]);
                assert(r[j] == held[oj]);
            }
            assert forall|k: Seq<char>| r.contains(k) implies (held.contains(k) && k
                != key) by {
                let i = choose|i: int| 0 <= i < r.len() && r[i] == k;
                let oi: int = if i < at { i } else { i + 1 };
                assert(held[oi] == k);
                assert(oi != at);
                if k == key {
                    assert(held[oi] == held[at]);
                }
            }
            assert forall|k: Seq<char>| held.contains(k) && k != key implies r.contains(
                k,
            ) by {
                let oi = choose|oi: int| 0 <= oi < held.len() && held[oi] == k;
                assert(oi != at);
                let i: int = if oi < at { oi } else { oi - 1 };
                assert(r[i] == held[oi]);
            }
        },
    }
}

/// The heart of the differ: after any event history, the held list has no
/// duplicate and holds a key exactly when that key has been pressed and not
/// released since. Order is first-pressed-first-listed throughout, because a
/// press appends at the end and a release removes one entry in place.
pub proof fn lemma_differ_history(events: Seq<KeyStroke>)
    ensures
        run_events(events).no_duplicates(),
        forall|k: Seq<char>| run_events(events).contains(k) <==> key_down(events, k),
    decreases events.len(),
{
    if events.len() == 0 {
        assert forall|k: Seq<char>| !run_events(events).contains(k) by {
            assert(run_events(events).len() == 0);
        }
    } else {
        lemma_differ_history(events.drop_last());
        let prev = run_events(events.drop_last());
        match events.last() {
            KeyStroke::Press(k0) => {
                lemma_press_properties(prev, k0);
                assert(run_events(events) == spec_press(prev, k0));
                assert forall|k: Seq<char>| run_events(events).contains(k) <==> key_down(
                    events,
                    k,
                ) by {
                    assert(spec_press(prev, k0).contains(k) <==> (prev.contains(k) || k == k0));
                    assert(key_down(events, k) == (k0 == k || key_down(events.drop_last(), k)));
                }
            },
            KeyStroke::Release(k0) => {
                lemma_release_properties(prev, k0);
                assert(run_events(events) == spec_release(prev, k0));
                assert forall|k: Seq<char>| run_events(events).contains(k) <==> key_down(
                    events,
                    k,
                ) by {
                    assert(spec_release(prev, k0).contains(k) <==> (prev.contains(k) && k != k0));
                    assert(key_down(events, k) == (k0 != k && key_down(events.drop_last(), k)));
                }
            },
        }
    }
}

/// The moment a key's current hold began: the index of the press that put
/// the key into the held list. Meaningful for keys that are down at the end
/// of the history.
pub open spec fn hold_began(events: Seq<KeyStroke>, key: Seq<char>) -> int
    decreases events.len(),
{
    if events.len() == 0 {
        -1
    } else {
        match events.last() {
            KeyStroke::Press(k) => if k == key && !key_down(events.drop_last(), key) {
                events.len() - 1
            } else {
                hold_began(events.drop_last(), key)
            },
            KeyStroke::Release(k) => hold_began(events.drop_last(), key),
        }
    }
}

proof fn lemma_hold_began_bounds(events: Seq<KeyStroke>, key: Seq<char>)
    ensures
        -1 <= hold_began(events, key) < events.len(),
    decreases events.len(),
{
    if events.len() > 0 {
        lemma_hold_began_bounds(events.drop_last(), key);
    }
}

/// Press order is preserved for held keys: after any event history, the
/// held list is sorted by the moment each key's current hold began. A fresh
/// press goes to the end, and a release closes the gap without reordering.
pub proof fn lemma_press_order_preserved(events: Seq<KeyStroke>)
    ensures
        forall|i: int, j: int|
            0 <= i < j < run_events(events).len() ==> hold_began(events, run_events(events)[i])
                < hold_began(events, run_events(events)[j]),
    decreases events.len(),
{
    if events.len() > 0 {
        let es0 = events.drop_last();
        lemma_press_order_preserved(es0);
        lemma_differ_history(es0);
        let prev = run_events(es0);
        let run = run_events(events);
        match events.last() {
            KeyStroke::Press(k0) => {
                assert(run == spec_press(prev, k0));
                assert forall|k: Seq<char>| prev.contains(k) implies hold_began(events, k)
                    == hold_began(es0, k) by {
                    if k == k0 {
                        assert(key_down(es0, k0));
                    }
                }
                if prev.contains(k0) {
                    assert(run == prev);
                    assert forall|i: int, j: int| 0 <= i < j < run.len() implies hold_began(
                        events,
                        run[i],
                    ) < hold_began(events, run[j]) by {
                        assert(prev.contains(run[i]));
                        assert(prev.contains(run[j]));
                        assert(hold_began(es0, prev[i]) < hold_began(es0, prev[j]));
                    }
                } else {
                    assert(run == prev.push(k0));
                    assert(!key_down(es0, k0));
                    assert(hold_began(events, k0) == events.len() - 1);
                    assert forall|i: int, j: int| 0 <= i < j < run.len() implies hold_began(
                        events,
                        run[i],
                    ) < hold_began(events, run[j]) by {
                        if j == run.len() - 1 {
                            assert(run[j] == k0);
                            assert(run[i] == prev[i]);
                            assert(prev.contains(run[i]));
                            lemma_hold_began_bounds(es0, run[i]);
                        } else {
                            assert(run[i] == prev[i]);
                            assert(run[j] == prev[j]);
                            assert(prev.contains(run[i]));
                            assert(prev.contains(run[j]));
                            assert(hold_began(es0, prev[i]) < hold_began(es0, prev[j]));
                        }
                    }
                }
            },
            KeyStroke::Release(k0) => {
                assert(run == spec_release(prev, k0));
                assert forall|k: Seq<char>| hold_began(events, k) == hold_began(es0, k) by {}
                prev.index_of_first_ensures(k0);
                match prev.index_of_first(k0) {
                    Option::None => {
                        assert(run == prev);
                        assert forall|i: int, j: int| 0 <= i < j < run.len() implies hold_began(
                            events,
                            run[i],
                        ) < hold_began(events, run[j]) by {
                            assert(hold_began(es0, prev[i]) < hold_began(es0, prev[j]));
                        }
                    },
                    Option::Some(at) => {
                        assert(run == prev.remove(at));
                        prev.remove_ensures(at);
                        assert forall|i: int, j: int| 0 <= i < j < run.len() implies hold_began(
                            events,
                            run[i],
                        ) < hold_began(events, run[j]) by {
                            let oi: int = if i < at {
                                i
                            } else {
                                i + 1
                            };
                            let oj: int = if j < at {
                                j
                            } else {
                                j + 1
                            };
                            assert(run[i] == prev[oi]);
                            assert(run[j] == prev[oj]);
                            assert(oi < oj);
                            assert(hold_began(es0, prev[oi]) < hold_began(es0, prev[oj]));
                        }
                    },
                }
            },
        }
    }
}

/// The ordered list of keys currently held down, in the order they were
/// first pressed. Incremental differ state for the event-hook strategy.
pub struct KeyTracker {
    held: Vec<String>,
}

impl View for KeyTracker {
    type V = Seq<Seq<char>>;

    closed spec fn view(&self) -> Seq<Seq<char>> {
        self.held.deep_view()
    }
}

/// A fresh copy of the held list, handed out as a snapshot.
fn clone_all(v: &Vec<String>) -> (r: Vec<String>)
    ensures
        r.deep_view() == v.deep_view(),
{
    let mut r: Vec<String> = Vec::new();
    let mut i: usize = 0;
    while i < v.len()
        invariant
            i <= v.len(),
            r.len() == i,
            forall|j: int| 0 <= j < i ==> r.deep_view()[j] == v.deep_view()[j],
        decreases v.len() - i,
    {
        r.push(v[i].clone());
        i += 1;
    }
    proof {
        assert(r.deep_view() =~= v.deep_view());
    }
    r
}

impl KeyTracker {
    /// No key is listed twice.
    pub open spec fn wf(&self) -> bool {
        self@.no_duplicates()
    }

    /// A tracker with no key down.
    pub fn new() -> (t: KeyTracker)
        ensures
            t@ == Seq::<Seq<char>>::empty(),
            t.wf(),
    {
        let t = KeyTracker { held: Vec::new() };
        proof {
            assert(t@ =~= Seq::<Seq<char>>::empty());
        }
        t
    }

    /// The index of the first entry equal to `key`, if any.
    fn find_key(&self, key: &String) -> (r: Option<usize>)
        ensures
            match r {
                Option::Some(i) => i < self@.len() && self@[i as int] == key@ && (forall|j: int|
                    0 <= j < i ==> self@[j] != key@),
                Option::None => !self@.contains(key@),
            },
    {
        let mut i: usize = 0;
        while i < self.held.len()
            invariant
                i <= self.held.len(),
                forall|j: int| 0 <= j < i ==> self@[j] != key@,
            decreases self.held.len() - i,
        {
            if self.held[i] == *key {
                return Some(i);
            }
            i += 1;
        }
        proof {
            assert forall|j: int| 0 <= j < self@.len() implies self@[j] != key@ by {
            }
        }
        None
    }

    /// Record a press and hand back the full updated snapshot: the key is
    /// appended if it is not already down, and the whole current set is
    /// reported either way.
    pub fn press(&mut self, key: String) -> (snap: Vec<String>)
        requires
            old(self).wf(),
        ensures
            final(self).wf(),
            final(self)@ == spec_press(old(self)@, key@),
            snap.deep_view() == final(self)@,
    {
        proof {
            lemma_press_properties(self@, key@);
        }
        let found = self.find_key(&key);
        if found.is_none() {
            self.held.push(key);
            proof {
                assert(self@ =~= old(self)@.push(key@));
            }
        }
        clone_all(&self.held)
    }

    /// Record a release: the first matching entry is removed and the updated
    /// snapshot reported; a spurious release of a key that is not down is
    /// ignored and nothing is reported.
    pub fn release(&mut self, key: &String) -> (snap: Option<Vec<String>>)
        requires
            old(self).wf(),
        ensures
            final(self).wf(),
            final(self)@ == spec_release(old(self)@, key@),
            (snap is Some) == old(self)@.contains(key@),
            snap is Some ==> snap->0.deep_view() == final(self)@,
    {
        proof {
            lemma_release_properties(self@, key@);
            self@.index_of_first_ensures(key@);
        }
        match self.find_key(key) {
            Option::Some(i) => {
                proof {
                    let at = self@.index_of_first(key@)->0;
                    assert(self@[i as int] == key@);
                    if at < i {
                        assert(self@[at] == key@);
                    }
                    if i < at {
                        assert(self@[i as int] != key@);
                    }
                    assert(at == i);
                }
                self.held.remove(i);
                proof {
                    assert(self@ =~= old(self)@.remove(i as int));
                }
                Some(clone_all(&self.held))
            },
            Option::None => {
                None
            },
        }
    }

    /// The current snapshot without changing the tracker.
    pub fn snapshot(&self) -> (snap: Vec<String>)
        ensures
            snap.deep_view() == self@,
    {
        clone_all(&self.held)
    }
}

/// Whether two raw key-code polls differ. The comparison is made on the raw
/// codes, before any translation.
pub fn codes_equal(a: &Vec<u8>, b: &Vec<u8>) -> (r: bool)
    ensures
        r == (a@ == b@),
{
    if a.len() != b.len() {
        return false;
    }
    let mut i: usize = 0;
    while i < a.len()
        invariant
            a.len() == b.len(),
            i <= a.len(),
            forall|j: int| 0 <= j < i ==> a@[j] == b@[j],
        decreases a.len() - i,
    {
        if a[i] != b[i] {
            return false;
        }
        i += 1;
    }
    proof {
        assert(a@ =~= b@);
    }
    true
}

/// Translate a whole poll of raw codes to canonical names, keeping order.
pub fn translate_all(codes: &Vec<u8>) -> (names: Vec<String>)
    ensures
        names.deep_view() == codes@.map_values(|c: u8| spec_translate(c)),
{
    let mut names: Vec<String> = Vec::new();
    let mut i: usize = 0;
    while i < codes.len()
        invariant
            i <= codes.len(),
            names.len() == i,
            forall|j: int| 0 <= j < i ==> names.deep_view()[j] == spec_translate(codes@[j]),
        decreases codes.len() - i,
    {
        let ghost pre = names.deep_view();
        names.push(translate(codes[i]));
        proof {
            assert forall|j: int| 0 <= j <= i implies names.deep_view()[j] == spec_translate(
                codes@[j],
            ) by {
                if j < i {
                    assert(names.deep_view()[j] == pre[j]);
                }
            }
        }
        i += 1;
    }
    proof {
        assert(names.deep_view() =~= codes@.map_values(|c: u8| spec_translate(c)));
    }
    names
}

/// One tick of the continuous-poll strategy: compare the current poll with
/// the previous one and report the freshly translated full set exactly when
/// it changed; an identical poll reports nothing.
pub fn poll_step(prev: &Vec<u8>, curr: &Vec<u8>) -> (out: Option<Vec<String>>)
    ensures
        (out is Some) == (prev@ != curr@),
        out is Some ==> out->0.deep_view() == curr@.map_values(|c: u8| spec_translate(c)),
{
    if codes_equal(prev, curr) {
        None
    } else {
        Some(translate_all(curr))
    }
}

} // verus!
