//! The chord table and its matching rule.
//!
//! A chord is a trigger key plus the exact modifier set it requires.  Chords
//! are registered in order and identified downstream by their index.  Only
//! press-phase events are candidates for a match; a press matches a chord
//! when the key is equal and the live modifier state equals the chord's
//! required set exactly.  Among several matching registrations the earliest
//! one wins.

use vstd::prelude::*;

use crate::keys::KeyCode;
use crate::keys::KeyPhase;
use crate::modifiers::Modifiers;

verus! {

/// A registered chord: its trigger key and the exact modifier set required.
#[derive(Clone, Copy, Debug, PartialEq, Eq, Structural)]
pub struct Chord {
    pub trigger: KeyCode,
    pub required: Modifiers,
}

/// Whether one chord matches a pressed key under the live modifier state:
/// the key equals the trigger and the state equals the required set exactly.
pub open spec fn chord_matches(c: Chord, key: KeyCode, mods: Modifiers) -> bool {
    c.trigger == key && c.required == mods
}

/// The index of the first chord that matches the pressed key under the live
/// modifier state, if any.
pub open spec fn first_match(chords: Seq<Chord>, key: KeyCode, mods: Modifiers) -> Option<int>
    decreases chords.len(),
{
    if chords.len() == 0 {
        None
    } else if chord_matches(chords[0], key, mods) {
        Some(0)
    } else {
        match first_match(chords.drop_first(), key, mods) {
            Some(i) => Some(i + 1),
            None => None,
        }
    }
}

/// The matching rule for a whole key event: only a press can match, and a
/// press matches the first chord whose trigger and required set both agree.
pub open spec fn event_match(
    chords: Seq<Chord>,
    key: KeyCode,
    phase: KeyPhase,
    mods: Modifiers,
) -> Option<int> {
    if phase == KeyPhase::Press {
        first_match(chords, key, mods)
    } else {
        None
    }
}

/// An ordered table of registered chords, identified by index.
#[derive(Clone, Debug)]
pub struct ChordTable {
    pub chords: Vec<Chord>,
}

impl ChordTable {
    /// An empty table.
    pub fn new() -> (t: ChordTable)
        ensures
            t.chords@ =~= Seq::<Chord>::empty(),
    {
        ChordTable { chords: Vec::new() }
    }

    /// The number of registered chords.
    pub fn len(&self) -> (n: usize)
        ensures
            n == self.chords@.len(),
    {
        self.chords.len()
    }

    /// Registers a chord and returns its stable index: indices are assigned
    /// in registration order starting at zero.
    pub fn register(&mut self, trigger: KeyCode, required: Modifiers) -> (index: usize)
        ensures
            index == old(self).chords@.len(),
            final(self).chords@ == old(self).chords@.push(
                Chord { trigger, required },
            ),
    {
        let index = self.chords.len();
        self.chords.push(Chord { trigger, required });
        index
    }

    /// Matches one key event against the table: `Some(index)` exactly when
    /// the event is a press and the chord at `index` is the earliest
    /// registration whose trigger is the pressed key and whose required set
    /// equals the live modifier state.
    pub fn match_event(&self, key: KeyCode, phase: KeyPhase, mods: &Modifiers) -> (r: Option<
        usize,
    >)
        ensures
            r matches Some(i) ==> event_match(self.chords@, key, phase, *mods) == Some(i as int),
            r is None ==> event_match(self.chords@, key, phase, *mods) is None,
    {
        if !matches!(phase, KeyPhase::Press) {
            return None;
        }
        let n = self.chords.len();
        let mut i: usize = 0;
        while i < n
            invariant
                i <= n,
                n == self.chords@.len(),
                phase == KeyPhase::Press,
                forall|j: int| 0 <= j < i ==> !chord_matches(self.chords@[j], key, *mods),
            decreases n - i,
        {
            let c = self.chords[i];
            if c.trigger.code == key.code && c.required.shift == mods.shift
                && c.required.ctrl == mods.ctrl && c.required.alt == mods.alt {
                proof {
                    lemma_first_match_found(self.chords@, key, *mods, i as int);
                }
                return Some(i);
            }
            i = i + 1;
        }
        proof {
            lemma_first_match_none(self.chords@, key, *mods);
        }
        None
    }
}

/// If the chord at `i` matches and no earlier chord does, the table's
/// matching rule picks exactly index `i`.
pub proof fn lemma_first_match_found(chords: Seq<Chord>, key: KeyCode, mods: Modifiers, i: int)
    requires
        0 <= i < chords.len(),
        chord_matches(chords[i], key, mods),
        forall|j: int| 0 <= j < i ==> !chord_matches(chords[j], key, mods),
    ensures
        first_match(chords, key, mods) == Some(i),
    decreases chords.len(),
{
    if i == 0 {
    } else {
        assert(!chord_matches(chords[0], key, mods));
        assert(chords.drop_first()[i - 1] == chords[i]);
        assert forall|j: int| 0 <= j < i - 1 implies !chord_matches(
            chords.drop_first()[j],
            key,
            mods,
        ) by {
            assert(chords.drop_first()[j] == chords[j + 1]);
        }
        lemma_first_match_found(chords.drop_first(), key, mods, i - 1);
    }
}

/// If no chord in the table matches, the matching rule returns nothing.
pub proof fn lemma_first_match_none(chords: Seq<Chord>, key: KeyCode, mods: Modifiers)
    requires
        forall|j: int| 0 <= j < chords.len() ==> !chord_matches(chords[j], key, mods),
    ensures
        first_match(chords, key, mods) is None,
    decreases chords.len(),
{
    if chords.len() > 0 {
        assert forall|j: int| 0 <= j < chords.drop_first().len() implies !chord_matches(
            chords.drop_first()[j],
            key,
            mods,
        ) by {
            assert(chords.drop_first()[j] == chords[j + 1]);
        }
        lemma_first_match_none(chords.drop_first(), key, mods);
    }
}

/// A press of a registered chord's trigger while the live modifier state
/// equals its required set matches that chord's index, provided no earlier
/// registration duplicates it; while the live state differs from the
/// required set of every chord with that trigger, nothing matches.
pub proof fn lemma_press_match(chords: Seq<Chord>, i: int, key: KeyCode, mods: Modifiers)
    requires
        0 <= i < chords.len(),
        chords[i].trigger == key,
        chords[i].required == mods,
        forall|j: int| 0 <= j < i ==> !chord_matches(chords[j], key, mods),
    ensures
        event_match(chords, key, KeyPhase::Press, mods) == Some(i),
{
    lemma_first_match_found(chords, key, mods, i);
}

/// A press while the live state equals no registered chord's required set
/// for that key produces no match at all.
pub proof fn lemma_press_no_match(chords: Seq<Chord>, key: KeyCode, mods: Modifiers)
    requires
        forall|j: int| 0 <= j < chords.len() ==> !(chords[j].trigger == key && chords[j].required
            == mods),
    ensures
        event_match(chords, key, KeyPhase::Press, mods) is None,
{
    lemma_first_match_none(chords, key, mods);
}

} // verus!
