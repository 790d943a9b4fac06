//! Voice allocation for a polyphonic instrument: which voice a note starts on,
//! and which voices a note-off stops.
use vstd::prelude::*;

verus! {

/// Voices of a polyphonic instrument.
pub const MAX_VOICES: usize = 8;

/// What the allocator knows of a voice: the pitch it plays, and whether it sounds.
#[derive(Clone, Copy, Debug, PartialEq, Eq, Structural)]
pub struct VoiceSlot {
    pub pitch: u8,
    pub active: bool,
}

/// The voice `v` sounds `pitch`.
pub open spec fn sounds(v: VoiceSlot, pitch: u8) -> bool {
    v.active && v.pitch == pitch
}

/// No pitch sounds on two voices at once.
pub open spec fn distinct_sounding(slots: Seq<VoiceSlot>) -> bool {
    forall|i: int, j: int|
        0 <= i < slots.len() && 0 <= j < slots.len() && i != j && (#[trigger] slots[i]).active
            && (#[trigger] slots[j]).active ==> slots[i].pitch != slots[j].pitch
}

/// The voices with every voice that sounds `pitch` made silent.
pub open spec fn silenced(slots: Seq<VoiceSlot>, pitch: u8) -> Seq<VoiceSlot> {
    Seq::new(
        slots.len(),
        |i: int|
            if sounds(slots[i], pitch) {
                VoiceSlot { pitch: slots[i].pitch, active: false }
            } else {
                slots[i]
            },
    )
}

/// A fixed set of `MAX_VOICES` voices, in which a pitch sounds on one voice at most.
pub struct VoiceBank {
    slots: Vec<VoiceSlot>,
}

impl View for VoiceBank {
    type V = Seq<VoiceSlot>;

    closed spec fn view(&self) -> Seq<VoiceSlot> {
        self.slots@
    }
}

impl VoiceBank {
    /// The bank has `MAX_VOICES` voices, and a pitch sounds on one voice at most.
    pub closed spec fn wf(&self) -> bool {
        &&& self.slots@.len() == MAX_VOICES
        &&& distinct_sounding(self.slots@)
    }

    /// A well-formed bank has all `MAX_VOICES` voices, and no pitch sounds on
    /// two of them.
    pub proof fn lemma_wf(&self)
        requires
            self.wf(),
        ensures
            self@.len() == MAX_VOICES,
            distinct_sounding(self@),
    {
    }

    /// All voices silent.
    pub fn new() -> (b: VoiceBank)
        ensures
            b.wf(),
            b@ == Seq::new(MAX_VOICES as nat, |i: int| VoiceSlot { pitch: 0, active: false }),
            distinct_sounding(b@),
    {
        let mut slots: Vec<VoiceSlot> = Vec::new();
        let mut i: usize = 0;
        while i < MAX_VOICES
            invariant
                i <= MAX_VOICES,
                slots@ == Seq::new(i as nat, |k: int| VoiceSlot { pitch: 0, active: false }),
            decreases MAX_VOICES - i,
        {
            slots.push(VoiceSlot { pitch: 0, active: false });
            i = i + 1;
        }
        VoiceBank { slots }
    }

    /// The voice at index `i`.
    pub fn slot(&self, i: usize) -> (v: VoiceSlot)
        requires
            self.wf(),
            i < MAX_VOICES,
        ensures
            v == self@[i as int],
            self@.len() == MAX_VOICES,
            distinct_sounding(self@),
    {
        self.slots[i]
    }

    /// Start `pitch`: on the voice already sounding it, if there is one (which is
    /// left as it is); else on the first silent voice; else on voice 0, which is
    /// taken from the note it played. Returns the voice whose sound restarts.
    pub fn note_on(&mut self, pitch: u8) -> (idx: usize)
        requires
            old(self).wf(),
        ensures
            final(self).wf(),
            idx < MAX_VOICES,
            final(self)@.len() == MAX_VOICES,
            distinct_sounding(final(self)@),
            sounds(final(self)@[idx as int], pitch),
            (exists|i: int| 0 <= i < MAX_VOICES && sounds(#[trigger] old(self)@[i], pitch)) ==> {
                &&& sounds(old(self)@[idx as int], pitch)
                &&& forall|j: int| 0 <= j < idx ==> !sounds(#[trigger] old(self)@[j], pitch)
                &&& final(self)@ == old(self)@
            },
            (forall|i: int| 0 <= i < MAX_VOICES ==> !sounds(#[trigger] old(self)@[i], pitch)) ==> {
                &&& (exists|i: int| 0 <= i < MAX_VOICES && !(#[trigger] old(self)@[i]).active) ==> {
                    &&& !old(self)@[idx as int].active
                    &&& forall|j: int| 0 <= j < idx ==> (#[trigger] old(self)@[j]).active
                }
                &&& (forall|i: int| 0 <= i < MAX_VOICES ==> (#[trigger] old(self)@[i]).active)
                    ==> idx == 0
                &&& final(self)@ == old(self)@.update(
                    idx as int,
                    VoiceSlot { pitch, active: true },
                )
            },
    {
        // First, try to reuse a voice already playing this pitch
        let mut i: usize = 0;
        while i < MAX_VOICES
            invariant
                i <= MAX_VOICES,
                self.slots@ == old(self).slots@,
                old(self).wf(),
                self.slots@.len() == MAX_VOICES,
                forall|j: int| 0 <= j < i ==> !sounds(#[trigger] self.slots@[j], pitch),
            decreases MAX_VOICES - i,
        {
            let v = self.slots[i];
            if v.active && v.pitch == pitch {
                return i;
            }
            i = i + 1;
        }
        // Find an inactive voice
        let mut k: usize = 0;
        while k < MAX_VOICES
            invariant
                k <= MAX_VOICES,
                self.slots@ == old(self).slots@,
                self.slots@.len() == MAX_VOICES,
                distinct_sounding(self.slots@),
                forall|j: int| 0 <= j < MAX_VOICES ==> !sounds(#[trigger] self.slots@[j], pitch),
                forall|j: int| 0 <= j < k ==> (#[trigger] self.slots@[j]).active,
            decreases MAX_VOICES - k,
        {
            if !self.slots[k].active {
                self.set_slot(k, VoiceSlot { pitch, active: true });
                return k;
            }
            k = k + 1;
        }
        // Voice stealing: take the first voice
        self.set_slot(0, VoiceSlot { pitch, active: true });
        0
    }

    /// Replace a voice by one that sounds `pitch`, where no other voice sounds it.
    fn set_slot(&mut self, i: usize, v: VoiceSlot)
        requires
            old(self).wf(),
            i < MAX_VOICES,
            v.active,
            forall|j: int| 0 <= j < MAX_VOICES ==> !sounds(#[trigger] old(self)@[j], v.pitch),
        ensures
            final(self).wf(),
            final(self)@ == old(self)@.update(i as int, v),
            distinct_sounding(final(self)@),
    {
        let mut slots: Vec<VoiceSlot> = Vec::new();
        std::mem::swap(&mut slots, &mut self.slots);
        assert(slots@ == old(self)@);
        slots[i] = v;
        proof {
            let s = slots@;
            assert forall|a: int, b: int|
                0 <= a < s.len() && 0 <= b < s.len() && a != b && (#[trigger] s[a]).active
                    && (#[trigger] s[b]).active implies s[a].pitch != s[b].pitch by {
                if a != i && b != i {
                    assert(old(self)@[a] == s[a] && old(self)@[b] == s[b]);
                } else if a == i {
                    assert(!sounds(old(self)@[b], v.pitch));
                } else {
                    assert(!sounds(old(self)@[a], v.pitch));
                }
            }
        }
        self.slots = slots;
    }

    /// Silence every voice sounding `pitch`.
    pub fn note_off(&mut self, pitch: u8)
        requires
            old(self).wf(),
        ensures
            final(self).wf(),
            final(self)@.len() == MAX_VOICES,
            final(self)@ == silenced(old(self)@, pitch),
            forall|i: int|
                0 <= i < MAX_VOICES ==> (#[trigger] final(self)@[i]).pitch == old(self)@[i].pitch,
            forall|i: int|
                0 <= i < MAX_VOICES && !sounds(#[trigger] old(self)@[i], pitch) ==> final(self)@[i]
                    == old(self)@[i],
            distinct_sounding(final(self)@),
            forall|i: int| 0 <= i < MAX_VOICES ==> !sounds(#[trigger] final(self)@[i], pitch),
    {
        let ghost target = silenced(old(self)@, pitch);
        let mut slots: Vec<VoiceSlot> = Vec::new();
        std::mem::swap(&mut slots, &mut self.slots);
        assert(slots@ == old(self)@);
        let mut i: usize = 0;
        while i < MAX_VOICES
            invariant
                i <= MAX_VOICES,
                slots@.len() == MAX_VOICES,
                old(self)@.len() == MAX_VOICES,
                target == silenced(old(self)@, pitch),
                forall|j: int| 0 <= j < i ==> slots@[j] == target[j],
                forall|j: int| i <= j < MAX_VOICES ==> slots@[j] == old(self)@[j],
            decreases MAX_VOICES - i,
        {
            let v = slots[i];
            if v.active && v.pitch == pitch {
                slots[i] = VoiceSlot { pitch: v.pitch, active: false };
            }
            assert(slots@[i as int] == target[i as int]);
            i = i + 1;
        }
        assert(slots@ =~= target);
        proof {
            let s = slots@;
            assert forall|a: int, b: int|
                0 <= a < s.len() && 0 <= b < s.len() && a != b && (#[trigger] s[a]).active
                    && (#[trigger] s[b]).active implies s[a].pitch != s[b].pitch by {
                assert(old(self)@[a] == s[a] && old(self)@[b] == s[b]);
            }
        }
        self.slots = slots;
    }
}

} // verus!
