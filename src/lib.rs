//! A keyboard input library: a `Chord` is an ordered list of key presses,
//! and playback turns it into one batch of key events sent at once plus one
//! delayed release for each press that is held.
use vstd::prelude::*;

pub mod codes;
pub mod key;
pub mod playback;

pub use codes::VirtualKey;

use key::{Code, Press};
use playback::{Plan, plan, immediate_of, deferred_of};

verus! {

/// A group of key presses that is played back as one request.
pub struct Chord {
    pub keys: Vec<Press>,
}

impl Chord {
    /// A chord with no presses.
    pub fn new() -> (r: Self)
        ensures
            r.keys@.len() == 0,
    {
        Chord { keys: Vec::new() }
    }

    /// A chord that types UTF-16 code units, each held for `default_hold`.
    pub fn from_utf16_held(codes: &[u16], default_hold: Option<u64>) -> (r: Self)
        ensures
            r.keys@.len() == codes@.len(),
            forall|i: int| 0 <= i < codes@.len() ==> #[trigger] r.keys@[i] == (Press {
                code: Code::UnicodeKey(codes@[i]),
                duration: default_hold,
            }),
    {
        let mut keys: Vec<Press> = Vec::new();
        let mut i: usize = 0;
        while i < codes.len()
            invariant
                i <= codes@.len(),
                keys@.len() == i,
                forall|j: int| 0 <= j < i ==> #[trigger] keys@[j] == (Press {
                    code: Code::UnicodeKey(codes@[j]),
                    duration: default_hold,
                }),
            decreases codes@.len() - i,
        {
            keys.push(Press::new_unicode(codes[i], default_hold));
            i = i + 1;
        }
        Chord { keys }
    }

    /// A chord that types UTF-16 code units, with no hold.
    pub fn from_utf16(codes: &[u16]) -> (r: Self)
        ensures
            r.keys@.len() == codes@.len(),
            forall|i: int| 0 <= i < codes@.len() ==> #[trigger] r.keys@[i] == (Press {
                code: Code::UnicodeKey(codes@[i]),
                duration: None,
            }),
    {
        Self::from_utf16_held(codes, None)
    }

    /// Append a press to the end of the chord.
    pub fn push(&mut self, press: Press)
        ensures
            final(self).keys@ == old(self).keys@.push(press),
    {
        self.keys.push(press);
    }

    /// Append a virtual key press with no hold to the end of the chord.
    pub fn push_vk(&mut self, key: VirtualKey)
        ensures
            final(self).keys@ == old(self).keys@.push(
                Press { code: Code::VirtualKey(key.spec_code()), duration: None },
            ),
    {
        self.keys.push(Press::new_virtual(key.code(), None));
    }

    /// What playback of this chord transmits: the immediate batch and the
    /// deferred releases.
    pub fn plan(&self) -> (r: Plan)
        ensures
            r.immediate@ == immediate_of(self.keys@),
            r.deferred@ == deferred_of(self.keys@),
    {
        plan(&self.keys)
    }
}

} // verus!
