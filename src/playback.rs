use vstd::prelude::*;

use crate::key::{Code, Press};

verus! {

/// One low-level keyboard event: a key going down or coming up.
#[derive(Debug, Clone, Copy, PartialEq, Eq, Structural)]
pub struct KeyEvent {
    pub code: Code,
    pub key_up: bool,
}

/// A release that waits for its press's hold time before it is sent, alone.
#[derive(Debug, Clone, Copy, PartialEq, Eq, Structural)]
pub struct Release {
    pub event: KeyEvent,
    pub hold: u64,
}

/// What playback of a chord sends: one batch at once, then each deferred
/// release on its own timer.
pub struct Plan {
    pub immediate: Vec<KeyEvent>,
    pub deferred: Vec<Release>,
}

pub open spec fn down(code: Code) -> KeyEvent {
    KeyEvent { code, key_up: false }
}

pub open spec fn up(code: Code) -> KeyEvent {
    KeyEvent { code, key_up: true }
}

/// The press before position `i` of a chord, absent for the first one.
pub open spec fn prev_of(s: Seq<Press>, i: int) -> Option<Press> {
    if i <= 0 {
        None
    } else {
        Some(s[i - 1])
    }
}

/// A release is put before a press when the press before it has the same
/// identity and was not held.
pub open spec fn collides(prev: Option<Press>, p: Press) -> bool {
    match prev {
        Some(q) => q.code == p.code && q.duration is None,
        None => false,
    }
}

/// The events that one press adds to the immediate batch.
pub open spec fn press_events(prev: Option<Press>, p: Press) -> Seq<KeyEvent> {
    (if collides(prev, p) { seq![up(p.code)] } else { Seq::empty() })
        + seq![down(p.code)]
        + (if p.duration is None { seq![up(p.code)] } else { Seq::empty() })
}

/// The deferred releases that one press adds.
pub open spec fn press_release(p: Press) -> Seq<Release> {
    match p.duration {
        Some(d) => seq![Release { event: up(p.code), hold: d }],
        None => Seq::empty(),
    }
}

/// The immediate batch of a chord.
pub open spec fn immediate_of(s: Seq<Press>) -> Seq<KeyEvent>
    decreases s.len(),
{
    if s.len() == 0 {
        Seq::empty()
    } else {
        immediate_of(s.drop_last()) + press_events(prev_of(s, s.len() - 1), s.last())
    }
}

/// The deferred releases of a chord, in chord order.
pub open spec fn deferred_of(s: Seq<Press>) -> Seq<Release>
    decreases s.len(),
{
    if s.len() == 0 {
        Seq::empty()
    } else {
        deferred_of(s.drop_last()) + press_release(s.last())
    }
}

/// Appends the events of `press` to the immediate batch, given the press
/// before it, and returns its deferred release if it is held.
pub fn build_events(prev: Option<Press>, press: Press, batch: &mut Vec<KeyEvent>) -> (r: Option<Release>)
    ensures
        final(batch)@ == old(batch)@ + press_events(prev, press),
        r matches Some(rel) ==> seq![rel] == press_release(press),
        r is None ==> press_release(press) == Seq::<Release>::empty(),
{
    let collision = match prev {
        Some(q) => q.code == press.code && q.duration.is_none(),
        None => false,
    };
    if collision {
        batch.push(KeyEvent { code: press.code, key_up: true });
    }
    batch.push(KeyEvent { code: press.code, key_up: false });
    match press.duration {
        None => {
            batch.push(KeyEvent { code: press.code, key_up: true });
            proof {
                assert(batch@ =~= old(batch)@ + press_events(prev, press));
            }
            None
        },
        Some(d) => {
            proof {
                assert(batch@ =~= old(batch)@ + press_events(prev, press));
            }
            Some(Release { event: KeyEvent { code: press.code, key_up: true }, hold: d })
        },
    }
}

/// Splits a chord into its immediate batch and its deferred releases.
pub fn plan(keys: &Vec<Press>) -> (r: Plan)
    ensures
        r.immediate@ == immediate_of(keys@),
        r.deferred@ == deferred_of(keys@),
{
    let mut immediate: Vec<KeyEvent> = Vec::new();
    let mut deferred: Vec<Release> = Vec::new();
    let mut prev: Option<Press> = None;
    let mut i: usize = 0;
    while i < keys.len()
        invariant
            i <= keys@.len(),
            immediate@ == immediate_of(keys@.take(i as int)),
            deferred@ == deferred_of(keys@.take(i as int)),
            prev == prev_of(keys@, i as int),
        decreases keys@.len() - i,
    {
        let press = keys[i];
        proof {
            let t = keys@.take(i as int + 1);
            assert(t.drop_last() =~= keys@.take(i as int));
            assert(prev_of(t, i as int) == prev_of(keys@, i as int));
        }
        let rel = build_events(prev, press, &mut immediate);
        match rel {
            Some(x) => {
                deferred.push(x);
            },
            None => {},
        }
        proof {
            assert(deferred@ =~= deferred_of(keys@.take(i as int + 1)));
        }
        prev = Some(press);
        i = i + 1;
    }
    proof {
        assert(keys@.take(keys@.len() as int) =~= keys@);
    }
    Plan { immediate, deferred }
}

/// How a playback failed.
#[derive(Debug, Clone, PartialEq, Eq)]
pub enum PlaybackError {
    /// The immediate batch was not transmitted: nothing was typed.
    ImmediateFailed,
    /// Typing happened, but the releases of these keys were not transmitted.
    ReleasesFailed(Vec<Code>),
}

/// The deferred releases to start once the immediate batch has been tried:
/// all of them if it was transmitted, none if it failed.
pub fn releases_to_start(plan: &Plan, immediate_sent: bool) -> (r: Vec<Release>)
    ensures
        immediate_sent ==> r@ == plan.deferred@,
        !immediate_sent ==> r@.len() == 0,
{
    let mut r: Vec<Release> = Vec::new();
    if !immediate_sent {
        return r;
    }
    let mut i: usize = 0;
    while i < plan.deferred.len()
        invariant
            i <= plan.deferred@.len(),
            r@ == plan.deferred@.take(i as int),
        decreases plan.deferred@.len() - i,
    {
        r.push(plan.deferred[i]);
        proof {
            assert(r@ =~= plan.deferred@.take(i as int + 1));
        }
        i = i + 1;
    }
    proof {
        assert(plan.deferred@.take(i as int) =~= plan.deferred@);
    }
    r
}

/// The keys of the releases in `jobs` whose transmission did not succeed,
/// in the order of `jobs`.
pub open spec fn failed_codes(jobs: Seq<Release>, sent: Seq<bool>) -> Seq<Code>
    decreases jobs.len(),
{
    if jobs.len() == 0 {
        Seq::empty()
    } else {
        failed_codes(jobs.drop_last(), sent) + (if sent[jobs.len() - 1] {
            Seq::empty()
        } else {
            seq![jobs.last().event.code]
        })
    }
}

proof fn lemma_failed_codes_prefix(jobs: Seq<Release>, sent: Seq<bool>, n: int)
    requires
        0 <= n < jobs.len(),
    ensures
        failed_codes(jobs.take(n + 1), sent) == failed_codes(jobs.take(n), sent) + (if sent[n] {
            Seq::<Code>::empty()
        } else {
            seq![jobs[n].event.code]
        }),
{
    assert(jobs.take(n + 1).drop_last() =~= jobs.take(n));
}

/// The result of a playback: success only if the immediate batch and every
/// deferred release were transmitted. `sent[i]` tells whether `jobs[i]` was.
pub fn settle(immediate_sent: bool, jobs: &Vec<Release>, sent: &Vec<bool>) -> (r: Result<(), PlaybackError>)
    requires
        immediate_sent ==> sent@.len() == jobs@.len(),
    ensures
        !immediate_sent ==> r matches Err(PlaybackError::ImmediateFailed),
        immediate_sent ==> (r is Ok <==> failed_codes(jobs@, sent@).len() == 0),
        immediate_sent && r is Err ==> (r matches Err(PlaybackError::ReleasesFailed(v)) && v@ == failed_codes(jobs@, sent@)),
{
    if !immediate_sent {
        return Err(PlaybackError::ImmediateFailed);
    }
    let mut failed: Vec<Code> = Vec::new();
    let mut i: usize = 0;
    while i < jobs.len()
        invariant
            i <= jobs@.len(),
            sent@.len() == jobs@.len(),
            failed@ == failed_codes(jobs@.take(i as int), sent@),
        decreases jobs@.len() - i,
    {
        proof {
            lemma_failed_codes_prefix(jobs@, sent@, i as int);
        }
        if !sent[i] {
            failed.push(jobs[i].event.code);
        }
        i = i + 1;
    }
    proof {
        assert(jobs@.take(i as int) =~= jobs@);
    }
    if failed.len() == 0 {
        Ok(())
    } else {
        Err(PlaybackError::ReleasesFailed(failed))
    }
}

/// Presses held for no time: each adds its release to the immediate batch.
pub open spec fn unheld_count(s: Seq<Press>) -> nat
    decreases s.len(),
{
    if s.len() == 0 {
        0
    } else {
        unheld_count(s.drop_last()) + if s.last().duration is None { 1nat } else { 0nat }
    }
}

/// Adjacent pairs of a chord that call for an interposed release.
pub open spec fn collision_count(s: Seq<Press>) -> nat
    decreases s.len(),
{
    if s.len() == 0 {
        0
    } else {
        collision_count(s.drop_last()) + if collides(prev_of(s, s.len() - 1), s.last()) {
            1nat
        } else {
            0nat
        }
    }
}

/// The immediate batch holds one down event per press, one release per press
/// that is not held, and one interposed release per colliding adjacent pair.
pub proof fn lemma_immediate_len(s: Seq<Press>)
    ensures
        immediate_of(s).len() == s.len() + unheld_count(s) + collision_count(s),
    decreases s.len(),
{
    if s.len() > 0 {
        lemma_immediate_len(s.drop_last());
    }
}

/// An empty chord has nothing to transmit, and a chord with a press always
/// has an immediate batch to transmit.
pub proof fn lemma_empty_chord_sends_nothing(s: Seq<Press>)
    ensures
        s.len() == 0 <==> immediate_of(s).len() == 0,
        s.len() == 0 ==> deferred_of(s).len() == 0,
{
    lemma_immediate_len(s);
}

/// Each deferred release is the release of a held press, carrying that
/// press's hold time; a chord has as many deferred releases as held presses.
pub proof fn lemma_deferred_are_held(s: Seq<Press>)
    ensures
        deferred_of(s).len() + unheld_count(s) == s.len(),
        forall|j: int| 0 <= j < deferred_of(s).len() ==> exists|i: int|
            0 <= i < s.len() && #[trigger] deferred_of(s)[j] == (Release {
                event: up(s[i].code),
                hold: s[i].duration->Some_0,
            }) && s[i].duration is Some,
    decreases s.len(),
{
    if s.len() > 0 {
        let t = s.drop_last();
        lemma_deferred_are_held(t);
        assert forall|j: int| 0 <= j < deferred_of(s).len() implies exists|i: int|
            0 <= i < s.len() && #[trigger] deferred_of(s)[j] == (Release {
                event: up(s[i].code),
                hold: s[i].duration->Some_0,
            }) && s[i].duration is Some by {
            if j < deferred_of(t).len() {
                let i = choose|i: int| 0 <= i < t.len() && deferred_of(t)[j] == (Release {
                    event: up(t[i].code),
                    hold: t[i].duration->Some_0,
                }) && t[i].duration is Some;
                assert(s[i] == t[i]);
            } else {
                assert(s[s.len() - 1] == s.last());
            }
        }
    }
}

} // verus!
