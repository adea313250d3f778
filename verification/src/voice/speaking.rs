//! Who is speaking in a call.
use crate::ids::UserId;
use crate::voice::time::{MonotonicTime, NANOS_PER_MILLI};
use std::collections::HashMap;
use vstd::prelude::*;
use vstd::std_specs::hash::*;
use vstd::std_specs::iter::IteratorSpec;

verus! {

/// How long somebody counts as speaking after their last packet.
pub const VOICE_REMOTE_SPEAKING_TTL_MILLIS: u64 = 500;

/// How often it is looked for people who have stopped speaking.
pub const VOICE_REMOTE_SPEAKING_SWEEP_MILLIS: u64 = 250;

/// Tracks who is speaking: others until their deadline, the local user until told otherwise.
pub struct VoiceSpeakingTracker {
    pub local_user_id: UserId,
    /// By user id.
    pub remote_deadlines: HashMap<u64, MonotonicTime>,
    pub local_speaking: bool,
}

pub struct TrackerView {
    pub local_user_id: UserId,
    pub remote_deadlines: Map<u64, MonotonicTime>,
    pub local_speaking: bool,
}

impl View for VoiceSpeakingTracker {
    type V = TrackerView;

    open spec fn view(&self) -> TrackerView {
        TrackerView {
            local_user_id: self.local_user_id,
            remote_deadlines: self.remote_deadlines@,
            local_speaking: self.local_speaking,
        }
    }
}

/// `list` names every member of `users` once, in some order.
pub open spec fn lists_users(list: Seq<UserId>, users: Set<u64>) -> bool {
    &&& list.no_duplicates()
    &&& forall|id: UserId| #[trigger] list.contains(id) <==> users.contains(id.value)
}

/// The deadline of somebody who was heard at `now`.
pub open spec fn speaking_deadline(now: MonotonicTime) -> MonotonicTime {
    MonotonicTime {
        nanos: (now.nanos + VOICE_REMOTE_SPEAKING_TTL_MILLIS * NANOS_PER_MILLI) as u64,
    }
}

impl TrackerView {
    /// The local user is never tracked among the others.
    pub open spec fn wf(self) -> bool {
        !self.remote_deadlines.contains_key(self.local_user_id.value)
    }

    /// The others whose deadline has come.
    pub open spec fn expired(self, now: MonotonicTime) -> Set<u64> {
        Set::new(
            |id: u64|
                self.remote_deadlines.contains_key(id) && self.remote_deadlines[id].nanos
                    <= now.nanos,
        )
    }

    /// Everybody who is speaking.
    pub open spec fn speakers(self) -> Set<u64> {
        if self.local_speaking {
            self.remote_deadlines.dom().insert(self.local_user_id.value)
        } else {
            self.remote_deadlines.dom()
        }
    }

    pub open spec fn after_remote(
        self,
        user_id: UserId,
        speaking: bool,
        now: MonotonicTime,
    ) -> TrackerView {
        if user_id == self.local_user_id {
            self
        } else if speaking {
            TrackerView {
                remote_deadlines: self.remote_deadlines.insert(
                    user_id.value,
                    speaking_deadline(now),
                ),
                ..self
            }
        } else {
            TrackerView { remote_deadlines: self.remote_deadlines.remove(user_id.value), ..self }
        }
    }

    /// What is reported of somebody else's activity: only a change.
    pub open spec fn remote_edge(self, user_id: UserId, speaking: bool) -> Option<bool> {
        if user_id == self.local_user_id {
            None
        } else if self.remote_deadlines.contains_key(user_id.value) == speaking {
            None
        } else {
            Some(speaking)
        }
    }
}

impl VoiceSpeakingTracker {
    pub fn new(local_user_id: UserId) -> (tracker: Self)
        ensures
            tracker@ == (TrackerView {
                local_user_id,
                remote_deadlines: Map::empty(),
                local_speaking: false,
            }),
            tracker@.wf(),
    {
        VoiceSpeakingTracker {
            local_user_id,
            remote_deadlines: HashMap::new(),
            local_speaking: false,
        }
    }

    /// Notes somebody else's activity at `now`, and says what changed. Packets of the local
    /// user that come back are not looked at.
    pub fn record_remote(&mut self, user_id: UserId, speaking: bool, now: MonotonicTime) -> (edge:
        Option<bool>)
        requires
            speaking && user_id != old(self)@.local_user_id ==> now.nanos
                + VOICE_REMOTE_SPEAKING_TTL_MILLIS * NANOS_PER_MILLI <= u64::MAX,
        ensures
            final(self)@ == old(self)@.after_remote(user_id, speaking, now),
            edge == old(self)@.remote_edge(user_id, speaking),
            old(self)@.wf() ==> final(self)@.wf(),
    {
        broadcast use group_hash_axioms;

        if user_id == self.local_user_id {
            return None;
        }
        if speaking {
            let was_active = self.remote_deadlines.contains_key(&user_id.value);
            let deadline = MonotonicTime {
                nanos: now.nanos + VOICE_REMOTE_SPEAKING_TTL_MILLIS * NANOS_PER_MILLI,
            };
            self.remote_deadlines.insert(user_id.value, deadline);
            return if was_active {
                None
            } else {
                Some(true)
            };
        }
        let ghost before = self.remote_deadlines@;
        let removed = self.remote_deadlines.remove(&user_id.value);
        assert(self.remote_deadlines@ =~= before.remove(user_id.value));
        if removed.is_some() {
            Some(false)
        } else {
            None
        }
    }

    /// Notes the local user's activity, and says what changed.
    pub fn record_local(&mut self, speaking: bool) -> (edge: Option<bool>)
        ensures
            final(self)@ == (TrackerView { local_speaking: speaking, ..old(self)@ }),
            edge == if old(self)@.local_speaking == speaking {
                None
            } else {
                Some(speaking)
            },
    {
        if self.local_speaking == speaking {
            return None;
        }
        self.local_speaking = speaking;
        Some(speaking)
    }

    /// Forgets the others whose deadline has come, and names them in some order.
    pub fn expire_remote(&mut self, now: MonotonicTime) -> (expired: Vec<UserId>)
        ensures
            lists_users(expired@, old(self)@.expired(now)),
            final(self)@ == (TrackerView {
                remote_deadlines: old(self)@.remote_deadlines.remove_keys(old(self)@.expired(now)),
                ..old(self)@
            }),
            old(self)@.wf() ==> final(self)@.wf(),
    {
        broadcast use group_hash_axioms;

        let expired = due_users(&self.remote_deadlines, now);
        let ghost before = self.remote_deadlines@;
        let mut i: usize = 0;
        while i < expired.len()
            invariant
                i <= expired.len(),
                lists_users(expired@, old(self)@.expired(now)),
                before == old(self)@.remote_deadlines,
                self.local_user_id == old(self).local_user_id,
                self.local_speaking == old(self).local_speaking,
                forall|id: u64| #[trigger]
                    self.remote_deadlines@.contains_key(id) <==> before.contains_key(id) && !(
                    exists|j: int| 0 <= j < i && (#[trigger] expired@[j]).value == id),
                forall|id: u64| #[trigger]
                    self.remote_deadlines@.contains_key(id) ==> self.remote_deadlines@[id]
                        == before[id],
            decreases expired.len() - i,
        {
            let ghost shrinking = self.remote_deadlines@;
            self.remote_deadlines.remove(&expired[i].value);
            assert(self.remote_deadlines@ =~= shrinking.remove(expired@[i as int].value));
            i += 1;
        }
        proof {
            let gone = old(self)@.expired(now);
            assert forall|id: u64| #[trigger] self.remote_deadlines@.contains_key(id) <==> (
            before.contains_key(id) && !gone.contains(id)) by {
                let user = UserId { value: id };
                assert(expired@.contains(user) <==> gone.contains(id));
                if gone.contains(id) {
                    let j = choose|j: int| 0 <= j < expired@.len() && expired@[j] == user;
                    assert(expired@[j].value == id);
                }
                if exists|j: int| 0 <= j < expired@.len() && (#[trigger] expired@[j]).value == id {
                    let j = choose|j: int|
                        0 <= j < expired@.len() && (#[trigger] expired@[j]).value == id;
                    assert(expired@[j] == user);
                }
            }
            assert(self.remote_deadlines@ =~= before.remove_keys(gone));
        }
        expired
    }

    /// Forgets everybody who is speaking, and names them in some order, the local user last.
    pub fn clear_all(&mut self) -> (cleared: Vec<UserId>)
        ensures
            lists_users(cleared@, old(self)@.speakers()),
            final(self)@ == (TrackerView {
                remote_deadlines: Map::empty(),
                local_speaking: false,
                ..old(self)@
            }),
            old(self)@.wf() && old(self)@.local_speaking ==> cleared@.last() == old(
                self,
            )@.local_user_id,
            final(self)@.wf(),
    {
        broadcast use group_hash_axioms;

        let mut cleared = all_users(&self.remote_deadlines);
        let ghost others = cleared@;
        self.remote_deadlines.clear();
        if self.local_speaking {
            self.local_speaking = false;
            if !contains_user(cleared.as_slice(), self.local_user_id) {
                cleared.push(self.local_user_id);
                proof {
                    assert forall|id: UserId| #[trigger] cleared@.contains(id) <==> (
                    others.contains(id) || id == self.local_user_id) by {
                        if others.contains(id) {
                            let i = choose|i: int| 0 <= i < others.len() && others[i] == id;
                            assert(cleared@[i] == id);
                        }
                        if id == self.local_user_id {
                            assert(cleared@[cleared@.len() - 1] == id);
                        }
                    }
                }
            }
            assert forall|id: UserId| old(self)@.speakers().contains(id.value) <==> (
            old(self)@.remote_deadlines.dom().contains(id.value) || id == self.local_user_id) by {}
            assert(others.contains(self.local_user_id) <==> old(
                self,
            )@.remote_deadlines.dom().contains(self.local_user_id.value));
        }
        cleared
    }
}

fn contains_user(users: &[UserId], user_id: UserId) -> (found: bool)
    ensures
        found == users@.contains(user_id),
{
    let mut i: usize = 0;
    while i < users.len()
        invariant
            i <= users.len(),
            forall|j: int| 0 <= j < i ==> users@[j] != user_id,
        decreases users.len() - i,
    {
        if users[i] == user_id {
            return true;
        }
        i += 1;
    }
    false
}

/// Whether one of the first `n` entries is the user's, with a deadline that has come.
spec fn due_among(
    pairs: Seq<(&u64, &MonotonicTime)>,
    n: int,
    now: MonotonicTime,
    user_id: u64,
) -> bool {
    exists|i: int|
        0 <= i < n && *(#[trigger] pairs[i]).0 == user_id && pairs[i].1.nanos <= now.nanos
}

/// The users whose deadline has come at `now`, in some order.
fn due_users(deadlines: &HashMap<u64, MonotonicTime>, now: MonotonicTime) -> (due: Vec<UserId>)
    ensures
        lists_users(
            due@,
            Set::new(|id: u64| deadlines@.contains_key(id) && deadlines@[id].nanos <= now.nanos),
        ),
{
    broadcast use group_hash_axioms;

    let mut due: Vec<UserId> = Vec::new();
    for pair in it: deadlines.iter()
        invariant
            it.seq() == deadlines.iter().remaining(),
            it.seq().no_duplicates(),
            forall|i: int|
                0 <= i < it.seq().len() ==> deadlines@.contains_key(*(#[trigger] it.seq()[i]).0)
                    && deadlines@[*it.seq()[i].0] == *it.seq()[i].1,
            due@.no_duplicates(),
            forall|i: int|
                0 <= i < it.index() && (#[trigger] it.seq()[i]).1.nanos <= now.nanos
                    ==> due@.contains(UserId { value: *it.seq()[i].0 }),
            forall|j: int|
                0 <= j < due@.len() ==> due_among(
                    it.seq(),
                    it.index(),
                    now,
                    (#[trigger] due@[j]).value,
                ),
    {
        let ghost before = due@;
        proof {
            assert forall|j: int| 0 <= j < before.len() implies due_among(
                it.seq(),
                it.index() + 1,
                now,
                (#[trigger] before[j]).value,
            ) by {
                assert(due_among(it.seq(), it.index(), now, before[j].value));
                let i = choose|i: int|
                    0 <= i < it.index() && *(#[trigger] it.seq()[i]).0 == before[j].value
                        && it.seq()[i].1.nanos <= now.nanos;
                assert(*it.seq()[i].0 == before[j].value);
            }
        }
        if pair.1.nanos <= now.nanos {
            due.push(UserId::new(*pair.0));
            proof {
                assert forall|id: UserId| before.contains(id) implies due@.contains(id) by {
                    let j = choose|j: int| 0 <= j < before.len() && before[j] == id;
                    assert(due@[j] == id);
                }
                assert(*it.seq()[it.index()].0 == due@[due@.len() - 1].value);
                assert(due_among(it.seq(), it.index() + 1, now, due@[due@.len() - 1].value));
                assert forall|j: int| 0 <= j < before.len() implies (#[trigger] due@[j]).value
                    != *pair.0 by {
                    assert(due@[j] == before[j]);
                    assert(due_among(it.seq(), it.index(), now, before[j].value));
                    let i = choose|i: int|
                        0 <= i < it.index() && *(#[trigger] it.seq()[i]).0 == before[j].value
                            && it.seq()[i].1.nanos <= now.nanos;
                    assert(it.seq()[i] != it.seq()[it.index()]);
                }
            }
        }
    }
    proof {
        let pairs = deadlines.iter().remaining();
        let users = Set::new(
            |id: u64| deadlines@.contains_key(id) && deadlines@[id].nanos <= now.nanos,
        );
        assert forall|id: UserId| #[trigger] due@.contains(id) <==> users.contains(id.value) by {
            if due@.contains(id) {
                let j = choose|j: int| 0 <= j < due@.len() && due@[j] == id;
                assert(due_among(pairs, pairs.len() as int, now, due@[j].value));
            }
            if users.contains(id.value) {
                assert(pairs.contains((&id.value, &deadlines@[id.value])));
                let i = choose|i: int|
                    0 <= i < pairs.len() && pairs[i] == (&id.value, &deadlines@[id.value]);
                assert(pairs[i].1.nanos <= now.nanos);
            }
        }
    }
    due
}

/// The users with a deadline, in some order.
fn all_users(deadlines: &HashMap<u64, MonotonicTime>) -> (users: Vec<UserId>)
    ensures
        lists_users(users@, deadlines@.dom()),
{
    let users = due_users(deadlines, MonotonicTime { nanos: u64::MAX });
    assert(Set::new(
        |id: u64| deadlines@.contains_key(id) && deadlines@[id].nanos <= u64::MAX,
    ) =~= deadlines@.dom());
    users
}

/// Activity of the local user never changes what is known of the others, nor the other way
/// round.
pub proof fn law_local_and_remote_are_separate(
    tracker: TrackerView,
    user_id: UserId,
    speaking: bool,
    now: MonotonicTime,
)
    ensures
        tracker.after_remote(user_id, speaking, now).local_speaking == tracker.local_speaking,
        tracker.after_remote(tracker.local_user_id, speaking, now) == tracker,
        tracker.remote_edge(tracker.local_user_id, speaking) is None,
{
}

/// Activity that changes nothing is not reported, and a change is reported once.
pub proof fn law_only_edges_are_reported(
    tracker: TrackerView,
    user_id: UserId,
    speaking: bool,
    now: MonotonicTime,
)
    ensures
        tracker.after_remote(user_id, speaking, now).remote_edge(user_id, speaking) is None,
{
}

/// Somebody who was heard is not given up before their deadline, and is at it.
pub proof fn law_speaker_expires_at_deadline(
    tracker: TrackerView,
    user_id: UserId,
    heard: MonotonicTime,
    now: MonotonicTime,
)
    requires
        user_id != tracker.local_user_id,
        heard.nanos + VOICE_REMOTE_SPEAKING_TTL_MILLIS * NANOS_PER_MILLI <= u64::MAX,
    ensures
        tracker.after_remote(user_id, true, heard).expired(now).contains(user_id.value) <==>
            now.nanos >= heard.nanos + VOICE_REMOTE_SPEAKING_TTL_MILLIS * NANOS_PER_MILLI,
{
}

} // verus!
