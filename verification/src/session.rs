//! Chat sessions and their registry.
//!
//! The store is the only shared mutable structure of the pipeline; the
//! surrounding server guards it with a reader/writer lock and releases the
//! lock before running a turn, so two racing turns on one session fall back
//! to last-writer-wins on the continuation state. That race is a documented
//! limitation of the design, not something this module relies on.

use std::collections::HashMap;

use vstd::prelude::*;

use crate::ids::fresh_uuid;

verus! {

broadcast use vstd::std_specs::hash::group_hash_axioms;

/// One conversational thread: its identifier and the opaque continuation
/// state of the generation backend, empty before the first completed turn.
#[derive(Debug)]
pub struct ChatSession {
    pub id: u128,
    pub continuation: Vec<i64>,
}

/// Registry mapping a session identifier to its session.
pub struct SessionStore {
    sessions: HashMap<u128, ChatSession>,
}

impl View for SessionStore {
    type V = Map<u128, ChatSession>;

    closed spec fn view(&self) -> Map<u128, ChatSession> {
        self.sessions@
    }
}

impl SessionStore {
    /// Every session is filed under its own identifier.
    pub open spec fn wf(&self) -> bool {
        forall|k: u128| self@.contains_key(k) ==> (#[trigger] self@[k]).id == k
    }

    /// An empty registry.
    pub fn new() -> (r: SessionStore)
        ensures
            r@ == Map::<u128, ChatSession>::empty(),
            r.wf(),
    {
        SessionStore { sessions: HashMap::new() }
    }

    /// Creates a session under a freshly drawn random identifier and returns
    /// that identifier; its continuation state starts empty. A drawn
    /// identifier that collides with an existing one replaces that session,
    /// as a map insert does.
    pub fn create(&mut self) -> (id: u128)
        requires
            old(self).wf(),
        ensures
            final(self).wf(),
            final(self)@.contains_key(id),
            final(self)@[id].id == id,
            final(self)@[id].continuation@ == Seq::<i64>::empty(),
            final(self)@ == old(self)@.insert(id, final(self)@[id]),
    {
        let id = fresh_uuid();
        self.sessions.insert(id, ChatSession { id, continuation: Vec::new() });
        proof {
            assert forall|k: u128| self@.contains_key(k) implies (#[trigger] self@[k]).id
                == k by {
                if k != id {
                    assert(old(self)@.contains_key(k));
                    assert(self@[k] == old(self)@[k]);
                }
            }
        }
        id
    }

    /// Whether a session with this identifier exists.
    pub fn contains(&self, id: u128) -> (r: bool)
        ensures
            r == self@.contains_key(id),
    {
        self.sessions.contains_key(&id)
    }

    /// The continuation state of session `id`, or `None` where no such
    /// session exists.
    pub fn continuation_of(&self, id: u128) -> (r: Option<Vec<i64>>)
        ensures
            match r {
                Some(c) => self@.contains_key(id) && c@ == self@[id].continuation@,
                None => !self@.contains_key(id),
            },
    {
        match self.sessions.get(&id) {
            Some(s) => {
                let mut out: Vec<i64> = Vec::new();
                let mut j: usize = 0;
                while j < s.continuation.len()
                    invariant
                        j <= s.continuation@.len(),
                        out@ == s.continuation@.take(j as int),
                    decreases s.continuation@.len() - j,
                {
                    out.push(s.continuation[j]);
                    proof {
                        assert(out@ =~= s.continuation@.take(j + 1 as int));
                    }
                    j = j + 1;
                }
                proof {
                    assert(s.continuation@.take(s.continuation@.len() as int)
                        =~= s.continuation@);
                }
                Some(out)
            },
            None => None,
        }
    }

    /// Overwrites the continuation state of session `id` with `c`; where no
    /// such session exists, reports failure and leaves the store unchanged.
    pub fn set_continuation(&mut self, id: u128, c: Vec<i64>) -> (ok: bool)
        requires
            old(self).wf(),
        ensures
            final(self).wf(),
            ok == old(self)@.contains_key(id),
            ok ==> final(self)@.contains_key(id) && final(self)@[id].id == id && final(self)@[id].continuation
                == c && final(self)@ == old(self)@.insert(id, final(self)@[id]),
            !ok ==> final(self)@ == old(self)@,
    {
        if self.sessions.contains_key(&id) {
            self.sessions.insert(id, ChatSession { id, continuation: c });
            proof {
                assert forall|k: u128| self@.contains_key(k) implies (#[trigger] self@[k]).id
                    == k by {
                    if k != id {
                        assert(old(self)@.contains_key(k));
                        assert(self@[k] == old(self)@[k]);
                    }
                }
            }
            true
        } else {
            false
        }
    }
}

} // verus!
