//! Routing of the worker's responses back to the requests that await them.
//!
//! Each request sent to the worker leaves a responder here under its request
//! id; a response is handed to the responder with the same id, and when the
//! worker's output ends every responder still waiting is handed out to be
//! failed.
use vstd::prelude::*;
use crate::protocol::ReadyMessage;
use crate::text::{str_eq, str_to_string};

verus! {

/// Responders awaiting the worker's answer, by request id.
pub struct PendingRequests<R> {
    entries: Vec<(String, R)>,
    map: Ghost<Map<Seq<char>, R>>,
}

impl<R> View for PendingRequests<R> {
    type V = Map<Seq<char>, R>;

    closed spec fn view(&self) -> Map<Seq<char>, R> {
        self.map@
    }
}

impl<R> PendingRequests<R> {
    /// The entries hold exactly the map, one entry per id.
    pub closed spec fn wf(&self) -> bool {
        &&& forall|i: int|
            #![trigger self.entries@[i]]
            0 <= i < self.entries@.len() ==> self.map@.contains_key(self.entries@[i].0@)
                && self.map@[self.entries@[i].0@] == self.entries@[i].1
        &&& forall|k: Seq<char>|
            #[trigger] self.map@.contains_key(k) ==> exists|i: int|
                0 <= i < self.entries@.len() && self.entries@[i].0@ == k
        &&& forall|i: int, j: int|
            0 <= i < j < self.entries@.len() ==> self.entries@[i].0@ != self.entries@[j].0@
        &&& self.map@.dom().finite()
        &&& self.map@.len() == self.entries@.len()
    }

    pub fn new() -> (r: Self)
        ensures
            r.wf(),
            r@ == Map::<Seq<char>, R>::empty(),
    {
        PendingRequests { entries: Vec::new(), map: Ghost(Map::empty()) }
    }

    /// Position of the entry for `id`, if there is one.
    fn find(&self, id: &str) -> (r: Option<usize>)
        requires
            self.wf(),
        ensures
            match r {
                Some(i) => i < self.entries@.len() && self.entries@[i as int].0@ == id@,
                None => !self@.contains_key(id@),
            },
    {
        let mut i: usize = 0;
        while i < self.entries.len()
            invariant
                i <= self.entries@.len(),
                self.wf(),
                forall|j: int| 0 <= j < i ==> self.entries@[j].0@ != id@,
            decreases self.entries@.len() - i,
        {
            if str_eq(self.entries[i].0.as_str(), id) {
                return Some(i);
            }
            i = i + 1;
        }
        None
    }

    /// Remove the entry at `i`; the last entry takes its place.
    fn take_at(&mut self, i: usize) -> (r: R)
        requires
            old(self).wf(),
            i < old(self).entries@.len(),
        ensures
            final(self).wf(),
            r == old(self)@[old(self).entries@[i as int].0@],
            final(self)@ == old(self)@.remove(old(self).entries@[i as int].0@),
    {
        let ghost old_entries = self.entries@;
        let ghost key = self.entries@[i as int].0@;
        let ghost m = self.map@;
        let e = self.entries.swap_remove(i);
        self.map = Ghost(m.remove(key));
        proof {
            let ne = self.entries@;
            assert forall|a: int| 0 <= a < ne.len() implies ne[a] == old_entries[if a == i {
                old_entries.len() - 1
            } else {
                a
            }] by {}
            assert forall|a: int| 0 <= a < ne.len() implies #[trigger] ne[a].0@ != key by {
                let b = if a == i {
                    old_entries.len() - 1
                } else {
                    a
                };
                assert(ne[a] == old_entries[b]);
                assert(b != i);
            }
            assert forall|k: Seq<char>| #[trigger] self.map@.contains_key(k) implies exists|a: int|
                0 <= a < ne.len() && ne[a].0@ == k by {
                let b = choose|b: int| 0 <= b < old_entries.len() && old_entries[b].0@ == k;
                if b == old_entries.len() - 1 {
                    assert(ne[i as int] == old_entries[b]);
                } else {
                    assert(b != i);
                    assert(ne[b] == old_entries[b]);
                }
            }
            assert forall|a: int, c: int| 0 <= a < c < ne.len() implies ne[a].0@ != ne[c].0@ by {
                let ba = if a == i {
                    old_entries.len() - 1
                } else {
                    a
                };
                let bc = if c == i {
                    old_entries.len() - 1
                } else {
                    c
                };
                assert(ne[a] == old_entries[ba]);
                assert(ne[c] == old_entries[bc]);
                assert(ba != bc);
                if ba < bc {
                } else {
                }
            }
        }
        e.1
    }

    /// Register `value` as the responder for `id`; a responder already there
    /// for that id is replaced and handed back.
    pub fn insert(&mut self, id: String, value: R) -> (r: Option<R>)
        requires
            old(self).wf(),
        ensures
            final(self).wf(),
            final(self)@ == old(self)@.insert(id@, value),
            r == (if old(self)@.contains_key(id@) {
                Some(old(self)@[id@])
            } else {
                None::<R>
            }),
    {
        let found = self.find(id.as_str());
        let old_value = match found {
            Some(i) => Some(self.take_at(i)),
            None => None,
        };
        let ghost key = id@;
        let ghost v = value;
        let ghost before = self.entries@;
        let ghost m = self.map@;
        self.entries.push((id, value));
        self.map = Ghost(m.insert(key, v));
        proof {
            let ne = self.entries@;
            assert(!m.contains_key(key));
            assert forall|a: int| 0 <= a < ne.len() implies #[trigger] self.map@.contains_key(
                ne[a].0@,
            ) && self.map@[ne[a].0@] == ne[a].1 by {
                if a < before.len() {
                    assert(ne[a] == before[a]);
                    assert(before[a].0@ != key);
                }
            }
            assert forall|k: Seq<char>| #[trigger] self.map@.contains_key(k) implies exists|a: int|
                0 <= a < ne.len() && ne[a].0@ == k by {
                if k == key {
                    assert(ne[before.len() as int].0@ == k);
                } else {
                    assert(m.contains_key(k));
                    let b = choose|b: int| 0 <= b < before.len() && before[b].0@ == k;
                    assert(ne[b] == before[b]);
                }
            }
            assert forall|a: int, c: int| 0 <= a < c < ne.len() implies ne[a].0@ != ne[c].0@ by {
                if c < before.len() {
                    assert(ne[a] == before[a]);
                    assert(ne[c] == before[c]);
                } else {
                    assert(ne[a] == before[a]);
                    assert(m.contains_key(before[a].0@));
                }
            }
        }
        old_value
    }

    /// Take out the responder for `id`, if one is waiting.
    pub fn remove(&mut self, id: &str) -> (r: Option<R>)
        requires
            old(self).wf(),
        ensures
            final(self).wf(),
            final(self)@ == old(self)@.remove(id@),
            r == (if old(self)@.contains_key(id@) {
                Some(old(self)@[id@])
            } else {
                None::<R>
            }),
    {
        match self.find(id) {
            Some(i) => Some(self.take_at(i)),
            None => {
                assert(self@.remove(id@) =~= self@);
                None
            },
        }
    }

    /// Take out every responder still waiting, as many as there were,
    /// leaving none.
    pub fn drain(&mut self) -> (r: Vec<R>)
        requires
            old(self).wf(),
        ensures
            final(self).wf(),
            final(self)@ == Map::<Seq<char>, R>::empty(),
            forall|k: Seq<char>| #[trigger]
                old(self)@.contains_key(k) ==> r@.contains(old(self)@[k]),
            forall|i: int| 0 <= i < r@.len() ==> old(self)@.contains_value(#[trigger] r@[i]),
            r@.len() == old(self)@.len(),
    {
        let ghost orig = self.entries@;
        let ghost m = self.map@;
        let mut out: Vec<R> = Vec::new();
        while self.entries.len() > 0
            invariant
                old(self).wf(),
                orig == old(self).entries@,
                m == old(self).map@,
                self.entries@ == orig.take(orig.len() - out@.len()),
                out@.len() <= orig.len(),
                forall|j: int|
                    0 <= j < out@.len() ==> #[trigger] out@[j] == orig[orig.len() - 1 - j].1,
            decreases self.entries@.len(),
        {
            let e = self.entries.pop().unwrap();
            out.push(e.1);
        }
        self.map = Ghost(Map::empty());
        proof {
            assert(out@.len() == orig.len());
            assert forall|k: Seq<char>| #[trigger] m.contains_key(k) implies out@.contains(m[k]) by {
                let b = choose|b: int| 0 <= b < orig.len() && orig[b].0@ == k;
                let j = orig.len() - 1 - b;
                assert(out@[j] == orig[b].1);
            }
            assert(old(self)@ == m);
            assert forall|i: int| 0 <= i < out@.len() implies m.contains_value(#[trigger] out@[i]) by {
                let b = orig.len() - 1 - i;
                assert(out@[i] == orig[b].1);
                assert(old(self).entries@[b] == orig[b]);
                assert(m.contains_key(orig[b].0@) && m[orig[b].0@] == out@[i]);
            }
        }
        out
    }
}

/// A responder registered under an id is the one a response with that id
/// reaches, and taking it out leaves the other waiting responders as they
/// were.
pub proof fn lemma_response_reaches_its_request<R>(m: Map<Seq<char>, R>, id: Seq<char>, v: R)
    ensures
        m.insert(id, v).contains_key(id),
        m.insert(id, v)[id] == v,
        m.insert(id, v).remove(id) == m.remove(id),
{
    assert(m.insert(id, v).remove(id) =~= m.remove(id));
}

/// Why a worker could not be taken into use.
#[derive(Debug, Clone, Copy, PartialEq, Eq, Structural)]
pub enum HandshakeFailure {
    /// Its output ended before the ready message.
    Closed,
    /// Its ready message said it is not ready.
    NotReady,
}

impl HandshakeFailure {
    /// The failure's message.
    pub fn message(&self) -> (r: String)
        ensures
            r@ == (match *self {
                HandshakeFailure::Closed => "worker channel closed before response"@,
                HandshakeFailure::NotReady => "worker reported not ready"@,
            }),
    {
        match self {
            HandshakeFailure::Closed => str_to_string("worker channel closed before response"),
            HandshakeFailure::NotReady => str_to_string("worker reported not ready"),
        }
    }
}

/// The worker's first frame: its output ending first is `Closed`.
pub fn handshake_frame(frame: Option<Vec<u8>>) -> (r: Result<Vec<u8>, HandshakeFailure>)
    ensures
        match frame {
            Some(f) => r == Ok::<Vec<u8>, HandshakeFailure>(f),
            None => r == Err::<Vec<u8>, HandshakeFailure>(HandshakeFailure::Closed),
        },
{
    match frame {
        Some(f) => Ok(f),
        None => Err(HandshakeFailure::Closed),
    }
}

/// The worker's ready message is accepted only when it says it is ready.
pub fn accept_ready(ready: ReadyMessage) -> (r: Result<ReadyMessage, HandshakeFailure>)
    ensures
        ready.ready ==> r == Ok::<ReadyMessage, HandshakeFailure>(ready),
        !ready.ready ==> r == Err::<ReadyMessage, HandshakeFailure>(HandshakeFailure::NotReady),
{
    if ready.ready {
        Ok(ready)
    } else {
        Err(HandshakeFailure::NotReady)
    }
}

} // verus!
