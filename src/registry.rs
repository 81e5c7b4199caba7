//! A registry of handlers, keyed by emitter address and event name.
use vstd::prelude::*;

verus! {

/// The key under which a handler is registered: emitter address, event name.
pub type HandlerKey = (Seq<char>, Seq<char>);

/// One registration: the key's two parts and the handler bound to them.
pub struct RegistryEntry<H> {
    pub emitter_key: String,
    pub event_name: String,
    pub handler: H,
}

impl<H> RegistryEntry<H> {
    pub open spec fn key(&self) -> HandlerKey {
        (self.emitter_key@, self.event_name@)
    }
}

/// Maps `(emitter address, event name)` to at most one handler.
///
/// The registry is generic over the handler type, so a caller can only ever
/// get back handlers of the type it registered.
pub struct HandlerRegistry<H> {
    entries: Vec<RegistryEntry<H>>,
    contents: Ghost<Map<HandlerKey, H>>,
}

impl<H> View for HandlerRegistry<H> {
    type V = Map<HandlerKey, H>;

    closed spec fn view(&self) -> Map<HandlerKey, H> {
        self.contents@
    }
}

impl<H> HandlerRegistry<H> {
    /// Each key is stored once, and the stored entries are exactly the map.
    pub closed spec fn wf(&self) -> bool {
        &&& forall|i: int, j: int|
            0 <= i < j < self.entries@.len() ==> self.entries@[i].key() != self.entries@[j].key()
        &&& forall|i: int|
            0 <= i < self.entries@.len() ==> {
                &&& self.contents@.contains_key(#[trigger] self.entries@[i].key())
                &&& self.contents@[self.entries@[i].key()] == self.entries@[i].handler
            }
        &&& forall|k: HandlerKey|
            #[trigger] self.contents@.contains_key(k) ==> exists|i: int|
                0 <= i < self.entries@.len() && self.entries@[i].key() == k
    }

    /// An empty registry.
    pub fn new() -> (r: Self)
        ensures
            r.wf(),
            r@ == Map::<HandlerKey, H>::empty(),
    {
        HandlerRegistry { entries: Vec::new(), contents: Ghost(Map::empty()) }
    }

    /// The position of the entry under `(emitter_key, event_name)`, if any.
    fn find(&self, emitter_key: &String, event_name: &String) -> (r: Option<usize>)
        requires
            self.wf(),
        ensures
            match r {
                Some(i) => i < self.entries@.len() && self.entries@[i as int].key() == (
                emitter_key@,
                event_name@,
                ),
                None => !self@.contains_key((emitter_key@, event_name@)),
            },
    {
        let mut i: usize = 0;
        while i < self.entries.len()
            invariant
                self.wf(),
                i <= self.entries@.len(),
                forall|j: int|
                    0 <= j < i ==> self.entries@[j].key() != (emitter_key@, event_name@),
            decreases self.entries@.len() - i,
        {
            let entry = &self.entries[i];
            if entry.emitter_key == *emitter_key && entry.event_name == *event_name {
                return Some(i);
            }
            i = i + 1;
        }
        None
    }

    /// Whether a handler is registered under `(emitter_key, event_name)`.
    pub fn handler_exists(&self, emitter_key: &String, event_name: &String) -> (r: bool)
        requires
            self.wf(),
        ensures
            r == self@.contains_key((emitter_key@, event_name@)),
    {
        match self.find(emitter_key, event_name) {
            Some(_) => true,
            None => false,
        }
    }

    /// The handler registered under `(emitter_key, event_name)`, if any.
    pub fn get_handler(&self, emitter_key: &String, event_name: &String) -> (r: Option<&H>)
        requires
            self.wf(),
        ensures
            match r {
                Some(h) => self@.contains_key((emitter_key@, event_name@)) && *h == self@[(
                emitter_key@,
                event_name@,
                )],
                None => !self@.contains_key((emitter_key@, event_name@)),
            },
    {
        match self.find(emitter_key, event_name) {
            Some(i) => Some(&self.entries[i].handler),
            None => None,
        }
    }
    /// Takes the entry at `i` out of the store; the others stay, in some order.
    fn take_entry(&mut self, i: usize) -> (r: RegistryEntry<H>)
        requires
            old(self).wf(),
            i < old(self).entries@.len(),
        ensures
            final(self).wf(),
            r == old(self).entries@[i as int],
            final(self)@ == old(self)@.remove(r.key()),
    {
        let ghost k = self.entries@[i as int].key();
        let ghost before = self.entries@;
        let r = self.entries.swap_remove(i);
        self.contents = Ghost(self.contents@.remove(k));
        proof {
            let last = before.len() - 1;
            assert forall|j: int| 0 <= j < self.entries@.len() implies {
                &&& self.contents@.contains_key(#[trigger] self.entries@[j].key())
                &&& self.contents@[self.entries@[j].key()] == self.entries@[j].handler
            } by {
                if j == i {
                    assert(self.entries@[j] == before[last]);
                } else {
                    assert(self.entries@[j] == before[j]);
                }
            }
            assert forall|kk: HandlerKey| #[trigger] self.contents@.contains_key(kk) implies exists|
                j: int,
            | 0 <= j < self.entries@.len() && self.entries@[j].key() == kk by {
                let j0 = choose|j: int| 0 <= j < before.len() && before[j].key() == kk;
                if j0 == last {
                    assert(self.entries@[i as int].key() == kk);
                } else {
                    assert(self.entries@[j0].key() == kk);
                }
            }
            assert forall|a: int, b: int| 0 <= a < b < self.entries@.len() implies self.entries@[a].key()
                != self.entries@[b].key() by {
                let oa = if a == i { last } else { a };
                let ob = if b == i { last } else { b };
                assert(self.entries@[a] == before[oa]);
                assert(self.entries@[b] == before[ob]);
            }
        }
        r
    }

    /// Binds `handler` to `(emitter_key, event_name)`. A handler that was
    /// bound to the same key before is replaced: the last registration wins.
    pub fn register(&mut self, emitter_key: String, event_name: String, handler: H)
        requires
            old(self).wf(),
        ensures
            final(self).wf(),
            final(self)@ == old(self)@.insert((emitter_key@, event_name@), handler),
    {
        let ghost k = (emitter_key@, event_name@);
        if let Some(i) = self.find(&emitter_key, &event_name) {
            let _ = self.take_entry(i);
        }
        let ghost before = self.entries@;
        let ghost m = self.contents@;
        self.entries.push(RegistryEntry { emitter_key, event_name, handler });
        self.contents = Ghost(m.insert(k, handler));
        proof {
            assert(!m.contains_key(k));
            assert forall|j: int| 0 <= j < self.entries@.len() implies {
                &&& self.contents@.contains_key(#[trigger] self.entries@[j].key())
                &&& self.contents@[self.entries@[j].key()] == self.entries@[j].handler
            } by {
                if j < before.len() {
                    assert(self.entries@[j] == before[j]);
                }
            }
            assert forall|kk: HandlerKey| #[trigger] self.contents@.contains_key(kk) implies exists|
                j: int,
            | 0 <= j < self.entries@.len() && self.entries@[j].key() == kk by {
                if kk == k {
                    assert(self.entries@[before.len() as int].key() == kk);
                } else {
                    assert(m.contains_key(kk));
                    let j0 = choose|j: int| 0 <= j < before.len() && before[j].key() == kk;
                    assert(self.entries@[j0] == before[j0]);
                }
            }
            assert forall|a: int, b: int| 0 <= a < b < self.entries@.len() implies self.entries@[a].key()
                != self.entries@[b].key() by {
                assert(self.entries@[a] == before[a]);
                if b < before.len() {
                    assert(self.entries@[b] == before[b]);
                } else {
                    assert(m.contains_key(before[a].key()));
                }
            }
            assert(self.contents@ =~= old(self)@.insert(k, handler));
        }
    }

    /// Removes the handler bound to `(emitter_key, event_name)` and returns it,
    /// if there was one.
    pub fn remove(&mut self, emitter_key: &String, event_name: &String) -> (r: Option<H>)
        requires
            old(self).wf(),
        ensures
            final(self).wf(),
            final(self)@ == old(self)@.remove((emitter_key@, event_name@)),
            match r {
                Some(h) => old(self)@.contains_key((emitter_key@, event_name@)) && h == old(
                self,
                )@[(emitter_key@, event_name@)],
                None => !old(self)@.contains_key((emitter_key@, event_name@)),
            },
    {
        match self.find(emitter_key, event_name) {
            Some(i) => {
                let entry = self.take_entry(i);
                Some(entry.handler)
            },
            None => {
                proof {
                    assert(self.contents@ =~= self.contents@.remove((emitter_key@, event_name@)));
                }
                None
            },
        }
    }
}

/// Registering a handler under a key replaces whatever was bound to that
/// exact key: a lookup of the key afterwards finds the new handler, never the
/// old one, and every other key keeps its binding.
pub proof fn lemma_last_registration_wins<H>(before: Map<HandlerKey, H>, key: HandlerKey, handler: H)
    ensures
        before.insert(key, handler).contains_key(key),
        before.insert(key, handler)[key] == handler,
        forall|other: HandlerKey|
            other != key ==> (#[trigger] before.insert(key, handler).contains_key(other)
                == before.contains_key(other) && (before.contains_key(other) ==> before.insert(
                key,
                handler,
            )[other] == before[other])),
{
}

} // verus!
