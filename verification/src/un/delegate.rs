//! The senders that wait for users' responses, keyed by the identifier of
//! the notification request they wait on.
//!
//! A caller that wants to know what the user did registers a sender under
//! the request's identifier; when the notification center reports a
//! response, the sender registered for that request is taken out and handed
//! the response.  Responses to requests nobody waits on are dropped.

use vstd::prelude::*;

use super::response::NotificationResponse;
use crate::text::text_eq;

verus! {

/// The pending senders, each under the identifier of its request.
pub struct PendingResponses<S> {
    entries: Vec<(String, S)>,
}

impl<S> PendingResponses<S> {
    spec fn key(self, i: int) -> Seq<char> {
        self.entries@[i].0@
    }

    spec fn has(self, k: Seq<char>) -> bool {
        exists|i: int| 0 <= i < self.entries@.len() && #[trigger] self.key(i) == k
    }

    spec fn index_of(self, k: Seq<char>) -> int {
        choose|i: int| 0 <= i < self.entries@.len() && #[trigger] self.key(i) == k
    }

    /// No identifier has two senders.
    #[verifier::type_invariant]
    spec fn wf(self) -> bool {
        forall|i: int, j: int|
            0 <= i < j < self.entries@.len() ==> #[trigger] self.key(i) != #[trigger] self.key(j)
    }
}

impl<S> View for PendingResponses<S> {
    type V = Map<Seq<char>, S>;

    closed spec fn view(&self) -> Map<Seq<char>, S> {
        Map::new(|k: Seq<char>| self.has(k), |k: Seq<char>| self.entries@[self.index_of(k)].1)
    }
}

impl<S> PendingResponses<S> {
    proof fn lemma_index_of(self, k: Seq<char>, i: int)
        requires
            self.wf(),
            0 <= i < self.entries@.len(),
            self.key(i) == k,
        ensures
            self.has(k),
            self.index_of(k) == i,
    {
        let j = self.index_of(k);
        assert(self.key(j) == k);
        if j < i {
            assert(self.key(j) != self.key(i));
        } else if j > i {
            assert(self.key(i) != self.key(j));
        }
    }

    proof fn lemma_remove(self, next: Self, i: int)
        requires
            self.wf(),
            0 <= i < self.entries@.len(),
            next.entries@ == self.entries@.remove(i),
        ensures
            next.wf(),
            next@ == self@.remove(self.key(i)),
    {
        let k0 = self.key(i);
        assert forall|a: int, b: int| 0 <= a < b < next.entries@.len() implies #[trigger] next.key(
            a,
        ) != #[trigger] next.key(b) by {
            let oa = if a < i {
                a
            } else {
                a + 1
            };
            let ob = if b < i {
                b
            } else {
                b + 1
            };
            assert(next.key(a) == self.key(oa));
            assert(next.key(b) == self.key(ob));
            assert(self.key(oa) != self.key(ob));
        }
        assert forall|k: Seq<char>| #[trigger] next.has(k) == (self.has(k) && k != k0) by {
            if next.has(k) {
                let j = choose|j: int| 0 <= j < next.entries@.len() && #[trigger] next.key(j) == k;
                let o = if j < i {
                    j
                } else {
                    j + 1
                };
                assert(self.key(o) == k);
                if k == k0 {
                    if o < i {
                        assert(self.key(o) != self.key(i));
                    } else {
                        assert(self.key(i) != self.key(o));
                    }
                }
            }
            if self.has(k) && k != k0 {
                let o = choose|o: int| 0 <= o < self.entries@.len() && #[trigger] self.key(o) == k;
                let j = if o < i {
                    o
                } else {
                    o - 1
                };
                assert(next.key(j) == k);
            }
        }
        assert forall|k: Seq<char>| #[trigger] next.has(k) implies next@[k] == self@[k] by {
            let j = next.index_of(k);
            assert(next.key(j) == k);
            next.lemma_index_of(k, j);
            let o = if j < i {
                j
            } else {
                j + 1
            };
            assert(self.key(o) == k);
            self.lemma_index_of(k, o);
        }
        assert(next@ =~= self@.remove(k0));
    }

    proof fn lemma_push(self, next: Self, k: Seq<char>, tx: S)
        requires
            self.wf(),
            !self.has(k),
            next.entries@.len() == self.entries@.len() + 1,
            next.entries@.drop_last() == self.entries@,
            next.entries@.last().0@ == k,
            next.entries@.last().1 == tx,
        ensures
            next.wf(),
            next@ == self@.insert(k, tx),
    {
        let n = self.entries@.len() as int;
        assert forall|j: int| 0 <= j < n implies #[trigger] next.key(j) == self.key(j) by {
            assert(next.entries@[j] == next.entries@.drop_last()[j]);
        }
        assert forall|a: int, b: int| 0 <= a < b < next.entries@.len() implies #[trigger] next.key(
            a,
        ) != #[trigger] next.key(b) by {
            assert(next.key(a) == self.key(a));
            if b < n {
                assert(next.key(b) == self.key(b));
            }
        }
        assert forall|q: Seq<char>| #[trigger] next.has(q) == (self.has(q) || q == k) by {
            if next.has(q) {
                let j = choose|j: int| 0 <= j < next.entries@.len() && #[trigger] next.key(j) == q;
                if j < n {
                    assert(self.key(j) == q);
                }
            }
            if self.has(q) {
                let o = choose|o: int| 0 <= o < n && #[trigger] self.key(o) == q;
                assert(next.key(o) == q);
            }
            if q == k {
                assert(next.key(n) == q);
            }
        }
        assert forall|q: Seq<char>| #[trigger] next.has(q) implies next@[q] == self@.insert(
            k,
            tx,
        )[q] by {
            if q == k {
                next.lemma_index_of(q, n);
            } else {
                let o = self.index_of(q);
                assert(self.key(o) == q);
                self.lemma_index_of(q, o);
                next.lemma_index_of(q, o);
                assert(next.entries@[o] == next.entries@.drop_last()[o]);
            }
        }
        assert(next@ =~= self@.insert(k, tx));
    }

    /// No sender is pending.
    pub fn new() -> (r: Self)
        ensures
            r@ == Map::<Seq<char>, S>::empty(),
    {
        let r = PendingResponses { entries: Vec::new() };
        proof {
            assert(r@ =~= Map::<Seq<char>, S>::empty());
        }
        r
    }

    /// Take the entries out, leaving none behind.
    fn take_entries(&mut self) -> (entries: Vec<(String, S)>)
        ensures
            (PendingResponses { entries }).wf(),
            (PendingResponses { entries }) == *old(self),
    {
        proof {
            use_type_invariant(&*self);
        }
        let mut entries: Vec<(String, S)> = Vec::new();
        std::mem::swap(&mut entries, &mut self.entries);
        entries
    }
}

fn find<S>(entries: &Vec<(String, S)>, request_id: &str) -> (r: Option<usize>)
    requires
        (PendingResponses { entries: *entries }).wf(),
    ensures
        match r {
            Some(i) => i < entries@.len() && (PendingResponses { entries: *entries }).key(i as int)
                == request_id@,
            None => !(PendingResponses { entries: *entries }).has(request_id@),
        },
{
    let ghost this = PendingResponses { entries: *entries };
    let mut i: usize = 0;
    while i < entries.len()
        invariant
            this == (PendingResponses { entries: *entries }),
            i <= entries@.len(),
            forall|j: int| 0 <= j < i ==> #[trigger] this.key(j) != request_id@,
        decreases entries@.len() - i,
    {
        if text_eq(entries[i].0.as_str(), request_id) {
            return Some(i);
        }
        i = i + 1;
    }
    None
}

/// The pending senders after registering `tx` for `request_id`: it replaces
/// any sender registered for that request before.
pub open spec fn with_sender<S>(pending: Map<Seq<char>, S>, request_id: Seq<char>, tx: S) -> Map<
    Seq<char>,
    S,
> {
    pending.insert(request_id, tx)
}

/// The pending senders after the one for `request_id` was taken out.
pub open spec fn without_sender<S>(pending: Map<Seq<char>, S>, request_id: Seq<char>) -> Map<
    Seq<char>,
    S,
> {
    pending.remove(request_id)
}

/// The sender waiting on `request_id`, if any.
pub open spec fn sender_for<S>(pending: Map<Seq<char>, S>, request_id: Seq<char>) -> Option<S> {
    if pending.dom().contains(request_id) {
        Some(pending[request_id])
    } else {
        None
    }
}

impl<S> PendingResponses<S> {
    /// Register the sender waiting for the response to `request_id`; a
    /// sender registered before under the same identifier is dropped.
    pub fn register(&mut self, request_id: String, tx: S)
        ensures
            final(self)@ == with_sender(old(self)@, request_id@, tx),
    {
        let ghost id = request_id@;
        let mut entries = self.take_entries();
        let ghost before = PendingResponses { entries };
        match find(&entries, request_id.as_str()) {
            Some(i) => {
                let _ = entries.remove(i);
                let ghost middle = PendingResponses { entries };
                proof {
                    before.lemma_remove(middle, i as int);
                }
                entries.push((request_id, tx));
                proof {
                    let after = PendingResponses { entries };
                    assert(!middle@.dom().contains(id));
                    assert(!middle.has(id));
                    assert(after.entries@.drop_last() =~= middle.entries@);
                    middle.lemma_push(after, id, tx);
                    assert(after@ =~= before@.insert(id, tx));
                }
            },
            None => {
                entries.push((request_id, tx));
                proof {
                    let after = PendingResponses { entries };
                    assert(after.entries@.drop_last() =~= before.entries@);
                    before.lemma_push(after, id, tx);
                }
            },
        }
        self.entries = entries;
    }

    /// Remove the sender waiting on `request_id`, if any, and hand it back.
    pub fn deregister(&mut self, request_id: &str) -> (removed: Option<S>)
        ensures
            final(self)@ == without_sender(old(self)@, request_id@),
            removed == sender_for(old(self)@, request_id@),
    {
        let mut entries = self.take_entries();
        let ghost before = PendingResponses { entries };
        match find(&entries, request_id) {
            Some(i) => {
                proof {
                    before.lemma_index_of(request_id@, i as int);
                }
                let (_, tx) = entries.remove(i);
                proof {
                    before.lemma_remove(PendingResponses { entries }, i as int);
                }
                self.entries = entries;
                Some(tx)
            },
            None => {
                proof {
                    assert(before@.remove(request_id@) =~= before@);
                }
                self.entries = entries;
                None
            },
        }
    }

    /// A response to `request_id` arrived: take out the sender waiting on
    /// it, if any, together with the response it is to receive.
    pub fn respond(
        &mut self,
        request_id: &str,
        action_identifier: String,
        reply_text: Option<String>,
    ) -> (r: Option<(S, NotificationResponse)>)
        ensures
            final(self)@ == without_sender(old(self)@, request_id@),
            r is Some == sender_for(old(self)@, request_id@) is Some,
            r matches Some((tx, response)) ==> sender_for(old(self)@, request_id@) == Some(tx)
                && response == (NotificationResponse { action_identifier, reply_text }),
    {
        match self.deregister(request_id) {
            Some(tx) => Some((tx, NotificationResponse { action_identifier, reply_text })),
            None => None,
        }
    }
}

/// A response reaches the sender registered for its request.
pub proof fn law_registered_sender_gets_the_response<S>(
    pending: Map<Seq<char>, S>,
    request_id: Seq<char>,
    tx: S,
)
    ensures
        sender_for(with_sender(pending, request_id, tx), request_id) == Some(tx),
{
}

/// A response is handed out only once: once the sender for a request was
/// taken out (by a response, or by deregistering it), a later response to
/// that request finds no sender.
pub proof fn law_sender_taken_out_once<S>(pending: Map<Seq<char>, S>, request_id: Seq<char>)
    ensures
        sender_for(without_sender(pending, request_id), request_id) is None,
{
}

/// Registering, responding and deregistering for one request leave the
/// senders of every other request as they were.
pub proof fn law_other_requests_unaffected<S>(
    pending: Map<Seq<char>, S>,
    request_id: Seq<char>,
    tx: S,
    other: Seq<char>,
)
    requires
        other != request_id,
    ensures
        sender_for(with_sender(pending, request_id, tx), other) == sender_for(pending, other),
        sender_for(without_sender(pending, request_id), other) == sender_for(pending, other),
{
}

/// Registering again for the same request replaces the earlier sender.
pub proof fn law_register_again_replaces<S>(
    pending: Map<Seq<char>, S>,
    request_id: Seq<char>,
    first: S,
    second: S,
)
    ensures
        with_sender(with_sender(pending, request_id, first), request_id, second) == with_sender(
            pending,
            request_id,
            second,
        ),
{
    assert(with_sender(with_sender(pending, request_id, first), request_id, second) =~= with_sender(
        pending,
        request_id,
        second,
    ));
}

} // verus!
