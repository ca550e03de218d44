use vstd::prelude::*;

verus! {

/// The request to add the channel `addr` to the connected clients.
#[derive(Clone, Copy, Debug, PartialEq, Eq, Structural)]
pub struct RegisterWS {
    pub addr: u64,
}

/// The request to drop the channel `ws_addr` from the connected clients.
#[derive(Clone, Copy, Debug, PartialEq, Eq, Structural)]
pub struct DeleteWS {
    pub ws_addr: u64,
}

/// The channels `s` with `addr` among them: at the end if it is new.
pub open spec fn registered(s: Seq<u64>, addr: u64) -> Seq<u64> {
    if s.contains(addr) {
        s
    } else {
        s.push(addr)
    }
}

/// Holds of every channel but `addr`.
pub open spec fn other_than(addr: u64) -> spec_fn(u64) -> bool {
    |a: u64| a != addr
}

/// The channels `s` without `addr`.
pub open spec fn unregistered(s: Seq<u64>, addr: u64) -> Seq<u64> {
    s.filter(other_than(addr))
}

/// Keeps track of the connected clients. What is to reach all of them
/// goes through it. Each client is known by the number of its channel.
pub struct ClientPublisher {
    websockets: Vec<u64>,
}

impl View for ClientPublisher {
    type V = Seq<u64>;

    /// The channels of the connected clients, in the order in which they
    /// registered.
    closed spec fn view(&self) -> Seq<u64> {
        self.websockets@
    }
}

impl ClientPublisher {
    /// No channel is registered twice.
    pub open spec fn wf(&self) -> bool {
        self@.no_duplicates()
    }

    /// A publisher without clients.
    pub fn new() -> (publisher: ClientPublisher)
        ensures
            publisher@ == Seq::<u64>::empty(),
            publisher.wf(),
    {
        ClientPublisher { websockets: Vec::new() }
    }

    /// Whether the channel `addr` is registered.
    pub fn is_registered(&self, addr: u64) -> (r: bool)
        ensures
            r == self@.contains(addr),
    {
        let mut i: usize = 0;
        while i < self.websockets.len()
            invariant
                i <= self.websockets@.len(),
                forall|j: int| 0 <= j < i ==> self.websockets@[j] != addr,
            decreases self.websockets@.len() - i,
        {
            if self.websockets[i] == addr {
                return true;
            }
            i += 1;
        }
        false
    }

    /// Adds a client's channel. A channel that is registered already is
    /// not added again.
    pub fn handle_register(&mut self, msg: RegisterWS) -> (r: Result<(), ()>)
        ensures
            r is Ok,
            final(self)@ == registered(old(self)@, msg.addr),
            old(self).wf() ==> final(self).wf(),
    {
        if !self.is_registered(msg.addr) {
            self.websockets.push(msg.addr);
        }
        Ok(())
    }

    /// Drops a client's channel. Dropping a channel that is not
    /// registered changes nothing.
    pub fn handle_delete(&mut self, msg: DeleteWS)
        ensures
            final(self)@ == unregistered(old(self)@, msg.ws_addr),
            old(self).wf() ==> final(self).wf(),
    {
        let ghost keep = other_than(msg.ws_addr);
        let mut kept: Vec<u64> = Vec::new();
        let mut i: usize = 0;
        while i < self.websockets.len()
            invariant
                *self == *old(self),
                i <= self.websockets@.len(),
                keep == other_than(msg.ws_addr),
                kept@ == self.websockets@.take(i as int).filter(keep),
            decreases self.websockets@.len() - i,
        {
            proof {
                let next = self.websockets@.take(i + 1);
                assert(next.drop_last() =~= self.websockets@.take(i as int));
                assert(next.last() == self.websockets@[i as int]);
                reveal(Seq::filter);
            }
            if self.websockets[i] != msg.ws_addr {
                kept.push(self.websockets[i]);
            }
            i += 1;
        }
        proof {
            assert(self.websockets@.take(i as int) =~= self.websockets@);
            if old(self).wf() {
                lemma_unregistered_no_duplicates(old(self)@, msg.ws_addr);
            }
        }
        self.websockets = kept;
    }

    /// The channels that a message for all clients goes to: every
    /// registered channel, in the order of registration. Each delivery
    /// stands by itself; one that fails is reported with
    /// `delivery_failed`, and the others are not touched by it.
    pub fn publish(&self) -> (recipients: Vec<u64>)
        ensures
            recipients@ == self@,
    {
        self.websockets.clone()
    }

    /// Takes note that a delivery to the channel `addr` failed: the
    /// channel is dropped, so that the next message no longer goes to it.
    pub fn delivery_failed(&mut self, addr: u64)
        ensures
            final(self)@ == unregistered(old(self)@, addr),
            old(self).wf() ==> final(self).wf(),
    {
        self.handle_delete(DeleteWS { ws_addr: addr });
    }
}

/// Dropping a channel keeps the others, in their order, and keeps them
/// apart.
pub proof fn lemma_unregistered_no_duplicates(s: Seq<u64>, addr: u64)
    requires
        s.no_duplicates(),
    ensures
        unregistered(s, addr).no_duplicates(),
        !unregistered(s, addr).contains(addr),
        forall|a: u64| a != addr ==> (unregistered(s, addr).contains(a) <==> s.contains(a)),
    decreases s.len(),
{
    reveal(Seq::filter);
    let t = unregistered(s, addr);
    if s.len() > 0 {
        let r = s.drop_last();
        lemma_unregistered_no_duplicates(r, addr);
        let f = unregistered(r, addr);
        assert forall|a: u64| a != addr implies (t.contains(a) <==> s.contains(a)) by {
            if t.contains(a) {
                let i = choose|i: int| 0 <= i < t.len() && t[i] == a;
                if i < f.len() {
                    assert(f.contains(a));
                    assert(r.contains(a));
                    let k = choose|k: int| 0 <= k < r.len() && r[k] == a;
                    assert(s[k] == a);
                } else {
                    assert(s[s.len() - 1] == a);
                }
            }
            if s.contains(a) {
                let k = choose|k: int| 0 <= k < s.len() && s[k] == a;
                if k < r.len() {
                    assert(r[k] == a);
                    assert(r.contains(a));
                    assert(f.contains(a));
                    let i = choose|i: int| 0 <= i < f.len() && f[i] == a;
                    assert(t[i] == a);
                } else {
                    assert(t[t.len() - 1] == a);
                }
            }
        }
        assert forall|i: int, j: int| 0 <= i < j < t.len() implies t[i] != t[j] by {
            if j >= f.len() {
                assert(f.contains(f[i]));
                assert(r.contains(f[i]));
                let k = choose|k: int| 0 <= k < r.len() && r[k] == f[i];
                assert(s[k] == f[i]);
            }
        }
        assert(!t.contains(addr)) by {
            if t.contains(addr) {
                let i = choose|i: int| 0 <= i < t.len() && t[i] == addr;
                if i < f.len() {
                    assert(f.contains(addr));
                }
            }
        }
    }
}

/// Registering a channel a second time changes nothing.
pub proof fn lemma_register_idempotent(s: Seq<u64>, addr: u64)
    ensures
        registered(registered(s, addr), addr) == registered(s, addr),
        registered(s, addr).contains(addr),
{
    if !s.contains(addr) {
        assert(s.push(addr)[s.len() as int] == addr);
    }
}

/// A channel that is not registered can be dropped without any change,
/// and so dropping a channel a second time changes nothing.
pub proof fn lemma_unregister_idempotent(s: Seq<u64>, addr: u64)
    ensures
        !s.contains(addr) ==> unregistered(s, addr) == s,
        unregistered(unregistered(s, addr), addr) == unregistered(s, addr),
{
    lemma_unregister_absent(s, addr);
    let t = unregistered(s, addr);
    assert forall|i: int| 0 <= i < t.len() implies t[i] != addr by {
        s.lemma_filter_pred(other_than(addr), i);
    }
    assert(!t.contains(addr));
    lemma_unregister_absent(t, addr);
}

proof fn lemma_unregister_absent(s: Seq<u64>, addr: u64)
    ensures
        !s.contains(addr) ==> unregistered(s, addr) == s,
    decreases s.len(),
{
    reveal(Seq::filter);
    if !s.contains(addr) {
        if s.len() > 0 {
            let r = s.drop_last();
            assert forall|i: int| 0 <= i < r.len() implies r[i] != addr by {
                assert(s[i] == r[i]);
                assert(s.contains(s[i]));
            }
            lemma_unregister_absent(r, addr);
            assert(s.contains(s.last()));
            assert(unregistered(s, addr) =~= s);
        } else {
            assert(unregistered(s, addr) =~= s);
        }
    }
}

/// When a client is gone, the next message goes to every other client
/// that was registered, and to nobody else.
pub proof fn lemma_others_still_reached(s: Seq<u64>, gone: u64, other: u64)
    requires
        s.no_duplicates(),
        other != gone,
    ensures
        unregistered(s, gone).contains(other) <==> s.contains(other),
        !unregistered(s, gone).contains(gone),
{
    lemma_unregistered_no_duplicates(s, gone);
}

} // verus!
