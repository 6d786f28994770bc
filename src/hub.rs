use vstd::prelude::*;
use crate::presence::{lemma_names_of_push, names_of};

verus! {

/// A unit of the broadcast fan-out: a formatted chat line, or the list of
/// connected users in the order in which they joined.
pub enum Envelope {
    ChatLine(String),
    PresenceSnapshot(Vec<String>),
}

/// What an envelope holds, as text.
pub enum EnvelopeView {
    ChatLine(Seq<char>),
    PresenceSnapshot(Seq<Seq<char>>),
}

impl View for Envelope {
    type V = EnvelopeView;

    open spec fn view(&self) -> EnvelopeView {
        match self {
            Envelope::ChatLine(s) => EnvelopeView::ChatLine(s@),
            Envelope::PresenceSnapshot(v) => EnvelopeView::PresenceSnapshot(names_of(v@)),
        }
    }
}

/// A copy of a list of strings.
pub fn copy_names(v: &Vec<String>) -> (r: Vec<String>)
    ensures
        names_of(r@) == names_of(v@),
{
    let mut out: Vec<String> = Vec::new();
    let mut i: usize = 0;
    while i < v.len()
        invariant
            0 <= i <= v@.len(),
            names_of(out@) == names_of(v@).take(i as int),
        decreases v@.len() - i,
    {
        let ghost o0 = out@;
        out.push(v[i].clone());
        proof {
            lemma_names_of_push(o0, v@[i as int]);
        }
        assert(names_of(v@).take(i + 1) =~= names_of(v@).take(i as int).push(names_of(v@)[i as int]));
        i = i + 1;
    }
    assert(names_of(v@).take(i as int) =~= names_of(v@));
    out
}

impl Envelope {
    /// A copy of this envelope.
    pub fn duplicate(&self) -> (r: Envelope)
        ensures
            r@ == self@,
    {
        match self {
            Envelope::ChatLine(s) => Envelope::ChatLine(s.clone()),
            Envelope::PresenceSnapshot(v) => Envelope::PresenceSnapshot(copy_names(v)),
        }
    }
}

/// The envelopes of a queue, as text.
pub open spec fn views_of(q: Seq<Envelope>) -> Seq<EnvelopeView> {
    q.map_values(|e: Envelope| e@)
}

/// What the hub holds: its per-subscriber bound, and for each subscriber
/// handle ever given out its pending envelopes, oldest first (`None` once it
/// has unsubscribed).
pub struct HubView {
    pub capacity: nat,
    pub queues: Seq<Option<Seq<EnvelopeView>>>,
}

/// One queue after `e` was published: appended where there is room, else
/// left as it was.
pub open spec fn offer(q: Option<Seq<EnvelopeView>>, capacity: nat, e: EnvelopeView) -> Option<
    Seq<EnvelopeView>,
> {
    match q {
        Some(s) => if s.len() < capacity {
            Some(s.push(e))
        } else {
            Some(s)
        },
        None => None,
    }
}

/// The hub after `e` was published: every live subscriber with room gets it
/// at the end of its queue; a full one drops it; none waits for another.
pub open spec fn published(h: HubView, e: EnvelopeView) -> HubView {
    HubView {
        capacity: h.capacity,
        queues: Seq::new(h.queues.len(), |i: int| offer(h.queues[i], h.capacity, e)),
    }
}

/// A publish/subscribe fan-out with a bounded queue for each subscriber.
pub struct BroadcastHub {
    capacity: usize,
    live: Vec<bool>,
    queues: Vec<Vec<Envelope>>,
}

impl View for BroadcastHub {
    type V = HubView;

    closed spec fn view(&self) -> HubView {
        HubView {
            capacity: self.capacity as nat,
            queues: Seq::new(
                self.live@.len(),
                |i: int|
                    if self.live@[i] {
                        Some(views_of(self.queues@[i]@))
                    } else {
                        None
                    },
            ),
        }
    }
}

impl BroadcastHub {
    /// The fields agree in length, and no queue is over the bound.
    pub closed spec fn wf(&self) -> bool {
        &&& self.live@.len() == self.queues@.len()
        &&& forall|i: int| 0 <= i < self.queues@.len() ==> self.queues@[i]@.len() <= self.capacity
    }

    /// A hub with no subscriber, whose queues hold at most `capacity`
    /// envelopes each.
    pub fn new(capacity: usize) -> (r: BroadcastHub)
        ensures
            r.wf(),
            r@.capacity == capacity,
            r@.queues == Seq::<Option<Seq<EnvelopeView>>>::empty(),
    {
        let r = BroadcastHub { capacity, live: Vec::new(), queues: Vec::new() };
        assert(r@.queues =~= Seq::<Option<Seq<EnvelopeView>>>::empty());
        r
    }

    /// A new subscriber handle, with an empty queue: it receives what is
    /// published from now on, nothing earlier.
    pub fn subscribe(&mut self) -> (id: usize)
        requires
            old(self).wf(),
            old(self)@.queues.len() < usize::MAX,
        ensures
            final(self).wf(),
            id == old(self)@.queues.len(),
            final(self)@.capacity == old(self)@.capacity,
            final(self)@.queues == old(self)@.queues.push(Some(Seq::<EnvelopeView>::empty())),
    {
        let id = self.live.len();
        self.live.push(true);
        self.queues.push(Vec::new());
        assert(views_of(self.queues@[id as int]@) =~= Seq::<EnvelopeView>::empty());
        assert(self@.queues =~= old(self)@.queues.push(Some(Seq::<EnvelopeView>::empty())));
        id
    }

    /// Ends the subscription `id` and drops what it had pending; nothing
    /// changes where `id` was never given out.
    pub fn unsubscribe(&mut self, id: usize)
        requires
            old(self).wf(),
        ensures
            final(self).wf(),
            final(self)@.capacity == old(self)@.capacity,
            final(self)@.queues == if id < old(self)@.queues.len() {
                old(self)@.queues.update(id as int, None)
            } else {
                old(self)@.queues
            },
    {
        if id < self.live.len() {
            self.live.set(id, false);
            self.queues.set(id, Vec::new());
            assert(self@.queues =~= old(self)@.queues.update(id as int, None));
        }
    }

    /// Delivers `e` to every live subscriber whose queue has room, and drops
    /// it for those whose queue is full. With no subscriber it does nothing.
    pub fn publish(&mut self, e: &Envelope)
        requires
            old(self).wf(),
        ensures
            final(self).wf(),
            final(self)@ == published(old(self)@, e@),
    {
        let ghost h0 = self@;
        let mut i: usize = 0;
        while i < self.queues.len()
            invariant
                self.wf(),
                0 <= i <= self.queues@.len(),
                self.capacity == h0.capacity,
                self@.queues.len() == h0.queues.len(),
                forall|k: int|
                    0 <= k < i ==> #[trigger] self@.queues[k] == offer(
                        h0.queues[k],
                        h0.capacity,
                        e@,
                    ),
                forall|k: int| i <= k < self@.queues.len() ==> #[trigger] self@.queues[k] == h0.queues[k],
            decreases self.queues@.len() - i,
        {
            let ghost b0 = self@.queues;
            if self.live[i] && self.queues[i].len() < self.capacity {
                let ghost q0 = self.queues@[i as int]@;
                self.queues[i].push(e.duplicate());
                assert(views_of(self.queues@[i as int]@) =~= views_of(q0).push(e@));
                assert(self@.queues =~= b0.update(i as int, Some(views_of(q0).push(e@))));
            } else {
                assert(self@.queues[i as int] == offer(h0.queues[i as int], h0.capacity, e@));
            }
            i = i + 1;
        }
        assert(self@.queues =~= published(h0, e@).queues);
    }

    /// The oldest envelope pending for `id`, taken off its queue; `None`, with
    /// nothing changed, where the queue is empty or `id` is not live.
    pub fn receive(&mut self, id: usize) -> (r: Option<Envelope>)
        requires
            old(self).wf(),
        ensures
            final(self).wf(),
            final(self)@.capacity == old(self)@.capacity,
            match (if id < old(self)@.queues.len() {
                old(self)@.queues[id as int]
            } else {
                None
            }) {
                Some(q) => if q.len() > 0 {
                    &&& r is Some
                    &&& r->Some_0@ == q[0]
                    &&& final(self)@.queues == old(self)@.queues.update(
                        id as int,
                        Some(q.drop_first()),
                    )
                } else {
                    r is None && final(self)@ == old(self)@
                },
                None => r is None && final(self)@ == old(self)@,
            },
    {
        if id < self.live.len() && self.live[id] && self.queues[id].len() > 0 {
            let ghost q0 = self.queues@[id as int]@;
            let e = self.queues[id].remove(0);
            assert(views_of(self.queues@[id as int]@) =~= views_of(q0).drop_first());
            assert(self@.queues =~= old(self)@.queues.update(
                id as int,
                Some(views_of(q0).drop_first()),
            ));
            Some(e)
        } else {
            None
        }
    }

    /// How many subscriber handles were given out, live or not.
    pub fn handle_count(&self) -> (r: usize)
        requires
            self.wf(),
        ensures
            r == self@.queues.len(),
    {
        self.live.len()
    }
}

} // verus!
