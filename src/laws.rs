use vstd::prelude::*;
use crate::hub::{EnvelopeView, HubView, published};
use crate::presence::{
    lemma_push_contains,
    lemma_without_contains,
    lemma_without_no_dup,
    with_name,
    without_name,
};
use crate::session::{
    ChatMessage,
    SessionState,
    SessionView,
    authenticated,
    holds_presence,
    streaming,
    torn_down,
};
use crate::wire::{chat_line_text, history_line_text};

verus! {

/// One step in the life of the sessions that share a registry.
pub enum LifeEvent {
    /// A new connection for `name`, with the result of its credential check.
    Connect(Seq<char>, bool),
    /// Session `k` finished its history replay.
    StartStreaming(int),
    /// Session `k` ended.
    TearDown(int),
}

/// Whether some session holds presence under `name`.
pub open spec fn name_held(ss: Seq<SessionView>, name: Seq<char>) -> bool {
    exists|k: int| 0 <= k < ss.len() && holds_presence(ss[k]) && ss[k].name == name
}

/// The registry, the sessions and the hub after one event.
pub open spec fn step(
    reg: Seq<Seq<char>>,
    ss: Seq<SessionView>,
    hub: HubView,
    ev: LifeEvent,
) -> (Seq<Seq<char>>, Seq<SessionView>, HubView) {
    match ev {
        LifeEvent::Connect(name, ok) => {
            let r = authenticated(
                SessionView { name, state: SessionState::Connecting, replayed: false, pending: None },
                ok,
                reg,
                hub,
            );
            (r.1, ss.push(r.0), r.2)
        },
        LifeEvent::StartStreaming(k) => if 0 <= k < ss.len() && ss[k].state
            == SessionState::Authenticated {
            let r = streaming(ss[k], reg, hub);
            (r.1, ss.update(k, r.0), r.2)
        } else {
            (reg, ss, hub)
        },
        LifeEvent::TearDown(k) => if 0 <= k < ss.len() {
            let r = torn_down(ss[k], reg, hub);
            (r.1, ss.update(k, r.0), r.2)
        } else {
            (reg, ss, hub)
        },
    }
}

/// The state after a sequence of events, from an empty registry and no
/// session.
pub open spec fn run(hub: HubView, evs: Seq<LifeEvent>) -> (
    Seq<Seq<char>>,
    Seq<SessionView>,
    HubView,
)
    decreases evs.len(),
{
    if evs.len() == 0 {
        (Seq::empty(), Seq::empty(), hub)
    } else {
        let p = run(hub, evs.drop_last());
        step(p.0, p.1, p.2, evs.last())
    }
}

/// The registry holds each name once, exactly the names of the sessions that
/// hold presence, and no two such sessions share a name.
pub open spec fn presence_matches(reg: Seq<Seq<char>>, ss: Seq<SessionView>) -> bool {
    &&& reg.no_duplicates()
    &&& forall|x: Seq<char>| #[trigger] reg.contains(x) <==> name_held(ss, x)
    &&& forall|j: int, k: int|
        0 <= j < ss.len() && 0 <= k < ss.len() && j != k && holds_presence(ss[j]) && holds_presence(
            ss[k],
        ) ==> ss[j].name != ss[k].name
}

proof fn lemma_step_keeps_presence(
    reg: Seq<Seq<char>>,
    ss: Seq<SessionView>,
    hub: HubView,
    ev: LifeEvent,
)
    requires
        presence_matches(reg, ss),
    ensures
        presence_matches(step(reg, ss, hub, ev).0, step(reg, ss, hub, ev).1),
{
    let (reg2, ss2, _h) = step(reg, ss, hub, ev);
    match ev {
        LifeEvent::Connect(name, ok) => {
            if ok && !reg.contains(name) {
                assert(reg2 == reg.push(name));
                assert forall|x: Seq<char>| #[trigger] reg2.contains(x) <==> name_held(ss2, x) by {
                    lemma_push_contains(reg, name, x);
                    if name_held(ss, x) {
                        let k = choose|k: int|
                            0 <= k < ss.len() && holds_presence(ss[k]) && ss[k].name == x;
                        assert(ss2[k] == ss[k]);
                    }
                    if x == name {
                        assert(ss2[ss.len() as int].name == x);
                    }
                    if name_held(ss2, x) {
                        let k = choose|k: int|
                            0 <= k < ss2.len() && holds_presence(ss2[k]) && ss2[k].name == x;
                        if k < ss.len() {
                            assert(ss2[k] == ss[k]);
                        }
                    }
                }
                assert(reg2.no_duplicates()) by {
                    assert forall|i: int, j: int|
                        0 <= i < reg2.len() && 0 <= j < reg2.len() && i != j implies reg2[i]
                        != reg2[j] by {
                        if i < reg.len() && j < reg.len() {
                        } else if i < reg.len() {
                            assert(reg.contains(reg[i]));
                        } else {
                            assert(reg.contains(reg[j]));
                        }
                    }
                }
                assert forall|j: int, k: int|
                    0 <= j < ss2.len() && 0 <= k < ss2.len() && j != k && holds_presence(ss2[j])
                        && holds_presence(ss2[k]) implies ss2[j].name != ss2[k].name by {
                    if j < ss.len() && k < ss.len() {
                        assert(ss2[j] == ss[j] && ss2[k] == ss[k]);
                    } else if j < ss.len() {
                        assert(ss2[j] == ss[j]);
                    } else {
                        assert(ss2[k] == ss[k]);
                    }
                }
            } else {
                assert forall|x: Seq<char>| #[trigger] reg2.contains(x) <==> name_held(ss2, x) by {
                    if name_held(ss, x) {
                        let k = choose|k: int|
                            0 <= k < ss.len() && holds_presence(ss[k]) && ss[k].name == x;
                        assert(ss2[k] == ss[k]);
                    }
                    if name_held(ss2, x) {
                        let k = choose|k: int|
                            0 <= k < ss2.len() && holds_presence(ss2[k]) && ss2[k].name == x;
                        if k < ss.len() {
                            assert(ss2[k] == ss[k]);
                        }
                    }
                }
                assert forall|j: int, k: int|
                    0 <= j < ss2.len() && 0 <= k < ss2.len() && j != k && holds_presence(ss2[j])
                        && holds_presence(ss2[k]) implies ss2[j].name != ss2[k].name by {
                    if j < ss.len() && k < ss.len() {
                        assert(ss2[j] == ss[j] && ss2[k] == ss[k]);
                    }
                }
            }
        },
        LifeEvent::StartStreaming(k0) => {
            if 0 <= k0 < ss.len() && ss[k0].state == SessionState::Authenticated {
                assert forall|x: Seq<char>| #[trigger] reg2.contains(x) <==> name_held(ss2, x) by {
                    if name_held(ss, x) {
                        let k = choose|k: int|
                            0 <= k < ss.len() && holds_presence(ss[k]) && ss[k].name == x;
                        assert(holds_presence(ss2[k]) && ss2[k].name == x);
                    }
                    if name_held(ss2, x) {
                        let k = choose|k: int|
                            0 <= k < ss2.len() && holds_presence(ss2[k]) && ss2[k].name == x;
                        assert(holds_presence(ss[k]) && ss[k].name == x);
                    }
                }
                assert forall|j: int, k: int|
                    0 <= j < ss2.len() && 0 <= k < ss2.len() && j != k && holds_presence(ss2[j])
                        && holds_presence(ss2[k]) implies ss2[j].name != ss2[k].name by {
                    assert(holds_presence(ss[j]) && holds_presence(ss[k]));
                }
            }
        },
        LifeEvent::TearDown(k0) => {
            if 0 <= k0 < ss.len() {
                let nm = ss[k0].name;
                if holds_presence(ss[k0]) {
                    lemma_without_no_dup(reg, nm);
                    assert forall|x: Seq<char>| #[trigger] reg2.contains(x) <==> name_held(
                        ss2,
                        x,
                    ) by {
                        lemma_without_contains(reg, nm, x);
                        if name_held(ss, x) && x != nm {
                            let k = choose|k: int|
                                0 <= k < ss.len() && holds_presence(ss[k]) && ss[k].name == x;
                            assert(k != k0);
                            assert(ss2[k] == ss[k]);
                        }
                        if name_held(ss2, x) {
                            let k = choose|k: int|
                                0 <= k < ss2.len() && holds_presence(ss2[k]) && ss2[k].name == x;
                            assert(k != k0);
                            assert(ss2[k] == ss[k]);
                            assert(name_held(ss, x));
                        }
                    }
                } else {
                    assert forall|x: Seq<char>| #[trigger] reg2.contains(x) <==> name_held(
                        ss2,
                        x,
                    ) by {
                        if name_held(ss, x) {
                            let k = choose|k: int|
                                0 <= k < ss.len() && holds_presence(ss[k]) && ss[k].name == x;
                            assert(ss2[k] == ss[k]);
                        }
                        if name_held(ss2, x) {
                            let k = choose|k: int|
                                0 <= k < ss2.len() && holds_presence(ss2[k]) && ss2[k].name == x;
                            assert(ss2[k] == ss[k]);
                        }
                    }
                }
                assert forall|j: int, k: int|
                    0 <= j < ss2.len() && 0 <= k < ss2.len() && j != k && holds_presence(ss2[j])
                        && holds_presence(ss2[k]) implies ss2[j].name != ss2[k].name by {
                    assert(ss2[j] == ss[j] && ss2[k] == ss[k]);
                }
            }
        },
    }
}

/// For every sequence of connections (with credentials that hold or not),
/// stream starts and disconnections, the registry holds exactly the names of
/// the sessions that are admitted and not yet closed, each once.
pub proof fn lemma_presence_matches_sessions(hub: HubView, evs: Seq<LifeEvent>)
    ensures
        presence_matches(run(hub, evs).0, run(hub, evs).1),
    decreases evs.len(),
{
    if evs.len() == 0 {
        let r = run(hub, evs);
        assert(r.0 =~= Seq::<Seq<char>>::empty());
        assert forall|x: Seq<char>| #[trigger] r.0.contains(x) <==> name_held(r.1, x) by {}
    } else {
        lemma_presence_matches_sessions(hub, evs.drop_last());
        let p = run(hub, evs.drop_last());
        lemma_step_keeps_presence(p.0, p.1, p.2, evs.last());
    }
}

/// Tearing a session down twice leaves the session, the registry and the hub
/// exactly as tearing it down once.
pub proof fn lemma_teardown_idempotent(s: SessionView, reg: Seq<Seq<char>>, hub: HubView)
    ensures
        ({
            let once = torn_down(s, reg, hub);
            torn_down(once.0, once.1, once.2) == once
        }),
{
}

/// The hub after publishing `es` in order.
pub open spec fn published_all(h: HubView, es: Seq<EnvelopeView>) -> HubView
    decreases es.len(),
{
    if es.len() == 0 {
        h
    } else {
        published(published_all(h, es.drop_last()), es.last())
    }
}

/// How many of `n` envelopes a queue of length `len` under bound `cap` takes.
pub open spec fn room_for(len: nat, cap: nat, n: nat) -> nat {
    if len + n <= cap {
        n
    } else if len <= cap {
        (cap - len) as nat
    } else {
        0
    }
}

/// Publishing a sequence of envelopes, from one sender or interleaved from
/// many, appends to each live subscriber's queue a prefix of that sequence,
/// in publish order: an envelope published before another is received
/// before it, and never is the later one received without the earlier.
pub proof fn lemma_publish_order_kept(h: HubView, es: Seq<EnvelopeView>)
    ensures
        published_all(h, es).capacity == h.capacity,
        published_all(h, es).queues.len() == h.queues.len(),
        forall|k: int|
            0 <= k < h.queues.len() ==> #[trigger] published_all(h, es).queues[k] == match h.queues[k] {
                Some(q0) => Some(q0 + es.take(room_for(q0.len(), h.capacity, es.len()) as int)),
                None => None,
            },
    decreases es.len(),
{
    if es.len() > 0 {
        let p = es.drop_last();
        lemma_publish_order_kept(h, p);
        assert forall|k: int| 0 <= k < h.queues.len() implies #[trigger] published_all(
            h,
            es,
        ).queues[k] == match h.queues[k] {
            Some(q0) => Some(q0 + es.take(room_for(q0.len(), h.capacity, es.len()) as int)),
            None => None,
        } by {
            let mid = published_all(h, p);
            assert(mid.queues[k] == match h.queues[k] {
                Some(q0) => Some(q0 + p.take(room_for(q0.len(), h.capacity, p.len()) as int)),
                None => None,
            });
            if let Some(q0) = h.queues[k] {
                let n0 = room_for(q0.len(), h.capacity, p.len());
                let n1 = room_for(q0.len(), h.capacity, es.len());
                assert(p.take(n0 as int) =~= es.take(n0 as int));
                if n1 == n0 + 1 {
                    assert(es.take(n1 as int) =~= es.take(n0 as int).push(es.last()));
                    assert(q0 + es.take(n1 as int) =~= (q0 + es.take(n0 as int)).push(es.last()));
                } else {
                    assert(n1 == n0);
                }
            }
        }
    }
}

/// A message stored before a user joins comes back in that user's history
/// replay as the very line that was broadcast for it.
pub proof fn lemma_stored_message_replayed(
    before: Seq<(String, String, String)>,
    msg: ChatMessage,
    rec: (String, String, String),
    after: Seq<(String, String, String)>,
)
    requires
        (rec.0@, rec.1@, rec.2@) == msg.record_view(),
    ensures
        (before.push(rec) + after).map_values(
            |r: (String, String, String)| history_line_text(r),
        ).contains(chat_line_text(msg.username@, msg.sent_at@, msg.body@)),
{
    let all = before.push(rec) + after;
    let lines = all.map_values(|r: (String, String, String)| history_line_text(r));
    assert(all[before.len() as int] == rec);
    assert(lines[before.len() as int] == chat_line_text(msg.username@, msg.sent_at@, msg.body@));
}

} // verus!
