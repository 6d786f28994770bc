use vstd::prelude::*;
use crate::hub::{BroadcastHub, Envelope, EnvelopeView, HubView, published};
use crate::presence::{PresenceRegistry, with_name, without_name};
use crate::presence::names_of;
use crate::wire::{
    chat_line,
    chat_line_text,
    history_line_text,
    history_lines,
    joined_line,
    joined_text,
    left_line,
    left_text,
};

verus! {

/// Where a connection stands. It only moves forward.
#[derive(PartialEq, Eq, Structural, Clone, Copy, Debug)]
pub enum SessionState {
    /// Accepted; credentials not yet checked.
    Connecting,
    /// Registered as present and announced; history not yet replayed.
    Authenticated,
    /// Exchanging messages.
    Streaming,
    /// Gone; nothing more happens.
    Closed,
}

/// One chat message: who sent it, what it says, and when, as written on the
/// wire.
pub struct ChatMessage {
    pub username: String,
    pub body: String,
    pub sent_at: String,
}

impl ChatMessage {
    /// The record that history stores: sender, body, time.
    pub open spec fn record_view(&self) -> (Seq<char>, Seq<char>, Seq<char>) {
        (self.username@, self.body@, self.sent_at@)
    }

    /// The line that every subscriber receives for this message.
    pub fn line(&self) -> (r: String)
        ensures
            r@ == chat_line_text(self.username@, self.sent_at@, self.body@),
    {
        chat_line(self.username.as_str(), self.sent_at.as_str(), self.body.as_str())
    }
}

/// A session as a value: the user's name, the state, whether history was
/// replayed, and the message composed and waiting for the store's answer
/// (sender, body, time), if any.
pub struct SessionView {
    pub name: Seq<char>,
    pub state: SessionState,
    pub replayed: bool,
    pub pending: Option<(Seq<char>, Seq<char>, Seq<char>)>,
}

/// Whether the session holds its user's place in the registry.
pub open spec fn holds_presence(s: SessionView) -> bool {
    s.state == SessionState::Authenticated || s.state == SessionState::Streaming
}

/// The outcome of the handshake: where the credentials hold and no live
/// session has the name, the user is added and its arrival published;
/// otherwise the session closes with no other effect.
pub open spec fn authenticated(
    s: SessionView,
    verified: bool,
    reg: Seq<Seq<char>>,
    hub: HubView,
) -> (SessionView, Seq<Seq<char>>, HubView) {
    if verified && !reg.contains(s.name) {
        (
            SessionView { state: SessionState::Authenticated, ..s },
            with_name(reg, s.name),
            published(hub, EnvelopeView::ChatLine(joined_text(s.name))),
        )
    } else {
        (SessionView { state: SessionState::Closed, ..s }, reg, hub)
    }
}

/// Entering the streaming state: the current roster is published to all.
pub open spec fn streaming(s: SessionView, reg: Seq<Seq<char>>, hub: HubView) -> (
    SessionView,
    Seq<Seq<char>>,
    HubView,
) {
    (
        SessionView { state: SessionState::Streaming, ..s },
        reg,
        published(hub, EnvelopeView::PresenceSnapshot(reg)),
    )
}

/// Teardown: a session that holds presence gives it up, and its departure
/// and the new roster are published; one that never held it just closes; a
/// closed one stays as it is.
pub open spec fn torn_down(s: SessionView, reg: Seq<Seq<char>>, hub: HubView) -> (
    SessionView,
    Seq<Seq<char>>,
    HubView,
) {
    let closed = SessionView { state: SessionState::Closed, ..s };
    if holds_presence(s) {
        let reg2 = without_name(reg, s.name);
        (
            closed,
            reg2,
            published(
                published(hub, EnvelopeView::ChatLine(left_text(s.name))),
                EnvelopeView::PresenceSnapshot(reg2),
            ),
        )
    } else {
        (closed, reg, hub)
    }
}

/// The state machine of one connection.
pub struct Session {
    username: String,
    state: SessionState,
    replayed: bool,
    pending: Option<ChatMessage>,
}

impl View for Session {
    type V = SessionView;

    closed spec fn view(&self) -> SessionView {
        SessionView {
            name: self.username@,
            state: self.state,
            replayed: self.replayed,
            pending: match &self.pending {
                Some(m) => Some(m.record_view()),
                None => None,
            },
        }
    }
}

impl Session {
    /// A session for `username`, not yet authenticated.
    pub fn new(username: String) -> (r: Session)
        ensures
            r@.name == username@,
            r@.state == SessionState::Connecting,
            !r@.replayed,
            r@.pending is None,
    {
        Session { username, state: SessionState::Connecting, replayed: false, pending: None }
    }

    /// The user this session serves.
    pub fn username(&self) -> (r: &String)
        ensures
            r@ == self@.name,
    {
        &self.username
    }

    /// Where the session stands.
    pub fn state(&self) -> (r: SessionState)
        ensures
            r == self@.state,
    {
        self.state
    }

    /// Takes the result of the credential check. Where it holds and the
    /// registry does not have the name yet, the user is added and its arrival
    /// is published; otherwise the session closes and nothing else changes.
    pub fn authenticate(
        &mut self,
        verified: bool,
        registry: &mut PresenceRegistry,
        hub: &mut BroadcastHub,
    )
        requires
            old(self)@.state == SessionState::Connecting,
            old(registry).wf(),
            old(hub).wf(),
        ensures
            final(registry).wf(),
            final(hub).wf(),
            (final(self)@, final(registry)@, final(hub)@) == authenticated(
                old(self)@,
                verified,
                old(registry)@,
                old(hub)@,
            ),
    {
        if verified && !registry.contains(&self.username) {
            registry.add(&self.username);
            let line = Envelope::ChatLine(joined_line(self.username.as_str()));
            hub.publish(&line);
            self.state = SessionState::Authenticated;
        } else {
            self.state = SessionState::Closed;
        }
    }

    /// The history replay for this session's own connection: one line for
    /// each stored record `(sender, body, time)`, oldest first; none where the
    /// store could not be read. It comes before the session's own roster.
    pub fn replay(&mut self, history: Option<&Vec<(String, String, String)>>) -> (r: Vec<String>)
        requires
            old(self)@.state == SessionState::Authenticated,
            !old(self)@.replayed,
        ensures
            final(self)@ == (SessionView { replayed: true, ..old(self)@ }),
            names_of(r@) == match history {
                Some(h) => h@.map_values(|rec: (String, String, String)| history_line_text(rec)),
                None => Seq::<Seq<char>>::empty(),
            },
    {
        self.replayed = true;
        match history {
            Some(h) => history_lines(h),
            None => {
                let out: Vec<String> = Vec::new();
                assert(names_of(out@) =~= Seq::<Seq<char>>::empty());
                out
            },
        }
    }

    /// After history was replayed: returns the roster for this session's own
    /// connection, publishes the same roster to every subscriber, and starts
    /// streaming.
    pub fn start_streaming(&mut self, registry: &PresenceRegistry, hub: &mut BroadcastHub) -> (r:
        Envelope)
        requires
            old(self)@.state == SessionState::Authenticated,
            old(self)@.replayed,
            registry.wf(),
            old(hub).wf(),
        ensures
            final(hub).wf(),
            r@ == EnvelopeView::PresenceSnapshot(registry@),
            (final(self)@, registry@, final(hub)@) == streaming(old(self)@, registry@, old(hub)@),
    {
        let own = Envelope::PresenceSnapshot(registry.snapshot());
        hub.publish(&own);
        self.state = SessionState::Streaming;
        own
    }

    /// Takes one inbound text: returns the message, stamped with its time of
    /// sending, for the store, and holds it until the store has answered.
    pub fn compose(&mut self, body: String, sent_at: String) -> (r: ChatMessage)
        requires
            old(self)@.state == SessionState::Streaming,
            old(self)@.pending is None,
        ensures
            r.record_view() == (old(self)@.name, body@, sent_at@),
            final(self)@ == (SessionView { pending: Some(r.record_view()), ..old(self)@ }),
    {
        let msg = ChatMessage { username: self.username.clone(), body, sent_at };
        let kept = ChatMessage {
            username: msg.username.clone(),
            body: msg.body.clone(),
            sent_at: msg.sent_at.clone(),
        };
        self.pending = Some(kept);
        msg
    }

    /// Once the store has answered for the held message, whether it stored it
    /// or not, publishes its line to every subscriber and lets the next text
    /// in. No line goes out before the store was asked.
    pub fn announce(&mut self, stored: bool, hub: &mut BroadcastHub)
        requires
            old(self)@.state == SessionState::Streaming,
            old(self)@.pending is Some,
            old(hub).wf(),
        ensures
            final(hub).wf(),
            final(self)@ == (SessionView { pending: None, ..old(self)@ }),
            ({
                let m = old(self)@.pending->Some_0;
                final(hub)@ == published(
                    old(hub)@,
                    EnvelopeView::ChatLine(chat_line_text(m.0, m.2, m.1)),
                )
            }),
    {
        let msg = self.pending.take().unwrap();
        let e = Envelope::ChatLine(msg.line());
        hub.publish(&e);
    }

    /// Ends the session. Safe to call any number of times: only the first
    /// call from a state that holds presence changes the registry or the hub.
    pub fn teardown(&mut self, registry: &mut PresenceRegistry, hub: &mut BroadcastHub)
        requires
            old(registry).wf(),
            old(hub).wf(),
        ensures
            final(registry).wf(),
            final(hub).wf(),
            (final(self)@, final(registry)@, final(hub)@) == torn_down(
                old(self)@,
                old(registry)@,
                old(hub)@,
            ),
    {
        if self.state == SessionState::Authenticated || self.state == SessionState::Streaming {
            registry.remove(&self.username);
            let bye = Envelope::ChatLine(left_line(self.username.as_str()));
            hub.publish(&bye);
            let roster = Envelope::PresenceSnapshot(registry.snapshot());
            hub.publish(&roster);
        }
        self.state = SessionState::Closed;
    }
}

} // verus!
