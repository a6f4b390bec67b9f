//! What a dashboard socket has subscribed to, and what it is owed in reply.
//!
//! Sending and receiving is the server's work. The session decides: from a
//! request of the client, what to answer and what to remember; at a tick of
//! the timer, whether the client is due a metrics update.

use crate::ledger::names;
use crate::text::join;
use vstd::prelude::*;
use vstd::string::*;

verus! {

/// What a client can ask of the socket.
#[derive(Debug, Clone)]
pub enum WsRequest {
    /// Updates on one provider, if one is named.
    Subscribe { protocol: Option<String> },
    /// No more updates on one provider, if one is named.
    Unsubscribe { protocol: Option<String> },
    Ping,
    /// Any other message.
    Other,
}

/// What the socket answers.
#[derive(Debug, Clone)]
pub enum WsReply {
    Subscribed { protocol: String },
    Pong,
}

/// The topic of the updates on one provider.
pub open spec fn provider_topic(protocol: Seq<char>) -> Seq<char> {
    "metrics:"@ + protocol
}

/// `topics` with `topic` among them.
pub open spec fn with_topic(topics: Seq<Seq<char>>, topic: Seq<char>) -> Seq<Seq<char>> {
    if topics.contains(topic) {
        topics
    } else {
        topics.push(topic)
    }
}

/// `topics` without `topic`.
pub open spec fn without_topic(topics: Seq<Seq<char>>, topic: Seq<char>) -> Seq<Seq<char>> {
    topics.filter(|t: Seq<char>| t != topic)
}

/// The topics of a session after a request.
pub open spec fn topics_after(topics: Seq<Seq<char>>, request: WsRequest) -> Seq<Seq<char>> {
    match request {
        WsRequest::Subscribe { protocol: Some(p) } => with_topic(topics, provider_topic(p@)),
        WsRequest::Unsubscribe { protocol: Some(p) } => without_topic(topics, provider_topic(p@)),
        _ => topics,
    }
}

/// One socket's subscriptions.
#[derive(Debug, Clone)]
pub struct WsSession {
    subscriptions: Vec<String>,
}

impl WsSession {
    /// The topics subscribed to, in the order of subscription.
    pub closed spec fn topics(&self) -> Seq<Seq<char>> {
        names(self.subscriptions@)
    }

    /// A new session, subscribed to the metrics.
    pub fn new() -> (r: Self)
        ensures
            r.topics() == seq!["metrics"@],
    {
        let mut subscriptions: Vec<String> = Vec::new();
        subscriptions.push(String::from_str("metrics"));
        assert(names(subscriptions@) =~= seq!["metrics"@]);
        WsSession { subscriptions }
    }

    /// Whether the session is subscribed to `topic`.
    pub fn is_subscribed(&self, topic: &String) -> (r: bool)
        ensures
            r == self.topics().contains(topic@),
    {
        crate::ledger::listed(&self.subscriptions, topic)
    }

    /// Whether the client is due a metrics update at a tick of the timer.
    pub fn wants_metrics(&self) -> (r: bool)
        ensures
            r == self.topics().contains("metrics"@),
    {
        let topic = String::from_str("metrics");
        crate::ledger::listed(&self.subscriptions, &topic)
    }

    /// Takes a request of the client: a subscription to a provider is
    /// remembered and confirmed, a subscription given up is forgotten, a
    /// ping is answered. Nothing else has an effect or an answer.
    pub fn on_request(&mut self, request: &WsRequest) -> (r: Option<WsReply>)
        ensures
            final(self).topics() == topics_after(old(self).topics(), *request),
            match *request {
                WsRequest::Subscribe { protocol: Some(p) } => r matches Some(
                    WsReply::Subscribed { protocol },
                ) && protocol@ == p@,
                WsRequest::Ping => r matches Some(WsReply::Pong),
                _ => r is None,
            },
    {
        match request {
            WsRequest::Subscribe { protocol: Some(p) } => {
                let topic = join("metrics:", p.as_str());
                if !crate::ledger::listed(&self.subscriptions, &topic) {
                    let ghost before = names(self.subscriptions@);
                    self.subscriptions.push(topic);
                    assert(names(self.subscriptions@) =~= before.push(provider_topic(p@)));
                }
                Some(WsReply::Subscribed { protocol: p.clone() })
            },
            WsRequest::Unsubscribe { protocol: Some(p) } => {
                let topic = join("metrics:", p.as_str());
                let ghost all = names(self.subscriptions@);
                let ghost keep = |t: Seq<char>| t != topic@;
                let mut kept: Vec<String> = Vec::new();
                let mut i: usize = 0;
                assert(all.take(0).filter(keep) =~= Seq::<Seq<char>>::empty()) by {
                    reveal(Seq::filter);
                }
                while i < self.subscriptions.len()
                    invariant
                        i <= self.subscriptions@.len(),
                        all == names(self.subscriptions@),
                        keep == |t: Seq<char>| t != topic@,
                        names(kept@) == all.take(i as int).filter(keep),
                    decreases self.subscriptions@.len() - i,
                {
                    proof {
                        reveal(Seq::filter);
                        assert(all.take(i + 1).drop_last() == all.take(i as int));
                    }
                    if self.subscriptions[i] != topic {
                        let ghost before = names(kept@);
                        kept.push(self.subscriptions[i].clone());
                        assert(names(kept@) =~= before.push(all[i as int]));
                    }
                    i += 1;
                }
                assert(all.take(self.subscriptions@.len() as int) == all);
                self.subscriptions = kept;
                None
            },
            WsRequest::Ping => Some(WsReply::Pong),
            _ => None,
        }
    }
}

} // verus!
