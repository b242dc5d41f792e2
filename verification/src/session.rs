//! The streaming session controller's state machine.
//!
//! The controller is either idle or holds exactly one outstanding
//! exchange. A `Text` instruction appends the prompt to the store and
//! opens an exchange; every decoded delta of the answer accumulates in
//! that exchange; the end of the stream closes it and appends the whole
//! accumulated answer to the store as one assistant message. Context and
//! clear instructions touch only the store. The transport itself — the
//! request, the event stream — lives outside; it hands payload strings in
//! and takes token strings out.

use vstd::prelude::*;
use crate::decode::{chunk_contents, chunk_shape_ok, decode_payload, present, Decoded, STREAM_SENTINEL};
use crate::store::{
    append_op, clear_op, switch_op, sys_msg, Message, MessageStore, Role, StoreView, UseContext,
};

verus! {

/// One logical instruction from the input side.
#[derive(Debug)]
pub enum Input {
    Text(String),
    Context(UseContext),
    Clear,
}

/// One event for the render side: a fragment of the answer, or its end.
#[derive(Debug)]
pub enum Output {
    Data(String),
    End,
}

/// One outstanding exchange: the answer text accumulated so far, with the
/// history of absorbed deltas alongside it.
pub struct Exchange {
    answer: String,
    history: Ghost<Seq<Seq<char>>>,
}

impl Exchange {
    /// The deltas absorbed so far, in arrival order.
    pub closed spec fn tokens(&self) -> Seq<Seq<char>> {
        self.history@
    }

    /// The accumulated answer is exactly the concatenation of the deltas.
    pub closed spec fn wf(&self) -> bool {
        self.answer@ == self.history@.flatten()
    }

    pub fn new() -> (r: Exchange)
        ensures
            r.wf(),
            r.tokens() =~= Seq::<Seq<char>>::empty(),
    {
        let r = Exchange { answer: String::new(), history: Ghost(Seq::empty()) };
        proof {
            assert(r.history@.flatten() =~= Seq::<char>::empty());
        }
        r
    }

    /// Appends a batch of deltas, keeping the answer their concatenation.
    pub fn absorb(&mut self, toks: &Vec<String>)
        requires
            old(self).wf(),
        ensures
            final(self).wf(),
            final(self).tokens() == old(self).tokens() + toks.deep_view(),
    {
        let mut i: usize = 0;
        while i < toks.len()
            invariant
                i <= toks.len(),
                self.wf(),
                self.tokens() == old(self).tokens() + toks.deep_view().take(i as int),
            decreases toks.len() - i,
        {
            let ghost before = self.history@;
            self.answer.append(toks[i].as_str());
            proof {
                before.lemma_flatten_push(toks[i as int]@);
                self.history@ = before.push(toks[i as int]@);
                assert(self.tokens() =~= old(self).tokens() + toks.deep_view().take(i as int + 1));
            }
            i = i + 1;
        }
        proof {
            assert(toks.deep_view().take(toks.len() as int) =~= toks.deep_view());
        }
    }

    /// Closes the exchange: the whole answer, the concatenation of every
    /// absorbed delta.
    pub fn into_answer(self) -> (r: String)
        requires
            self.wf(),
        ensures
            r@ == self.tokens().flatten(),
    {
        self.answer
    }
}

/// The streaming session controller: the conversation store plus at most
/// one outstanding exchange.
pub struct Controller {
    store: MessageStore,
    exchange: Option<Exchange>,
}

impl Controller {
    /// The conversation as the store holds it.
    pub closed spec fn store_view(&self) -> StoreView {
        self.store@
    }

    /// Whether a request is outstanding.
    pub closed spec fn streaming(&self) -> bool {
        self.exchange is Some
    }

    /// The deltas absorbed for the outstanding exchange.
    pub closed spec fn absorbed(&self) -> Seq<Seq<char>> {
        self.exchange->0.tokens()
    }

    pub closed spec fn wf(&self) -> bool {
        &&& self.store.wf()
        &&& (self.exchange is Some ==> self.exchange->0.wf())
    }

    /// A fresh idle controller whose store holds the default context.
    pub fn new(default: UseContext) -> (r: Controller)
        ensures
            r.wf(),
            !r.streaming(),
            r.store_view().log =~= seq![sys_msg(default)],
            r.store_view().current == sys_msg(default),
    {
        Controller { store: MessageStore::new(default), exchange: None }
    }

    /// Decides one instruction while idle. Returns whether a request must
    /// now be issued to the remote service: exactly for `Text`, which also
    /// opens the exchange; context switches and clears never touch the
    /// network.
    pub fn handle_instruction(&mut self, input: Input) -> (r: bool)
        requires
            old(self).wf(),
            !old(self).streaming(),
        ensures
            final(self).wf(),
            r == (input is Text),
            final(self).streaming() == r,
            match input {
                Input::Text(t) => final(self).store_view() == append_op(
                    old(self).store_view(),
                    Role::User,
                    t@,
                ) && final(self).absorbed() =~= Seq::<Seq<char>>::empty(),
                Input::Context(p) => final(self).store_view() == switch_op(
                    old(self).store_view(),
                    p,
                ),
                Input::Clear => final(self).store_view() == clear_op(old(self).store_view()),
            },
    {
        match input {
            Input::Text(t) => {
                self.store.append_user(t);
                self.exchange = Some(Exchange::new());
                true
            },
            Input::Context(p) => {
                self.store.switch_context(p);
                false
            },
            Input::Clear => {
                self.store.clear();
                false
            },
        }
    }

    /// Whether a request is outstanding right now.
    pub fn is_streaming(&self) -> (r: bool)
        ensures
            r == self.streaming(),
    {
        self.exchange.is_some()
    }

    /// The messages to send verbatim with the outstanding request.
    pub fn snapshot(&self) -> (r: &Vec<Message>)
        ensures
            r@.map_values(|m: Message| m@) == self.store_view().log,
    {
        self.store.snapshot()
    }

    /// Feeds one event payload of the outstanding exchange. Exactly the
    /// payloads of the chunk shape yield their deltas, which join the
    /// accumulated answer and are handed back to be forwarded; the
    /// sentinel and malformed payloads change nothing.
    pub fn absorb_payload(&mut self, data: &str) -> (r: Decoded)
        requires
            old(self).wf(),
            old(self).streaming(),
        ensures
            final(self).wf(),
            final(self).streaming(),
            final(self).store_view() == old(self).store_view(),
            (r is Done) <==> data@ == STREAM_SENTINEL@,
            data@ != STREAM_SENTINEL@ ==> ((r is Tokens) <==> chunk_shape_ok(data@)),
            r matches Decoded::Tokens(ts) ==> ts.deep_view() == present(chunk_contents(data@)),
            match r {
                Decoded::Tokens(ts) => final(self).absorbed() == old(self).absorbed()
                    + ts.deep_view(),
                _ => final(self).absorbed() == old(self).absorbed(),
            },
    {
        let r = decode_payload(data);
        match &r {
            Decoded::Tokens(ts) => {
                match &mut self.exchange {
                    Some(ex) => ex.absorb(ts),
                    None => {
                        proof {
                            assert(false);
                        }
                    },
                }
            },
            _ => (),
        }
        r
    }

    /// The stream is over: exactly one assistant message — the
    /// concatenation of every absorbed delta — joins the store, and the
    /// controller is idle again.
    pub fn end_stream(&mut self)
        requires
            old(self).wf(),
            old(self).streaming(),
        ensures
            final(self).wf(),
            !final(self).streaming(),
            final(self).store_view() == append_op(
                old(self).store_view(),
                Role::Assistant,
                old(self).absorbed().flatten(),
            ),
    {
        let ex = self.exchange.take();
        match ex {
            Some(e) => {
                let answer = e.into_answer();
                self.store.append_assistant(answer);
            },
            None => {
                proof {
                    assert(false);
                }
            },
        }
    }
}

} // verus!
