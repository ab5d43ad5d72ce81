//! The one-shot handoff at the heart of the callback listener.
//!
//! The local HTTP listener accepts one redirect request carrying a one-time
//! `code` query parameter and hands the code to the orchestrator exactly once.
//! A request with a missing or empty code is a protocol error: it is answered
//! with a client error and the handoff keeps waiting. After a code has been
//! delivered, a further valid request is rejected and the first value kept;
//! rejecting rather than ignoring makes the collision visible to the caller.

use vstd::prelude::*;

verus! {

/// Mathematical state of the handoff slot: written at most once, read at most
/// once.
pub enum HandoffState {
    /// No code has arrived yet.
    Vacant,
    /// A code arrived and waits to be taken.
    Delivered(Seq<char>),
    /// The one delivered code was taken by the orchestrator.
    Consumed,
}

/// The answer the listener returns for one redirect request.
#[derive(Clone, Copy, PartialEq, Eq, Structural, Debug)]
pub enum CallbackResponse {
    /// A well-formed code was accepted and delivered; an empty success answer.
    Accepted,
    /// The request lacked the `code` query parameter or carried an empty one;
    /// a client error, and the listener keeps waiting.
    MissingCode,
    /// A code had already been delivered; a client error, and the first value
    /// is kept.
    AlreadyDelivered,
}

/// A request's code parameter is well-formed when it is present and not
/// empty.
pub open spec fn spec_valid_code(code: Option<Seq<char>>) -> bool {
    match code {
        Some(c) => c.len() > 0,
        None => false,
    }
}

/// How one redirect request changes the slot and what it is answered.
pub open spec fn spec_handle(st: HandoffState, code: Option<Seq<char>>) -> (HandoffState,
    CallbackResponse) {
    if !spec_valid_code(code) {
        (st, CallbackResponse::MissingCode)
    } else {
        match st {
            HandoffState::Vacant => (
                HandoffState::Delivered(code->Some_0),
                CallbackResponse::Accepted,
            ),
            _ => (st, CallbackResponse::AlreadyDelivered),
        }
    }
}

/// The slot after a whole sequence of redirect requests, in order.
pub open spec fn spec_run(st: HandoffState, reqs: Seq<Option<Seq<char>>>) -> HandoffState
    decreases reqs.len(),
{
    if reqs.len() == 0 {
        st
    } else {
        spec_run(spec_handle(st, reqs[0]).0, reqs.drop_first())
    }
}

/// The view of an optional code.
pub open spec fn spec_code_view(code: Option<String>) -> Option<Seq<char>> {
    match code {
        Some(c) => Some(c@),
        None => None,
    }
}

/// The single-slot, single-use handoff from the HTTP handler to the
/// orchestrator.
pub struct CallbackChannel {
    /// The slot, written by the listener and read by the orchestrator.
    slot: HandoffSlot,
}

/// The concrete slot contents.
enum HandoffSlot {
    /// No code has arrived yet.
    Vacant,
    /// A code arrived and waits to be taken.
    Delivered(String),
    /// The one delivered code was taken.
    Consumed,
}

impl View for CallbackChannel {
    type V = HandoffState;

    closed spec fn view(&self) -> HandoffState {
        match self.slot {
            HandoffSlot::Vacant => HandoffState::Vacant,
            HandoffSlot::Delivered(ref c) => HandoffState::Delivered(c@),
            HandoffSlot::Consumed => HandoffState::Consumed,
        }
    }
}

impl CallbackChannel {
    /// A fresh handoff: nothing delivered, nothing taken.
    pub fn new() -> (r: CallbackChannel)
        ensures
            r@ == HandoffState::Vacant,
    {
        CallbackChannel { slot: HandoffSlot::Vacant }
    }

    /// Answer one redirect request.
    ///
    /// A well-formed code arriving at a vacant slot is delivered and
    /// acknowledged; a missing or empty code changes nothing and is answered
    /// with a client error; once a code was delivered, every further
    /// well-formed code is rejected and the first value kept.
    pub fn handle_request(&mut self, code: Option<String>) -> (r: CallbackResponse)
        ensures
            final(self)@ == spec_handle(old(self)@, spec_code_view(code)).0,
            r == spec_handle(old(self)@, spec_code_view(code)).1,
    {
        match code {
            None => CallbackResponse::MissingCode,
            Some(c) => {
                if c.as_str().is_empty() {
                    CallbackResponse::MissingCode
                } else {
                    let vacant = match &self.slot {
                        HandoffSlot::Vacant => true,
                        _ => false,
                    };
                    if vacant {
                        self.slot = HandoffSlot::Delivered(c);
                        CallbackResponse::Accepted
                    } else {
                        CallbackResponse::AlreadyDelivered
                    }
                }
            },
        }
    }

    /// Take the delivered code, at most once.
    ///
    /// Returns the code the first time it is called after a delivery, and
    /// nothing at any other time; the slot never returns to a state that
    /// would accept a second delivery once one was made.
    pub fn take_code(&mut self) -> (r: Option<String>)
        ensures
            old(self)@ matches HandoffState::Delivered(c) ==> (r matches Some(s) && s@ == c
                && final(self)@ == HandoffState::Consumed),
            !(old(self)@ is Delivered) ==> r is None && final(self)@ == old(self)@,
    {
        let taken = match &self.slot {
            HandoffSlot::Delivered(c) => Some(c.clone()),
            _ => None,
        };
        if taken.is_some() {
            self.slot = HandoffSlot::Consumed;
        }
        taken
    }

    /// The HTTP status the listener answers with for each response.
    pub fn response_status(r: CallbackResponse) -> (s: u16)
        ensures
            r is Accepted ==> s == 200,
            r is MissingCode ==> s == 400,
            r is AlreadyDelivered ==> s == 409,
    {
        match r {
            CallbackResponse::Accepted => 200,
            CallbackResponse::MissingCode => 400,
            CallbackResponse::AlreadyDelivered => 409,
        }
    }
}

/// Once a code is delivered, no sequence of further requests changes it.
pub proof fn lemma_delivered_stable(c: Seq<char>, reqs: Seq<Option<Seq<char>>>)
    ensures
        spec_run(HandoffState::Delivered(c), reqs) == HandoffState::Delivered(c),
    decreases reqs.len(),
{
    if reqs.len() == 0 {
    } else {
        lemma_delivered_stable(c, reqs.drop_first());
    }
}

/// A run with no well-formed request delivers nothing.
pub proof fn lemma_no_valid_code_no_delivery(reqs: Seq<Option<Seq<char>>>)
    requires
        forall|j: int| 0 <= j < reqs.len() ==> !spec_valid_code(#[trigger] reqs[j]),
    ensures
        spec_run(HandoffState::Vacant, reqs) == HandoffState::Vacant,
    decreases reqs.len(),
{
    if reqs.len() == 0 {
    } else {
        assert(!spec_valid_code(reqs[0]));
        assert(forall|j: int|
            0 <= j < reqs.drop_first().len() ==> !spec_valid_code(#[trigger] reqs.drop_first()[j]));
        lemma_no_valid_code_no_delivery(reqs.drop_first());
    }
}

/// The listener accepts exactly one well-formed code: after any sequence of
/// requests whose first well-formed code stands at position `k`, the slot
/// holds exactly that code.
pub proof fn lemma_exactly_one_delivery(reqs: Seq<Option<Seq<char>>>, k: int)
    requires
        0 <= k < reqs.len(),
        spec_valid_code(reqs[k]),
        forall|j: int| 0 <= j < k ==> !spec_valid_code(#[trigger] reqs[j]),
    ensures
        spec_run(HandoffState::Vacant, reqs) == HandoffState::Delivered(reqs[k]->Some_0),
    decreases k,
{
    if k == 0 {
        lemma_delivered_stable(reqs[0]->Some_0, reqs.drop_first());
    } else {
        assert(!spec_valid_code(reqs[0]));
        assert(reqs.drop_first()[k - 1] == reqs[k]);
        assert(forall|j: int|
            0 <= j < k - 1 ==> !spec_valid_code(#[trigger] reqs.drop_first()[j]));
        lemma_exactly_one_delivery(reqs.drop_first(), k - 1);
    }
}

} // verus!
