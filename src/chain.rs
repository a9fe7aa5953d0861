//! Commands and the external handler chain: an ordered list of handlers,
//! queried in registration order, where the first answer wins and a failure
//! stops the search.
//!
//! Handlers run outside the library (they may suspend), so resolution is a
//! sequence of steps: the chain says which handler to consult next, the caller
//! consults it and hands the outcome back.
use vstd::prelude::*;
use crate::error::LampoError;

verus! {

/// An application request: a method name and its argument payload (JSON text).
#[derive(Debug, Clone, PartialEq, Eq)]
pub struct Request {
    pub method: String,
    pub params: String,
}

/// A typed command, resolved from a request.
#[derive(Debug, Clone, PartialEq, Eq)]
pub enum Command {
    ExternalCommand(Request),
}

/// The method a command asks for.
pub open spec fn command_method(c: Command) -> String {
    match c {
        Command::ExternalCommand(req) => req.method,
    }
}

impl Command {
    /// Maps a request to a command. A request without a method name has no
    /// shape that a command can take.
    pub fn from_req(req: &Request) -> (r: Result<Command, LampoError>)
        ensures
            req.method@.len() > 0 ==> r == Ok::<Command, LampoError>(Command::ExternalCommand(*req)),
            req.method@.len() == 0 ==> r == Err::<Command, LampoError>(
                LampoError::MalformedRequest(req.method),
            ),
    {
        let method = req.method.clone();
        if method.as_str().is_empty() {
            Err(LampoError::MalformedRequest(method))
        } else {
            Ok(Command::ExternalCommand(Request { method, params: req.params.clone() }))
        }
    }

    /// The method this command asks for.
    pub fn method(&self) -> (r: &String)
        ensures
            *r == command_method(*self),
    {
        match self {
            Command::ExternalCommand(req) => &req.method,
        }
    }
}

/// What a handler did with a command: answered it, passed, or failed.
#[derive(Debug, Clone, PartialEq, Eq)]
pub enum HandlerOutcome {
    Respond(String),
    Decline,
    Fail(String),
}

/// Where resolution stands: ask handler `i`, or done with a response or an error.
#[derive(Debug, Clone, PartialEq, Eq)]
pub enum ReactStep {
    Consult(usize),
    Respond(String),
    Fail(LampoError),
}

/// Next step once handlers before `i` have all declined, in a chain of `n`.
pub open spec fn consult_from(n: nat, method: String, i: nat) -> ReactStep {
    if i < n {
        ReactStep::Consult(i as usize)
    } else {
        ReactStep::Fail(LampoError::MethodNotFound(method))
    }
}

/// Next step once handler `i` gave `outcome`.
pub open spec fn after_outcome(n: nat, method: String, i: nat, outcome: HandlerOutcome) -> ReactStep {
    match outcome {
        HandlerOutcome::Respond(v) => ReactStep::Respond(v),
        HandlerOutcome::Fail(e) => ReactStep::Fail(LampoError::HandlerFailure(e)),
        HandlerOutcome::Decline => consult_from(n, method, i + 1),
    }
}

/// Resolution driven from handler `i` on, where handler `k` would give
/// `outs[k]`: the final step and how many handlers were consulted in all
/// (always handlers `0 .. count`, in order).
pub open spec fn run(n: nat, method: String, outs: Seq<HandlerOutcome>, i: nat) -> (ReactStep, nat)
    decreases n - i,
{
    if i < n {
        let s = after_outcome(n, method, i, outs[i as int]);
        if s is Consult {
            run(n, method, outs, i + 1)
        } else {
            (s, i + 1)
        }
    } else {
        (ReactStep::Fail(LampoError::MethodNotFound(method)), i)
    }
}

/// Registered handlers, in registration order. No dedup and no capacity limit.
pub struct HandlerChain<H> {
    handlers: Vec<H>,
}

impl<H> View for HandlerChain<H> {
    type V = Seq<H>;

    closed spec fn view(&self) -> Seq<H> {
        self.handlers@
    }
}

impl<H> HandlerChain<H> {
    /// An empty chain.
    pub fn new() -> (r: Self)
        ensures
            r@ == Seq::<H>::empty(),
    {
        HandlerChain { handlers: Vec::new() }
    }

    /// Number of registered handlers.
    pub fn len(&self) -> (r: usize)
        ensures
            r == self@.len(),
    {
        self.handlers.len()
    }

    /// Appends `handler` at the end of the chain.
    pub fn register(&mut self, handler: H)
        ensures
            final(self)@ == old(self)@.push(handler),
    {
        self.handlers.push(handler);
    }

    /// The handler at position `i`.
    pub fn get(&self, i: usize) -> (r: &H)
        requires
            i < self@.len(),
        ensures
            *r == self@[i as int],
    {
        &self.handlers[i]
    }

    /// First step of resolving `command`: the first handler, or not found on
    /// an empty chain.
    pub fn begin(&self, command: &Command) -> (r: ReactStep)
        ensures
            r == consult_from(self@.len(), command_method(*command), 0),
    {
        if 0 < self.handlers.len() {
            ReactStep::Consult(0)
        } else {
            ReactStep::Fail(LampoError::MethodNotFound(command.method().clone()))
        }
    }

    /// Step after handler `index` answered `outcome`: a response or a failure
    /// ends resolution; a decline moves to the next handler, or to not found
    /// after the last one.
    pub fn advance(&self, command: &Command, index: usize, outcome: HandlerOutcome) -> (r: ReactStep)
        requires
            index < self@.len(),
        ensures
            r == after_outcome(self@.len(), command_method(*command), index as nat, outcome),
    {
        match outcome {
            HandlerOutcome::Respond(v) => ReactStep::Respond(v),
            HandlerOutcome::Fail(e) => ReactStep::Fail(LampoError::HandlerFailure(e)),
            HandlerOutcome::Decline => {
                if index < self.handlers.len() - 1 {
                    ReactStep::Consult(index + 1)
                } else {
                    ReactStep::Fail(LampoError::MethodNotFound(command.method().clone()))
                }
            },
        }
    }
}

proof fn lemma_run_to_first_answer(
    n: nat,
    method: String,
    outs: Seq<HandlerOutcome>,
    i: nat,
    j: nat,
)
    requires
        i <= j < n,
        outs.len() == n,
        !(outs[j as int] is Decline),
        forall|k: int| i <= k < j ==> outs[k] is Decline,
    ensures
        run(n, method, outs, i) == (after_outcome(n, method, j, outs[j as int]), j + 1),
    decreases j - i,
{
    if i < j {
        lemma_run_to_first_answer(n, method, outs, i + 1, j);
    }
}

proof fn lemma_run_all_decline(n: nat, method: String, outs: Seq<HandlerOutcome>, i: nat)
    requires
        i <= n,
        outs.len() == n,
        forall|k: int| i <= k < n ==> outs[k] is Decline,
    ensures
        run(n, method, outs, i) == (ReactStep::Fail(LampoError::MethodNotFound(method)), n),
    decreases n - i,
{
    if i < n {
        lemma_run_all_decline(n, method, outs, i + 1);
    }
}

/// First match wins: when handler `j` is the first that does not decline,
/// resolution ends with its response (or its failure, with no fallthrough),
/// and exactly handlers `0 ..= j` were consulted, none after it.
pub proof fn lemma_first_match_wins(n: nat, method: String, outs: Seq<HandlerOutcome>, j: nat)
    requires
        j < n,
        outs.len() == n,
        !(outs[j as int] is Decline),
        forall|k: int| 0 <= k < j ==> outs[k] is Decline,
    ensures
        run(n, method, outs, 0).1 == j + 1,
        outs[j as int] matches HandlerOutcome::Respond(v) ==> run(n, method, outs, 0).0
            == ReactStep::Respond(v),
        outs[j as int] matches HandlerOutcome::Fail(e) ==> run(n, method, outs, 0).0
            == ReactStep::Fail(LampoError::HandlerFailure(e)),
{
    lemma_run_to_first_answer(n, method, outs, 0, j);
}

/// Not found: when every handler declines (an empty chain included),
/// resolution fails with an error naming the requested method, after
/// consulting each handler once.
pub proof fn lemma_unmatched_method_not_found(n: nat, method: String, outs: Seq<HandlerOutcome>)
    requires
        outs.len() == n,
        forall|k: int| 0 <= k < n ==> outs[k] is Decline,
    ensures
        run(n, method, outs, 0) == (ReactStep::Fail(LampoError::MethodNotFound(method)), n),
{
    lemma_run_all_decline(n, method, outs, 0);
}

} // verus!
