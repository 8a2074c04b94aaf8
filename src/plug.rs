//! Handlers ("plugs") and the ordered chain that runs them on each event.
//! The chain stops at a handler that asks to stop or that fails beyond
//! recovery, and steps over a handler that fails in a recoverable way.

use vstd::prelude::*;
use crate::command::{
    command_for, command_name_of, command_rest_of, message_of, parse_command_line, Command, Event,
    Message,
};
use crate::text::has_prefix;
use crate::tokenizer::{argument_words, texts};
use crate::error::Error;

verus! {

/// What a handler asks of the chain after it ran.
#[derive(Clone, Copy, Debug, PartialEq, Eq, Structural)]
pub enum PlugStatus {
    Continue,
    Stop,
}

pub type PlugResult = Result<PlugStatus, Error>;

/// Whether a handler's result ends the chain: a stop, or an error that is
/// not recoverable.
pub open spec fn ends_chain(r: PlugResult) -> bool {
    match r {
        Ok(status) => status == PlugStatus::Stop,
        Err(e) => !e.recoverable(),
    }
}

/// The progress of one run of the chain over `count` handlers: the position
/// of the next handler, and whether a handler stopped the chain or failed
/// beyond recovery.
pub struct Dispatch {
    pub count: usize,
    pub position: usize,
    pub stopped: bool,
    pub failure: Option<Error>,
}

impl Dispatch {
    /// A run over `count` handlers that has not begun.
    pub open spec fn begin(count: usize) -> Dispatch {
        Dispatch { count, position: 0, stopped: false, failure: None }
    }

    pub open spec fn finished(&self) -> bool {
        self.stopped || self.failure is Some || self.position >= self.count
    }

    /// The run after the handler at the current position returned `r`.
    pub open spec fn after(self, r: PlugResult) -> Dispatch {
        let position = (self.position + 1) as usize;
        match r {
            Ok(PlugStatus::Continue) => Dispatch { position, ..self },
            Ok(PlugStatus::Stop) => Dispatch { position, stopped: true, ..self },
            Err(e) => if e.recoverable() {
                Dispatch { position, ..self }
            } else {
                Dispatch { position, failure: Some(e), ..self }
            },
        }
    }

    /// The run after the handlers from the current position on returned
    /// `results`, one after the other, as far as the run goes.
    pub open spec fn run(self, results: Seq<PlugResult>) -> Dispatch
        decreases results.len(),
    {
        if results.len() == 0 || self.finished() {
            self
        } else {
            self.after(results[0]).run(results.drop_first())
        }
    }

    /// What the run returns to its caller.
    pub open spec fn outcome(&self) -> Result<(), Error> {
        match self.failure {
            Some(e) => Err(e),
            None => Ok(()),
        }
    }

    pub fn new(count: usize) -> (r: Dispatch)
        ensures
            r == Dispatch::begin(count),
    {
        Dispatch { count, position: 0, stopped: false, failure: None }
    }

    /// The position of the handler to run next, or `None` once the run is
    /// over.
    pub fn next_plug(&self) -> (r: Option<usize>)
        ensures
            r == if self.finished() {
                None
            } else {
                Some(self.position)
            },
    {
        if self.stopped || self.failure.is_some() || self.position >= self.count {
            None
        } else {
            Some(self.position)
        }
    }

    /// Takes in the result of the handler at the current position.
    pub fn record(&mut self, result: PlugResult)
        requires
            !old(self).finished(),
        ensures
            *final(self) == old(self).after(result),
    {
        self.position = self.position + 1;
        match result {
            Ok(PlugStatus::Continue) => {},
            Ok(PlugStatus::Stop) => {
                self.stopped = true;
            },
            Err(e) => {
                if !e.is_recoverable() {
                    self.failure = Some(e);
                }
            },
        }
    }

    pub fn finish(self) -> (r: Result<(), Error>)
        ensures
            r == self.outcome(),
    {
        match self.failure {
            Some(e) => Err(e),
            None => Ok(()),
        }
    }
}

proof fn lemma_run_to_end(d: Dispatch, results: Seq<PlugResult>, i: int)
    requires
        !d.stopped,
        d.failure is None,
        d.position + results.len() <= d.count,
        0 <= i < results.len(),
        ends_chain(results[i]),
        forall|j: int| 0 <= j < i ==> !ends_chain(#[trigger] results[j]),
    ensures
        d.run(results).position == d.position + i + 1,
        d.run(results).finished(),
        d.run(results).outcome() == match results[i] {
            Err(e) => Err::<(), Error>(e),
            Ok(_) => Ok(()),
        },
    decreases results.len(),
{
    let next = d.after(results[0]);
    if i == 0 {
        assert(next.finished());
        assert(next.run(results.drop_first()) == next);
    } else {
        assert(!ends_chain(results[0]));
        let rest = results.drop_first();
        assert forall|j: int| 0 <= j < i - 1 implies !ends_chain(#[trigger] rest[j]) by {
            assert(rest[j] == results[j + 1]);
        }
        lemma_run_to_end(next, rest, i - 1);
    }
}

proof fn lemma_run_through(d: Dispatch, results: Seq<PlugResult>)
    requires
        !d.stopped,
        d.failure is None,
        d.position + results.len() == d.count,
        forall|j: int| 0 <= j < results.len() ==> !ends_chain(#[trigger] results[j]),
    ensures
        d.run(results).position == d.count,
        d.run(results).finished(),
        d.run(results).outcome() == Ok::<(), Error>(()),
    decreases results.len(),
{
    if results.len() > 0 {
        assert(!ends_chain(results[0]));
        let rest = results.drop_first();
        assert forall|j: int| 0 <= j < rest.len() implies !ends_chain(#[trigger] rest[j]) by {
            assert(rest[j] == results[j + 1]);
        }
        lemma_run_through(d.after(results[0]), rest);
    }
}

/// A handler that asks to stop ends the chain for the event: in a run over
/// `count` handlers, no handler after it runs, and the run succeeds.
pub proof fn lemma_stop_short_circuits(count: usize, results: Seq<PlugResult>, i: int)
    requires
        results.len() <= count,
        0 <= i < results.len(),
        results[i] == Ok::<PlugStatus, Error>(PlugStatus::Stop),
        forall|j: int| 0 <= j < i ==> !ends_chain(#[trigger] results[j]),
    ensures
        ({
            let d = Dispatch::begin(count).run(results);
            &&& d.position == i + 1
            &&& d.finished()
            &&& d.outcome() == Ok::<(), Error>(())
        }),
{
    lemma_run_to_end(Dispatch::begin(count), results, i);
}

/// Handlers that fail in a recoverable way are stepped over: where no handler
/// stops the chain or fails beyond recovery, every handler runs and the run
/// succeeds.
pub proof fn lemma_recoverable_errors_continue(results: Seq<PlugResult>)
    requires
        results.len() <= usize::MAX,
        forall|j: int| 0 <= j < results.len() ==> !ends_chain(#[trigger] results[j]),
    ensures
        ({
            let d = Dispatch::begin(results.len() as usize).run(results);
            &&& d.position == results.len()
            &&& d.outcome() == Ok::<(), Error>(())
        }),
{
    lemma_run_through(Dispatch::begin(results.len() as usize), results);
}

/// A handler that fails beyond recovery ends the chain: in a run over
/// `count` handlers, no handler after it runs, and the run returns its error.
pub proof fn lemma_unrecoverable_error_aborts(
    count: usize,
    results: Seq<PlugResult>,
    i: int,
    e: Error,
)
    requires
        results.len() <= count,
        0 <= i < results.len(),
        results[i] == Err::<PlugStatus, Error>(e),
        !e.recoverable(),
        forall|j: int| 0 <= j < i ==> !ends_chain(#[trigger] results[j]),
    ensures
        ({
            let d = Dispatch::begin(count).run(results);
            &&& d.position == i + 1
            &&& d.finished()
            &&& d.outcome() == Err::<(), Error>(e)
        }),
{
    lemma_run_to_end(Dispatch::begin(count), results, i);
}

/// Running one more result extends a run that is not over by one step, and
/// leaves a finished run as it is.
pub proof fn lemma_run_push(d: Dispatch, results: Seq<PlugResult>, r: PlugResult)
    ensures
        d.run(results.push(r)) == if d.run(results).finished() {
            d.run(results)
        } else {
            d.run(results).after(r)
        },
    decreases results.len(),
{
    if d.finished() {
        assert(d.run(results) == d);
        assert(d.run(results.push(r)) == d);
    } else if results.len() == 0 {
        assert(d.run(results) == d);
        assert(results.push(r).drop_first() =~= Seq::<PlugResult>::empty());
        assert(results.push(r)[0] == r);
        assert(d.after(r).run(Seq::<PlugResult>::empty()) == d.after(r));
    } else {
        assert(results.push(r).drop_first() =~= results.drop_first().push(r));
        assert(results.push(r)[0] == results[0]);
        lemma_run_push(d.after(results[0]), results.drop_first(), r);
    }
}

/// Whether `r` is what a run over `count` handlers gives when the handlers
/// that ran returned `results`, in order, and the run is over.
pub open spec fn chain_outcome(count: usize, results: Seq<PlugResult>, r: Result<(), Error>) -> bool {
    let d = Dispatch::begin(count).run(results);
    &&& results.len() <= count
    &&& d.position == results.len()
    &&& d.finished()
    &&& r == d.outcome()
}

/// A unit of behaviour in the chain.
///
/// Each hook that the chain or the default command recognition relies on
/// says what it answers through a spec function of its own; a handler that
/// does not state one admits any answer. The default behaviour of the hooks
/// is offered by `handle_event` and `handle_message` below, for handlers to
/// call.
pub trait Plug {
    type Context;

    /// The answers `handle_start` may give.
    open spec fn start_answer(&self, r: PlugResult) -> bool {
        true
    }

    /// The answers `handle_event` may give for `event`.
    open spec fn event_answer(&self, event: Event, r: PlugResult) -> bool {
        true
    }

    /// The answers `matches_name` may give for `name`.
    open spec fn name_answer(&self, name: Seq<char>, r: bool) -> bool {
        true
    }

    /// The prefixes `command_prefix` may give for `message`.
    open spec fn prefix_answer(&self, message: Message, prefix: Seq<char>) -> bool {
        true
    }

    /// The answers `handle_command` may give for `command`.
    open spec fn command_answer(&self, command: Command, r: PlugResult) -> bool {
        true
    }

    fn handle_start(&self, context: &mut Self::Context) -> (r: PlugResult)
        ensures
            self.start_answer(r),
    ;

    fn handle_stop(&self, context: &mut Self::Context) -> PlugResult {
        Ok(PlugStatus::Continue)
    }

    /// Whether the handler takes commands of this name.
    fn matches_name(&self, name: &str) -> (r: bool)
        ensures
            self.name_answer(name@, r),
    ;

    /// The prefix that marks a command in `message`: the guild's own where
    /// it has one, else the default one (see `resolve_prefix`).
    fn command_prefix(&self, message: &Message, context: &mut Self::Context) -> (r: String)
        ensures
            self.prefix_answer(*message, r@),
    ;

    fn handle_command(&self, command: &Command, context: &mut Self::Context) -> (r: PlugResult)
        ensures
            self.command_answer(*command, r),
    ;

    fn handle_event(&self, event: &Event, context: &mut Self::Context) -> (r: PlugResult)
        ensures
            self.event_answer(*event, r),
    ;
}

/// What the default recognition answers for `message` under `prefix`:
/// `Continue` where the message lacks the prefix, or where the handler does
/// not claim the name after it; else the answer of `handle_command` for the
/// command made of that name, the arguments after it, and the message.
pub open spec fn message_outcome<P: Plug>(
    plug: &P,
    message: Message,
    prefix: Seq<char>,
    r: PlugResult,
) -> bool {
    let content = message.content@;
    if !has_prefix(content, prefix) {
        r == Ok::<PlugStatus, Error>(PlugStatus::Continue)
    } else {
        exists|claimed: bool|
            #[trigger] plug.name_answer(command_name_of(content, prefix), claimed) && if !claimed {
                r == Ok::<PlugStatus, Error>(PlugStatus::Continue)
            } else {
                exists|c: Command|
                    #[trigger] plug.command_answer(c, r) && c.name@ == command_name_of(
                        content,
                        prefix,
                    ) && texts(c.arguments@) == argument_words(command_rest_of(content, prefix))
                        && c.message == message
            }
    }
}

/// The default handling of a message: asks the handler for the prefix, and
/// where the message carries a command whose name the handler claims, hands
/// the command to `handle_command` and answers as it does; else answers
/// `Continue`, without asking about the name where there is no prefix.
pub fn handle_message<P: Plug>(plug: &P, message: &Message, context: &mut P::Context) -> (r:
    PlugResult)
    ensures
        exists|prefix: Seq<char>|
            #[trigger] plug.prefix_answer(*message, prefix) && message_outcome(
                plug,
                *message,
                prefix,
                r,
            ),
{
    let prefix = plug.command_prefix(message, context);
    let line = parse_command_line(message.content.as_str(), prefix.as_str());
    let claimed = match &line {
        Some(l) => plug.matches_name(l.name.as_str()),
        None => false,
    };
    let copy = message.copy();
    match command_for(line, claimed, copy) {
        Some(command) => {
            let ghost c = command;
            let r = plug.handle_command(&command, context);
            assert(plug.command_answer(c, r));
            assert(message_outcome(plug, *message, prefix@, r));
            r
        },
        None => {
            let r = Ok(PlugStatus::Continue);
            assert(message_outcome(plug, *message, prefix@, r));
            r
        },
    }
}

/// The default handling of an event: a created message is handled by
/// `handle_message`, any other event is answered with `Continue`.
pub fn handle_event<P: Plug>(plug: &P, event: &Event, context: &mut P::Context) -> (r:
    PlugResult)
    ensures
        match event {
            Event::MessageCreate(m) => exists|prefix: Seq<char>|
                #[trigger] plug.prefix_answer(*m, prefix) && message_outcome(plug, *m, prefix, r),
            _ => r == Ok::<PlugStatus, Error>(PlugStatus::Continue),
        },
{
    match message_of(event) {
        Some(message) => handle_message(plug, message, context),
        None => Ok(PlugStatus::Continue),
    }
}

/// The handlers of the chain, in the order they run.
pub struct PlugSet<P> {
    pub plugs: Vec<P>,
}

impl<P: Plug> PlugSet<P> {
    pub fn new() -> (r: PlugSet<P>)
        ensures
            r.plugs@.len() == 0,
    {
        PlugSet { plugs: Vec::new() }
    }

    /// Adds a handler at the end of the chain.
    pub fn push(&mut self, plug: P)
        ensures
            final(self).plugs@ == old(self).plugs@.push(plug),
    {
        self.plugs.push(plug);
    }

    /// Runs `handle_start` of each handler in order. A recoverable error is
    /// stepped over; only an unrecoverable one comes back.
    pub fn trigger_start(&self, context: &mut P::Context) -> (r: Result<(), Error>)
        ensures
            r matches Err(e) ==> !e.recoverable(),
            exists|results: Seq<PlugResult>|
                chain_outcome(self.plugs.len(), results, r) && forall|k: int|
                    0 <= k < results.len() ==> #[trigger] self.plugs@[k].start_answer(results[k]),
    {
        let mut dispatch = Dispatch::new(self.plugs.len());
        let ghost mut seen: Seq<PlugResult> = Seq::empty();
        loop
            invariant
                dispatch.count == self.plugs.len(),
                dispatch.position <= dispatch.count,
                dispatch.failure matches Some(e) ==> !e.recoverable(),
                dispatch == Dispatch::begin(self.plugs.len()).run(seen),
                seen.len() == dispatch.position,
                forall|k: int|
                    0 <= k < seen.len() ==> #[trigger] self.plugs@[k].start_answer(seen[k]),
            ensures
                dispatch.finished(),
            decreases dispatch.count - dispatch.position,
        {
            match dispatch.next_plug() {
                None => break,
                Some(i) => {
                    let result = self.plugs[i].handle_start(context);
                    proof {
                        lemma_run_push(Dispatch::begin(self.plugs.len()), seen, result);
                        seen = seen.push(result);
                        assert(seen[i as int] == result);
                    }
                    dispatch.record(result);
                },
            }
        }
        let r = dispatch.finish();
        assert(chain_outcome(self.plugs.len(), seen, r));
        r
    }

    /// Runs `handle_event` of each handler in order, until one asks to stop
    /// or fails beyond recovery. A recoverable error is stepped over; only an
    /// unrecoverable one comes back.
    pub fn trigger_event(&self, event: &Event, context: &mut P::Context) -> (r: Result<
        (),
        Error,
    >)
        ensures
            r matches Err(e) ==> !e.recoverable(),
            exists|results: Seq<PlugResult>|
                chain_outcome(self.plugs.len(), results, r) && forall|k: int|
                    0 <= k < results.len() ==> #[trigger] self.plugs@[k].event_answer(
                        *event,
                        results[k],
                    ),
    {
        let mut dispatch = Dispatch::new(self.plugs.len());
        let ghost mut seen: Seq<PlugResult> = Seq::empty();
        loop
            invariant
                dispatch.count == self.plugs.len(),
                dispatch.position <= dispatch.count,
                dispatch.failure matches Some(e) ==> !e.recoverable(),
                dispatch == Dispatch::begin(self.plugs.len()).run(seen),
                seen.len() == dispatch.position,
                forall|k: int|
                    0 <= k < seen.len() ==> #[trigger] self.plugs@[k].event_answer(*event, seen[k]),
            ensures
                dispatch.finished(),
            decreases dispatch.count - dispatch.position,
        {
            match dispatch.next_plug() {
                None => break,
                Some(i) => {
                    let result = self.plugs[i].handle_event(event, context);
                    proof {
                        lemma_run_push(Dispatch::begin(self.plugs.len()), seen, result);
                        seen = seen.push(result);
                        assert(seen[i as int] == result);
                    }
                    dispatch.record(result);
                },
            }
        }
        let r = dispatch.finish();
        assert(chain_outcome(self.plugs.len(), seen, r));
        r
    }
}

} // verus!
