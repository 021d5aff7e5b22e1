//! The build orchestrator's event protocol. Around each build it publishes
//! `Building`, then exactly one terminal event: `Success`, or `Error` with
//! a non-empty human-readable cause. A ticket handed out when the build
//! starts and consumed when it finishes makes a second terminal event for
//! the same build impossible, and builds recorded sequentially never
//! interleave their events.

use vstd::prelude::*;
use vstd::string::*;

use crate::bus::{lemma_observed_append, observed, EventBus};
use crate::events::BuildEvent;
use crate::pipeline::{is_first_error_at, PipelineOutput};

verus! {

/// A build event reduced to its content: the variant, and for an error
/// event the text of its message.
pub enum EventV {
    Building,
    Success,
    Error(Seq<char>),
}

/// The content of one event.
pub open spec fn event_view(e: BuildEvent) -> EventV {
    match e {
        BuildEvent::Building => EventV::Building,
        BuildEvent::Success => EventV::Success,
        BuildEvent::Error(m) => EventV::Error(m@),
    }
}

/// The content of a whole event log.
pub open spec fn log_view(log: Seq<BuildEvent>) -> Seq<EventV> {
    log.map_values(|e: BuildEvent| event_view(e))
}

/// A build outcome reduced to its content.
pub open spec fn outcome_view(outcome: Result<(), String>) -> Result<(), Seq<char>> {
    match outcome {
        Ok(_) => Ok(()),
        Err(m) => Err(m@),
    }
}

/// The cause carried by an error event: the failure's own message, or a
/// fixed fallback when that message is empty, so the cause is never blank.
pub open spec fn error_text(m: Seq<char>) -> Seq<char> {
    if m.len() == 0 {
        "build failed"@
    } else {
        m
    }
}

/// The terminal event recorded for a build outcome.
pub open spec fn terminal_of(o: Result<(), Seq<char>>) -> EventV {
    match o {
        Ok(_) => EventV::Success,
        Err(m) => EventV::Error(error_text(m)),
    }
}

/// Whether an event ends a build.
pub open spec fn is_terminal(e: EventV) -> bool {
    e is Success || e is Error
}

/// The events one recorded build contributes to the bus, in publish order.
pub open spec fn build_trace(o: Result<(), Seq<char>>) -> Seq<EventV> {
    seq![EventV::Building, terminal_of(o)]
}

/// Witness that a build was started and its terminal event is still owed;
/// consumed when the terminal event is published, so no build gets two.
pub struct BuildTicket {
    _started: (),
}

/// The build orchestrator: owns the event bus end on which it reports each
/// build it drives. Event delivery is best-effort; the value returned by
/// `finish_build` stays the authoritative outcome for the caller.
pub struct BuildSystem {
    pub bus: EventBus,
}

impl BuildSystem {
    pub fn new(bus: EventBus) -> (r: BuildSystem)
        ensures
            r.bus@ == bus@,
    {
        BuildSystem { bus }
    }

    /// Announce that a build is starting.
    pub fn start_build(&mut self) -> (t: BuildTicket)
        ensures
            final(self).bus@ == old(self).bus@.push(BuildEvent::Building),
            log_view(final(self).bus@) == log_view(old(self).bus@).push(EventV::Building),
    {
        self.bus.publish(BuildEvent::Building);
        proof {
            lemma_log_view_push(old(self).bus@, BuildEvent::Building);
        }
        BuildTicket { _started: () }
    }

    /// Record the outcome of the started build: publish its one terminal
    /// event and hand the outcome back unchanged, except that an empty
    /// failure message is replaced by the fixed non-empty cause.
    pub fn finish_build(&mut self, _ticket: BuildTicket, outcome: Result<(), String>) -> (r:
        Result<(), String>)
        ensures
            log_view(final(self).bus@) == log_view(old(self).bus@).push(
                terminal_of(outcome_view(outcome)),
            ),
            r is Ok <==> outcome is Ok,
            r is Err ==> r->Err_0@ == error_text(outcome->Err_0@) && r->Err_0@.len() > 0,
    {
        match outcome {
            Ok(()) => {
                proof {
                    lemma_log_view_push(self.bus@, BuildEvent::Success);
                }
                self.bus.publish(BuildEvent::Success);
                Ok(())
            },
            Err(m) => {
                let text = error_message(m);
                let copy = text.clone();
                proof {
                    lemma_log_view_push(self.bus@, BuildEvent::Error(text));
                }
                self.bus.publish(BuildEvent::Error(text));
                Err(copy)
            },
        }
    }

    /// Record one whole build: `Building`, then the terminal event for the
    /// work's outcome. Builds recorded one after the other contribute
    /// disjoint, contiguous event pairs and never interleave.
    pub fn build(&mut self, outcome: Result<(), String>) -> (r: Result<(), String>)
        ensures
            log_view(final(self).bus@) == log_view(old(self).bus@) + build_trace(
                outcome_view(outcome),
            ),
            r is Ok <==> outcome is Ok,
            r is Err ==> r->Err_0@ == error_text(outcome->Err_0@) && r->Err_0@.len() > 0,
    {
        let ghost o = outcome_view(outcome);
        let ticket = self.start_build();
        let r = self.finish_build(ticket, outcome);
        proof {
            assert(log_view(self.bus@) =~= log_view(old(self).bus@) + build_trace(o));
        }
        r
    }
}

/// The failure's message, or the fixed fallback when it is empty.
fn error_message(m: String) -> (r: String)
    ensures
        r@ == error_text(m@),
        r@.len() > 0,
{
    proof {
        reveal_strlit("build failed");
    }
    if m.as_str().unicode_len() == 0 {
        String::from_str("build failed")
    } else {
        m
    }
}

/// Mapping an event log's view distributes over appending one event.
proof fn lemma_log_view_push(log: Seq<BuildEvent>, e: BuildEvent)
    ensures
        log_view(log.push(e)) == log_view(log).push(event_view(e)),
{
    assert(log_view(log.push(e)) =~= log_view(log).push(event_view(e)));
}

/// Law: for every build outcome, a `Building` event precedes the
/// corresponding terminal event, and no terminal event occurs more than
/// once in the build's trace.
pub proof fn lemma_building_precedes_terminal(o: Result<(), Seq<char>>)
    ensures
        build_trace(o).len() == 2,
        build_trace(o)[0] == EventV::Building,
        is_terminal(build_trace(o)[1]),
        forall|i: int| 0 <= i < build_trace(o).len() && is_terminal(#[trigger] build_trace(o)[i])
            ==> i == 1,
{
}

/// Law: when any spawned node fails, the document pipeline's result is the
/// first failure, and the build recorded for it emits exactly one `Error`
/// event, carrying a non-empty message.
pub proof fn lemma_node_failure_surfaces(
    node_results: Seq<Result<PipelineOutput, String>>,
    i: int,
    e: String,
)
    requires
        is_first_error_at(node_results, i),
        e == node_results[i]->Err_0,
    ensures
        build_trace(Err(e@)).len() == 2,
        build_trace(Err(e@))[1] is Error,
        build_trace(Err(e@))[1]->Error_0.len() > 0,
        forall|j: int| 0 <= j < build_trace(Err(e@)).len() && #[trigger] build_trace(Err(e@))[j]
            is Error ==> j == 1,
{
    reveal_strlit("build failed");
}

/// Law: a subscriber registered while the bus log was `pre` observes,
/// after one build whose events `post` were then published, exactly that
/// build's `Building`-then-terminal pair, in publish order; a subscriber
/// registered after the build observes none of its events.
pub proof fn lemma_stream_delivery(
    pre: Seq<BuildEvent>,
    post: Seq<BuildEvent>,
    o: Result<(), Seq<char>>,
)
    requires
        log_view(post) == build_trace(o),
    ensures
        log_view(observed(pre + post, pre.len() as int)) == build_trace(o),
        observed(pre + post, (pre + post).len() as int) == Seq::<BuildEvent>::empty(),
{
    lemma_observed_append(pre, post);
}

} // verus!
