//! The run loop: it owns the polling handle and the registration table, registers and
//! deregisters handlers, and dispatches each batch of ready events.
//!
//! Waiting itself is done by the caller, who hands the result of each wait to `step`.

use vstd::prelude::*;
use crate::errors::{EPollAddError, EPollDeleteError, EPollModifyError, EPollWaitError};
use crate::flags::{EPollAddFlags, EPollModifyFlags};
use crate::outcome::Fatal;
use crate::reactor::{EventPoll, Reactor, ReadyEvent};
use crate::registration_table::{Delivery, Registration, RegistrationTable};

verus! {

/// A call that the run loop made on its polling handle.
pub enum PollCall {
    Add { fd: i32, flags: u32, token: u64 },
    Modify { fd: i32, flags: u32, token: u64 },
    Delete { fd: i32 },
}

/// How a batch of ready events was dispatched.
#[derive(Debug, Clone, Copy, PartialEq, Eq, Structural)]
pub enum Dispatch {
    /// Every event was handed to its handler, or dropped as stale.
    Completed,
    /// The handler of the event at this index failed; its registration was deleted and
    /// removed, and later events were discarded.
    HandlerFailed(usize),
    /// The event at this index carried a token that was never handed out; later events
    /// were discarded.
    UnknownToken(usize),
}

/// What the caller of `step` should do next.
#[derive(Debug, Clone, Copy, PartialEq, Eq, Structural)]
pub enum LoopStep {
    /// Wait again, if the loop should continue.
    Continue,
    /// A handler failed: stop the loop.
    HandlerFailed,
    /// The registration table and the kernel disagree: stop the process.
    Fatal(Fatal),
}

/// `n` successful reactions.
pub open spec fn successes(n: nat) -> Seq<bool> {
    Seq::new(n, |i: int| true)
}

/// The events of `events` whose tokens are in `live`, in order.
pub open spec fn live_events(events: Seq<ReadyEvent>, live: Set<u64>) -> Seq<ReadyEvent>
    decreases events.len(),
{
    if events.len() == 0 {
        Seq::<ReadyEvent>::empty()
    } else {
        let earlier = live_events(events.drop_last(), live);
        if live.contains(events.last().token) {
            earlier.push(events.last())
        } else {
            earlier
        }
    }
}

/// Owns a polling handle and the table of registrations made on it.
pub struct RunLoop<P, H> {
    event_poll: Option<P>,
    table: RegistrationTable<H>,
    calls: Ghost<Seq<PollCall>>,
    reactions: Ghost<Seq<ReadyEvent>>,
    reaction_results: Ghost<Seq<bool>>,
}

impl<P, H> RunLoop<P, H> {
    /// The loop's internal invariant.
    pub closed spec fn wf(&self) -> bool {
        self.table.wf()
    }

    /// Whether the loop still owns its polling handle.
    pub open spec fn spec_is_running(&self) -> bool {
        self.spec_event_poll() is Some
    }

    /// The polling handle, while the loop owns one.
    pub closed spec fn spec_event_poll(&self) -> Option<P> {
        self.event_poll
    }

    /// The current registrations, by token.
    pub closed spec fn registrations(&self) -> Map<u64, Registration<H>> {
        self.table@
    }

    /// Every token handed out so far.
    pub closed spec fn issued(&self) -> Set<u64> {
        self.table.issued()
    }

    /// Whether another registration can be made.
    pub closed spec fn spec_has_room(&self) -> bool {
        self.table.spec_has_room()
    }

    /// The calls this loop has made on its polling handle, oldest first.
    pub closed spec fn calls(&self) -> Seq<PollCall> {
        self.calls@
    }

    /// The events this loop has handed to handlers, oldest first.
    pub closed spec fn reactions(&self) -> Seq<ReadyEvent> {
        self.reactions@
    }

    /// Whether each handler of `reactions()` succeeded, in the same order.
    pub closed spec fn reaction_results(&self) -> Seq<bool> {
        self.reaction_results@
    }

    /// The loop once its polling handle has been given up.
    pub closed spec fn spec_stopped(self) -> Self {
        RunLoop { event_poll: None, ..self }
    }

    /// A loop that owns `event_poll` and has no registrations.
    pub fn new(event_poll: P) -> (r: Self)
        ensures
            r.wf(),
            r.spec_event_poll() == Some(event_poll),
            r.registrations() == Map::<u64, Registration<H>>::empty(),
            r.issued() == Set::<u64>::empty(),
            r.spec_has_room(),
            r.calls() == Seq::<PollCall>::empty(),
            r.reactions() == Seq::<ReadyEvent>::empty(),
            r.reaction_results() == Seq::<bool>::empty(),
    {
        RunLoop {
            event_poll: Some(event_poll),
            table: RegistrationTable::new(),
            calls: Ghost(Seq::empty()),
            reactions: Ghost(Seq::empty()),
            reaction_results: Ghost(Seq::empty()),
        }
    }

    /// Whether the loop still owns its polling handle.
    pub fn is_running(&self) -> (r: bool)
        ensures
            r == self.spec_is_running(),
    {
        self.event_poll.is_some()
    }

    /// The polling handle, while the loop owns one.
    pub fn event_poll(&self) -> (r: Option<&P>)
        ensures
            r is Some == self.spec_event_poll() is Some,
            r is Some ==> *r.unwrap() == self.spec_event_poll().unwrap(),
    {
        self.event_poll.as_ref()
    }

    /// Whether another registration can be made.
    pub fn has_room(&self) -> (r: bool)
        requires
            self.wf(),
        ensures
            r == self.spec_has_room(),
    {
        self.table.has_room()
    }

    /// Whether `token` names a current registration.
    pub fn is_registered(&self, token: u64) -> (r: bool)
        ensures
            r == self.registrations().contains_key(token),
    {
        self.table.contains(token)
    }

    /// Whether the loop holds no registration.
    pub fn has_no_registrations(&self) -> (r: bool)
        requires
            self.wf(),
        ensures
            r == (self.registrations() == Map::<u64, Registration<H>>::empty()),
    {
        self.table.is_empty()
    }

    /// Gives up the polling handle, for the caller to release; only the first call
    /// hands it out.
    pub fn stop(&mut self) -> (r: Option<P>)
        ensures
            *final(self) == old(self).spec_stopped(),
            !final(self).spec_is_running(),
            final(self).registrations() == old(self).registrations(),
            r == old(self).spec_event_poll(),
    {
        self.event_poll.take()
    }
}

/// Whether `after` is `before` with `handler` registered for `fd` and `flags` under the
/// fresh `token`, after one add call on the polling handle.
pub open spec fn spec_registered<P, H>(
    before: RunLoop<P, H>,
    after: RunLoop<P, H>,
    fd: i32,
    flags: u32,
    handler: H,
    token: u64,
) -> bool {
    &&& !before.issued().contains(token)
    &&& after.issued() == before.issued().insert(token)
    &&& after.registrations() == before.registrations().insert(
        token,
        Registration { fd, flags, handler },
    )
    &&& after.calls() == before.calls().push(PollCall::Add { fd, flags, token })
    &&& after.reactions() == before.reactions()
    &&& after.reaction_results() == before.reaction_results()
    &&& after.spec_event_poll() == before.spec_event_poll()
}

/// Whether `after` is `before` without the registration under `token`, after one delete
/// call on the polling handle for its file descriptor.
pub open spec fn spec_deregistered<P, H>(before: RunLoop<P, H>, after: RunLoop<P, H>, token: u64) -> bool {
    &&& before.registrations().contains_key(token)
    &&& after.issued() == before.issued()
    &&& after.registrations() == before.registrations().remove(token)
    &&& after.calls() == before.calls().push(
        PollCall::Delete { fd: before.registrations()[token].fd },
    )
    &&& after.reactions() == before.reactions()
    &&& after.reaction_results() == before.reaction_results()
    &&& after.spec_event_poll() == before.spec_event_poll()
}

/// Whether `after` is `before` after one modify call on the polling handle that asked
/// for `flags` on the registration under `token`; the table records the new flags only
/// if the call `succeeded`.
pub open spec fn spec_modified<P, H>(
    before: RunLoop<P, H>,
    after: RunLoop<P, H>,
    token: u64,
    flags: u32,
    succeeded: bool,
) -> bool {
    &&& before.registrations().contains_key(token)
    &&& after.issued() == before.issued()
    &&& after.calls() == before.calls().push(
        PollCall::Modify { fd: before.registrations()[token].fd, flags, token },
    )
    &&& after.reactions() == before.reactions()
    &&& after.reaction_results() == before.reaction_results()
    &&& after.spec_event_poll() == before.spec_event_poll()
    &&& after.registrations() == if succeeded {
        before.registrations().insert(token, Registration { flags, ..before.registrations()[token] })
    } else {
        before.registrations()
    }
}

/// Whether `after` holds the registrations of `before` under the same tokens, with the
/// same file descriptors and flags; handlers may have changed their own state.
pub open spec fn same_registrations<H>(
    before: Map<u64, Registration<H>>,
    after: Map<u64, Registration<H>>,
) -> bool {
    &&& after.dom() == before.dom()
    &&& forall|t: u64| #[trigger]
        after.contains_key(t) ==> after[t].fd == before[t].fd && after[t].flags == before[t].flags
}

/// Whether dispatching `events` took `before` to `after` with result `dispatch`: events
/// were handed to handlers in order, stale ones dropped, and dispatch went on while the
/// handlers succeeded; it stopped at the first handler that failed, whose registration
/// was then deleted and removed, or at the first token never handed out.
pub open spec fn spec_dispatched<P, H>(
    before: RunLoop<P, H>,
    after: RunLoop<P, H>,
    events: Seq<ReadyEvent>,
    dispatch: Dispatch,
) -> bool {
    let live = before.registrations().dom();
    &&& after.issued() == before.issued()
    &&& after.spec_event_poll() == before.spec_event_poll()
    &&& match dispatch {
        Dispatch::Completed => {
            &&& forall|j: int| 0 <= j < events.len() ==> before.issued().contains(#[trigger] events[j].token)
            &&& after.reactions() == before.reactions() + live_events(events, live)
            &&& after.reaction_results() == before.reaction_results() + successes(
                live_events(events, live).len(),
            )
            &&& after.calls() == before.calls()
            &&& same_registrations(before.registrations(), after.registrations())
        },
        Dispatch::HandlerFailed(k) => {
            let failed = events[k as int].token;
            &&& k < events.len()
            &&& live.contains(failed)
            &&& forall|j: int| 0 <= j < k ==> before.issued().contains(#[trigger] events[j].token)
            &&& after.reactions() == before.reactions() + live_events(events.take(k + 1), live)
            &&& after.reaction_results() == before.reaction_results() + successes(
                (live_events(events.take(k + 1), live).len() - 1) as nat,
            ).push(false)
            &&& after.calls() == before.calls().push(
                PollCall::Delete { fd: before.registrations()[failed].fd },
            )
            &&& same_registrations(before.registrations().remove(failed), after.registrations())
        },
        Dispatch::UnknownToken(k) => {
            &&& k < events.len()
            &&& !before.issued().contains(events[k as int].token)
            &&& forall|j: int| 0 <= j < k ==> before.issued().contains(#[trigger] events[j].token)
            &&& after.reactions() == before.reactions() + live_events(events.take(k as int), live)
            &&& after.reaction_results() == before.reaction_results() + successes(
                live_events(events.take(k as int), live).len(),
            )
            &&& after.calls() == before.calls()
            &&& same_registrations(before.registrations(), after.registrations())
        },
    }
}

impl<P: EventPoll, H: Reactor> RunLoop<P, H> {
    /// Registers `handler` for `fd`: hands out a fresh token, records the registration,
    /// then adds `fd` to the polling handle with `flags` and that token.
    ///
    /// If the add fails the registration is rolled back and the error returned.
    pub fn register(&mut self, fd: i32, flags: EPollAddFlags, handler: H) -> (r: Result<u64, EPollAddError>)
        requires
            old(self).wf(),
            old(self).spec_is_running(),
            old(self).spec_has_room(),
        ensures
            final(self).wf(),
            r matches Ok(token) ==> spec_registered(*old(self), *final(self), fd, flags.bits, handler, token),
            r is Err ==> {
                &&& final(self).registrations() == old(self).registrations()
                &&& final(self).calls().len() == old(self).calls().len() + 1
                &&& final(self).calls().drop_last() == old(self).calls()
                &&& final(self).calls().last() matches PollCall::Add { fd: f, flags: g, token: t }
                    && f == fd && g == flags.bits && !old(self).issued().contains(t)
                &&& final(self).reactions() == old(self).reactions()
                &&& final(self).reaction_results() == old(self).reaction_results()
                &&& final(self).spec_event_poll() == old(self).spec_event_poll()
                &&& old(self).issued().subset_of(final(self).issued())
            },
    {
        let token = self.table.insert(fd, flags.bits, handler);
        let ghost inserted = self.table@;
        self.calls = Ghost(self.calls@.push(PollCall::Add { fd, flags: flags.bits, token }));
        let added = match &self.event_poll {
            Some(event_poll) => event_poll.add(fd, flags, token),
            None => Ok(()),
        };
        let r = self.finish_register(token, added);
        proof {
            assert(inserted.remove(token) =~= old(self).table@);
        }
        r
    }

    /// Completes the registration under `token` once the polling handle's add reported
    /// `added`: on success the registration stays and its token is returned; on failure
    /// it is removed and the add's error returned.
    pub fn finish_register(&mut self, token: u64, added: Result<(), EPollAddError>) -> (r: Result<u64, EPollAddError>)
        requires
            old(self).wf(),
            old(self).registrations().contains_key(token),
        ensures
            final(self).wf(),
            added is Ok ==> r == Ok::<u64, EPollAddError>(token) && *final(self) == *old(self),
            added matches Err(e) ==> {
                &&& r == Err::<u64, EPollAddError>(e)
                &&& final(self).registrations() == old(self).registrations().remove(token)
                &&& final(self).issued() == old(self).issued()
                &&& final(self).calls() == old(self).calls()
                &&& final(self).reactions() == old(self).reactions()
                &&& final(self).reaction_results() == old(self).reaction_results()
                &&& final(self).spec_event_poll() == old(self).spec_event_poll()
            },
    {
        match added {
            Ok(()) => Ok(token),
            Err(error) => {
                let _ = self.table.remove(token);
                Err(error)
            },
        }
    }

    /// Deregisters the handler under `token`: deletes its file descriptor from the polling
    /// handle, then removes the registration whatever the delete reported, and hands back
    /// the registration with the delete's result.
    pub fn deregister(&mut self, token: u64) -> (r: (Registration<H>, Result<(), EPollDeleteError>))
        requires
            old(self).wf(),
            old(self).spec_is_running(),
            old(self).registrations().contains_key(token),
        ensures
            final(self).wf(),
            spec_deregistered(*old(self), *final(self), token),
            r.0 == old(self).registrations()[token],
    {
        let fd = match self.table.fd(token) {
            Some(fd) => fd,
            None => 0,
        };
        self.calls = Ghost(self.calls@.push(PollCall::Delete { fd }));
        let deleted = match &self.event_poll {
            Some(event_poll) => event_poll.delete(fd),
            None => Ok(()),
        };
        let registration = self.table.remove(token).unwrap();
        (registration, deleted)
    }

    /// Changes the flags of the registration under `token`, keeping its token.
    pub fn modify(&mut self, token: u64, flags: EPollModifyFlags) -> (r: Result<(), EPollModifyError>)
        requires
            old(self).wf(),
            old(self).spec_is_running(),
            old(self).registrations().contains_key(token),
        ensures
            final(self).wf(),
            final(self).spec_has_room() == old(self).spec_has_room(),
            spec_modified(*old(self), *final(self), token, flags.bits, r is Ok),
    {
        let fd = match self.table.fd(token) {
            Some(fd) => fd,
            None => 0,
        };
        self.calls = Ghost(self.calls@.push(PollCall::Modify { fd, flags: flags.bits, token }));
        let modified = match &self.event_poll {
            Some(event_poll) => event_poll.modify(fd, flags, token),
            None => Ok(()),
        };
        self.finish_modify(token, flags.bits, modified)
    }

    /// Completes a modify of the registration under `token` to `flags` once the polling
    /// handle reported `modified`: the table records the new flags only on success, and
    /// the result is handed on.
    pub fn finish_modify(&mut self, token: u64, flags: u32, modified: Result<(), EPollModifyError>) -> (r: Result<(), EPollModifyError>)
        requires
            old(self).wf(),
            old(self).registrations().contains_key(token),
        ensures
            final(self).wf(),
            r == modified,
            final(self).spec_has_room() == old(self).spec_has_room(),
            modified is Ok ==> {
                &&& final(self).registrations() == old(self).registrations().insert(
                    token,
                    Registration { flags, ..old(self).registrations()[token] },
                )
                &&& final(self).issued() == old(self).issued()
                &&& final(self).calls() == old(self).calls()
                &&& final(self).reactions() == old(self).reactions()
                &&& final(self).reaction_results() == old(self).reaction_results()
                &&& final(self).spec_event_poll() == old(self).spec_event_poll()
            },
            modified is Err ==> *final(self) == *old(self),
    {
        if modified.is_ok() {
            self.table.set_flags(token, flags);
        }
        modified
    }

    /// Acts on what the handler of `event`, the event at `index` of the batch being
    /// dispatched, returned: on success dispatch goes on; on failure the registration's
    /// file descriptor is deleted from the polling handle, the registration is removed,
    /// and dispatch stops.
    pub fn after_reaction(&mut self, index: usize, event: ReadyEvent, reacted: Result<(), ()>) -> (r: Option<Dispatch>)
        requires
            old(self).wf(),
            old(self).registrations().contains_key(event.token),
        ensures
            final(self).wf(),
            reacted is Ok ==> r is None && *final(self) == *old(self),
            reacted is Err ==> {
                &&& r == Some(Dispatch::HandlerFailed(index))
                &&& final(self).registrations() == old(self).registrations().remove(event.token)
                &&& final(self).calls() == old(self).calls().push(
                    PollCall::Delete { fd: old(self).registrations()[event.token].fd },
                )
                &&& final(self).issued() == old(self).issued()
                &&& final(self).reactions() == old(self).reactions()
                &&& final(self).reaction_results() == old(self).reaction_results()
                &&& final(self).spec_event_poll() == old(self).spec_event_poll()
                &&& old(self).spec_has_room() ==> final(self).spec_has_room()
            },
    {
        if reacted.is_ok() {
            return None;
        }
        let fd = match self.table.fd(event.token) {
            Some(fd) => fd,
            None => 0,
        };
        self.calls = Ghost(self.calls@.push(PollCall::Delete { fd }));
        let _ = match &self.event_poll {
            Some(event_poll) => event_poll.delete(fd),
            None => Ok(()),
        };
        let _ = self.table.remove(event.token);
        Some(Dispatch::HandlerFailed(index))
    }

    /// Hands each event of one batch, in order, to the handler registered under its
    /// token. Events for registrations already removed are dropped. Dispatch stops at the
    /// first handler that fails, whose file descriptor is then deleted from the polling
    /// handle and whose registration is removed, or at the first token never handed out;
    /// the events after it are discarded.
    pub fn dispatch(&mut self, events: &[ReadyEvent]) -> (r: Dispatch)
        requires
            old(self).wf(),
            old(self).spec_is_running(),
        ensures
            final(self).wf(),
            old(self).spec_has_room() ==> final(self).spec_has_room(),
            spec_dispatched(*old(self), *final(self), events@, r),
    {
        let ghost live = self.table@.dom();
        let mut i: usize = 0;
        while i < events.len()
            invariant
                self.wf(),
                self.event_poll is Some,
                i <= events@.len(),
                live == old(self).table@.dom(),
                self.table.issued() == old(self).table.issued(),
                self.table.spec_has_room() == old(self).table.spec_has_room(),
                self.calls@ == old(self).calls@,
                self.event_poll == old(self).event_poll,
                same_registrations(old(self).table@, self.table@),
                forall|j: int| 0 <= j < i ==> old(self).table.issued().contains(#[trigger] events@[j].token),
                self.reactions@ == old(self).reactions@ + live_events(events@.take(i as int), live),
                self.reaction_results@ == old(self).reaction_results@ + successes(
                    live_events(events@.take(i as int), live).len(),
                ),
            decreases events@.len() - i,
        {
            let event = events[i];
            let ghost before = self.table@;
            let delivery = match &self.event_poll {
                Some(event_poll) => self.table.deliver(event_poll, event),
                None => Delivery::Unknown,
            };
            proof {
                assert(events@.take(i + 1).drop_last() == events@.take(i as int));
                assert(events@.take(i + 1).last() == event);
                assert forall|t: u64| #[trigger] self.table@.contains_key(t) implies self.table@[t].fd
                    == old(self).table@[t].fd && self.table@[t].flags == old(self).table@[t].flags by {
                    assert(before.contains_key(t));
                }
            }
            match delivery {
                Delivery::Reacted(reacted) => {
                    let ghost done = live_events(events@.take(i as int), live).len();
                    let ghost results_before = self.reaction_results@;
                    assert(results_before == old(self).reaction_results@ + successes(done));
                    proof {
                        assert(live.contains(event.token));
                        assert(live_events(events@.take(i + 1), live) == live_events(
                            events@.take(i as int),
                            live,
                        ).push(event));
                    }
                    self.reactions = Ghost(self.reactions@.push(event));
                    self.reaction_results = Ghost(self.reaction_results@.push(reacted is Ok));
                    proof {
                        assert(self.reactions@ =~= old(self).reactions@ + live_events(events@.take(i + 1), live));
                        assert(self.reaction_results@ == results_before.push(reacted is Ok));
                        if reacted is Ok {
                            assert(self.reaction_results@ =~= old(self).reaction_results@ + successes(
                                done + 1,
                            ));
                        } else {
                            assert(self.reaction_results@ =~= old(self).reaction_results@ + successes(
                                done,
                            ).push(false));
                        }
                    }
                    match self.after_reaction(i, event, reacted) {
                        Some(stop) => {
                            proof {
                                assert(self.table@.dom() =~= old(self).table@.remove(event.token).dom());
                            }
                            return stop;
                        },
                        None => {},
                    }
                },
                Delivery::Stale => {
                    proof {
                        assert(live_events(events@.take(i + 1), live) == live_events(
                            events@.take(i as int),
                            live,
                        ));
                    }
                },
                Delivery::Unknown => {
                    return Dispatch::UnknownToken(i);
                },
            }
            i = i + 1;
        }
        assert(events@.take(events@.len() as int) == events@);
        Dispatch::Completed
    }

    /// Acts on the result of one wait: an interrupted wait changes nothing and the loop
    /// goes on; a batch of events is dispatched.
    pub fn step(&mut self, waited: Result<&[ReadyEvent], EPollWaitError>) -> (r: LoopStep)
        requires
            old(self).wf(),
            old(self).spec_is_running(),
        ensures
            final(self).wf(),
            waited is Err ==> r == LoopStep::Continue && *final(self) == *old(self),
            waited matches Ok(events) ==> {
                ||| r == LoopStep::Continue && spec_dispatched(*old(self), *final(self), events@, Dispatch::Completed)
                ||| r == LoopStep::HandlerFailed && exists|k: usize|
                    #[trigger] spec_dispatched(*old(self), *final(self), events@, Dispatch::HandlerFailed(k))
                ||| r == LoopStep::Fatal(Fatal::UnknownToken) && exists|k: usize|
                    #[trigger] spec_dispatched(*old(self), *final(self), events@, Dispatch::UnknownToken(k))
            },
    {
        match waited {
            Err(EPollWaitError::Interrupted) => LoopStep::Continue,
            Ok(events) => match self.dispatch(events) {
                Dispatch::Completed => LoopStep::Continue,
                Dispatch::HandlerFailed(_) => LoopStep::HandlerFailed,
                Dispatch::UnknownToken(_) => LoopStep::Fatal(Fatal::UnknownToken),
            },
        }
    }
}

/// Stopping a loop twice leaves it as stopping it once, and the second stop hands out no
/// polling handle, so the handle is released at most once.
pub proof fn lemma_stop_is_idempotent<P, H>(run_loop: RunLoop<P, H>)
    ensures
        run_loop.spec_stopped().spec_stopped() == run_loop.spec_stopped(),
        run_loop.spec_stopped().spec_event_poll() is None,
        run_loop.spec_stopped().registrations() == run_loop.registrations(),
        run_loop.spec_stopped().calls() == run_loop.calls(),
{
}

} // verus!

verus! {

/// Registering and then at once deregistering leaves the registrations as they were, and
/// makes exactly one add and one delete call on the polling handle, for the same file
/// descriptor.
pub proof fn lemma_register_then_deregister<P, H>(
    start: RunLoop<P, H>,
    registered: RunLoop<P, H>,
    end: RunLoop<P, H>,
    fd: i32,
    flags: u32,
    handler: H,
    token: u64,
)
    requires
        spec_registered(start, registered, fd, flags, handler, token),
        spec_deregistered(registered, end, token),
    ensures
        end.registrations() == start.registrations(),
        start.registrations() == Map::<u64, Registration<H>>::empty() ==> end.registrations()
            == Map::<u64, Registration<H>>::empty(),
        end.calls() == start.calls() + seq![PollCall::Add { fd, flags, token }, PollCall::Delete { fd }],
        end.reactions() == start.reactions(),
{
    start.table.lemma_registered_tokens_issued(token);
    assert(end.registrations() =~= start.registrations());
    assert(end.calls() =~= start.calls() + seq![PollCall::Add { fd, flags, token }, PollCall::Delete { fd }]);
}

/// Two registrations made one after the other on one loop get different tokens, whatever
/// happened between them, as long as the set of handed-out tokens did not shrink (no
/// operation of the loop shrinks it).
pub proof fn lemma_tokens_distinct<P, H>(
    first_before: RunLoop<P, H>,
    first_after: RunLoop<P, H>,
    second_before: RunLoop<P, H>,
    second_after: RunLoop<P, H>,
    first_fd: i32,
    first_flags: u32,
    first_handler: H,
    first_token: u64,
    second_fd: i32,
    second_flags: u32,
    second_handler: H,
    second_token: u64,
)
    requires
        spec_registered(first_before, first_after, first_fd, first_flags, first_handler, first_token),
        first_after.issued().subset_of(second_before.issued()),
        spec_registered(second_before, second_after, second_fd, second_flags, second_handler, second_token),
    ensures
        first_token != second_token,
{
    assert(first_after.issued().contains(first_token));
}

/// After a successful modify of the registration under `token` to `flags`, the token
/// still names the same file descriptor and handler, now with `flags`, and the polling
/// handle was asked for exactly those flags under that token.
pub proof fn lemma_modify_round_trip<P, H>(
    before: RunLoop<P, H>,
    after: RunLoop<P, H>,
    token: u64,
    flags: u32,
)
    requires
        spec_modified(before, after, token, flags, true),
    ensures
        after.registrations().contains_key(token),
        after.registrations()[token].flags == flags,
        after.registrations()[token].fd == before.registrations()[token].fd,
        after.registrations()[token].handler == before.registrations()[token].handler,
        after.calls().last() == (PollCall::Modify { fd: before.registrations()[token].fd, flags, token }),
{
}

} // verus!
