//! The per-port link state machine.
//!
//! One link owns one physical serial handle and runs two loops: a reconnect
//! loop that keeps reopening the port, and a read/write loop that races four
//! sources — incoming bytes, inbound commands, the heartbeat timer, and the
//! acknowledgement timeout. The decisions of both loops are pure functions
//! here: each loop iteration observes one [`LinkEvent`] and calls
//! [`Link::handle`], which returns the new state together with the actions
//! (channel sends, waiter wake-ups, handle drops) the loop must perform.

use vstd::prelude::*;

use crate::config::SerialPortConfig;

verus! {

/// Commands a link accepts on its inbound queue.
#[derive(Clone, Debug)]
pub enum ToPortEvent {
    /// Write bytes to the port; when `need_ack` is set the link then waits
    /// for an acknowledgement (if its timeout window is nonzero).
    Write { data: Vec<u8>, need_ack: bool },
    /// External satisfaction of the current wait: some consumer decided a
    /// frame counts as the acknowledgement.
    Ack,
    /// Satisfy the current wait without data, as a heartbeat response does.
    Heartbeat,
    /// Leave the read/write loop.
    Stop,
}

/// Lifecycle events a link emits upstream.
#[derive(Clone, Copy, Debug, PartialEq, Eq, Structural)]
pub enum FromPortEvent {
    /// The acknowledgement of an application write arrived in time.
    Ack,
    /// The acknowledgement window of an application write elapsed.
    Timeout,
    /// The acknowledgement of a heartbeat arrived in time.
    HeartbeatAck,
    /// The acknowledgement window of a heartbeat elapsed.
    HeartbeatTimeout,
    /// The read/write loop exited; nothing follows.
    Close,
}

/// Events a link forwards downstream to the caller-supplied parser.
#[derive(Clone, Debug)]
pub enum DataParserEvent {
    /// A chunk of bytes read from the port.
    Data { data: Vec<u8> },
    /// The link closed; the stream ends here.
    Close,
}

/// Events the parser hands on to the caller-supplied frame handler.
#[derive(Clone, Debug)]
pub enum FrameHandlerEvent {
    /// One decoded frame.
    Data { data: Vec<u8> },
    /// The parser closed; the stream ends here.
    Close,
}

/// The mutable part of a link: connection, wait and stop flags.
#[derive(Clone, Copy, Debug, PartialEq, Eq, Structural)]
pub struct LinkState {
    /// A serial handle is currently held.
    pub connected: bool,
    /// An acknowledgement wait is outstanding.
    pub awaiting_ack: bool,
    /// The outstanding wait belongs to a heartbeat, not an application write.
    pub heartbeat_pending: bool,
    /// The read/write loop has exited; no further transitions occur.
    pub stopped: bool,
}

/// What the read/write loop observed in one iteration of its four-way race.
#[derive(Clone, Debug)]
pub enum LinkEvent {
    /// The port yielded bytes; `is_ack` says whether the caller-supplied
    /// codec decodes them to an acknowledgement frame.
    Received { data: Vec<u8>, is_ack: bool },
    /// The port yielded a zero-length read.
    ReceivedEmpty,
    /// Reading from the port failed.
    ReadFailed,
    /// A `Write` command was taken from the queue and the port write ran,
    /// successfully or not.
    Wrote { need_ack: bool, ok: bool },
    /// An `Ack` command was taken from the queue.
    AckCommand,
    /// A `Heartbeat` command was taken from the queue.
    HeartbeatCommand,
    /// A `Stop` command was taken from the queue.
    StopCommand,
    /// The command queue closed: no sender is left.
    CommandChannelClosed,
    /// The heartbeat timer fired and the generated bytes were written,
    /// successfully or not.
    HeartbeatWrote { ok: bool },
    /// The outstanding wait resolved: the waiter was notified in time, or
    /// the timeout window elapsed first.
    AckResolved { timed_out: bool },
    /// The reconnect loop reopened the port.
    Reconnected,
}

/// What a loop must do after a step: every action is a plain effect with no
/// further decision in it.
#[derive(Clone, Debug)]
pub enum LinkAction {
    /// Send this event downstream to the parser.
    ForwardParser { event: DataParserEvent },
    /// Send this event upstream on the link's event channel.
    EmitEvent { event: FromPortEvent },
    /// Wake the single acknowledgement waiter.
    NotifyWaiter,
    /// Discard the serial handle; the reconnect loop will reopen it.
    DropHandle,
}

/// One link: its immutable settings and its current state.
#[derive(Clone, Debug)]
pub struct Link {
    pub config: SerialPortConfig,
    /// A heartbeat generator was supplied at construction.
    pub heartbeat_enabled: bool,
    /// Idle interval after which the heartbeat timer fires, in milliseconds.
    pub heartbeat_interval_ms: u64,
    pub state: LinkState,
}

/// The heartbeat timer is armed only while a generator is configured and no
/// acknowledgement wait is outstanding.
pub open spec fn spec_heartbeat_ready(link: Link) -> bool {
    link.heartbeat_enabled && !link.state.awaiting_ack
}

/// Which events can reach a link in a given state. The loop structure
/// enforces these: nothing is observed after the loop exits, port events need
/// a handle, the heartbeat fires only when armed, and a wait resolves only
/// while one is outstanding.
pub open spec fn event_allowed(link: Link, event: LinkEvent) -> bool {
    &&& !link.state.stopped
    &&& match event {
        LinkEvent::Received { .. } => link.state.connected,
        LinkEvent::ReceivedEmpty => link.state.connected,
        LinkEvent::ReadFailed => link.state.connected,
        LinkEvent::Wrote { .. } => link.state.connected,
        LinkEvent::AckCommand => link.state.connected,
        LinkEvent::HeartbeatCommand => link.state.connected,
        LinkEvent::StopCommand => link.state.connected,
        LinkEvent::CommandChannelClosed => link.state.connected,
        LinkEvent::HeartbeatWrote { .. } => link.state.connected && spec_heartbeat_ready(link),
        LinkEvent::AckResolved { .. } => link.state.connected && link.state.awaiting_ack,
        LinkEvent::Reconnected => !link.state.connected,
    }
}

/// The event emitted upstream when an outstanding wait resolves.
pub open spec fn resolution_event(heartbeat_pending: bool, timed_out: bool) -> FromPortEvent {
    if heartbeat_pending {
        if timed_out {
            FromPortEvent::HeartbeatTimeout
        } else {
            FromPortEvent::HeartbeatAck
        }
    } else {
        if timed_out {
            FromPortEvent::Timeout
        } else {
            FromPortEvent::Ack
        }
    }
}

/// The state after one step. An acknowledgement wait is entered only by a
/// successful write that asks for one on a port with a nonzero timeout
/// window, or by a successful heartbeat write; it is left exactly when the
/// wait resolves. I/O failures drop the handle and nothing else.
pub open spec fn step_state(link: Link, event: LinkEvent) -> LinkState {
    let s = link.state;
    match event {
        LinkEvent::Received { .. } => s,
        LinkEvent::ReceivedEmpty => s,
        LinkEvent::ReadFailed => LinkState { connected: false, ..s },
        LinkEvent::Wrote { need_ack, ok } => if ok {
            LinkState {
                awaiting_ack: need_ack && link.config.timeout_ms > 0,
                heartbeat_pending: false,
                ..s
            }
        } else {
            LinkState { connected: false, heartbeat_pending: false, ..s }
        },
        LinkEvent::AckCommand => s,
        LinkEvent::HeartbeatCommand => s,
        LinkEvent::StopCommand => LinkState { stopped: true, ..s },
        LinkEvent::CommandChannelClosed => LinkState { stopped: true, ..s },
        LinkEvent::HeartbeatWrote { ok } => if ok {
            LinkState { awaiting_ack: true, heartbeat_pending: true, ..s }
        } else {
            LinkState { connected: false, ..s }
        },
        LinkEvent::AckResolved { .. } => LinkState {
            awaiting_ack: false,
            heartbeat_pending: false,
            ..s
        },
        LinkEvent::Reconnected => LinkState { connected: true, ..s },
    }
}

/// The actions of one step, in the order the loop performs them.
pub open spec fn step_actions(link: Link, event: LinkEvent) -> Seq<LinkAction> {
    match event {
        LinkEvent::Received { data, is_ack } => if is_ack {
            seq![
                LinkAction::ForwardParser { event: DataParserEvent::Data { data } },
                LinkAction::NotifyWaiter,
            ]
        } else {
            seq![
                LinkAction::ForwardParser { event: DataParserEvent::Data { data } },
            ]
        },
        LinkEvent::ReceivedEmpty => Seq::empty(),
        LinkEvent::ReadFailed => seq![LinkAction::DropHandle],
        LinkEvent::Wrote { need_ack, ok } => if ok {
            Seq::empty()
        } else {
            seq![LinkAction::DropHandle]
        },
        LinkEvent::AckCommand => seq![LinkAction::NotifyWaiter],
        LinkEvent::HeartbeatCommand => seq![LinkAction::NotifyWaiter],
        LinkEvent::StopCommand => seq![
            LinkAction::EmitEvent { event: FromPortEvent::Close },
            LinkAction::ForwardParser { event: DataParserEvent::Close },
        ],
        LinkEvent::CommandChannelClosed => seq![
            LinkAction::EmitEvent { event: FromPortEvent::Close },
            LinkAction::ForwardParser { event: DataParserEvent::Close },
        ],
        LinkEvent::HeartbeatWrote { ok } => if ok {
            Seq::empty()
        } else {
            seq![LinkAction::DropHandle]
        },
        LinkEvent::AckResolved { timed_out } => seq![
            LinkAction::EmitEvent {
                event: resolution_event(link.state.heartbeat_pending, timed_out),
            },
        ],
        LinkEvent::Reconnected => Seq::empty(),
    }
}

impl Link {
    /// A freshly constructed link: no handle yet, no wait, not stopped.
    pub fn new(config: SerialPortConfig, heartbeat_enabled: bool, heartbeat_interval_ms: u64) -> (r: Link)
        ensures
            r.config == config,
            r.heartbeat_enabled == heartbeat_enabled,
            r.heartbeat_interval_ms == heartbeat_interval_ms,
            r.state == (LinkState {
                connected: false,
                awaiting_ack: false,
                heartbeat_pending: false,
                stopped: false,
            }),
    {
        Link {
            config,
            heartbeat_enabled,
            heartbeat_interval_ms,
            state: LinkState {
                connected: false,
                awaiting_ack: false,
                heartbeat_pending: false,
                stopped: false,
            },
        }
    }

    /// Whether the heartbeat timer is armed in the current state.
    pub fn heartbeat_ready(&self) -> (r: bool)
        ensures
            r == spec_heartbeat_ready(*self),
    {
        self.heartbeat_enabled && !self.state.awaiting_ack
    }

    /// Take one step of the read/write loop: update the state and return the
    /// effects the loop must perform, exactly as [`step_state`] and
    /// [`step_actions`] describe them.
    pub fn handle(&mut self, event: LinkEvent) -> (actions: Vec<LinkAction>)
        requires
            event_allowed(*old(self), event),
        ensures
            final(self).state == step_state(*old(self), event),
            final(self).config == old(self).config,
            final(self).heartbeat_enabled == old(self).heartbeat_enabled,
            final(self).heartbeat_interval_ms == old(self).heartbeat_interval_ms,
            actions@ == step_actions(*old(self), event),
    {
        let mut actions: Vec<LinkAction> = Vec::new();
        match event {
            LinkEvent::Received { data, is_ack } => {
                actions.push(LinkAction::ForwardParser {
                    event: DataParserEvent::Data { data },
                });
                if is_ack {
                    actions.push(LinkAction::NotifyWaiter);
                }
                assert(actions@ =~= step_actions(*old(self), event));
            }
            LinkEvent::ReceivedEmpty => {
                assert(actions@ =~= step_actions(*old(self), event));
            }
            LinkEvent::ReadFailed => {
                self.state.connected = false;
                actions.push(LinkAction::DropHandle);
                assert(actions@ =~= step_actions(*old(self), event));
            }
            LinkEvent::Wrote { need_ack, ok } => {
                self.state.heartbeat_pending = false;
                if ok {
                    self.state.awaiting_ack = need_ack && self.config.timeout_ms > 0;
                } else {
                    self.state.connected = false;
                    actions.push(LinkAction::DropHandle);
                }
                assert(actions@ =~= step_actions(*old(self), event));
            }
            LinkEvent::AckCommand => {
                actions.push(LinkAction::NotifyWaiter);
                assert(actions@ =~= step_actions(*old(self), event));
            }
            LinkEvent::HeartbeatCommand => {
                actions.push(LinkAction::NotifyWaiter);
                assert(actions@ =~= step_actions(*old(self), event));
            }
            LinkEvent::StopCommand => {
                self.state.stopped = true;
                actions.push(LinkAction::EmitEvent { event: FromPortEvent::Close });
                actions.push(LinkAction::ForwardParser { event: DataParserEvent::Close });
                assert(actions@ =~= step_actions(*old(self), event));
            }
            LinkEvent::CommandChannelClosed => {
                self.state.stopped = true;
                actions.push(LinkAction::EmitEvent { event: FromPortEvent::Close });
                actions.push(LinkAction::ForwardParser { event: DataParserEvent::Close });
                assert(actions@ =~= step_actions(*old(self), event));
            }
            LinkEvent::HeartbeatWrote { ok } => {
                if ok {
                    self.state.awaiting_ack = true;
                    self.state.heartbeat_pending = true;
                } else {
                    self.state.connected = false;
                    actions.push(LinkAction::DropHandle);
                }
                assert(actions@ =~= step_actions(*old(self), event));
            }
            LinkEvent::AckResolved { timed_out } => {
                let heartbeat = self.state.heartbeat_pending;
                self.state.awaiting_ack = false;
                self.state.heartbeat_pending = false;
                if heartbeat {
                    if timed_out {
                        actions.push(LinkAction::EmitEvent {
                            event: FromPortEvent::HeartbeatTimeout,
                        });
                    } else {
                        actions.push(LinkAction::EmitEvent { event: FromPortEvent::HeartbeatAck });
                    }
                } else {
                    if timed_out {
                        actions.push(LinkAction::EmitEvent { event: FromPortEvent::Timeout });
                    } else {
                        actions.push(LinkAction::EmitEvent { event: FromPortEvent::Ack });
                    }
                }
                assert(actions@ =~= step_actions(*old(self), event));
            }
            LinkEvent::Reconnected => {
                self.state.connected = true;
                assert(actions@ =~= step_actions(*old(self), event));
            }
        }
        actions
    }
}

/// What the reconnect loop does in one round.
#[derive(Clone, Copy, Debug, PartialEq, Eq, Structural)]
pub enum ReconnectAction {
    /// The link was stopped: leave the loop, attempt nothing further.
    Exit,
    /// No handle is held: attempt to open the port, then sleep the fixed
    /// interval whatever the outcome.
    AttemptOpen,
    /// A handle is held: just sleep the fixed interval.
    SleepOnly,
}

/// Milliseconds between reconnect rounds, regardless of outcome.
pub const RECONNECT_INTERVAL_MS: u64 = 5000;

/// Decide one round of the reconnect loop. The loop retries indefinitely at
/// the fixed interval while the handle is absent and the link is not
/// stopped; once stopped, no further open attempt occurs.
pub fn reconnect_decision(stopped: bool, connected: bool) -> (r: ReconnectAction)
    ensures
        r == ReconnectAction::Exit <==> stopped,
        r == ReconnectAction::AttemptOpen <==> !stopped && !connected,
        r == ReconnectAction::SleepOnly <==> !stopped && connected,
{
    if stopped {
        ReconnectAction::Exit
    } else if !connected {
        ReconnectAction::AttemptOpen
    } else {
        ReconnectAction::SleepOnly
    }
}

/// How many actions of a step close the downstream parser channel.
pub open spec fn parser_close_count(actions: Seq<LinkAction>) -> int
    decreases actions.len(),
{
    if actions.len() == 0 {
        0
    } else {
        (if actions[0] matches LinkAction::ForwardParser { event: DataParserEvent::Close } {
            1int
        } else {
            0int
        }) + parser_close_count(actions.drop_first())
    }
}

/// How many actions of a step emit `Close` upstream.
pub open spec fn upstream_close_count(actions: Seq<LinkAction>) -> int
    decreases actions.len(),
{
    if actions.len() == 0 {
        0
    } else {
        (if actions[0] matches LinkAction::EmitEvent { event: FromPortEvent::Close } {
            1int
        } else {
            0int
        }) + upstream_close_count(actions.drop_first())
    }
}

/// Stopping is the only source of `Close`: the step that leaves the loop
/// emits exactly one `Close` downstream and exactly one upstream, every
/// other step emits none, and a stopped link accepts no further event — so
/// each side sees `Close` exactly once, whatever commands were in flight.
pub proof fn lemma_close_exactly_once(link: Link, event: LinkEvent)
    requires
        event_allowed(link, event),
    ensures
        step_state(link, event).stopped ==> parser_close_count(step_actions(link, event)) == 1
            && upstream_close_count(step_actions(link, event)) == 1,
        !step_state(link, event).stopped ==> parser_close_count(step_actions(link, event)) == 0
            && upstream_close_count(step_actions(link, event)) == 0,
        step_state(link, event).stopped <==> (event matches LinkEvent::StopCommand
            || event matches LinkEvent::CommandChannelClosed),
{
    reveal_with_fuel(parser_close_count, 4);
    reveal_with_fuel(upstream_close_count, 4);
    let acts = step_actions(link, event);
    match event {
        LinkEvent::Received { data, is_ack } => {
            if is_ack {
                assert(acts.drop_first().drop_first().len() == 0);
            } else {
                assert(acts.drop_first().len() == 0);
            }
        }
        LinkEvent::StopCommand => {
            assert(acts.drop_first().drop_first().len() == 0);
        }
        LinkEvent::CommandChannelClosed => {
            assert(acts.drop_first().drop_first().len() == 0);
        }
        LinkEvent::ReadFailed => {
            assert(acts.drop_first().len() == 0);
        }
        LinkEvent::Wrote { need_ack, ok } => {
            if !ok {
                assert(acts.drop_first().len() == 0);
            }
        }
        LinkEvent::AckCommand => {
            assert(acts.drop_first().len() == 0);
        }
        LinkEvent::HeartbeatCommand => {
            assert(acts.drop_first().len() == 0);
        }
        LinkEvent::HeartbeatWrote { ok } => {
            if !ok {
                assert(acts.drop_first().len() == 0);
            }
        }
        LinkEvent::AckResolved { timed_out } => {
            assert(acts.drop_first().len() == 0);
        }
        _ => {}
    }
}

/// On a port whose timeout window is zero, a completed write never enters an
/// acknowledgement wait, whether or not the caller asked for one: the write
/// is done as soon as the bytes are out.
pub proof fn lemma_zero_timeout_write_never_waits(link: Link, need_ack: bool, ok: bool)
    requires
        link.config.timeout_ms == 0,
    ensures
        ok ==> !step_state(link, LinkEvent::Wrote { need_ack, ok }).awaiting_ack,
        !ok ==> step_state(link, LinkEvent::Wrote { need_ack, ok }).awaiting_ack
            == link.state.awaiting_ack,
{
}

/// Heartbeats fire only while the link is idle, and a heartbeat timeout
/// emits `HeartbeatTimeout` and clears the wait, so an application write is
/// admissible immediately afterwards.
pub proof fn lemma_heartbeat_timeout_unblocks(link: Link, need_ack: bool, ok: bool)
    requires
        event_allowed(link, LinkEvent::HeartbeatWrote { ok: true }),
    ensures
        !link.state.awaiting_ack,
        ({
            let waiting = Link { state: step_state(link, LinkEvent::HeartbeatWrote { ok: true }), ..link };
            &&& waiting.state.awaiting_ack
            &&& event_allowed(waiting, LinkEvent::AckResolved { timed_out: true })
            &&& step_actions(waiting, LinkEvent::AckResolved { timed_out: true }) =~= seq![
                LinkAction::EmitEvent { event: FromPortEvent::HeartbeatTimeout },
            ]
            &&& ({
                let idle = Link {
                    state: step_state(waiting, LinkEvent::AckResolved { timed_out: true }),
                    ..link
                };
                &&& !idle.state.awaiting_ack
                &&& event_allowed(idle, LinkEvent::Wrote { need_ack, ok })
            })
        }),
{
}

} // verus!
