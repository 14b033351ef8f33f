use vstd::prelude::*;

use crate::clock::{is_clock_time, local_clock_time};
use crate::notification::Notification;
use crate::parser::{idle, step, CallFields, ParserState, TraceParser};
use crate::store::NotificationsListener;
use crate::trace::line_shape;

verus! {

/// Seconds to wait before spawning the monitor again after a failed spawn.
pub const RESPAWN_DELAY_SECS: u64 = 5;

/// What happened to the monitor process since the last action.
pub enum MonitorEvent {
    /// The monitor could not be started.
    SpawnFailed,
    /// The monitor started; its output can be read.
    Spawned,
    /// One line of the monitor's output.
    LineRead(String),
    /// The monitor's output ended, or reading it failed.
    StreamEnded,
}

/// What the supervising loop does next.
#[derive(Debug, PartialEq, Eq, Structural)]
pub enum MonitorAction {
    /// Start the monitor now.
    Spawn,
    /// Wait this many seconds, then start the monitor.
    SpawnAfter(u64),
    /// Read the next output line.
    ReadLine,
    /// Save the history and signal the presentation loop, then read the next line.
    SaveThenReadLine,
}

/// The record `n` holds the fields `f`.
pub open spec fn holds_fields(n: Notification, f: CallFields) -> bool {
    n.app_name@ == f.app_name && n.summary@ == f.summary && n.body@ == f.body
}

/// Keeps one monitor process running and turns its output into notifications.
pub struct Supervisor {
    parser: TraceParser,
}

impl Supervisor {
    /// A supervisor with no call in progress.
    pub fn new() -> (r: Self)
        ensures
            r.parser_state() == idle(),
    {
        Supervisor { parser: TraceParser::new() }
    }

    /// The state of the trace parser.
    pub closed spec fn parser_state(&self) -> ParserState {
        self.parser@
    }

    /// The action that starts supervision.
    pub fn start(&self) -> (r: MonitorAction)
        ensures
            r == MonitorAction::Spawn,
    {
        MonitorAction::Spawn
    }

    /// Decides the next action after `event`. A failed spawn is retried after a
    /// fixed delay, an ended stream at once; a line goes to the parser, and a call
    /// it completes is appended to `store` with the current time, unless the
    /// store has no id left to give.
    pub fn handle(&mut self, store: &mut NotificationsListener, event: MonitorEvent) -> (r:
        MonitorAction)
        requires
            old(store)@.wf(),
        ensures
            final(store)@.wf(),
            match event {
                MonitorEvent::SpawnFailed => {
                    &&& r == MonitorAction::SpawnAfter(RESPAWN_DELAY_SECS)
                    &&& final(store)@ == old(store)@
                    &&& final(self).parser_state() == idle()
                },
                MonitorEvent::Spawned => {
                    &&& r == MonitorAction::ReadLine
                    &&& final(store)@ == old(store)@
                    &&& final(self).parser_state() == idle()
                },
                MonitorEvent::StreamEnded => {
                    &&& r == MonitorAction::Spawn
                    &&& final(store)@ == old(store)@
                    &&& final(self).parser_state() == idle()
                },
                MonitorEvent::LineRead(line) => {
                    let (next, done) = step(old(self).parser_state(), line_shape(line@));
                    &&& final(self).parser_state() == next
                    &&& match done {
                        Some(f) if old(store)@.next_id < u64::MAX => {
                            let n = final(store)@.history.last();
                            &&& r == MonitorAction::SaveThenReadLine
                            &&& final(store)@.history.len() > 0
                            &&& holds_fields(n, f)
                            &&& is_clock_time(n.timestamp@)
                            &&& n.id == old(store)@.next_id
                            &&& final(store)@ == old(store)@.append_record(n)
                        },
                        _ => {
                            &&& r == MonitorAction::ReadLine
                            &&& final(store)@ == old(store)@
                        },
                    }
                },
            },
    {
        match event {
            MonitorEvent::SpawnFailed => {
                self.parser.reset();
                MonitorAction::SpawnAfter(RESPAWN_DELAY_SECS)
            },
            MonitorEvent::Spawned => {
                self.parser.reset();
                MonitorAction::ReadLine
            },
            MonitorEvent::StreamEnded => {
                self.parser.reset();
                MonitorAction::Spawn
            },
            MonitorEvent::LineRead(line) => {
                match self.parser.feed(line.as_str()) {
                    Some(call) => {
                        if store.next_id() < u64::MAX {
                            let timestamp = local_clock_time();
                            store.append(call, timestamp);
                            MonitorAction::SaveThenReadLine
                        } else {
                            MonitorAction::ReadLine
                        }
                    },
                    None => MonitorAction::ReadLine,
                }
            },
        }
    }
}

} // verus!
