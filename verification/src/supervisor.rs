use vstd::prelude::*;

verus! {

// ---------------------------------------------------------------------------
// The process supervisor's decision core.  The outside work — spawning the
// engine, killing it, tailing its log file — is the caller's; every decision
// (whether to spawn, whether to kill, what state follows which observation)
// is made here, and the log fan-out is modelled exactly: a bounded broadcast
// buffer that drops its oldest lines rather than block, and receivers that
// start at the write position current when they subscribe.
// ---------------------------------------------------------------------------

/// One line in the broadcast buffer, numbered by the order it was published
/// and stamped with the run it came from.
#[derive(Debug, Clone, PartialEq)]
pub struct LogLine {
    pub seq: u64,
    pub run: u64,
    pub text: String,
}

/// The fan-out buffer: a bounded window of the most recently published lines.
pub struct LogBroadcast {
    pub capacity: usize,
    pub next_seq: u64,
    pub buffer: Vec<LogLine>,
}

/// A subscriber's cursor: it sees only lines numbered at or after its start.
#[derive(Debug, Clone, PartialEq)]
pub struct LogReceiver {
    pub next: u64,
}

/// What one receive attempt yields: a line, a notice that `missed` lines were
/// dropped before the oldest one still buffered, or nothing yet.
#[derive(Debug, Clone, PartialEq)]
pub enum RecvOutcome {
    Line(String),
    Lagged(u64),
    Empty,
}

impl LogBroadcast {
    /// The buffer holds the lines numbered `next_seq - len .. next_seq`, in
    /// order, never more than `capacity` of them.
    pub open spec fn wf(&self) -> bool {
        &&& self.capacity >= 1
        &&& self.buffer@.len() <= self.capacity
        &&& self.buffer@.len() <= self.next_seq
        &&& forall|i: int|
            0 <= i < self.buffer@.len() ==> (#[trigger] self.buffer@[i].seq) == self.next_seq
                - self.buffer@.len() + i
    }

    pub fn new(capacity: usize) -> (r: LogBroadcast)
        requires
            capacity >= 1,
        ensures
            r.wf(),
            r.next_seq == 0,
            r.buffer@ == Seq::<LogLine>::empty(),
            r.capacity == capacity,
    {
        LogBroadcast { capacity, next_seq: 0, buffer: Vec::new() }
    }

    /// Publishes one line: it is appended with the next number, and when the
    /// buffer is full the oldest line is dropped, never the publisher blocked.
    pub fn publish(&mut self, run: u64, text: String)
        requires
            old(self).wf(),
            old(self).next_seq < u64::MAX,
        ensures
            final(self).wf(),
            final(self).capacity == old(self).capacity,
            final(self).next_seq == old(self).next_seq + 1,
            final(self).buffer@ == (if old(self).buffer@.len() < old(self).capacity {
                old(self).buffer@
            } else {
                old(self).buffer@.drop_first()
            }).push(LogLine { seq: old(self).next_seq, run, text }),
    {
        let line = LogLine { seq: self.next_seq, run, text };
        if self.buffer.len() >= self.capacity {
            self.buffer.remove(0);
        }
        self.buffer.push(line);
        self.next_seq = self.next_seq + 1;
        proof {
            assert(final(self).wf());
        }
    }

    /// A fresh receiver starts at the current write position: nothing
    /// published before the subscription is ever delivered to it.
    pub fn subscribe(&self) -> (r: LogReceiver)
        ensures
            r.next == self.next_seq,
    {
        LogReceiver { next: self.next_seq }
    }

    /// One receive attempt.  A receiver that fell behind the buffer window is
    /// told how many lines it missed and skips to the oldest one kept; a
    /// receiver at the write position gets nothing.
    pub fn recv(&self, rx: &mut LogReceiver) -> (r: RecvOutcome)
        requires
            self.wf(),
            old(rx).next <= self.next_seq,
        ensures
            final(rx).next <= self.next_seq,
            final(rx).next >= old(rx).next,
            match r {
                RecvOutcome::Line(text) => {
                    &&& old(rx).next >= self.next_seq - self.buffer@.len()
                    &&& final(rx).next == old(rx).next + 1
                    &&& exists|i: int|
                        0 <= i < self.buffer@.len() && (#[trigger] self.buffer@[i]).seq == old(
                            rx,
                        ).next && self.buffer@[i].text == text
                },
                RecvOutcome::Lagged(missed) => {
                    &&& old(rx).next < self.next_seq - self.buffer@.len()
                    &&& missed == self.next_seq - self.buffer@.len() - old(rx).next
                    &&& final(rx).next == self.next_seq - self.buffer@.len()
                },
                RecvOutcome::Empty => {
                    &&& old(rx).next == self.next_seq
                    &&& *final(rx) == *old(rx)
                },
            },
    {
        if rx.next == self.next_seq {
            return RecvOutcome::Empty;
        }
        let buffered: u64 = self.buffer.len() as u64;
        let oldest: u64 = self.next_seq - buffered;
        if rx.next < oldest {
            let missed = oldest - rx.next;
            rx.next = oldest;
            return RecvOutcome::Lagged(missed);
        }
        let idx: usize = (rx.next - oldest) as usize;
        let text = self.buffer[idx].text.clone();
        proof {
            assert(self.buffer@[idx as int].seq == rx.next);
        }
        rx.next = rx.next + 1;
        RecvOutcome::Line(text)
    }
}

/// The engine process as the supervisor sees it.
#[derive(Debug, Clone, PartialEq, Eq, Structural)]
pub enum EngineState {
    Stopped,
    Running,
}

/// What the caller must do after a supervisor decision.
#[derive(Debug, Clone, PartialEq, Eq, Structural)]
pub enum SupervisorAction {
    Idle,
    SpawnEngine,
    KillEngine,
}

/// The supervisor's decision core: the engine state, the run counter that
/// stamps log lines, and the broadcast hub.  Transitions happen only through
/// the explicit start/stop requests and the observed exits the caller reports.
pub struct SupervisorCore {
    pub state: EngineState,
    pub run: u64,
    pub hub: LogBroadcast,
}

impl SupervisorCore {
    pub open spec fn wf(&self) -> bool {
        self.hub.wf()
    }

    pub fn new(capacity: usize) -> (r: SupervisorCore)
        requires
            capacity >= 1,
        ensures
            r.wf(),
            r.state == EngineState::Stopped,
            r.run == 0,
            r.hub.next_seq == 0,
            r.hub.capacity == capacity,
            r.hub.buffer@ == Seq::<LogLine>::empty(),
    {
        SupervisorCore { state: EngineState::Stopped, run: 0, hub: LogBroadcast::new(capacity) }
    }

    /// A start request: refused while the engine runs, otherwise the engine
    /// is to be spawned and a new run begins.
    pub fn request_start(&mut self) -> (r: (bool, SupervisorAction))
        requires
            old(self).wf(),
            old(self).run < u64::MAX,
        ensures
            final(self).wf(),
            old(self).state == EngineState::Running ==> r == (
                false,
                SupervisorAction::Idle,
            ) && *final(self) == *old(self),
            old(self).state == EngineState::Stopped ==> r == (true, SupervisorAction::SpawnEngine)
                && final(self).state == EngineState::Running && final(self).run == old(self).run
                + 1 && final(self).hub == old(self).hub,
    {
        match self.state {
            EngineState::Running => (false, SupervisorAction::Idle),
            EngineState::Stopped => {
                self.state = EngineState::Running;
                self.run = self.run + 1;
                (true, SupervisorAction::SpawnEngine)
            },
        }
    }

    /// The spawn the caller attempted failed: back to stopped.
    pub fn spawn_failed(&mut self)
        requires
            old(self).wf(),
        ensures
            final(self).wf(),
            final(self).state == EngineState::Stopped,
            final(self).run == old(self).run,
            final(self).hub == old(self).hub,
    {
        self.state = EngineState::Stopped;
    }

    /// A stop request: refused when nothing runs; otherwise the engine is to
    /// be killed and the supervisor is stopped either way.
    pub fn request_stop(&mut self) -> (r: (bool, SupervisorAction))
        requires
            old(self).wf(),
        ensures
            final(self).wf(),
            final(self).state == EngineState::Stopped,
            final(self).run == old(self).run,
            final(self).hub == old(self).hub,
            old(self).state == EngineState::Stopped ==> r == (false, SupervisorAction::Idle),
            old(self).state == EngineState::Running ==> r == (true, SupervisorAction::KillEngine),
    {
        match self.state {
            EngineState::Stopped => (false, SupervisorAction::Idle),
            EngineState::Running => {
                self.state = EngineState::Stopped;
                (true, SupervisorAction::KillEngine)
            },
        }
    }

    /// The caller's non-blocking poll found the child gone: the supervisor
    /// observes the silent exit.  Purely observational, nothing is restarted.
    pub fn observe_exit(&mut self, exited: bool)
        requires
            old(self).wf(),
        ensures
            final(self).wf(),
            final(self).run == old(self).run,
            final(self).hub == old(self).hub,
            final(self).state == (if exited {
                EngineState::Stopped
            } else {
                old(self).state
            }),
    {
        if exited {
            self.state = EngineState::Stopped;
        }
    }

    /// Whether the engine is running, as far as the supervisor knows.
    pub fn status(&self) -> (r: bool)
        ensures
            r == (self.state == EngineState::Running),
    {
        match self.state {
            EngineState::Running => true,
            EngineState::Stopped => false,
        }
    }

    /// Publishes one tailed log line, stamped with the current run.
    pub fn publish_line(&mut self, text: String)
        requires
            old(self).wf(),
            old(self).hub.next_seq < u64::MAX,
        ensures
            final(self).wf(),
            final(self).state == old(self).state,
            final(self).run == old(self).run,
            final(self).hub.next_seq == old(self).hub.next_seq + 1,
            final(self).hub.buffer@ == (if old(self).hub.buffer@.len() < old(
                self,
            ).hub.capacity {
                old(self).hub.buffer@
            } else {
                old(self).hub.buffer@.drop_first()
            }).push(LogLine { seq: old(self).hub.next_seq, run: old(self).run, text }),
    {
        let run = self.run;
        self.hub.publish(run, text);
    }

    /// A fresh, independent subscription.
    pub fn logs(&self) -> (r: LogReceiver)
        ensures
            r.next == self.hub.next_seq,
    {
        self.hub.subscribe()
    }
}

/// Every line buffered when a receiver subscribes is numbered below its
/// cursor.  `recv` delivers only lines numbered at the cursor, and the cursor
/// never moves back, so a subscriber obtained after a run ended — after a
/// `stop` — receives nothing published during that run.
pub proof fn lemma_no_replay_after_subscribe(hub: LogBroadcast, rx: LogReceiver)
    requires
        hub.wf(),
        rx.next == hub.next_seq,
    ensures
        forall|i: int| 0 <= i < hub.buffer@.len() ==> (#[trigger] hub.buffer@[i]).seq < rx.next,
{
}

} // verus!
