use vstd::prelude::*;

use crate::json::opt_chars;
use crate::kilo::KiloCode;
use crate::text::{concat2, owned};

verus! {

/// Where a Kilo Code run's forwarding task stands: it sends the prompt on standard input,
/// then a line feed, flushes and closes standard input, and then copies the agent's output
/// into the log line by line.
#[derive(PartialEq, Eq, Structural, Clone, Copy, Debug)]
pub enum ForwarderPhase {
    /// Writing the prompt to standard input.
    WritingPrompt,
    /// Writing the line feed after the prompt.
    WritingNewline,
    /// Flushing standard input.
    Flushing,
    /// Waiting for the next line of output, or for an interrupt.
    Reading,
    /// Writing a line to the log.
    Logging,
    /// Done: nothing more to do.
    Stopped,
}

/// What happened since the forwarder's last action.
pub enum ForwarderEvent {
    /// The write or flush of standard input succeeded.
    StdinDone,
    /// The write or flush of standard input failed, with the error's text.
    StdinFailed(String),
    /// The run was interrupted.
    Interrupted,
    /// A line of output arrived (with its line feed, if it had one).
    LineRead(String),
    /// The output ended.
    EndOfOutput,
    /// Reading the output failed, with the error's text.
    ReadFailed(String),
    /// The log line was written.
    LogWritten,
    /// Writing the log line failed.
    LogFailed,
}

/// What the forwarder asks its driver to do next.
pub enum ForwarderAction {
    /// Write this text to standard input.
    WriteStdin(String),
    /// Flush standard input.
    FlushStdin,
    /// Close standard input (the agent waits for end of input) and read a line of output.
    CloseStdinAndRead,
    /// Read the next line of output.
    ReadLine,
    /// Write this line to the log.
    WriteLog(String),
    /// Write this line to the log, whatever comes of it, and stop.
    WriteLogAndStop(String),
    /// Stop.
    Stop,
}

/// The message that reports a failed step of sending the prompt, or a failed read.
pub open spec fn failure_line(prefix: Seq<char>, error: Seq<char>) -> Seq<char> {
    prefix + error
}

/// Whether the forwarder, in `phase`, waits for `event`: the answer to its last action.
pub open spec fn expects(phase: ForwarderPhase, event: ForwarderEvent) -> bool {
    match phase {
        ForwarderPhase::WritingPrompt | ForwarderPhase::WritingNewline
        | ForwarderPhase::Flushing => event is StdinDone || event is StdinFailed,
        ForwarderPhase::Reading => event is Interrupted || event is LineRead || event is EndOfOutput
            || event is ReadFailed,
        ForwarderPhase::Logging => event is LogWritten || event is LogFailed,
        ForwarderPhase::Stopped => false,
    }
}

/// One step of the forwarder: from `phase`, on `event`, it moves to `next` and asks for
/// `action`.
pub open spec fn spec_step(
    phase: ForwarderPhase,
    event: ForwarderEvent,
    next: ForwarderPhase,
    action: ForwarderAction,
) -> bool {
    match (phase, event) {
        (ForwarderPhase::WritingPrompt, ForwarderEvent::StdinDone) => {
            &&& next == ForwarderPhase::WritingNewline
            &&& action matches ForwarderAction::WriteStdin(s)
            &&& s@ == seq!['\n']
        },
        (ForwarderPhase::WritingPrompt, ForwarderEvent::StdinFailed(e)) => {
            &&& next == ForwarderPhase::Stopped
            &&& action matches ForwarderAction::WriteLogAndStop(m)
            &&& m@ == failure_line("Error: Failed to write prompt - "@, e@)
        },
        (ForwarderPhase::WritingNewline, ForwarderEvent::StdinDone) => {
            &&& next == ForwarderPhase::Flushing
            &&& action is FlushStdin
        },
        (ForwarderPhase::WritingNewline, ForwarderEvent::StdinFailed(e)) => {
            &&& next == ForwarderPhase::Stopped
            &&& action matches ForwarderAction::WriteLogAndStop(m)
            &&& m@ == failure_line("Error: Failed to write newline - "@, e@)
        },
        (ForwarderPhase::Flushing, ForwarderEvent::StdinDone) => {
            &&& next == ForwarderPhase::Reading
            &&& action is CloseStdinAndRead
        },
        (ForwarderPhase::Flushing, ForwarderEvent::StdinFailed(e)) => {
            &&& next == ForwarderPhase::Stopped
            &&& action matches ForwarderAction::WriteLogAndStop(m)
            &&& m@ == failure_line("Error: Failed to flush stdin - "@, e@)
        },
        (ForwarderPhase::Reading, ForwarderEvent::Interrupted) => {
            &&& next == ForwarderPhase::Stopped
            &&& action is Stop
        },
        (ForwarderPhase::Reading, ForwarderEvent::EndOfOutput) => {
            &&& next == ForwarderPhase::Stopped
            &&& action is Stop
        },
        (ForwarderPhase::Reading, ForwarderEvent::ReadFailed(e)) => {
            &&& next == ForwarderPhase::Stopped
            &&& action matches ForwarderAction::WriteLogAndStop(m)
            &&& m@ == failure_line("Error reading output: "@, e@)
        },
        (ForwarderPhase::Reading, ForwarderEvent::LineRead(l)) => match KiloCode::spec_output_line(
            l@,
        ) {
            Some(t) => {
                &&& next == ForwarderPhase::Logging
                &&& action matches ForwarderAction::WriteLog(s)
                &&& s@ == t
            },
            None => {
                &&& next == ForwarderPhase::Reading
                &&& action is ReadLine
            },
        },
        (ForwarderPhase::Logging, ForwarderEvent::LogWritten) => {
            &&& next == ForwarderPhase::Reading
            &&& action is ReadLine
        },
        (ForwarderPhase::Logging, ForwarderEvent::LogFailed) => {
            &&& next == ForwarderPhase::Stopped
            &&& action is Stop
        },
        _ => false,
    }
}

/// The decisions of the task that feeds a Kilo Code run its prompt and copies the run's
/// output into the log; its driver performs the actions and reports what came of them.
pub struct KiloOutputForwarder {
    phase: ForwarderPhase,
}

impl KiloOutputForwarder {
    /// The forwarder's phase.
    pub closed spec fn phase(self) -> ForwarderPhase {
        self.phase
    }

    /// A forwarder for a run with `prompt`, and its first action: writing the prompt.
    pub fn start(prompt: &str) -> (r: (Self, ForwarderAction))
        ensures
            r.0.phase() == ForwarderPhase::WritingPrompt,
            r.1 matches ForwarderAction::WriteStdin(s) && s@ == prompt@,
    {
        (KiloOutputForwarder { phase: ForwarderPhase::WritingPrompt }, ForwarderAction::WriteStdin(owned(prompt)))
    }

    /// The forwarder's phase.
    pub fn current_phase(&self) -> (p: ForwarderPhase)
        ensures
            p == self.phase(),
    {
        self.phase
    }

    /// Whether the forwarder waits for `event` (see `expects`).
    pub fn accepts(&self, event: &ForwarderEvent) -> (b: bool)
        ensures
            b == expects(self.phase(), *event),
    {
        match self.phase {
            ForwarderPhase::WritingPrompt | ForwarderPhase::WritingNewline
            | ForwarderPhase::Flushing => match event {
                ForwarderEvent::StdinDone | ForwarderEvent::StdinFailed(_) => true,
                _ => false,
            },
            ForwarderPhase::Reading => match event {
                ForwarderEvent::Interrupted | ForwarderEvent::LineRead(_)
                | ForwarderEvent::EndOfOutput | ForwarderEvent::ReadFailed(_) => true,
                _ => false,
            },
            ForwarderPhase::Logging => match event {
                ForwarderEvent::LogWritten | ForwarderEvent::LogFailed => true,
                _ => false,
            },
            ForwarderPhase::Stopped => false,
        }
    }

    /// Takes what came of the last action and gives the next one (see `spec_step`).
    pub fn step(&mut self, event: ForwarderEvent) -> (action: ForwarderAction)
        requires
            expects(old(self).phase(), event),
        ensures
            spec_step(old(self).phase(), event, final(self).phase(), action),
    {
        match (self.phase, event) {
            (ForwarderPhase::WritingPrompt, ForwarderEvent::StdinDone) => {
                self.phase = ForwarderPhase::WritingNewline;
                let s = owned("\n");
                proof {
                    reveal_strlit("\n");
                }
                assert(s@ == seq!['\n']);
                ForwarderAction::WriteStdin(s)
            },
            (ForwarderPhase::WritingPrompt, ForwarderEvent::StdinFailed(e)) => {
                self.phase = ForwarderPhase::Stopped;
                ForwarderAction::WriteLogAndStop(concat2("Error: Failed to write prompt - ", e.as_str()))
            },
            (ForwarderPhase::WritingNewline, ForwarderEvent::StdinDone) => {
                self.phase = ForwarderPhase::Flushing;
                ForwarderAction::FlushStdin
            },
            (ForwarderPhase::WritingNewline, ForwarderEvent::StdinFailed(e)) => {
                self.phase = ForwarderPhase::Stopped;
                ForwarderAction::WriteLogAndStop(concat2("Error: Failed to write newline - ", e.as_str()))
            },
            (ForwarderPhase::Flushing, ForwarderEvent::StdinDone) => {
                self.phase = ForwarderPhase::Reading;
                ForwarderAction::CloseStdinAndRead
            },
            (ForwarderPhase::Flushing, ForwarderEvent::StdinFailed(e)) => {
                self.phase = ForwarderPhase::Stopped;
                ForwarderAction::WriteLogAndStop(concat2("Error: Failed to flush stdin - ", e.as_str()))
            },
            (ForwarderPhase::Reading, ForwarderEvent::Interrupted) => {
                self.phase = ForwarderPhase::Stopped;
                ForwarderAction::Stop
            },
            (ForwarderPhase::Reading, ForwarderEvent::EndOfOutput) => {
                self.phase = ForwarderPhase::Stopped;
                ForwarderAction::Stop
            },
            (ForwarderPhase::Reading, ForwarderEvent::ReadFailed(e)) => {
                self.phase = ForwarderPhase::Stopped;
                ForwarderAction::WriteLogAndStop(concat2("Error reading output: ", e.as_str()))
            },
            (ForwarderPhase::Reading, ForwarderEvent::LineRead(l)) => {
                match KiloCode::output_line(l.as_str()) {
                    Some(t) => {
                        self.phase = ForwarderPhase::Logging;
                        ForwarderAction::WriteLog(t)
                    },
                    None => {
                        self.phase = ForwarderPhase::Reading;
                        ForwarderAction::ReadLine
                    },
                }
            },
            (ForwarderPhase::Logging, ForwarderEvent::LogWritten) => {
                self.phase = ForwarderPhase::Reading;
                ForwarderAction::ReadLine
            },
            (ForwarderPhase::Logging, ForwarderEvent::LogFailed) => {
                self.phase = ForwarderPhase::Stopped;
                ForwarderAction::Stop
            },
            (_, _) => {
                // No other event is awaited (see `expects`).
                self.phase = ForwarderPhase::Stopped;
                ForwarderAction::Stop
            },
        }
    }
}

/// Whether the forwarder has closed standard input: it is reading output, logging a line,
/// or done.
pub open spec fn past_input(phase: ForwarderPhase) -> bool {
    phase == ForwarderPhase::Reading || phase == ForwarderPhase::Logging || phase
        == ForwarderPhase::Stopped
}

/// Once the forwarder has closed standard input it never writes to or flushes it again,
/// and it never goes back to sending the prompt.
pub proof fn lemma_no_input_after_close(
    phase: ForwarderPhase,
    event: ForwarderEvent,
    next: ForwarderPhase,
    action: ForwarderAction,
)
    requires
        past_input(phase),
        spec_step(phase, event, next, action),
    ensures
        past_input(next),
        !(action is WriteStdin),
        !(action is FlushStdin),
        !(action is CloseStdinAndRead),
{
}

/// A stopped forwarder waits for nothing: no event moves it again.
pub proof fn lemma_stopped_is_final(event: ForwarderEvent)
    ensures
        !expects(ForwarderPhase::Stopped, event),
{
}

/// Every step that stops the forwarder asks for `Stop` or for a last log line, and every
/// step that asks for one of those stops it.
pub proof fn lemma_stop_actions(
    phase: ForwarderPhase,
    event: ForwarderEvent,
    next: ForwarderPhase,
    action: ForwarderAction,
)
    requires
        spec_step(phase, event, next, action),
    ensures
        (next == ForwarderPhase::Stopped) <==> (action is Stop || action is WriteLogAndStop),
{
}


/// Reading begins only after the prompt, its line feed and the flush have all succeeded:
/// the only step out of sending the prompt that does not stop the forwarder on a failure is
/// the successful flush, which closes standard input and reads.
pub proof fn lemma_reading_starts_after_flush(
    phase: ForwarderPhase,
    event: ForwarderEvent,
    next: ForwarderPhase,
    action: ForwarderAction,
)
    requires
        !past_input(phase),
        past_input(next),
        spec_step(phase, event, next, action),
    ensures
        (phase == ForwarderPhase::Flushing && event is StdinDone && next == ForwarderPhase::Reading
            && action is CloseStdinAndRead) || (next == ForwarderPhase::Stopped
            && action is WriteLogAndStop),
{
}

} // verus!
