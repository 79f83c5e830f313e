use vstd::prelude::*;
use crate::block::QueryOutcome;
use crate::number::{block_number_of, parse_block_number};
use crate::response::{outcome_message, outcome_text};
use crate::shutdown::{marked, triggered, Frontend, ShutdownCoordinator};

verus! {

/// Where the interactive frontend stands. While `Querying`, a worker is asking
/// the remote client for the number; a second submission meanwhile is ignored.
#[derive(Clone, Copy, Debug, PartialEq, Eq)]
pub enum UiPhase {
    Idle,
    Querying(u64),
    Displaying,
    ShuttingDown,
}

/// What the event loop reports to the frontend, always on its own thread.
#[derive(Clone, Debug, PartialEq, Eq)]
pub enum UiEvent {
    /// The action was triggered; the text entered, if any.
    Submit(Option<String>),
    /// The worker's query came back with this outcome.
    WorkerFinished(QueryOutcome),
    /// The worker died without an outcome.
    WorkerCrashed,
    /// The display has been updated with the text last shown.
    Displayed,
    /// The window was closed, or an interrupt was observed.
    Close,
}

/// What the event loop is to do after an event.
#[derive(Clone, Debug, PartialEq, Eq)]
pub enum UiCommand {
    Nothing,
    /// Hand the number to a worker that asks the remote client.
    Dispatch(u64),
    /// Put this text in the display area.
    Show(String),
    /// Stop driving the event loop.
    Quit,
}

pub struct GuiApp {
    pub phase: UiPhase,
    /// The text in the display area.
    pub display: String,
}

/// The block number in the entered text; none when nothing was entered.
pub open spec fn entered_number(text: Option<String>) -> Option<u64> {
    match text {
        Some(s) => block_number_of(s@),
        None => None,
    }
}

/// Whether `event` does anything in `phase`; every other pair is ignored.
pub open spec fn handles(phase: UiPhase, event: UiEvent) -> bool {
    match event {
        UiEvent::Close => true,
        UiEvent::Submit(_) => phase is Idle,
        UiEvent::WorkerFinished(_) | UiEvent::WorkerCrashed => phase is Querying,
        UiEvent::Displayed => phase is Displaying,
    }
}

impl GuiApp {
    pub fn new() -> (r: GuiApp)
        ensures
            r.phase is Idle,
            r.display@ == Seq::<char>::empty(),
    {
        GuiApp { phase: UiPhase::Idle, display: String::new() }
    }

    fn show(&mut self, text: String) -> (cmd: UiCommand)
        ensures
            final(self).phase is Displaying,
            final(self).display@ == text@,
            cmd matches UiCommand::Show(m) && m@ == text@,
    {
        self.phase = UiPhase::Displaying;
        self.display = text.clone();
        UiCommand::Show(text)
    }

    /// Closes the frontend from any phase, a query in flight included: sets the
    /// shutdown signal, marks this frontend terminal, and asks the event loop to
    /// stop unless it was already told to.
    pub fn shutdown(&mut self, coord: &mut ShutdownCoordinator) -> (cmd: UiCommand)
        ensures
            final(self).phase is ShuttingDown,
            final(self).display == old(self).display,
            final(coord)@ == marked(triggered(old(coord)@), Frontend::Interactive),
            cmd == if old(self).phase is ShuttingDown {
                UiCommand::Nothing
            } else {
                UiCommand::Quit
            },
    {
        coord.trigger();
        coord.mark_terminal(Frontend::Interactive);
        let was_running = !matches!(self.phase, UiPhase::ShuttingDown);
        self.phase = UiPhase::ShuttingDown;
        if was_running {
            UiCommand::Quit
        } else {
            UiCommand::Nothing
        }
    }

    /// Handles one event of the event loop. Closing sets the shutdown signal and
    /// marks this frontend terminal from any phase, a query in flight included.
    pub fn step(&mut self, event: UiEvent, coord: &mut ShutdownCoordinator) -> (cmd: UiCommand)
        ensures
            event is Close ==> {
                &&& final(self).phase is ShuttingDown
                &&& final(self).display == old(self).display
                &&& final(coord)@ == marked(triggered(old(coord)@), Frontend::Interactive)
                &&& cmd == if old(self).phase is ShuttingDown {
                    UiCommand::Nothing
                } else {
                    UiCommand::Quit
                }
            },
            !(event is Close) ==> final(coord)@ == old(coord)@,
            !handles(old(self).phase, event) ==> final(self).phase == old(self).phase
                && final(self).display == old(self).display && cmd is Nothing,
            old(self).phase is Idle ==> (event matches UiEvent::Submit(text) ==> match entered_number(text) {
                Some(n) => final(self).phase == UiPhase::Querying(n) && final(self).display
                    == old(self).display && cmd == UiCommand::Dispatch(n),
                None => final(self).phase is Displaying && final(self).display@
                    == "invalid block number"@ && (cmd matches UiCommand::Show(m) && m@
                    == final(self).display@),
            }),
            old(self).phase matches UiPhase::Querying(n) ==> (event matches UiEvent::WorkerFinished(o)
                ==> final(self).phase is Displaying && final(self).display@ == outcome_text(n, o)
                && (cmd matches UiCommand::Show(m) && m@ == final(self).display@)),
            old(self).phase is Querying ==> (event is WorkerCrashed ==> final(self).phase is Displaying
                && final(self).display@ == "failed to fetch block info"@ && (cmd matches UiCommand::Show(m)
                && m@ == final(self).display@)),
            old(self).phase is Displaying ==> (event is Displayed ==> final(self).phase is Idle
                && final(self).display == old(self).display && cmd is Nothing),
    {
        match event {
            UiEvent::Close => self.shutdown(coord),
            UiEvent::Submit(text) => {
                if !matches!(self.phase, UiPhase::Idle) {
                    return UiCommand::Nothing;
                }
                let number = match &text {
                    Some(s) => parse_block_number(s.as_str()),
                    None => None,
                };
                match number {
                    Some(n) => {
                        self.phase = UiPhase::Querying(n);
                        UiCommand::Dispatch(n)
                    },
                    None => self.show(String::from_str("invalid block number")),
                }
            },
            UiEvent::WorkerFinished(outcome) => match self.phase {
                UiPhase::Querying(n) => {
                    let text = outcome_message(n, &outcome);
                    self.show(text)
                },
                _ => UiCommand::Nothing,
            },
            UiEvent::WorkerCrashed => match self.phase {
                UiPhase::Querying(_) => self.show(String::from_str("failed to fetch block info")),
                _ => UiCommand::Nothing,
            },
            UiEvent::Displayed => match self.phase {
                UiPhase::Displaying => {
                    self.phase = UiPhase::Idle;
                    UiCommand::Nothing
                },
                _ => UiCommand::Nothing,
            },
        }
    }
}

} // verus!
