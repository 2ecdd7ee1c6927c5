//! The run, executable: a `Renamer` takes events and answers with steps.

use vstd::prelude::*;
use crate::config::Config;
use crate::confirm::is_confirmation;
use crate::error::RenameError;
use crate::naming::format_name;
use crate::notice::{notice_views, Notice, NoticeView};
use crate::request::{is_success, list_request, names, rename_request, Repo, Request, STATUS_OK};
use crate::workflow::{ActionView, EventView, PhaseView, RenamerView, StepView};

verus! {

/// What the run is waiting for.
#[derive(Debug, PartialEq, Eq)]
pub enum Phase {
    /// The status of the listing request.
    Listing,
    /// The repositories that the listing response holds.
    DecodingList,
    /// The body of a listing response that reported `status`, not a success.
    ReadingListFailure { status: u16 },
    /// The user's answer on renaming `name` to `new_name`.
    Confirming { name: String, new_name: String },
    /// The status of the request that renames `name` to `new_name`.
    Updating { name: String, new_name: String },
    /// The body of the response that refused to rename `name`.
    ReadingUpdateFailure { name: String },
    /// Nothing: every repository was dealt with.
    Finished,
    /// Nothing: the run was given up with `error`.
    Aborted { error: RenameError },
}

/// What the driver reports.
#[derive(Debug, PartialEq, Eq)]
pub enum Event {
    /// The service answered the request with `status`.
    Responded { status: u16 },
    /// The response was decoded into these repositories.
    Listed { repos: Vec<Repo> },
    /// The response's body was read.
    Body { text: String },
    /// The user typed a line.
    Answered { line: String },
    /// The service could not be reached, or its answer could not be read.
    TransportFailed { detail: String },
}

/// What the driver is to do next.
#[derive(Debug, PartialEq, Eq)]
pub enum Action {
    /// Send the request and report the status of the response.
    Send { request: Request },
    /// Decode the response as a list of repositories and report them.
    DecodeRepositories,
    /// Read the response's body as text and report it.
    ReadBody,
    /// Ask whether `name` should become `new_name`, and report the answer.
    Confirm { name: String, new_name: String },
    /// Stop: the run is complete.
    Finish,
    /// Stop: the run has failed.
    Abort { error: RenameError },
}

/// The outcome of one event: lines to print, then an action to perform.
#[derive(Debug, PartialEq, Eq)]
pub struct Step {
    pub notices: Vec<Notice>,
    pub action: Action,
}

/// A run in progress.
#[derive(Debug)]
pub struct Renamer {
    config: Config,
    token: String,
    repos: Vec<Repo>,
    cursor: usize,
    phase: Phase,
}

impl View for Phase {
    type V = PhaseView;

    open spec fn view(&self) -> PhaseView {
        match *self {
            Phase::Listing => PhaseView::Listing,
            Phase::DecodingList => PhaseView::DecodingList,
            Phase::ReadingListFailure { status } => PhaseView::ReadingListFailure { status },
            Phase::Confirming { name, new_name } => PhaseView::Confirming {
                name: name@,
                new_name: new_name@,
            },
            Phase::Updating { name, new_name } => PhaseView::Updating {
                name: name@,
                new_name: new_name@,
            },
            Phase::ReadingUpdateFailure { name } => PhaseView::ReadingUpdateFailure {
                name: name@,
            },
            Phase::Finished => PhaseView::Finished,
            Phase::Aborted { error } => PhaseView::Aborted { error: error@ },
        }
    }
}

impl View for Event {
    type V = EventView;

    open spec fn view(&self) -> EventView {
        match *self {
            Event::Responded { status } => EventView::Responded { status },
            Event::Listed { repos } => EventView::Listed { names: names(repos@) },
            Event::Body { text } => EventView::Body { text: text@ },
            Event::Answered { line } => EventView::Answered { line: line@ },
            Event::TransportFailed { detail } => EventView::TransportFailed { detail: detail@ },
        }
    }
}

impl View for Action {
    type V = ActionView;

    open spec fn view(&self) -> ActionView {
        match *self {
            Action::Send { request } => ActionView::Send { request: request@ },
            Action::DecodeRepositories => ActionView::DecodeRepositories,
            Action::ReadBody => ActionView::ReadBody,
            Action::Confirm { name, new_name } => ActionView::Confirm {
                name: name@,
                new_name: new_name@,
            },
            Action::Finish => ActionView::Finish,
            Action::Abort { error } => ActionView::Abort { error: error@ },
        }
    }
}

impl View for Step {
    type V = StepView;

    open spec fn view(&self) -> StepView {
        StepView { notices: notice_views(self.notices@), action: self.action@ }
    }
}

impl View for Renamer {
    type V = RenamerView;

    closed spec fn view(&self) -> RenamerView {
        RenamerView {
            config: self.config@,
            token: self.token@,
            remaining: if self.cursor <= self.repos@.len() {
                names(self.repos@).skip(self.cursor as int)
            } else {
                Seq::empty()
            },
            phase: self.phase@,
        }
    }
}

impl Renamer {
    /// Begins a run: shows the credential and asks for the listing.
    pub fn start(config: Config, token: String) -> (begun: (Renamer, Step))
        ensures
            begun.0@ == RenamerView::initial(config@, token@),
            begun.1@ == begun.0@.opening(),
    {
        let mut notices: Vec<Notice> = Vec::new();
        notices.push(Notice::Credential { token: token.clone() });
        let renamer = Renamer {
            config,
            token,
            repos: Vec::new(),
            cursor: 0,
            phase: Phase::Listing,
        };
        let action = renamer.pending_action();
        let step = Step { notices, action };
        proof {
            assert(renamer@.remaining =~= Seq::empty());
            assert(step@.notices =~= renamer@.opening().notices);
        }
        (renamer, step)
    }

    /// The action that the run is waiting on.
    pub fn pending_action(&self) -> (action: Action)
        ensures
            action@ == self@.pending(),
    {
        match &self.phase {
            Phase::Listing => Action::Send { request: list_request(self.token.as_str()) },
            Phase::DecodingList => Action::DecodeRepositories,
            Phase::ReadingListFailure { .. } => Action::ReadBody,
            Phase::Confirming { name, new_name } => Action::Confirm {
                name: name.clone(),
                new_name: new_name.clone(),
            },
            Phase::Updating { name, new_name } => Action::Send {
                request: rename_request(
                    self.config.username(),
                    name.as_str(),
                    new_name.as_str(),
                    self.token.as_str(),
                ),
            },
            Phase::ReadingUpdateFailure { .. } => Action::ReadBody,
            Phase::Finished => Action::Finish,
            Phase::Aborted { error } => Action::Abort { error: error.clone() },
        }
    }

    /// Whether the run is over.
    pub fn is_over(&self) -> (over: bool)
        ensures
            over == self@.phase.terminal(),
    {
        match &self.phase {
            Phase::Finished => true,
            Phase::Aborted { .. } => true,
            _ => false,
        }
    }

    /// What the run is waiting for.
    pub fn phase(&self) -> (phase: &Phase)
        ensures
            phase@ == self@.phase,
    {
        &self.phase
    }

    fn advance(&mut self, notices: &mut Vec<Notice>)
        ensures
            (final(self)@, notice_views(final(notices)@)) == old(self)@.advance(
                notice_views(old(notices)@),
            ),
    {
        while self.cursor < self.repos.len()
            invariant
                self@.advance(notice_views(notices@)) == old(self)@.advance(
                    notice_views(old(notices)@),
                ),
            decreases self.repos.len() - self.cursor,
        {
            let ghost before = self@;
            let ghost lines = notice_views(notices@);
            let name = self.repos[self.cursor].name.clone();
            let new_name = format_name(name.as_str(), &self.config.rule());
            self.cursor = self.cursor + 1;
            proof {
                assert(before.remaining.first() == name@);
                assert(before.remaining.drop_first() =~= self@.remaining);
            }
            if new_name == name {
                notices.push(Notice::Unchanged { name });
                assert(notice_views(notices@) =~= lines.push(
                    NoticeView::Unchanged { name: name@ },
                ));
            } else if self.config.interactive() {
                self.phase = Phase::Confirming { name, new_name };
                return;
            } else {
                notices.push(
                    Notice::Starting { name: name.clone(), new_name: new_name.clone() },
                );
                assert(notice_views(notices@) =~= lines.push(
                    NoticeView::Starting { name: name@, new_name: new_name@ },
                ));
                self.phase = Phase::Updating { name, new_name };
                return;
            }
        }
        self.phase = Phase::Finished;
    }

    /// Takes what the driver reports and answers with what to print and what
    /// to do next.
    pub fn step(&mut self, event: Event) -> (step: Step)
        ensures
            (final(self)@, step@) == old(self)@.step(event@),
    {
        let mut notices: Vec<Notice> = Vec::new();
        assert(notice_views(notices@) =~= Seq::empty());
        match event {
            Event::Responded { status } => match &self.phase {
                Phase::Listing => {
                    self.phase = if is_success(status) {
                        Phase::DecodingList
                    } else {
                        Phase::ReadingListFailure { status }
                    };
                },
                Phase::Updating { name, new_name } => {
                    if status == STATUS_OK {
                        notices.push(
                            Notice::Renamed { name: name.clone(), new_name: new_name.clone() },
                        );
                        assert(notice_views(notices@) =~= seq![
                            NoticeView::Renamed { name: name@, new_name: new_name@ },
                        ]);
                        self.advance(&mut notices);
                    } else {
                        self.phase = Phase::ReadingUpdateFailure { name: name.clone() };
                    }
                },
                _ => {},
            },
            Event::Listed { repos } => match &self.phase {
                Phase::DecodingList => {
                    self.repos = repos;
                    self.cursor = 0;
                    assert(self@.remaining =~= names(repos@));
                    self.advance(&mut notices);
                },
                _ => {},
            },
            Event::Body { text } => match &self.phase {
                Phase::ReadingListFailure { status } => {
                    self.phase = Phase::Aborted {
                        error: RenameError::RemoteError { status: Some(*status), detail: text },
                    };
                },
                Phase::ReadingUpdateFailure { name } => {
                    notices.push(Notice::Failed { name: name.clone(), body: text });
                    assert(notice_views(notices@) =~= seq![
                        NoticeView::Failed { name: name@, body: text@ },
                    ]);
                    self.advance(&mut notices);
                },
                _ => {},
            },
            Event::Answered { line } => match &self.phase {
                Phase::Confirming { name, new_name } => {
                    if is_confirmation(line.as_str()) {
                        self.phase = Phase::Updating {
                            name: name.clone(),
                            new_name: new_name.clone(),
                        };
                    } else {
                        notices.push(Notice::Declined { name: name.clone() });
                        assert(notice_views(notices@) =~= seq![
                            NoticeView::Declined { name: name@ },
                        ]);
                        self.advance(&mut notices);
                    }
                },
                _ => {},
            },
            Event::TransportFailed { detail } => {
                if self.awaits_remote() {
                    self.phase = Phase::Aborted {
                        error: RenameError::RemoteError { status: None, detail },
                    };
                }
            },
        }
        let action = self.pending_action();
        Step { notices, action }
    }

    fn awaits_remote(&self) -> (waiting: bool)
        ensures
            waiting == self@.phase.awaits_remote(),
    {
        match &self.phase {
            Phase::Listing => true,
            Phase::DecodingList => true,
            Phase::ReadingListFailure { .. } => true,
            Phase::Updating { .. } => true,
            Phase::ReadingUpdateFailure { .. } => true,
            _ => false,
        }
    }
}

} // verus!
