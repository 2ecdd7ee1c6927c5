//! The run as a state machine over plain text: what is awaited, what each
//! event leads to, and what the user is told on the way.
//!
//! A driver performs the pending action and reports what came of it as an
//! event. Everything else is decided here.

use vstd::prelude::*;
use crate::config::ConfigView;
use crate::confirm::accepts;
use crate::error::ErrorView;
use crate::naming::{converted, Format};
use crate::notice::NoticeView;
use crate::request::{listing, renaming, succeeded, RequestView, STATUS_OK};

verus! {

/// What the run is waiting for.
#[verifier::ext_equal]
pub enum PhaseView {
    /// The status of the listing request.
    Listing,
    /// The repositories that the listing response holds.
    DecodingList,
    /// The body of a listing response that reported `status`, not a success.
    ReadingListFailure { status: u16 },
    /// The user's answer on renaming `name` to `new_name`.
    Confirming { name: Seq<char>, new_name: Seq<char> },
    /// The status of the request that renames `name` to `new_name`.
    Updating { name: Seq<char>, new_name: Seq<char> },
    /// The body of the response that refused to rename `name`.
    ReadingUpdateFailure { name: Seq<char> },
    /// Nothing: every repository was dealt with.
    Finished,
    /// Nothing: the run was given up with `error`.
    Aborted { error: ErrorView },
}

/// What the driver reports.
#[verifier::ext_equal]
pub enum EventView {
    /// The service answered the request with `status`.
    Responded { status: u16 },
    /// The response was decoded into repositories with these names.
    Listed { names: Seq<Seq<char>> },
    /// The response's body was read.
    Body { text: Seq<char> },
    /// The user typed a line.
    Answered { line: Seq<char> },
    /// The service could not be reached, or its answer could not be read.
    TransportFailed { detail: Seq<char> },
}

/// What the driver is to do next.
#[verifier::ext_equal]
pub enum ActionView {
    /// Send the request and report the status of the response.
    Send { request: RequestView },
    /// Decode the response as a list of repositories.
    DecodeRepositories,
    /// Read the response's body as text.
    ReadBody,
    /// Ask whether `name` should become `new_name`, and report the answer.
    Confirm { name: Seq<char>, new_name: Seq<char> },
    /// Stop: the run is complete.
    Finish,
    /// Stop: the run has failed.
    Abort { error: ErrorView },
}

/// The outcome of one event: lines to print, then an action to perform.
#[verifier::ext_equal]
pub struct StepView {
    pub notices: Seq<NoticeView>,
    pub action: ActionView,
}

/// The state of a run.
#[verifier::ext_equal]
pub struct RenamerView {
    pub config: ConfigView,
    pub token: Seq<char>,
    /// The names of the listed repositories not yet looked at, in order.
    pub remaining: Seq<Seq<char>>,
    pub phase: PhaseView,
}

impl PhaseView {
    /// Whether the phase waits for the remote service, so that a transport
    /// failure can end it.
    pub open spec fn awaits_remote(self) -> bool {
        match self {
            PhaseView::Listing => true,
            PhaseView::DecodingList => true,
            PhaseView::ReadingListFailure { .. } => true,
            PhaseView::Updating { .. } => true,
            PhaseView::ReadingUpdateFailure { .. } => true,
            _ => false,
        }
    }

    /// Whether the run is over.
    pub open spec fn terminal(self) -> bool {
        self is Finished || self is Aborted
    }
}

impl RenamerView {
    /// The state in which a run begins: nothing listed, the listing awaited.
    pub open spec fn initial(config: ConfigView, token: Seq<char>) -> RenamerView {
        RenamerView { config, token, remaining: Seq::empty(), phase: PhaseView::Listing }
    }

    /// How a run opens: the credential is shown, and the listing is requested.
    pub open spec fn opening(self) -> StepView {
        StepView {
            notices: seq![NoticeView::Credential { token: self.token }],
            action: self.pending(),
        }
    }

    /// The same state in another phase.
    pub open spec fn enter(self, phase: PhaseView) -> RenamerView {
        RenamerView { phase, ..self }
    }

    /// The action that the current phase waits on.
    pub open spec fn pending(self) -> ActionView {
        match self.phase {
            PhaseView::Listing => ActionView::Send { request: listing(self.token) },
            PhaseView::DecodingList => ActionView::DecodeRepositories,
            PhaseView::ReadingListFailure { .. } => ActionView::ReadBody,
            PhaseView::Confirming { name, new_name } => ActionView::Confirm { name, new_name },
            PhaseView::Updating { name, new_name } => ActionView::Send {
                request: renaming(self.config.username, name, new_name, self.token),
            },
            PhaseView::ReadingUpdateFailure { .. } => ActionView::ReadBody,
            PhaseView::Finished => ActionView::Finish,
            PhaseView::Aborted { error } => ActionView::Abort { error },
        }
    }

    /// Moves on to the next repository whose name the rule changes, telling
    /// of each one passed over, and waits for consent or for the update,
    /// announced, as the configuration has it. With no such repository left
    /// the run is finished. `notices` are the lines already due.
    pub open spec fn advance(self, notices: Seq<NoticeView>) -> (RenamerView, Seq<NoticeView>)
        decreases self.remaining.len(),
    {
        if self.remaining.len() == 0 {
            (self.enter(PhaseView::Finished), notices)
        } else {
            let name = self.remaining.first();
            let new_name = converted(name, self.config.rule);
            let rest = RenamerView { remaining: self.remaining.drop_first(), ..self };
            if new_name == name {
                rest.advance(notices.push(NoticeView::Unchanged { name }))
            } else if self.config.interactive {
                (rest.enter(PhaseView::Confirming { name, new_name }), notices)
            } else {
                (
                    rest.enter(PhaseView::Updating { name, new_name }),
                    notices.push(NoticeView::Starting { name, new_name }),
                )
            }
        }
    }

    /// The state that `event` leads to, and the lines to print on the way.
    /// An event that the phase does not wait for changes nothing.
    pub open spec fn next(self, event: EventView) -> (RenamerView, Seq<NoticeView>) {
        match (self.phase, event) {
            (PhaseView::Listing, EventView::Responded { status }) => if succeeded(status) {
                (self.enter(PhaseView::DecodingList), Seq::empty())
            } else {
                (self.enter(PhaseView::ReadingListFailure { status }), Seq::empty())
            },
            (PhaseView::DecodingList, EventView::Listed { names }) => (RenamerView {
                remaining: names,
                ..self
            }).advance(Seq::empty()),
            (PhaseView::ReadingListFailure { status }, EventView::Body { text }) => (
                self.enter(
                    PhaseView::Aborted {
                        error: ErrorView::RemoteError { status: Some(status), detail: text },
                    },
                ),
                Seq::empty(),
            ),
            (PhaseView::Confirming { name, new_name }, EventView::Answered { line }) => if accepts(
                line,
            ) {
                (self.enter(PhaseView::Updating { name, new_name }), Seq::empty())
            } else {
                self.advance(seq![NoticeView::Declined { name }])
            },
            (PhaseView::Updating { name, new_name }, EventView::Responded { status }) => if status
                == STATUS_OK {
                self.advance(seq![NoticeView::Renamed { name, new_name }])
            } else {
                (self.enter(PhaseView::ReadingUpdateFailure { name }), Seq::empty())
            },
            (PhaseView::ReadingUpdateFailure { name }, EventView::Body { text }) => self.advance(
                seq![NoticeView::Failed { name, body: text }],
            ),
            (phase, EventView::TransportFailed { detail }) => if phase.awaits_remote() {
                (
                    self.enter(
                        PhaseView::Aborted {
                            error: ErrorView::RemoteError { status: None, detail },
                        },
                    ),
                    Seq::empty(),
                )
            } else {
                (self, Seq::empty())
            },
            _ => (self, Seq::empty()),
        }
    }

    /// The outcome of `event`: the lines to print on the way to the next
    /// state, and the action which that state waits on.
    pub open spec fn step(self, event: EventView) -> (RenamerView, StepView) {
        let (after, notices) = self.next(event);
        (after, StepView { notices, action: after.pending() })
    }
}

/// How many names at the head of `names` the rule leaves as they are.
pub open spec fn unchanged_prefix(names: Seq<Seq<char>>, rule: Format) -> nat
    decreases names.len(),
{
    if names.len() > 0 && converted(names.first(), rule) == names.first() {
        1 + unchanged_prefix(names.drop_first(), rule)
    } else {
        0
    }
}

impl RenamerView {
    /// Whether the rename in hand, if there is one, is what the rule makes of
    /// a name that it changes, and is asked about only in interactive mode.
    pub open spec fn consistent(self) -> bool {
        match self.phase {
            PhaseView::Confirming { name, new_name } => {
                &&& self.config.interactive
                &&& new_name == converted(name, self.config.rule)
                &&& new_name != name
            },
            PhaseView::Updating { name, new_name } => {
                &&& new_name == converted(name, self.config.rule)
                &&& new_name != name
            },
            _ => true,
        }
    }

    /// Moving on passes over exactly the names at the head of the list that
    /// the rule leaves as they are, with one notice for each, in order, behind
    /// the lines already due. It stops at the first name that the rule
    /// changes and takes that one in hand, or finishes when there is none.
    pub proof fn lemma_advance(self, notices: Seq<NoticeView>)
        ensures
            ({
                let skipped = unchanged_prefix(self.remaining, self.config.rule);
                let (after, lines) = self.advance(notices);
                &&& skipped <= self.remaining.len()
                &&& after.config == self.config
                &&& after.token == self.token
                &&& forall|i: int| 0 <= i < notices.len() ==> lines[i] == notices[i]
                &&& forall|i: int|
                    0 <= i < skipped ==> #[trigger] lines[notices.len() + i]
                        == (NoticeView::Unchanged { name: self.remaining[i] })
                &&& if skipped == self.remaining.len() {
                    &&& after.phase == PhaseView::Finished
                    &&& after.remaining.len() == 0
                    &&& lines.len() == notices.len() + skipped
                } else {
                    let name = self.remaining[skipped as int];
                    let new_name = converted(name, self.config.rule);
                    &&& new_name != name
                    &&& after.remaining == self.remaining.skip(skipped as int + 1)
                    &&& if self.config.interactive {
                        &&& after.phase == (PhaseView::Confirming { name, new_name })
                        &&& lines.len() == notices.len() + skipped
                    } else {
                        &&& after.phase == (PhaseView::Updating { name, new_name })
                        &&& lines.len() == notices.len() + skipped + 1
                        &&& lines.last() == (NoticeView::Starting { name, new_name })
                    }
                }
            }),
        decreases self.remaining.len(),
    {
        if self.remaining.len() > 0 {
            let name = self.remaining.first();
            let rest = RenamerView { remaining: self.remaining.drop_first(), ..self };
            if converted(name, self.config.rule) == name {
                let passed = notices.push(NoticeView::Unchanged { name });
                rest.lemma_advance(passed);
                let skipped = unchanged_prefix(rest.remaining, self.config.rule);
                let (after, lines) = rest.advance(passed);
                if skipped < rest.remaining.len() {
                    assert(rest.remaining.skip(skipped as int + 1) =~= self.remaining.skip(
                        skipped as int + 2,
                    ));
                }
                assert forall|i: int| 0 <= i < notices.len() implies lines[i] == notices[i] by {
                    assert(passed[i] == notices[i]);
                }
                assert forall|i: int| 0 <= i < skipped + 1 implies #[trigger] lines[notices.len()
                    + i] == (NoticeView::Unchanged { name: self.remaining[i] }) by {
                    if i == 0 {
                        assert(lines[notices.len() as int] == passed[notices.len() as int]);
                    } else {
                        assert(lines[passed.len() + (i - 1)] == (NoticeView::Unchanged {
                            name: rest.remaining[i - 1],
                        }));
                    }
                }
            } else {
                assert(self.remaining.drop_first() =~= self.remaining.skip(1));
            }
        }
    }

    /// The state that a sequence of events leads to, one after another.
    pub open spec fn after(self, events: Seq<EventView>) -> RenamerView
        decreases events.len(),
    {
        if events.len() == 0 {
            self
        } else {
            self.after(events.drop_last()).next(events.last()).0
        }
    }

    /// Every event leads from a consistent state to a consistent state.
    pub proof fn lemma_next_is_consistent(self, event: EventView)
        requires
            self.consistent(),
        ensures
            self.next(event).0.consistent(),
    {
        self.lemma_advance(Seq::empty());
        match (self.phase, event) {
            (PhaseView::DecodingList, EventView::Listed { names }) => {
                (RenamerView { remaining: names, ..self }).lemma_advance(Seq::empty());
            },
            (PhaseView::Confirming { name, .. }, EventView::Answered { .. }) => {
                self.lemma_advance(seq![NoticeView::Declined { name }]);
            },
            (PhaseView::Updating { name, new_name }, EventView::Responded { .. }) => {
                self.lemma_advance(seq![NoticeView::Renamed { name, new_name }]);
            },
            (PhaseView::ReadingUpdateFailure { name }, EventView::Body { text }) => {
                self.lemma_advance(seq![NoticeView::Failed { name, body: text }]);
            },
            _ => {},
        }
    }

    /// Whatever the driver reports, and in whatever order, a run is in a
    /// consistent state.
    pub proof fn lemma_every_run_is_consistent(
        config: ConfigView,
        token: Seq<char>,
        events: Seq<EventView>,
    )
        ensures
            RenamerView::initial(config, token).after(events).consistent(),
        decreases events.len(),
    {
        if events.len() > 0 {
            Self::lemma_every_run_is_consistent(config, token, events.drop_last());
            RenamerView::initial(config, token).after(events.drop_last()).lemma_next_is_consistent(
                events.last(),
            );
        }
    }

    /// In a consistent state an update is only ever requested for a name that
    /// the rule changes, and it asks for what the rule makes of that name; a
    /// run that is not interactive never asks for consent.
    pub proof fn lemma_consistent_actions(self)
        requires
            self.consistent(),
        ensures
            self.pending() matches ActionView::Send { request } ==> request == listing(self.token)
                || exists|name: Seq<char>|
                    {
                        &&& converted(name, self.config.rule) != name
                        &&& request == #[trigger] renaming(
                            self.config.username,
                            name,
                            converted(name, self.config.rule),
                            self.token,
                        )
                    },
            self.pending() is Confirm ==> self.config.interactive,
    {
        match self.phase {
            PhaseView::Updating { name, .. } => {
                assert(self.pending() == ActionView::Send {
                    request: renaming(
                        self.config.username,
                        name,
                        converted(name, self.config.rule),
                        self.token,
                    ),
                });
            },
            _ => {},
        }
    }

    /// Once a run is over, no event changes it or prints anything.
    pub proof fn lemma_over_is_over(self, event: EventView)
        requires
            self.phase.terminal(),
        ensures
            self.next(event) == (self, Seq::<NoticeView>::empty()),
    {
    }

    /// A run is given up for two reasons only: the service could not be
    /// reached while the run was waiting for it, or the listing was refused.
    /// A refused rename, a declined one and a name left as it is never end it.
    pub proof fn lemma_abort_causes(self, event: EventView)
        requires
            !(self.phase is Aborted),
            self.next(event).0.phase is Aborted,
        ensures
            ({
                ||| event is TransportFailed && self.phase.awaits_remote() && self.next(
                    event,
                ).0.phase == (PhaseView::Aborted {
                    error: ErrorView::RemoteError {
                        status: None,
                        detail: event->TransportFailed_detail,
                    },
                })
                ||| self.phase is ReadingListFailure && event is Body && self.next(event).0.phase
                    == (PhaseView::Aborted {
                    error: ErrorView::RemoteError {
                        status: Some(self.phase->ReadingListFailure_status),
                        detail: event->text,
                    },
                })
            }),
    {
        self.lemma_advance(Seq::empty());
        match (self.phase, event) {
            (PhaseView::DecodingList, EventView::Listed { names }) => {
                (RenamerView { remaining: names, ..self }).lemma_advance(Seq::empty());
            },
            (PhaseView::Confirming { name, .. }, EventView::Answered { .. }) => {
                self.lemma_advance(seq![NoticeView::Declined { name }]);
            },
            (PhaseView::Updating { name, new_name }, EventView::Responded { .. }) => {
                self.lemma_advance(seq![NoticeView::Renamed { name, new_name }]);
            },
            (PhaseView::ReadingUpdateFailure { name }, EventView::Body { text }) => {
                self.lemma_advance(seq![NoticeView::Failed { name, body: text }]);
            },
            _ => {},
        }
    }
}

} // verus!
