//! One request, from the command to the reply.
//!
//! The crate talks to no server. It says which step comes next, the
//! caller carries the step out and reports back what came of it, and so
//! on until the request is finished.

use vstd::prelude::*;

use crate::access::{check_access, Access, Config};
use crate::report::{build_report, report_text, Detail};
use crate::snapshot::{channel_views, client_views, Channel, ChannelView, Client, ClientView};

verus! {

/// The virtual server that reports are about.
pub const VIRTUAL_SERVER: u64 = 1;

/// What the caller is asked to do on the voice server.
#[derive(Debug, Clone, Copy, PartialEq, Eq, Structural)]
pub enum Step {
    /// Open a connection to the configured address.
    Connect,
    /// Log in as the service account, with the configured password.
    Login,
    /// Select the virtual server [`VIRTUAL_SERVER`].
    SelectServer,
    /// Fetch the clients that are connected.
    ListClients,
    /// Fetch the channels.
    ListChannels,
    /// Log out, which releases the connection.
    Logout,
}

/// What came of a step.
#[derive(Debug, Clone, PartialEq, Eq)]
pub enum Event {
    /// The step was carried out. It has nothing to hand back.
    Done,
    /// The clients that the server listed, in its order.
    Clients(Vec<Client>),
    /// The channels that the server listed, in its order.
    Channels(Vec<Channel>),
    /// The step could not be carried out.
    Failed,
}

/// An [`Event`] as contracts see it.
pub enum EventView {
    Done,
    Clients(Seq<ClientView>),
    Channels(Seq<ChannelView>),
    Failed,
}

impl View for Event {
    type V = EventView;

    open spec fn view(&self) -> EventView {
        match *self {
            Event::Done => EventView::Done,
            Event::Clients(list) => EventView::Clients(client_views(list@)),
            Event::Channels(list) => EventView::Channels(channel_views(list@)),
            Event::Failed => EventView::Failed,
        }
    }
}

/// How a request ended.
#[derive(Debug, Clone, PartialEq, Eq)]
pub enum Outcome {
    /// The sender may not ask. Nothing was asked of the voice server and
    /// nothing is sent.
    Denied,
    /// The given step failed. Nothing is sent.
    Failed(Step),
    /// The report, to be sent as one message.
    Report(String),
}

/// An [`Outcome`] as contracts see it.
pub enum OutcomeView {
    Denied,
    Failed(Step),
    Report(Seq<char>),
}

impl View for Outcome {
    type V = OutcomeView;

    open spec fn view(&self) -> OutcomeView {
        match *self {
            Outcome::Denied => OutcomeView::Denied,
            Outcome::Failed(step) => OutcomeView::Failed(step),
            Outcome::Report(text) => OutcomeView::Report(text@),
        }
    }
}

impl OutcomeView {
    /// The message that goes out to the chat, if one does.
    pub open spec fn message(self) -> Option<Seq<char>> {
        match self {
            OutcomeView::Report(text) => Some(text),
            _ => None,
        }
    }
}

impl Outcome {
    /// The message to send to the chat. Only a report is sent: a request
    /// that was denied or that failed is answered with silence.
    pub fn message(&self) -> (message: Option<&String>)
        ensures
            match message {
                Some(text) => self@.message() == Some(text@),
                None => self@.message() is None,
            },
    {
        match self {
            Outcome::Report(text) => Some(text),
            _ => None,
        }
    }
}

/// A request that is under way: the step that was asked for last, and
/// what the server has handed over so far.
#[derive(Debug)]
pub struct Session {
    awaiting: Step,
    clients: Vec<Client>,
    channels: Vec<Channel>,
    failed: Option<Step>,
}

/// A [`Session`] as contracts see it.
pub struct SessionView {
    /// The step whose result is awaited.
    pub awaiting: Step,
    /// The clients that were listed, or none before that.
    pub clients: Seq<ClientView>,
    /// The channels that were listed, or none before that.
    pub channels: Seq<ChannelView>,
    /// The step that failed, if one did.
    pub failed: Option<Step>,
}

impl View for Session {
    type V = SessionView;

    closed spec fn view(&self) -> SessionView {
        SessionView {
            awaiting: self.awaiting,
            clients: client_views(self.clients@),
            channels: channel_views(self.channels@),
            failed: self.failed,
        }
    }
}

/// Where a request stands after a move.
#[derive(Debug)]
pub enum Progress {
    /// The request goes on: carry out the step that the session awaits.
    Next(Session),
    /// The request is over.
    Finished(Outcome),
}

/// A [`Progress`] as contracts see it.
pub enum ProgressView {
    Next(SessionView),
    Finished(OutcomeView),
}

impl View for Progress {
    type V = ProgressView;

    open spec fn view(&self) -> ProgressView {
        match *self {
            Progress::Next(session) => ProgressView::Next(session@),
            Progress::Finished(outcome) => ProgressView::Finished(outcome@),
        }
    }
}

impl SessionView {
    /// A session at its start: the connection is asked for, nothing is
    /// known yet.
    pub open spec fn start() -> SessionView {
        SessionView {
            awaiting: Step::Connect,
            clients: Seq::empty(),
            channels: Seq::empty(),
            failed: None,
        }
    }

    /// The session after the awaited step went well: `step` is asked for.
    pub open spec fn go_on(self, step: Step) -> ProgressView {
        ProgressView::Next(SessionView { awaiting: step, ..self })
    }

    /// The session after the awaited step failed while the connection is
    /// open: the failure is kept and the logout is asked for.
    pub open spec fn release(self) -> ProgressView {
        ProgressView::Next(
            SessionView { awaiting: Step::Logout, failed: Some(self.awaiting), ..self },
        )
    }

    /// Where the request stands once `event` has come in for the awaited
    /// step. An event that does not fit the step counts as its failure.
    pub open spec fn after(self, event: EventView) -> ProgressView {
        match self.awaiting {
            Step::Connect => match event {
                EventView::Done => self.go_on(Step::Login),
                _ => ProgressView::Finished(OutcomeView::Failed(Step::Connect)),
            },
            Step::Login => match event {
                EventView::Done => self.go_on(Step::SelectServer),
                _ => self.release(),
            },
            Step::SelectServer => match event {
                EventView::Done => self.go_on(Step::ListClients),
                _ => self.release(),
            },
            Step::ListClients => match event {
                EventView::Clients(list) => ProgressView::Next(
                    SessionView { awaiting: Step::ListChannels, clients: list, ..self },
                ),
                _ => self.release(),
            },
            Step::ListChannels => match event {
                EventView::Channels(list) => ProgressView::Next(
                    SessionView { awaiting: Step::Logout, channels: list, ..self },
                ),
                _ => self.release(),
            },
            Step::Logout => match self.failed {
                Some(step) => ProgressView::Finished(OutcomeView::Failed(step)),
                None => match event {
                    EventView::Done => ProgressView::Finished(
                        OutcomeView::Report(
                            report_text(self.clients, self.channels, Detail::Country),
                        ),
                    ),
                    _ => ProgressView::Finished(OutcomeView::Failed(Step::Logout)),
                },
            },
        }
    }
}

impl ProgressView {
    /// Where the request stands once `events` have come in, one for each
    /// step that was asked for. Events past the end of the request are
    /// not looked at.
    pub open spec fn run(self, events: Seq<EventView>) -> ProgressView
        decreases events.len(),
    {
        if events.len() == 0 {
            self
        } else {
            match self {
                ProgressView::Finished(_) => self,
                ProgressView::Next(session) => session.after(events[0]).run(events.drop_first()),
            }
        }
    }
}

/// Takes up a request of `user` in `chat`.
///
/// The guard comes first. Where it denies, the request is over at once
/// and nothing is asked of the voice server. Else a session starts, and
/// its first step is to connect.
pub fn begin(config: &Config, user: Option<u64>, chat: Option<i64>) -> (progress: Progress)
    ensures
        progress@ == if config.permits(user, chat) {
            ProgressView::Next(SessionView::start())
        } else {
            ProgressView::Finished(OutcomeView::Denied)
        },
{
    match check_access(&config.allowed_users, &config.allowed_chats, user, chat) {
        Access::Denied => Progress::Finished(Outcome::Denied),
        Access::Allowed => {
            let session = Session {
                awaiting: Step::Connect,
                clients: Vec::new(),
                channels: Vec::new(),
                failed: None,
            };
            proof {
                assert(session@.clients =~= Seq::empty());
                assert(session@.channels =~= Seq::empty());
            }
            Progress::Next(session)
        },
    }
}

impl Session {
    /// The step that the caller is to carry out now.
    pub fn awaiting(&self) -> (step: Step)
        ensures
            step == self@.awaiting,
    {
        self.awaiting
    }

    /// Takes in what came of the awaited step and says how the request
    /// goes on.
    ///
    /// The steps follow one another while they succeed. A failure before
    /// the connection is open ends the request. A later failure ends it
    /// too, but only after the logout was asked for. The report is built
    /// once the logout went well after all other steps did.
    pub fn resume(self, event: Event) -> (progress: Progress)
        ensures
            progress@ == self@.after(event@),
    {
        let Session { awaiting, clients, channels, failed } = self;
        match awaiting {
            Step::Connect => match event {
                Event::Done => Progress::Next(
                    Session { awaiting: Step::Login, clients, channels, failed },
                ),
                _ => Progress::Finished(Outcome::Failed(Step::Connect)),
            },
            Step::Login => match event {
                Event::Done => Progress::Next(
                    Session { awaiting: Step::SelectServer, clients, channels, failed },
                ),
                _ => Progress::Next(
                    Session { awaiting: Step::Logout, clients, channels, failed: Some(awaiting) },
                ),
            },
            Step::SelectServer => match event {
                Event::Done => Progress::Next(
                    Session { awaiting: Step::ListClients, clients, channels, failed },
                ),
                _ => Progress::Next(
                    Session { awaiting: Step::Logout, clients, channels, failed: Some(awaiting) },
                ),
            },
            Step::ListClients => match event {
                Event::Clients(list) => Progress::Next(
                    Session { awaiting: Step::ListChannels, clients: list, channels, failed },
                ),
                _ => Progress::Next(
                    Session { awaiting: Step::Logout, clients, channels, failed: Some(awaiting) },
                ),
            },
            Step::ListChannels => match event {
                Event::Channels(list) => Progress::Next(
                    Session { awaiting: Step::Logout, clients, channels: list, failed },
                ),
                _ => Progress::Next(
                    Session { awaiting: Step::Logout, clients, channels, failed: Some(awaiting) },
                ),
            },
            Step::Logout => match failed {
                Some(step) => Progress::Finished(Outcome::Failed(step)),
                None => match event {
                    Event::Done => Progress::Finished(
                        Outcome::Report(build_report(&clients, &channels)),
                    ),
                    _ => Progress::Finished(Outcome::Failed(Step::Logout)),
                },
            },
        }
    }
}

/// How many steps a session can still ask for, the awaited one counted.
pub open spec fn steps_left(step: Step) -> nat {
    match step {
        Step::Connect => 6,
        Step::Login => 5,
        Step::SelectServer => 4,
        Step::ListClients => 3,
        Step::ListChannels => 2,
        Step::Logout => 1,
    }
}

/// The events of a request in which every step goes well and the server
/// lists `clients` and `channels`.
pub open spec fn smooth_run(clients: Seq<ClientView>, channels: Seq<ChannelView>) -> Seq<
    EventView,
> {
    seq![
        EventView::Done,
        EventView::Done,
        EventView::Done,
        EventView::Clients(clients),
        EventView::Channels(channels),
        EventView::Done,
    ]
}

/// Each move brings the end nearer: it finishes the request, or it
/// leaves fewer steps to ask for than there were.
pub proof fn each_move_leaves_fewer_steps(session: SessionView, event: EventView)
    ensures
        session.after(event) matches ProgressView::Next(next) ==> steps_left(next.awaiting)
            < steps_left(session.awaiting),
{
}

/// Every request ends: once as many events have come in as the session
/// had steps left, it is finished, whatever the events were.
pub proof fn request_ends(session: SessionView, events: Seq<EventView>)
    requires
        events.len() >= steps_left(session.awaiting),
    ensures
        ProgressView::Next(session).run(events) is Finished,
    decreases events.len(),
{
    each_move_leaves_fewer_steps(session, events[0]);
    match session.after(events[0]) {
        ProgressView::Next(next) => {
            request_ends(next, events.drop_first());
        },
        ProgressView::Finished(_) => {
            reveal_with_fuel(ProgressView::run, 2);
        },
    }
}

/// An open connection is released before the request ends. A request
/// ends only on the answer to `Connect`, when no connection was opened,
/// or on the answer to `Logout`. A step in between that fails is
/// followed by the logout, and the failed step is kept as the outcome.
pub proof fn connection_is_released(session: SessionView, event: EventView)
    ensures
        session.after(event) is Finished ==> session.awaiting == Step::Connect || session.awaiting
            == Step::Logout,
        session.awaiting != Step::Connect && session.awaiting != Step::Logout && event is Failed
            ==> {
            &&& session.after(event) matches ProgressView::Next(next)
            &&& next.awaiting == Step::Logout
            &&& next.failed == Some(session.awaiting)
            &&& next.after(event) == ProgressView::Finished(OutcomeView::Failed(session.awaiting))
        },
{
}

/// When every step goes well, the outcome is the report on what the
/// server listed.
pub proof fn smooth_run_gives_report(clients: Seq<ClientView>, channels: Seq<ChannelView>)
    ensures
        ProgressView::Next(SessionView::start()).run(smooth_run(clients, channels))
            == ProgressView::Finished(
            OutcomeView::Report(report_text(clients, channels, Detail::Country)),
        ),
{
    let events = smooth_run(clients, channels);
    reveal_with_fuel(ProgressView::run, 7);
    assert(events.skip(1) =~= events.drop_first());
    assert(events.skip(2) =~= events.skip(1).drop_first());
    assert(events.skip(3) =~= events.skip(2).drop_first());
    assert(events.skip(4) =~= events.skip(3).drop_first());
    assert(events.skip(5) =~= events.skip(4).drop_first());
    assert(events.skip(5).drop_first().len() == 0);
}

/// A report goes out only when every step went well: if a request ends
/// in a report, its first six events are those of a smooth run, and the
/// report is the one on the clients and channels that were listed.
pub proof fn report_takes_every_step(events: Seq<EventView>, text: Seq<char>)
    requires
        ProgressView::Next(SessionView::start()).run(events) == ProgressView::Finished(
            OutcomeView::Report(text),
        ),
    ensures
        events.len() >= 6,
        exists|clients: Seq<ClientView>, channels: Seq<ChannelView>|
            {
                &&& events.take(6) == #[trigger] smooth_run(clients, channels)
                &&& text == report_text(clients, channels, Detail::Country)
            },
{
    let s0 = SessionView::start();
    let e0 = events;
    let p0 = ProgressView::Next(s0);
    assert(e0.len() > 0);
    let p1 = s0.after(e0[0]);
    let e1 = e0.drop_first();
    assert(p0.run(e0) == p1.run(e1));
    if p1 is Finished {
        finished_stays(p1, e1);
    }
    let s1 = p1->Next_0;
    assert(e1.len() > 0);
    let p2 = s1.after(e1[0]);
    let e2 = e1.drop_first();
    assert(p1.run(e1) == p2.run(e2));
    let s2 = p2->Next_0;
    assert(e2.len() > 0);
    let p3 = s2.after(e2[0]);
    let e3 = e2.drop_first();
    assert(p2.run(e2) == p3.run(e3));
    let s3 = p3->Next_0;
    assert(e3.len() > 0);
    let p4 = s3.after(e3[0]);
    let e4 = e3.drop_first();
    assert(p3.run(e3) == p4.run(e4));
    let s4 = p4->Next_0;
    assert(e4.len() > 0);
    let p5 = s4.after(e4[0]);
    let e5 = e4.drop_first();
    assert(p4.run(e4) == p5.run(e5));
    let s5 = p5->Next_0;
    assert(e5.len() > 0);
    let p6 = s5.after(e5[0]);
    let e6 = e5.drop_first();
    assert(p5.run(e5) == p6.run(e6));
    assert(p6 is Finished);
    finished_stays(p6, e6);
    let clients = s5.clients;
    let channels = s5.channels;
    assert(events.take(6) =~= smooth_run(clients, channels));
}

/// A request that is over takes no more events.
proof fn finished_stays(progress: ProgressView, events: Seq<EventView>)
    requires
        progress is Finished,
    ensures
        progress.run(events) == progress,
{
}

} // verus!
