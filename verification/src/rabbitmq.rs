//! The publisher of ticket events: what it sends to the message broker for
//! each change of a ticket, and the steps by which it gets its channel.

use vstd::prelude::*;
use crate::errors::{ApplicationError, ApplicationErrorView};
use crate::proto::ticketsrvc::{Ticket, TicketView};

verus! {

/// What happened to the ticket that an event is about.
#[derive(Clone, Copy, Debug, PartialEq, Eq, Structural)]
pub enum UpdateKind {
    Create,
    Update,
    Delete,
}

/// The number that stands for a kind in the header of an event.
pub open spec fn kind_tag(kind: UpdateKind) -> u8 {
    match kind {
        UpdateKind::Create => 0,
        UpdateKind::Update => 1,
        UpdateKind::Delete => 2,
    }
}

impl UpdateKind {
    /// The number that stands for the kind in the header of an event.
    pub fn tag(&self) -> (tag: u8)
        ensures
            tag == kind_tag(*self),
    {
        match self {
            UpdateKind::Create => 0,
            UpdateKind::Update => 1,
            UpdateKind::Delete => 2,
        }
    }
}

/// An event as it is handed to the broker: where it goes, what marks it, and
/// the ticket that is its body.
#[derive(Debug, PartialEq)]
pub struct Publication {
    /// The exchange that the event is published to.
    pub exchange: String,
    /// The routing key; a fan-out exchange reads none.
    pub routing_key: String,
    /// The content type of the body.
    pub content_type: String,
    /// The type of the message in the body.
    pub message_type: String,
    /// The name of the header that tells the kind of update.
    pub header: String,
    /// The value of that header.
    pub update_kind: u8,
    /// The ticket, which is sent in its binary wire form.
    pub message: Ticket,
}

/// What a [`Publication`] holds.
pub struct PublicationView {
    pub exchange: Seq<char>,
    pub routing_key: Seq<char>,
    pub content_type: Seq<char>,
    pub message_type: Seq<char>,
    pub header: Seq<char>,
    pub update_kind: u8,
    pub message: TicketView,
}

impl View for Publication {
    type V = PublicationView;

    open spec fn view(&self) -> PublicationView {
        PublicationView {
            exchange: self.exchange@,
            routing_key: self.routing_key@,
            content_type: self.content_type@,
            message_type: self.message_type@,
            header: self.header@,
            update_kind: self.update_kind,
            message: self.message@,
        }
    }
}

/// The event that tells of an update of a ticket on an exchange.
pub open spec fn publication_of(
    exchange: Seq<char>,
    message: TicketView,
    kind: UpdateKind,
) -> PublicationView {
    PublicationView {
        exchange,
        routing_key: Seq::empty(),
        content_type: "application/x-protobuf"@,
        message_type: "ticketsrvc.Ticket"@,
        header: "x-update-kind"@,
        update_kind: kind_tag(kind),
        message,
    }
}

/// How the publisher reaches the broker.
#[derive(Debug, PartialEq)]
pub struct OpenConnectionArguments {
    pub host: String,
    pub port: u16,
    pub username: String,
    pub password: String,
}

/// How the publisher declares its exchange.
#[derive(Debug, PartialEq)]
pub struct ExchangeDeclareArguments {
    pub exchange: String,
    pub exchange_type: String,
    /// Whether a missing exchange is an error rather than created.
    pub passive: bool,
    /// Whether the exchange outlives a restart of the broker.
    pub durable: bool,
    /// Whether the exchange goes when its last queue is unbound.
    pub auto_delete: bool,
    pub internal: bool,
    pub no_wait: bool,
}

/// The steps by which the publisher gets its channel, in their order.
#[derive(Clone, Copy, Debug, PartialEq, Eq, Structural)]
pub enum Step {
    OpenConnection,
    RegisterConnectionCallback,
    OpenChannel,
    RegisterChannelCallback,
    DeclareExchange,
}

/// The step that follows a step, if one does.
pub open spec fn step_after(step: Step) -> Option<Step> {
    match step {
        Step::OpenConnection => Some(Step::RegisterConnectionCallback),
        Step::RegisterConnectionCallback => Some(Step::OpenChannel),
        Step::OpenChannel => Some(Step::RegisterChannelCallback),
        Step::RegisterChannelCallback => Some(Step::DeclareExchange),
        Step::DeclareExchange => None,
    }
}

/// How often the opening of the connection is tried again after it failed,
/// with a delay that grows from one try to the next.
pub const CONNECTION_RETRIES: usize = 10;

/// What the one who talks to the broker is asked to do at a step.
#[derive(Debug, PartialEq)]
pub enum Request {
    /// Open the connection; on failure wait and try again, at most
    /// `max_times` times more.
    OpenConnection { arguments: OpenConnectionArguments, max_times: usize },
    /// Register the default callbacks on the connection.
    RegisterConnectionCallback,
    /// Open a channel on the connection.
    OpenChannel,
    /// Register the default callbacks on the channel.
    RegisterChannelCallback,
    /// Declare the exchange that events are published to.
    DeclareExchange(ExchangeDeclareArguments),
}

/// The publisher while it gets its channel.
#[derive(Debug, PartialEq)]
pub struct Setup {
    step: Step,
    host: String,
    port: u16,
    username: String,
    password: String,
    exchange_name: String,
    exchange_type: String,
}

/// What a [`Setup`] holds.
pub struct SetupView {
    pub step: Step,
    pub host: Seq<char>,
    pub port: u16,
    pub username: Seq<char>,
    pub password: Seq<char>,
    pub exchange_name: Seq<char>,
    pub exchange_type: Seq<char>,
}

impl View for Setup {
    type V = SetupView;

    closed spec fn view(&self) -> SetupView {
        SetupView {
            step: self.step,
            host: self.host@,
            port: self.port,
            username: self.username@,
            password: self.password@,
            exchange_name: self.exchange_name@,
            exchange_type: self.exchange_type@,
        }
    }
}

/// What a [`Request`] asks for.
pub enum RequestView {
    OpenConnection {
        host: Seq<char>,
        port: u16,
        username: Seq<char>,
        password: Seq<char>,
        max_times: usize,
    },
    RegisterConnectionCallback,
    OpenChannel,
    RegisterChannelCallback,
    DeclareExchange {
        exchange: Seq<char>,
        exchange_type: Seq<char>,
        passive: bool,
        durable: bool,
        auto_delete: bool,
        internal: bool,
        no_wait: bool,
    },
}

impl View for Request {
    type V = RequestView;

    open spec fn view(&self) -> RequestView {
        match self {
            Request::OpenConnection { arguments, max_times } => RequestView::OpenConnection {
                host: arguments.host@,
                port: arguments.port,
                username: arguments.username@,
                password: arguments.password@,
                max_times: *max_times,
            },
            Request::RegisterConnectionCallback => RequestView::RegisterConnectionCallback,
            Request::OpenChannel => RequestView::OpenChannel,
            Request::RegisterChannelCallback => RequestView::RegisterChannelCallback,
            Request::DeclareExchange(arguments) => RequestView::DeclareExchange {
                exchange: arguments.exchange@,
                exchange_type: arguments.exchange_type@,
                passive: arguments.passive,
                durable: arguments.durable,
                auto_delete: arguments.auto_delete,
                internal: arguments.internal,
                no_wait: arguments.no_wait,
            },
        }
    }
}

/// What is asked for at the step that a setup stands at. The connection is
/// opened with ten retries. The exchange is declared so that it is created
/// if it is missing, outlives a restart of the broker, and stays when no
/// queue is bound to it.
pub open spec fn request_of(setup: SetupView) -> RequestView {
    match setup.step {
        Step::OpenConnection => RequestView::OpenConnection {
            host: setup.host,
            port: setup.port,
            username: setup.username,
            password: setup.password,
            max_times: CONNECTION_RETRIES,
        },
        Step::RegisterConnectionCallback => RequestView::RegisterConnectionCallback,
        Step::OpenChannel => RequestView::OpenChannel,
        Step::RegisterChannelCallback => RequestView::RegisterChannelCallback,
        Step::DeclareExchange => RequestView::DeclareExchange {
            exchange: setup.exchange_name,
            exchange_type: setup.exchange_type,
            passive: false,
            durable: true,
            auto_delete: false,
            internal: false,
            no_wait: false,
        },
    }
}

/// Where a setup stands after the outcome of a step.
#[derive(Debug, PartialEq)]
pub enum Progress {
    /// The step succeeded and another follows.
    Next(Setup),
    /// The last step succeeded: the publisher has its channel.
    Ready(Rabbit),
    /// The step failed, and with it the setup; the text is the broker's
    /// report.
    Failed(String),
}

/// What a [`Progress`] holds.
pub enum ProgressView {
    Next(SetupView),
    Ready { exchange_name: Seq<char> },
    Failed(Seq<char>),
}

impl View for Progress {
    type V = ProgressView;

    open spec fn view(&self) -> ProgressView {
        match self {
            Progress::Next(setup) => ProgressView::Next(setup@),
            Progress::Ready(rabbit) => ProgressView::Ready { exchange_name: rabbit@ },
            Progress::Failed(report) => ProgressView::Failed(report@),
        }
    }
}

/// What an outcome that the broker reports says.
pub open spec fn outcome_view(outcome: Result<(), String>) -> Result<(), Seq<char>> {
    match outcome {
        Ok(()) => Ok(()),
        Err(report) => Err(report@),
    }
}

/// Where a setup stands after the outcome of its step: a failure ends it, a
/// success leads to the next step, and after the last step the publisher is
/// ready.
pub open spec fn progress_of(setup: SetupView, outcome: Result<(), Seq<char>>) -> ProgressView {
    match outcome {
        Err(report) => ProgressView::Failed(report),
        Ok(()) => match step_after(setup.step) {
            Some(step) => ProgressView::Next(SetupView { step, ..setup }),
            None => ProgressView::Ready { exchange_name: setup.exchange_name },
        },
    }
}

impl Setup {
    /// The step that the setup stands at.
    pub fn step(&self) -> (step: Step)
        ensures
            step == self@.step,
    {
        self.step
    }

    /// What is to be done at the step that the setup stands at.
    pub fn request(&self) -> (request: Request)
        ensures
            request@ == request_of(self@),
    {
        match self.step {
            Step::OpenConnection => Request::OpenConnection {
                arguments: OpenConnectionArguments {
                    host: self.host.clone(),
                    port: self.port,
                    username: self.username.clone(),
                    password: self.password.clone(),
                },
                max_times: CONNECTION_RETRIES,
            },
            Step::RegisterConnectionCallback => Request::RegisterConnectionCallback,
            Step::OpenChannel => Request::OpenChannel,
            Step::RegisterChannelCallback => Request::RegisterChannelCallback,
            Step::DeclareExchange => Request::DeclareExchange(
                ExchangeDeclareArguments {
                    exchange: self.exchange_name.clone(),
                    exchange_type: self.exchange_type.clone(),
                    passive: false,
                    durable: true,
                    auto_delete: false,
                    internal: false,
                    no_wait: false,
                },
            ),
        }
    }

    /// Takes the outcome of the step that the setup stands at.
    pub fn advance(self, outcome: Result<(), String>) -> (progress: Progress)
        ensures
            progress@ == progress_of(self@, outcome_view(outcome)),
    {
        match outcome {
            Err(report) => Progress::Failed(report),
            Ok(()) => {
                let step = match self.step {
                    Step::OpenConnection => Step::RegisterConnectionCallback,
                    Step::RegisterConnectionCallback => Step::OpenChannel,
                    Step::OpenChannel => Step::RegisterChannelCallback,
                    Step::RegisterChannelCallback => Step::DeclareExchange,
                    Step::DeclareExchange => {
                        return Progress::Ready(Rabbit { exchange_name: self.exchange_name });
                    },
                };
                Progress::Next(
                    Setup {
                        step,
                        host: self.host,
                        port: self.port,
                        username: self.username,
                        password: self.password,
                        exchange_name: self.exchange_name,
                        exchange_type: self.exchange_type,
                    },
                )
            },
        }
    }
}

/// The publisher of ticket events, bound to one exchange.
#[derive(Debug, PartialEq)]
pub struct Rabbit {
    exchange_name: String,
}

impl View for Rabbit {
    type V = Seq<char>;

    /// The name of the exchange.
    closed spec fn view(&self) -> Seq<char> {
        self.exchange_name@
    }
}

impl Clone for Rabbit {
    fn clone(&self) -> (copy: Self)
        ensures
            copy@ == self@,
    {
        Rabbit { exchange_name: self.exchange_name.clone() }
    }
}

impl Rabbit {
    /// Begins the setup of a publisher for an exchange on a broker: the
    /// setup stands at its first step, the opening of the connection.
    pub fn new(
        rabbitmq_host: &str,
        rabbitmq_port: u16,
        rabbitmq_username: &str,
        rabbitmq_password: &str,
        exchange_name: String,
        exchange_type: String,
    ) -> (setup: Setup)
        ensures
            setup@ == (SetupView {
                step: Step::OpenConnection,
                host: rabbitmq_host@,
                port: rabbitmq_port,
                username: rabbitmq_username@,
                password: rabbitmq_password@,
                exchange_name: exchange_name@,
                exchange_type: exchange_type@,
            }),
    {
        Setup {
            step: Step::OpenConnection,
            host: rabbitmq_host.to_owned(),
            port: rabbitmq_port,
            username: rabbitmq_username.to_owned(),
            password: rabbitmq_password.to_owned(),
            exchange_name,
            exchange_type,
        }
    }

    /// The name of the exchange that events are published to.
    pub fn exchange_name(&self) -> (name: &str)
        ensures
            name@ == self@,
    {
        self.exchange_name.as_str()
    }

    /// The event that tells the subscribers of an update of a ticket.
    pub fn notify_ticket_update(&self, message: Ticket, update_kind: UpdateKind) -> (publication:
        Publication)
        ensures
            publication@ == publication_of(self@, message@, update_kind),
    {
        Publication {
            exchange: self.exchange_name.clone(),
            routing_key: String::new(),
            content_type: "application/x-protobuf".to_owned(),
            message_type: "ticketsrvc.Ticket".to_owned(),
            header: "x-update-kind".to_owned(),
            update_kind: update_kind.tag(),
            message,
        }
    }

    /// What the broker's answer to a publication means for the operation: a
    /// failure of the broker is a failure of the publisher.
    pub fn published(outcome: Result<(), String>) -> (confirmed: Result<(), ApplicationError>)
        ensures
            match confirmed {
                Ok(()) => outcome is Ok,
                Err(error) => outcome matches Err(report) && error@
                    == ApplicationErrorView::RabbitError(report@),
            },
    {
        match outcome {
            Ok(()) => Ok(()),
            Err(report) => Err(ApplicationError::RabbitError(report)),
        }
    }
}

} // verus!
