//! The navigation between the two pickers and the download.
//!
//! The flow is a state machine. It never fetches, draws or writes: each
//! step takes what the driver last observed and answers with the next
//! thing to do. The driver performs that action and comes back with the
//! matching event, until the action is [`FlowAction::Exit`].

use vstd::prelude::*;
use vstd::string::*;
use crate::failure::{Failure, FailureView};
use crate::records::{
    archive_name, backup_display, backup_rows, backup_views, server_display, server_rows,
    server_views, text_views, Backup, BackupView, Server, ServerView,
};

verus! {

/// The four states of the navigation.
#[derive(Debug, Clone, Copy, PartialEq, Eq)]
pub enum Phase {
    /// The server list is being fetched or shown.
    ServerSelect,
    /// The backup list of the chosen server is being fetched or shown.
    BackupSelect,
    /// The link of the chosen backup is being requested or followed.
    Download,
    /// The flow has ended.
    Exit,
}

/// Why the flow ended.
#[derive(Debug, PartialEq, Eq)]
pub enum Outcome {
    /// The user left the server menu.
    Cancelled,
    /// The account holds no server.
    NoServers,
    /// One backup was downloaded.
    Downloaded,
    /// A fetch, the menu or the download failed.
    Failed(Failure),
}

/// Mathematical value of an [`Outcome`].
pub enum OutcomeView {
    Cancelled,
    NoServers,
    Downloaded,
    Failed(FailureView),
}

impl View for Outcome {
    type V = OutcomeView;

    open spec fn view(&self) -> OutcomeView {
        match *self {
            Outcome::Cancelled => OutcomeView::Cancelled,
            Outcome::NoServers => OutcomeView::NoServers,
            Outcome::Downloaded => OutcomeView::Downloaded,
            Outcome::Failed(f) => OutcomeView::Failed(f@),
        }
    }
}

/// What the driver observed while performing the last action.
#[derive(Debug, PartialEq, Eq)]
pub enum FlowEvent {
    /// The server list arrived.
    Servers(Vec<Server>),
    /// The backup list of the chosen server arrived.
    Backups(Vec<Backup>),
    /// The menu resolved: a row, or `None` when the user cancelled.
    Choice(Option<usize>),
    /// The download link arrived.
    Link(String),
    /// The download ran to its end.
    Downloaded,
    /// The action failed.
    Failed(Failure),
}

/// Mathematical value of a [`FlowEvent`].
pub enum EventView {
    Servers(Seq<ServerView>),
    Backups(Seq<BackupView>),
    Choice(Option<usize>),
    Link(Seq<char>),
    Downloaded,
    Failed(FailureView),
}

impl View for FlowEvent {
    type V = EventView;

    open spec fn view(&self) -> EventView {
        match *self {
            FlowEvent::Servers(servers) => EventView::Servers(server_views(servers@)),
            FlowEvent::Backups(backups) => EventView::Backups(backup_views(backups@)),
            FlowEvent::Choice(choice) => EventView::Choice(choice),
            FlowEvent::Link(url) => EventView::Link(url@),
            FlowEvent::Downloaded => EventView::Downloaded,
            FlowEvent::Failed(f) => EventView::Failed(f@),
        }
    }
}

/// What the driver has to do next.
#[derive(Debug, PartialEq, Eq)]
pub enum FlowAction {
    /// Fetch the server list. `after_empty_backups` asks the driver to
    /// say first that the chosen server has no backup.
    FetchServers { after_empty_backups: bool },
    /// Show the server menu with these rows.
    ChooseServer { rows: Vec<String> },
    /// Fetch the backups of the server with this uuid.
    FetchBackups { server_uuid: String },
    /// Show the backup menu with these rows.
    ChooseBackup { rows: Vec<String> },
    /// Request the download link of a backup.
    RequestLink { server_identifier: String, backup_uuid: String },
    /// Stream `url` into `file_name`, expecting `expected_bytes` bytes.
    Download { url: String, file_name: String, expected_bytes: u64 },
    /// Stop.
    Exit(Outcome),
}

/// Mathematical value of a [`FlowAction`].
pub enum ActionView {
    FetchServers { after_empty_backups: bool },
    ChooseServer { rows: Seq<Seq<char>> },
    FetchBackups { server_uuid: Seq<char> },
    ChooseBackup { rows: Seq<Seq<char>> },
    RequestLink { server_identifier: Seq<char>, backup_uuid: Seq<char> },
    Download { url: Seq<char>, file_name: Seq<char>, expected_bytes: u64 },
    Exit(OutcomeView),
}

impl View for FlowAction {
    type V = ActionView;

    open spec fn view(&self) -> ActionView {
        match *self {
            FlowAction::FetchServers { after_empty_backups } => ActionView::FetchServers {
                after_empty_backups,
            },
            FlowAction::ChooseServer { rows } => ActionView::ChooseServer {
                rows: text_views(rows@),
            },
            FlowAction::FetchBackups { server_uuid } => ActionView::FetchBackups {
                server_uuid: server_uuid@,
            },
            FlowAction::ChooseBackup { rows } => ActionView::ChooseBackup {
                rows: text_views(rows@),
            },
            FlowAction::RequestLink { server_identifier, backup_uuid } => ActionView::RequestLink {
                server_identifier: server_identifier@,
                backup_uuid: backup_uuid@,
            },
            FlowAction::Download { url, file_name, expected_bytes } => ActionView::Download {
                url: url@,
                file_name: file_name@,
                expected_bytes,
            },
            FlowAction::Exit(outcome) => ActionView::Exit(outcome@),
        }
    }
}

/// Mathematical value of a [`NavigationFlow`]: what it waits for, and
/// what it remembers meanwhile.
pub enum FlowView {
    /// Waits for the server list.
    FetchingServers,
    /// Waits for a row of the server menu.
    ChoosingServer { servers: Seq<ServerView> },
    /// Waits for the backup list of `server`.
    FetchingBackups { server: ServerView },
    /// Waits for a row of the backup menu.
    ChoosingBackup { server: ServerView, backups: Seq<BackupView> },
    /// Waits for the download link of `backup`.
    RequestingLink { backup: BackupView },
    /// Waits for the download to end.
    Downloading,
    /// Has ended.
    Finished,
}

/// The state that a flow is in.
pub open spec fn phase_of(flow: FlowView) -> Phase {
    match flow {
        FlowView::FetchingServers => Phase::ServerSelect,
        FlowView::ChoosingServer { .. } => Phase::ServerSelect,
        FlowView::FetchingBackups { .. } => Phase::BackupSelect,
        FlowView::ChoosingBackup { .. } => Phase::BackupSelect,
        FlowView::RequestingLink { .. } => Phase::Download,
        FlowView::Downloading => Phase::Download,
        FlowView::Finished => Phase::Exit,
    }
}

/// Whether a menu result means "go back": the user cancelled, or chose
/// the back row, which is row 0.
pub open spec fn goes_back(choice: Option<usize>) -> bool {
    choice is None || choice == Some(0usize)
}

/// Whether a menu result is one that a menu over `count` records can
/// give: nothing, the back row, or the row of one of the records.
pub open spec fn choice_fits(choice: Option<usize>, count: nat) -> bool {
    choice matches Some(row) ==> row <= count
}

/// The edges of the navigation: the state after `event` and the action
/// that goes with it, or `None` where `event` does not answer the action
/// that `flow` last handed out.
///
/// * A failure ends the flow, whatever it was waiting for.
/// * An empty server list ends the flow; any other list opens the server
///   menu.
/// * Going back from the server menu ends the flow; a server row leads
///   to the fetch of that server's backups, by its uuid.
/// * An empty backup list leads back to the fetch of the servers, and so
///   does going back from the backup menu; a backup row leads to the
///   request of that backup's link, by the server's short identifier.
/// * The link leads to the download into the file named after the
///   backup, and the end of the download ends the flow.
/// * A finished flow takes nothing, and a menu takes no row beyond its
///   last.
pub open spec fn transition(flow: FlowView, event: EventView) -> Option<(FlowView, ActionView)> {
    match (flow, event) {
        (FlowView::Finished, _) => None,
        (_, EventView::Failed(failure)) => Some(
            (FlowView::Finished, ActionView::Exit(OutcomeView::Failed(failure))),
        ),
        (FlowView::FetchingServers, EventView::Servers(servers)) => Some(
            if servers.len() == 0 {
                (FlowView::Finished, ActionView::Exit(OutcomeView::NoServers))
            } else {
                (
                    FlowView::ChoosingServer { servers },
                    ActionView::ChooseServer { rows: server_rows(servers) },
                )
            },
        ),
        (FlowView::ChoosingServer { servers }, EventView::Choice(choice)) => if goes_back(choice) {
            Some((FlowView::Finished, ActionView::Exit(OutcomeView::Cancelled)))
        } else if choice_fits(choice, servers.len()) {
            let server = servers[choice.unwrap() - 1];
            Some(
                (
                    FlowView::FetchingBackups { server },
                    ActionView::FetchBackups { server_uuid: server.uuid },
                ),
            )
        } else {
            None
        },
        (FlowView::FetchingBackups { server }, EventView::Backups(backups)) => Some(
            if backups.len() == 0 {
                (FlowView::FetchingServers, ActionView::FetchServers { after_empty_backups: true })
            } else {
                (
                    FlowView::ChoosingBackup { server, backups },
                    ActionView::ChooseBackup { rows: backup_rows(backups) },
                )
            },
        ),
        (FlowView::ChoosingBackup { server, backups }, EventView::Choice(choice)) => if goes_back(
            choice,
        ) {
            Some(
                (FlowView::FetchingServers, ActionView::FetchServers { after_empty_backups: false }),
            )
        } else if choice_fits(choice, backups.len()) {
            let backup = backups[choice.unwrap() - 1];
            Some(
                (
                    FlowView::RequestingLink { backup },
                    ActionView::RequestLink {
                        server_identifier: server.identifier,
                        backup_uuid: backup.uuid,
                    },
                ),
            )
        } else {
            None
        },
        (FlowView::RequestingLink { backup }, EventView::Link(url)) => Some(
            (
                FlowView::Downloading,
                ActionView::Download {
                    url,
                    file_name: archive_name(backup.uuid),
                    expected_bytes: backup.bytes,
                },
            ),
        ),
        (FlowView::Downloading, EventView::Downloaded) => Some(
            (FlowView::Finished, ActionView::Exit(OutcomeView::Downloaded)),
        ),
        _ => None,
    }
}

/// Whether `event` answers the action that `flow` last handed out.
pub open spec fn accepts(flow: FlowView, event: EventView) -> bool {
    transition(flow, event) is Some
}

enum Stage {
    FetchingServers,
    ChoosingServer { servers: Vec<Server> },
    FetchingBackups { server: Server },
    ChoosingBackup { server: Server, backups: Vec<Backup> },
    RequestingLink { backup: Backup },
    Downloading,
    Finished,
}

/// The navigation state machine.
pub struct NavigationFlow {
    stage: Stage,
}

impl View for NavigationFlow {
    type V = FlowView;

    closed spec fn view(&self) -> FlowView {
        match self.stage {
            Stage::FetchingServers => FlowView::FetchingServers,
            Stage::ChoosingServer { servers } => FlowView::ChoosingServer {
                servers: server_views(servers@),
            },
            Stage::FetchingBackups { server } => FlowView::FetchingBackups { server: server@ },
            Stage::ChoosingBackup { server, backups } => FlowView::ChoosingBackup {
                server: server@,
                backups: backup_views(backups@),
            },
            Stage::RequestingLink { backup } => FlowView::RequestingLink { backup: backup@ },
            Stage::Downloading => FlowView::Downloading,
            Stage::Finished => FlowView::Finished,
        }
    }
}

impl NavigationFlow {
    /// A flow at its start, and the first action: fetch the servers.
    pub fn start() -> (begun: (NavigationFlow, FlowAction))
        ensures
            begun.0@ == FlowView::FetchingServers,
            begun.1@ == (ActionView::FetchServers { after_empty_backups: false }),
    {
        (
            NavigationFlow { stage: Stage::FetchingServers },
            FlowAction::FetchServers { after_empty_backups: false },
        )
    }

    /// The state that the flow is in.
    pub fn phase(&self) -> (phase: Phase)
        ensures
            phase == phase_of(self@),
    {
        match &self.stage {
            Stage::FetchingServers => Phase::ServerSelect,
            Stage::ChoosingServer { .. } => Phase::ServerSelect,
            Stage::FetchingBackups { .. } => Phase::BackupSelect,
            Stage::ChoosingBackup { .. } => Phase::BackupSelect,
            Stage::RequestingLink { .. } => Phase::Download,
            Stage::Downloading => Phase::Download,
            Stage::Finished => Phase::Exit,
        }
    }

    /// Whether `event` answers the action that the flow last handed out.
    pub fn accepts(&self, event: &FlowEvent) -> (ok: bool)
        ensures
            ok == accepts(self@, event@),
    {
        match (&self.stage, event) {
            (Stage::Finished, _) => false,
            (_, FlowEvent::Failed(_)) => true,
            (Stage::FetchingServers, FlowEvent::Servers(_)) => true,
            (Stage::ChoosingServer { servers }, FlowEvent::Choice(choice)) => match choice {
                Some(row) => *row <= servers.len(),
                None => true,
            },
            (Stage::FetchingBackups { .. }, FlowEvent::Backups(_)) => true,
            (Stage::ChoosingBackup { backups, .. }, FlowEvent::Choice(choice)) => match choice {
                Some(row) => *row <= backups.len(),
                None => true,
            },
            (Stage::RequestingLink { .. }, FlowEvent::Link(_)) => true,
            (Stage::Downloading, FlowEvent::Downloaded) => true,
            _ => false,
        }
    }

    /// Takes what the driver observed, moves to the next state and hands
    /// out the next action. An event that does not answer the last action
    /// is refused with `None` and changes nothing.
    pub fn step(&mut self, event: FlowEvent) -> (action: Option<FlowAction>)
        ensures
            match action {
                Some(next) => transition(old(self)@, event@) == Some((final(self)@, next@)),
                None => transition(old(self)@, event@) is None && final(self)@ == old(self)@,
            },
    {
        let moved = match (&self.stage, event) {
            (Stage::Finished, _) => None,
            (_, FlowEvent::Failed(failure)) => Some(
                (Stage::Finished, FlowAction::Exit(Outcome::Failed(failure))),
            ),
            (Stage::FetchingServers, FlowEvent::Servers(servers)) => {
                if servers.len() == 0 {
                    Some((Stage::Finished, FlowAction::Exit(Outcome::NoServers)))
                } else {
                    let rows = server_display(&servers);
                    Some((Stage::ChoosingServer { servers }, FlowAction::ChooseServer { rows }))
                }
            },
            (Stage::ChoosingServer { servers }, FlowEvent::Choice(choice)) => {
                match choice {
                    None | Some(0) => Some(
                        (Stage::Finished, FlowAction::Exit(Outcome::Cancelled)),
                    ),
                    Some(row) => if row <= servers.len() {
                        let server = servers[row - 1].clone();
                        let server_uuid = server.uuid.clone();
                        Some(
                            (
                                Stage::FetchingBackups { server },
                                FlowAction::FetchBackups { server_uuid },
                            ),
                        )
                    } else {
                        None
                    },
                }
            },
            (Stage::FetchingBackups { server }, FlowEvent::Backups(backups)) => {
                if backups.len() == 0 {
                    Some(
                        (
                            Stage::FetchingServers,
                            FlowAction::FetchServers { after_empty_backups: true },
                        ),
                    )
                } else {
                    let rows = backup_display(&backups);
                    Some(
                        (
                            Stage::ChoosingBackup { server: server.clone(), backups },
                            FlowAction::ChooseBackup { rows },
                        ),
                    )
                }
            },
            (Stage::ChoosingBackup { server, backups }, FlowEvent::Choice(choice)) => {
                match choice {
                    None | Some(0) => Some(
                        (
                            Stage::FetchingServers,
                            FlowAction::FetchServers { after_empty_backups: false },
                        ),
                    ),
                    Some(row) => if row <= backups.len() {
                        let backup = backups[row - 1].clone();
                        let action = FlowAction::RequestLink {
                            server_identifier: server.identifier.clone(),
                            backup_uuid: backup.uuid.clone(),
                        };
                        Some((Stage::RequestingLink { backup }, action))
                    } else {
                        None
                    },
                }
            },
            (Stage::RequestingLink { backup }, FlowEvent::Link(url)) => {
                let action = FlowAction::Download {
                    url,
                    file_name: backup.archive_name(),
                    expected_bytes: backup.bytes,
                };
                Some((Stage::Downloading, action))
            },
            (Stage::Downloading, FlowEvent::Downloaded) => Some(
                (Stage::Finished, FlowAction::Exit(Outcome::Downloaded)),
            ),
            _ => None,
        };
        match moved {
            Some((stage, action)) => {
                self.stage = stage;
                Some(action)
            },
            None => None,
        }
    }
}

/// An empty backup list leads from the backup state back to the server
/// state: the flow asks for the servers again, says that the server has
/// no backup, and requests no download link.
pub proof fn lemma_empty_backups_lead_back(flow: FlowView, backups: Seq<BackupView>)
    requires
        flow is FetchingBackups,
        backups.len() == 0,
    ensures
        phase_of(flow) == Phase::BackupSelect,
        transition(flow, EventView::Backups(backups)) == Some(
            (FlowView::FetchingServers, ActionView::FetchServers { after_empty_backups: true }),
        ),
        phase_of(transition(flow, EventView::Backups(backups)).unwrap().0) == Phase::ServerSelect,
        !(transition(flow, EventView::Backups(backups)).unwrap().1 is RequestLink),
{
}

/// Choosing the back row is the same as cancelling the menu: in every
/// state the two lead to the same state and the same action, or are
/// refused alike. From the server menu both end the flow; from the
/// backup menu both lead back to the fetch of the servers.
pub proof fn lemma_back_row_is_cancel(flow: FlowView)
    ensures
        transition(flow, EventView::Choice(Some(0usize))) == transition(
            flow,
            EventView::Choice(None),
        ),
        flow is ChoosingServer ==> transition(flow, EventView::Choice(None)) == Some(
            (FlowView::Finished, ActionView::Exit(OutcomeView::Cancelled)),
        ),
        flow is ChoosingBackup ==> transition(flow, EventView::Choice(None)) == Some(
            (FlowView::FetchingServers, ActionView::FetchServers { after_empty_backups: false }),
        ),
{
}

/// Whatever a menu over the rows of the current list returns is an
/// event that the flow accepts: a menu never resolves to a row that it
/// does not have, and the rows are the back row and one row per record.
pub proof fn lemma_menu_result_is_accepted(flow: FlowView, choice: Option<usize>)
    requires
        flow is ChoosingServer || flow is ChoosingBackup,
        choice matches Some(row) ==> row < (match flow {
            FlowView::ChoosingServer { servers } => server_rows(servers).len(),
            FlowView::ChoosingBackup { backups, .. } => backup_rows(backups).len(),
            _ => 0,
        }),
    ensures
        accepts(flow, EventView::Choice(choice)),
{
}

/// A failure ends the flow at once from every state that is not yet
/// finished: nothing is tried again. An answer that could not be decoded
/// is such a failure and not an empty list: the flow ends with it, not
/// with the word that the account holds no server.
pub proof fn lemma_failure_is_fatal(flow: FlowView, failure: FailureView)
    requires
        !(flow is Finished),
    ensures
        transition(flow, EventView::Failed(failure)) == Some(
            (FlowView::Finished, ActionView::Exit(OutcomeView::Failed(failure))),
        ),
        transition(flow, EventView::Failed(failure)) != transition(
            FlowView::FetchingServers,
            EventView::Servers(Seq::empty()),
        ),
{
}

/// The link that is requested and the file that is written belong to
/// the same backup: the one whose row was chosen. The link is asked for
/// under the server's short identifier and the backup's uuid, and the
/// download that follows goes into the file named after that uuid and
/// expects that backup's size.
pub proof fn lemma_file_named_after_chosen_backup(flow: FlowView, row: usize, url: Seq<char>)
    requires
        flow is ChoosingBackup,
        1 <= row <= flow->backups.len(),
    ensures
        ({
            let chosen = flow->backups[row - 1];
            &&& transition(flow, EventView::Choice(Some(row))) matches Some((waiting, asked))
            &&& asked == (ActionView::RequestLink {
                server_identifier: flow->ChoosingBackup_server.identifier,
                backup_uuid: chosen.uuid,
            })
            &&& transition(waiting, EventView::Link(url)) matches Some((loading, started))
            &&& started == (ActionView::Download {
                url,
                file_name: archive_name(chosen.uuid),
                expected_bytes: chosen.bytes,
            })
            &&& phase_of(waiting) == Phase::Download
            &&& phase_of(loading) == Phase::Download
        }),
{
}

/// One download ends the flow, and a finished flow stays finished: it
/// takes no further event.
pub proof fn lemma_finished_is_final(flow: FlowView, event: EventView)
    ensures
        transition(FlowView::Downloading, EventView::Downloaded) == Some(
            (FlowView::Finished, ActionView::Exit(OutcomeView::Downloaded)),
        ),
        flow is Finished ==> transition(flow, event) is None,
{
}

/// The flow stops exactly when it reaches its last state: a step hands
/// out `Exit` if and only if the state after it is finished. A menu is
/// only ever opened over at least one record.
pub proof fn lemma_exit_iff_finished(flow: FlowView, event: EventView)
    requires
        accepts(flow, event),
    ensures
        transition(flow, event).unwrap().1 is Exit <==> transition(flow, event).unwrap().0 is Finished,
        transition(flow, event).unwrap().0 matches FlowView::ChoosingServer { servers } ==> servers.len()
            > 0,
        transition(flow, event).unwrap().1 matches ActionView::ChooseServer { rows } ==> rows.len() > 1,
        transition(flow, event).unwrap().1 matches ActionView::ChooseBackup { rows } ==> rows.len() > 1,
{
}

} // verus!
