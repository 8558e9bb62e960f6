use clumsy_loader::failure::Failure;
use clumsy_loader::flow::{FlowAction, FlowEvent, NavigationFlow, Outcome, Phase};
use clumsy_loader::records::{Backup, Server};

fn take(flow: &mut NavigationFlow, event: FlowEvent) -> FlowAction {
    flow.step(event).expect("the event answers the last action")
}

fn server(n: u32) -> Server {
    Server {
        identifier: format!("id{n}"),
        uuid: format!("server-uuid-{n}"),
        name: format!("Server {n}"),
    }
}

fn backup(n: u32) -> Backup {
    Backup {
        uuid: format!("backup-uuid-{n}"),
        name: format!("Backup {n}"),
        created_at: format!("2024-01-0{n}T00:00:00+00:00"),
        bytes: 1000 * n as u64,
    }
}

fn back() -> String {
    "\u{2190} Back".to_string()
}

/// A flow that shows the server menu over two servers.
fn at_server_menu() -> NavigationFlow {
    let (mut flow, _) = NavigationFlow::start();
    take(&mut flow, FlowEvent::Servers(vec![server(1), server(2)]));
    flow
}

/// A flow that waits for the backups of the second of two servers.
fn at_backup_fetch() -> NavigationFlow {
    let mut flow = at_server_menu();
    take(&mut flow, FlowEvent::Choice(Some(2)));
    flow
}

/// A flow that shows the backup menu over three backups of server 2.
fn at_backup_menu() -> NavigationFlow {
    let mut flow = at_backup_fetch();
    take(&mut flow, FlowEvent::Backups(vec![backup(1), backup(2), backup(3)]));
    flow
}

#[test]
fn flow_starts_by_fetching_servers() {
    let (flow, action) = NavigationFlow::start();
    assert_eq!(action, FlowAction::FetchServers { after_empty_backups: false });
    assert_eq!(flow.phase(), Phase::ServerSelect);
}

#[test]
fn no_servers_ends_the_flow() {
    let (mut flow, _) = NavigationFlow::start();
    let action = take(&mut flow, FlowEvent::Servers(Vec::new()));
    assert_eq!(action, FlowAction::Exit(Outcome::NoServers));
    assert_eq!(flow.phase(), Phase::Exit);
}

#[test]
fn servers_open_the_server_menu() {
    let (mut flow, _) = NavigationFlow::start();
    let action = take(&mut flow, FlowEvent::Servers(vec![server(1), server(2)]));
    assert_eq!(
        action,
        FlowAction::ChooseServer {
            rows: vec![back(), "Server 1".to_string(), "Server 2".to_string()]
        }
    );
    assert_eq!(flow.phase(), Phase::ServerSelect);
}

#[test]
fn cancel_in_server_menu_ends_the_flow() {
    let mut flow = at_server_menu();
    assert_eq!(take(&mut flow, FlowEvent::Choice(None)), FlowAction::Exit(Outcome::Cancelled));
    assert_eq!(flow.phase(), Phase::Exit);
}

#[test]
fn back_row_in_server_menu_is_the_same_as_cancel() {
    let mut cancelled = at_server_menu();
    let mut went_back = at_server_menu();
    let on_cancel = take(&mut cancelled, FlowEvent::Choice(None));
    let on_back = take(&mut went_back, FlowEvent::Choice(Some(0)));
    assert_eq!(on_back, on_cancel);
    assert_eq!(on_back, FlowAction::Exit(Outcome::Cancelled));
    assert_eq!(went_back.phase(), cancelled.phase());
    assert_eq!(went_back.phase(), Phase::Exit);
}

#[test]
fn server_row_fetches_backups_by_uuid() {
    let mut flow = at_server_menu();
    let action = take(&mut flow, FlowEvent::Choice(Some(2)));
    assert_eq!(action, FlowAction::FetchBackups { server_uuid: "server-uuid-2".to_string() });
    assert_eq!(flow.phase(), Phase::BackupSelect);
}

#[test]
fn first_server_row_is_the_first_server() {
    let mut flow = at_server_menu();
    let action = take(&mut flow, FlowEvent::Choice(Some(1)));
    assert_eq!(action, FlowAction::FetchBackups { server_uuid: "server-uuid-1".to_string() });
}

#[test]
fn empty_backup_list_returns_to_server_select() {
    let mut flow = at_backup_fetch();
    assert_eq!(flow.phase(), Phase::BackupSelect);
    let action = take(&mut flow, FlowEvent::Backups(Vec::new()));
    assert_eq!(action, FlowAction::FetchServers { after_empty_backups: true });
    assert!(!matches!(action, FlowAction::RequestLink { .. }));
    assert_eq!(flow.phase(), Phase::ServerSelect);
    assert!(flow.accepts(&FlowEvent::Servers(vec![server(1)])));
    assert!(!flow.accepts(&FlowEvent::Link("https://x".to_string())));
}

#[test]
fn backups_open_the_backup_menu() {
    let mut flow = at_backup_fetch();
    let action = take(&mut flow, FlowEvent::Backups(vec![backup(1), backup(2)]));
    assert_eq!(
        action,
        FlowAction::ChooseBackup {
            rows: vec![
                back(),
                "Backup 1 - 2024-01-01T00:00:00+00:00".to_string(),
                "Backup 2 - 2024-01-02T00:00:00+00:00".to_string(),
            ]
        }
    );
    assert_eq!(flow.phase(), Phase::BackupSelect);
}

#[test]
fn cancel_in_backup_menu_returns_to_server_select() {
    let mut flow = at_backup_menu();
    let action = take(&mut flow, FlowEvent::Choice(None));
    assert_eq!(action, FlowAction::FetchServers { after_empty_backups: false });
    assert_eq!(flow.phase(), Phase::ServerSelect);
}

#[test]
fn back_row_in_backup_menu_is_the_same_as_cancel() {
    let mut cancelled = at_backup_menu();
    let mut went_back = at_backup_menu();
    assert_eq!(
        take(&mut went_back, FlowEvent::Choice(Some(0))),
        take(&mut cancelled, FlowEvent::Choice(None))
    );
    assert_eq!(went_back.phase(), cancelled.phase());
}

#[test]
fn backup_row_requests_link_by_server_identifier() {
    let mut flow = at_backup_menu();
    let action = take(&mut flow, FlowEvent::Choice(Some(3)));
    assert_eq!(
        action,
        FlowAction::RequestLink {
            server_identifier: "id2".to_string(),
            backup_uuid: "backup-uuid-3".to_string(),
        }
    );
    assert_eq!(flow.phase(), Phase::Download);
}

#[test]
fn link_starts_the_download_into_the_named_file() {
    let mut flow = at_backup_menu();
    take(&mut flow, FlowEvent::Choice(Some(2)));
    let action = take(&mut flow, FlowEvent::Link("https://node.example/dl?token=abc".to_string()));
    assert_eq!(
        action,
        FlowAction::Download {
            url: "https://node.example/dl?token=abc".to_string(),
            file_name: "backup-uuid-2.tar.gz".to_string(),
            expected_bytes: 2000,
        }
    );
    assert_eq!(flow.phase(), Phase::Download);
}

#[test]
fn finished_download_ends_the_flow() {
    let mut flow = at_backup_menu();
    take(&mut flow, FlowEvent::Choice(Some(1)));
    take(&mut flow, FlowEvent::Link("https://node.example/dl".to_string()));
    assert_eq!(take(&mut flow, FlowEvent::Downloaded), FlowAction::Exit(Outcome::Downloaded));
    assert_eq!(flow.phase(), Phase::Exit);
}

#[test]
fn after_going_back_the_servers_are_fetched_anew() {
    let mut flow = at_backup_menu();
    take(&mut flow, FlowEvent::Choice(Some(0)));
    let action = take(&mut flow, FlowEvent::Servers(vec![server(7)]));
    assert_eq!(action, FlowAction::ChooseServer { rows: vec![back(), "Server 7".to_string()] });
    let action = take(&mut flow, FlowEvent::Choice(Some(1)));
    assert_eq!(action, FlowAction::FetchBackups { server_uuid: "server-uuid-7".to_string() });
}

#[test]
fn failure_is_fatal_in_every_state() {
    let failures = [
        Failure::Transport("connection refused".to_string()),
        Failure::Decode("expected value at line 1 column 1".to_string()),
        Failure::DownloadRejected("rate limited".to_string()),
        Failure::Io("disk full".to_string()),
    ];
    for failure in failures {
        let mut link_wait = at_backup_menu();
        take(&mut link_wait, FlowEvent::Choice(Some(1)));
        let mut downloading = at_backup_menu();
        take(&mut downloading, FlowEvent::Choice(Some(1)));
        take(&mut downloading, FlowEvent::Link("https://node.example/dl".to_string()));
        let flows = vec![
            NavigationFlow::start().0,
            at_server_menu(),
            at_backup_fetch(),
            at_backup_menu(),
            link_wait,
            downloading,
        ];
        for mut flow in flows {
            assert!(flow.accepts(&FlowEvent::Failed(failure.clone())));
            let action = take(&mut flow, FlowEvent::Failed(failure.clone()));
            assert_eq!(action, FlowAction::Exit(Outcome::Failed(failure.clone())));
            assert_eq!(flow.phase(), Phase::Exit);
        }
    }
}

#[test]
fn flow_accepts_only_the_matching_event() {
    let flow = at_server_menu();
    assert!(flow.accepts(&FlowEvent::Choice(None)));
    assert!(flow.accepts(&FlowEvent::Choice(Some(0))));
    assert!(flow.accepts(&FlowEvent::Choice(Some(2))));
    assert!(!flow.accepts(&FlowEvent::Choice(Some(3))));
    assert!(!flow.accepts(&FlowEvent::Servers(Vec::new())));
    assert!(!flow.accepts(&FlowEvent::Backups(Vec::new())));
    assert!(!flow.accepts(&FlowEvent::Link(String::new())));
    assert!(!flow.accepts(&FlowEvent::Downloaded));

    let flow = at_backup_menu();
    assert!(flow.accepts(&FlowEvent::Choice(Some(3))));
    assert!(!flow.accepts(&FlowEvent::Choice(Some(4))));

    let (fresh, _) = NavigationFlow::start();
    assert!(fresh.accepts(&FlowEvent::Servers(Vec::new())));
    assert!(!fresh.accepts(&FlowEvent::Choice(None)));
}

#[test]
fn finished_flow_accepts_nothing() {
    let mut flow = at_server_menu();
    take(&mut flow, FlowEvent::Choice(None));
    assert!(!flow.accepts(&FlowEvent::Servers(Vec::new())));
    assert!(!flow.accepts(&FlowEvent::Choice(None)));
    assert!(!flow.accepts(&FlowEvent::Downloaded));
    assert!(!flow.accepts(&FlowEvent::Failed(Failure::Io("late".to_string()))));
}

#[test]
fn refused_event_changes_nothing() {
    let mut flow = at_server_menu();
    assert_eq!(flow.step(FlowEvent::Choice(Some(3))), None);
    assert_eq!(flow.step(FlowEvent::Downloaded), None);
    assert_eq!(flow.step(FlowEvent::Link("https://x".to_string())), None);
    assert_eq!(flow.step(FlowEvent::Backups(Vec::new())), None);
    assert_eq!(flow.phase(), Phase::ServerSelect);
    assert_eq!(
        flow.step(FlowEvent::Choice(Some(2))),
        Some(FlowAction::FetchBackups { server_uuid: "server-uuid-2".to_string() })
    );
}

#[test]
fn finished_flow_refuses_every_event() {
    let mut flow = at_server_menu();
    take(&mut flow, FlowEvent::Choice(Some(0)));
    assert_eq!(flow.step(FlowEvent::Failed(Failure::Io("late".to_string()))), None);
    assert_eq!(flow.step(FlowEvent::Servers(vec![server(1)])), None);
    assert_eq!(flow.phase(), Phase::Exit);
}
