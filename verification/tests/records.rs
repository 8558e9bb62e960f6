use clumsy_loader::api::{
    backups_request, download_link_request, key_of_line, servers_request, ApiRequest, PANEL_URL,
    USER_AGENT,
};
use clumsy_loader::failure::Failure;
use clumsy_loader::records::{
    backup_display, server_display, Attributes, Backup, BackupData, BackupDownloadLinkResponse,
    BackupListResponse, Server, ServerData, ServerListResponse,
};

fn text(value: &serde_json::Value, field: &str) -> String {
    value[field].as_str().unwrap().to_string()
}

/// Decodes the body of a server list.
fn decode_servers(body: &str) -> ServerListResponse {
    let value: serde_json::Value = serde_json::from_str(body).unwrap();
    let data = value["data"]
        .as_array()
        .unwrap()
        .iter()
        .map(|entry| {
            let attributes = &entry["attributes"];
            ServerData {
                attributes: Server {
                    identifier: text(attributes, "identifier"),
                    uuid: text(attributes, "uuid"),
                    name: text(attributes, "name"),
                },
            }
        })
        .collect();
    ServerListResponse { data }
}

fn sample_backup(name: &str, created_at: &str) -> Backup {
    Backup {
        uuid: format!("uuid-of-{name}"),
        name: name.to_string(),
        created_at: created_at.to_string(),
        bytes: 7,
    }
}

#[test]
fn decoded_server_list_gives_back_row_and_names() {
    let body = "{\"data\":[\
        {\"attributes\":{\"identifier\":\"1a7ce997\",\
        \"uuid\":\"1a7ce997-259b-452e-8b4e-cecc464142ca\",\"name\":\"Survival\"}},\
        {\"attributes\":{\"identifier\":\"8d5f1b2c\",\
        \"uuid\":\"8d5f1b2c-0c1e-4f6e-9a55-3f6f1c0f2b11\",\"name\":\"Creative\"}}]}";
    let servers = decode_servers(body).into_servers();
    assert_eq!(servers.len(), 2);
    assert_eq!(servers[0].identifier, "1a7ce997");
    assert_eq!(servers[1].uuid, "8d5f1b2c-0c1e-4f6e-9a55-3f6f1c0f2b11");
    let rows = server_display(&servers);
    assert_eq!(rows, vec!["\u{2190} Back", "Survival", "Creative"]);
}

#[test]
fn decoded_empty_server_list_is_empty() {
    let servers = decode_servers("{\"data\":[]}").into_servers();
    assert!(servers.is_empty());
    assert_eq!(server_display(&servers), vec!["\u{2190} Back"]);
}

#[test]
fn servers_are_unwrapped_in_order() {
    let names = ["c", "a", "b", "a"];
    let data = names
        .iter()
        .enumerate()
        .map(|(i, name)| ServerData {
            attributes: Server {
                identifier: format!("id{i}"),
                uuid: format!("uuid{i}"),
                name: name.to_string(),
            },
        })
        .collect();
    let servers = ServerListResponse { data }.into_servers();
    let got: Vec<(&str, &str, &str)> = servers
        .iter()
        .map(|s| (s.identifier.as_str(), s.uuid.as_str(), s.name.as_str()))
        .collect();
    assert_eq!(
        got,
        vec![
            ("id0", "uuid0", "c"),
            ("id1", "uuid1", "a"),
            ("id2", "uuid2", "b"),
            ("id3", "uuid3", "a"),
        ]
    );
}

#[test]
fn backups_are_unwrapped_in_order() {
    let data = vec![
        BackupData { attributes: sample_backup("nightly", "2024-05-01") },
        BackupData { attributes: sample_backup("weekly", "2024-04-28") },
    ];
    let backups = BackupListResponse { data }.into_backups();
    assert_eq!(
        backups,
        vec![sample_backup("nightly", "2024-05-01"), sample_backup("weekly", "2024-04-28")]
    );
    assert!(BackupListResponse { data: Vec::new() }.into_backups().is_empty());
}

#[test]
fn download_link_is_unwrapped() {
    let response = BackupDownloadLinkResponse {
        attributes: Attributes { url: "https://node.example/download?token=t".to_string() },
    };
    assert_eq!(response.into_url(), "https://node.example/download?token=t");
}

#[test]
fn backup_rows_join_name_and_time() {
    let backups = vec![
        sample_backup("nightly", "2024-05-01T03:00:00+02:00"),
        sample_backup("", ""),
    ];
    assert_eq!(backups[0].row(), "nightly - 2024-05-01T03:00:00+02:00");
    assert_eq!(backups[1].row(), " - ");
    assert_eq!(
        backup_display(&backups),
        vec!["\u{2190} Back", "nightly - 2024-05-01T03:00:00+02:00", " - "]
    );
    assert_eq!(backup_display(&Vec::new()), vec!["\u{2190} Back"]);
}

#[test]
fn archive_is_named_after_the_backup_uuid() {
    let backup = Backup {
        uuid: "3f2a9c1e-7b4d-4e0a-9b7e-0d6d3c1f5a22".to_string(),
        name: "../../etc/passwd".to_string(),
        created_at: "2024-05-01".to_string(),
        bytes: 1,
    };
    assert_eq!(backup.archive_name(), "3f2a9c1e-7b4d-4e0a-9b7e-0d6d3c1f5a22.tar.gz");
}

#[test]
fn clones_keep_every_field() {
    let server = Server {
        identifier: "1a7ce997".to_string(),
        uuid: "1a7ce997-259b".to_string(),
        name: "Survival".to_string(),
    };
    assert_eq!(server.clone(), server);
    let backup = sample_backup("nightly", "2024-05-01");
    assert_eq!(backup.clone(), backup);
}

#[test]
fn servers_request_targets_the_client_root() {
    assert_eq!(
        servers_request("https://panel.example", "ptlc_key"),
        ApiRequest {
            url: "https://panel.example/api/client".to_string(),
            authorization: "Bearer ptlc_key".to_string(),
            accept: "application/json".to_string(),
        }
    );
}

#[test]
fn backups_request_names_the_server_uuid() {
    assert_eq!(
        backups_request("https://panel.example", "ptlc_key", "1a7ce997-259b"),
        ApiRequest {
            url: "https://panel.example/api/client/servers/1a7ce997-259b/backups".to_string(),
            authorization: "Bearer ptlc_key".to_string(),
            accept: "application/json".to_string(),
        }
    );
}

#[test]
fn download_link_request_names_server_and_backup() {
    assert_eq!(
        download_link_request("https://panel.example", "ptlc_key", "1a7ce997", "3f2a9c1e"),
        ApiRequest {
            url: "https://panel.example/api/client/servers/1a7ce997/backups/3f2a9c1e/download"
                .to_string(),
            authorization: "Bearer ptlc_key".to_string(),
            accept: "application/json".to_string(),
        }
    );
}

#[test]
fn requests_keep_an_empty_key() {
    assert_eq!(servers_request(PANEL_URL, "").authorization, "Bearer ");
    assert_eq!(servers_request(PANEL_URL, "").url, "https://panel.atbphosting.com/api/client");
    assert_eq!(USER_AGENT, "ClumsyLoader/0.1");
}

#[test]
fn failures_describe_themselves() {
    assert_eq!(Failure::Transport("connection refused".to_string()).describe(), "connection refused");
    assert_eq!(Failure::Decode("expected value".to_string()).describe(), "expected value");
    assert_eq!(Failure::Io("disk full".to_string()).describe(), "disk full");
    assert_eq!(
        Failure::DownloadRejected("rate limited".to_string()).describe(),
        "Failed to download backup: rate limited"
    );
}

#[test]
fn failure_clone_keeps_kind_and_text() {
    for failure in [
        Failure::Transport("a".to_string()),
        Failure::Decode("b".to_string()),
        Failure::DownloadRejected("c".to_string()),
        Failure::Io("d".to_string()),
    ] {
        assert_eq!(failure.clone(), failure);
    }
    assert_ne!(Failure::Io("x".to_string()), Failure::Transport("x".to_string()));
}

#[test]
fn key_is_the_line_without_surrounding_white_space() {
    assert_eq!(key_of_line("ptlc_key\n"), "ptlc_key");
    assert_eq!(key_of_line("  ptlc_key\r\n"), "ptlc_key");
    assert_eq!(key_of_line("\t ptlc key \u{a0}\n"), "ptlc key");
    assert_eq!(key_of_line("ptlc_key"), "ptlc_key");
    assert_eq!(key_of_line(" \n"), "");
    assert_eq!(key_of_line(""), "");
}
