//! The records that the panel returns, the wrappers they arrive in, and
//! the menu rows derived from them.

use vstd::prelude::*;
use vstd::string::*;

verus! {

/// One server of the account.
#[derive(Debug, PartialEq, Eq)]
pub struct Server {
    pub identifier: String,
    pub uuid: String,
    pub name: String,
}

/// Mathematical value of a [`Server`].
pub struct ServerView {
    pub identifier: Seq<char>,
    pub uuid: Seq<char>,
    pub name: Seq<char>,
}

impl View for Server {
    type V = ServerView;

    open spec fn view(&self) -> ServerView {
        ServerView { identifier: self.identifier@, uuid: self.uuid@, name: self.name@ }
    }
}

/// One backup of a server. `created_at` is shown as it came and never
/// interpreted.
#[derive(Debug, PartialEq, Eq)]
pub struct Backup {
    pub uuid: String,
    pub name: String,
    pub created_at: String,
    pub bytes: u64,
}

/// Mathematical value of a [`Backup`].
pub struct BackupView {
    pub uuid: Seq<char>,
    pub name: Seq<char>,
    pub created_at: Seq<char>,
    pub bytes: u64,
}

impl View for Backup {
    type V = BackupView;

    open spec fn view(&self) -> BackupView {
        BackupView {
            uuid: self.uuid@,
            name: self.name@,
            created_at: self.created_at@,
            bytes: self.bytes,
        }
    }
}

/// The values of a list of servers, in order.
pub open spec fn server_views(servers: Seq<Server>) -> Seq<ServerView> {
    servers.map_values(|s: Server| s@)
}

/// The values of a list of backups, in order.
pub open spec fn backup_views(backups: Seq<Backup>) -> Seq<BackupView> {
    backups.map_values(|b: Backup| b@)
}

/// The values of a list of strings, in order.
pub open spec fn text_views(texts: Seq<String>) -> Seq<Seq<char>> {
    texts.map_values(|t: String| t@)
}

/// The first row of every menu: choosing it goes back.
pub open spec fn back_row() -> Seq<char> {
    "\u{2190} Back"@
}

/// The row that stands for a backup: its name, a dash, its creation time.
pub open spec fn backup_row(backup: BackupView) -> Seq<char> {
    backup.name + " - "@ + backup.created_at
}

/// The name of the file that receives a backup: its uuid and the archive
/// suffix. Nothing the user types enters the name.
pub open spec fn archive_name(uuid: Seq<char>) -> Seq<char> {
    uuid + ".tar.gz"@
}

/// The rows of the server menu: the back row, then each server's name.
pub open spec fn server_rows(servers: Seq<ServerView>) -> Seq<Seq<char>> {
    seq![back_row()] + servers.map_values(|s: ServerView| s.name)
}

/// The rows of the backup menu: the back row, then each backup's row.
pub open spec fn backup_rows(backups: Seq<BackupView>) -> Seq<Seq<char>> {
    seq![back_row()] + backups.map_values(|b: BackupView| backup_row(b))
}

impl Clone for Server {
    /// A copy with the same three fields.
    fn clone(&self) -> (copy: Server)
        ensures
            copy@ == self@,
    {
        Server {
            identifier: self.identifier.clone(),
            uuid: self.uuid.clone(),
            name: self.name.clone(),
        }
    }
}

impl Clone for Backup {
    /// A copy with the same four fields.
    fn clone(&self) -> (copy: Backup)
        ensures
            copy@ == self@,
    {
        Backup {
            uuid: self.uuid.clone(),
            name: self.name.clone(),
            created_at: self.created_at.clone(),
            bytes: self.bytes,
        }
    }
}

impl Backup {
    /// The name of the file that receives this backup.
    pub fn archive_name(&self) -> (name: String)
        ensures
            name@ == archive_name(self@.uuid),
    {
        let mut name = self.uuid.clone();
        name.append(".tar.gz");
        name
    }


    /// The menu row of this backup.
    pub fn row(&self) -> (row: String)
        ensures
            row@ == backup_row(self@),
    {
        let mut row = self.name.clone();
        row.append(" - ");
        row.append(self.created_at.as_str());
        row
    }
}

/// One entry of the server list as the panel wraps it.
#[derive(Debug, PartialEq, Eq)]
pub struct ServerData {
    pub attributes: Server,
}

/// The decoded body of the server list: `{data: [{attributes: ..}, ..]}`.
#[derive(Debug, PartialEq, Eq)]
pub struct ServerListResponse {
    pub data: Vec<ServerData>,
}

/// One entry of the backup list as the panel wraps it.
#[derive(Debug, PartialEq, Eq)]
pub struct BackupData {
    pub attributes: Backup,
}

/// The decoded body of the backup list: `{data: [{attributes: ..}, ..]}`.
#[derive(Debug, PartialEq, Eq)]
pub struct BackupListResponse {
    pub data: Vec<BackupData>,
}

/// The payload of a download link.
#[derive(Debug, PartialEq, Eq)]
pub struct Attributes {
    pub url: String,
}

/// The decoded body of a download link: `{attributes: {url: ..}}`.
#[derive(Debug, PartialEq, Eq)]
pub struct BackupDownloadLinkResponse {
    pub attributes: Attributes,
}

impl ServerListResponse {
    /// The servers of the list, unwrapped, in the order of the response.
    /// An empty list is no error: it gives an empty result.
    pub fn into_servers(self) -> (servers: Vec<Server>)
        ensures
            servers@ == self.data@.map_values(|entry: ServerData| entry.attributes),
    {
        let ghost listed = self.data@;
        let mut servers: Vec<Server> = Vec::new();
        for entry in entries: self.data.into_iter()
            invariant
                entries.seq() == listed,
                servers@.len() == entries.index(),
                forall|i: int| 0 <= i < servers@.len() ==> servers@[i] == listed[i].attributes,
        {
            servers.push(entry.attributes);
        }
        assert(servers@ =~= listed.map_values(|entry: ServerData| entry.attributes));
        servers
    }
}

impl BackupListResponse {
    /// The backups of the list, unwrapped, in the order of the response.
    /// An empty list is no error: it gives an empty result.
    pub fn into_backups(self) -> (backups: Vec<Backup>)
        ensures
            backups@ == self.data@.map_values(|entry: BackupData| entry.attributes),
    {
        let ghost listed = self.data@;
        let mut backups: Vec<Backup> = Vec::new();
        for entry in entries: self.data.into_iter()
            invariant
                entries.seq() == listed,
                backups@.len() == entries.index(),
                forall|i: int| 0 <= i < backups@.len() ==> backups@[i] == listed[i].attributes,
        {
            backups.push(entry.attributes);
        }
        assert(backups@ =~= listed.map_values(|entry: BackupData| entry.attributes));
        backups
    }
}

impl BackupDownloadLinkResponse {
    /// The link, unwrapped.
    pub fn into_url(self) -> (url: String)
        ensures
            url == self.attributes.url,
    {
        self.attributes.url
    }
}

/// Builds the rows of the server menu.
pub fn server_display(servers: &Vec<Server>) -> (rows: Vec<String>)
    ensures
        text_views(rows@) == server_rows(server_views(servers@)),
{
    let mut rows: Vec<String> = Vec::new();
    rows.push(String::from_str("\u{2190} Back"));
    let mut i: usize = 0;
    while i < servers.len()
        invariant
            i <= servers.len(),
            rows@.len() == i + 1,
            rows@[0]@ == back_row(),
            forall|k: int| 1 <= k <= i ==> (#[trigger] rows@[k])@ == servers@[k - 1].name@,
        decreases servers.len() - i,
    {
        rows.push(servers[i].name.clone());
        i = i + 1;
    }
    assert(text_views(rows@) =~= server_rows(server_views(servers@)));
    rows
}

/// Builds the rows of the backup menu.
pub fn backup_display(backups: &Vec<Backup>) -> (rows: Vec<String>)
    ensures
        text_views(rows@) == backup_rows(backup_views(backups@)),
{
    let mut rows: Vec<String> = Vec::new();
    rows.push(String::from_str("\u{2190} Back"));
    let mut i: usize = 0;
    while i < backups.len()
        invariant
            i <= backups.len(),
            rows@.len() == i + 1,
            rows@[0]@ == back_row(),
            forall|k: int| 1 <= k <= i ==> (#[trigger] rows@[k])@ == backup_row(backups@[k - 1]@),
        decreases backups.len() - i,
    {
        rows.push(backups[i].row());
        i = i + 1;
    }
    assert(text_views(rows@) =~= backup_rows(backup_views(backups@)));
    rows
}

} // verus!
