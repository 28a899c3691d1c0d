//! The decisions of the synchronisation loop: how it reaches the server's
//! socket, how it tells itself apart from other clients, what it does with a
//! file-system event, and how it acts on a change found between two trees.
use vstd::prelude::*;
use tungstenite::http::Uri;
use crate::api::pairs_view;
use crate::ignore::IgnoreList;
use crate::paths::PathKey;
use crate::text::{replace_all, replace_all_exec, occurs_at, occurs_nowhere, lemma_replace_all_no_occurrence, lemma_replace_all_prefix};

verus! {

/// The socket address for a server address: `https://` becomes `wss://`,
/// then `http://` becomes `ws://`, wherever they occur.
pub open spec fn websocket_url(server: Seq<char>) -> Seq<char> {
    replace_all(replace_all(server, "https://"@, "wss://"@), "http://"@, "ws://"@)
}

/// Whether `http::Uri` accepts `text` as a URI.
pub uninterp spec fn uri_accepts(text: Seq<char>) -> bool;

/// Calls `Uri::from_str` (`str::parse::<Uri>`) of the `http` crate, which
/// `tungstenite` re-exports, and tells whether it succeeded. Whether the text
/// parses is stated as the named function of the text.
#[verifier::external_body]
fn uri_parses(text: &str) -> (res: bool)
    ensures
        res == uri_accepts(text@),
{
    text.parse::<Uri>().is_ok()
}

/// What the client sends to open the server's socket: the socket address,
/// and the extra headers of the handshake, in order.
pub struct Handshake {
    pub url: String,
    pub headers: Vec<(String, String)>,
}

/// The socket address for the server address `server`.
pub fn websocket_url_text(server: &str) -> (res: String)
    ensures
        res@ == websocket_url(server@),
{
    proof {
        reveal_strlit("https://");
        reveal_strlit("http://");
    }
    let secure = replace_all_exec(server, "https://", "wss://");
    replace_all_exec(secure.as_str(), "http://", "ws://")
}

/// The handshake for the socket address `url`, announcing this client by
/// `socket_id`, where `url_accepted` tells that the address is a URI; none
/// where it is not.
pub fn handshake_from_check(url: String, url_accepted: bool, socket_id: &str) -> (res: Option<
    Handshake,
>)
    ensures
        res is Some == url_accepted,
        res matches Some(h) ==> h.url@ == url@ && pairs_view(h.headers@) == seq![
            ("socket_id"@, socket_id@),
        ],
{
    if !url_accepted {
        return None;
    }
    let mut headers: Vec<(String, String)> = Vec::new();
    headers.push((String::from_str("socket_id"), String::from_str(socket_id)));
    assert(pairs_view(headers@) =~= seq![("socket_id"@, socket_id@)]);
    Some(Handshake { url, headers })
}

/// The handshake for the server's socket: the socket address of `server`,
/// with the header `socket_id` announcing this client; none where the socket
/// address is not a URI.
pub fn websocket_request(server: &str, socket_id: &str) -> (res: Option<Handshake>)
    ensures
        res is Some == uri_accepts(websocket_url(server@)),
        res matches Some(h) ==> h.url@ == websocket_url(server@) && pairs_view(h.headers@)
            == seq![("socket_id"@, socket_id@)],
{
    let url = websocket_url_text(server);
    let accepted = uri_parses(url.as_str());
    handshake_from_check(url, accepted, socket_id)
}

/// An address of the form `http://` + `rest` or `https://` + `rest`, where
/// `rest` names neither scheme again, becomes `ws://` + `rest` or
/// `wss://` + `rest`.
pub proof fn law_websocket_scheme(rest: Seq<char>)
    requires
        occurs_nowhere(rest, "http://"@),
        occurs_nowhere(rest, "https://"@),
    ensures
        websocket_url("http://"@ + rest) == "ws://"@ + rest,
        websocket_url("https://"@ + rest) == "wss://"@ + rest,
{
    reveal_strlit("http://");
    reveal_strlit("https://");
    reveal_strlit("ws://");
    reveal_strlit("wss://");
    let http = "http://"@;
    let https = "https://"@;
    let ws = "ws://"@;
    let wss = "wss://"@;
    // the plain address
    let s1 = http + rest;
    assert forall|i: int| !#[trigger] occurs_at(s1, https, i) by {
        if 0 <= i < 7 {
            if occurs_at(s1, https, i) {
                assert(s1.subrange(i, i + 8)[0] == s1[i]);
                assert(s1[i] == http[i]);
                if i == 0 {
                    assert(s1.subrange(0, 8)[4] == s1[4]);
                    assert(s1[4] == http[4]);
                }
            }
        } else if i >= 7 && occurs_at(s1, https, i) {
            assert(rest.subrange(i - 7, i - 7 + 8) =~= s1.subrange(i, i + 8));
            assert(occurs_at(rest, https, i - 7));
        }
    }
    lemma_replace_all_no_occurrence(s1, https, wss);
    lemma_replace_all_prefix(rest, http, ws);
    lemma_replace_all_no_occurrence(rest, http, ws);
    // the secure address
    lemma_replace_all_prefix(rest, https, wss);
    lemma_replace_all_no_occurrence(rest, https, wss);
    let s2 = wss + rest;
    assert forall|i: int| !#[trigger] occurs_at(s2, http, i) by {
        if 0 <= i < 6 {
            if occurs_at(s2, http, i) {
                assert(s2.subrange(i, i + 7)[0] == s2[i]);
                assert(s2[i] == wss[i]);
            }
        } else if i >= 6 && occurs_at(s2, http, i) {
            assert(rest.subrange(i - 6, i - 6 + 7) =~= s2.subrange(i, i + 7));
            assert(occurs_at(rest, http, i - 6));
        }
    }
    lemma_replace_all_no_occurrence(s2, http, ws);
}

/// Whether `c` is a lower-case hexadecimal digit.
pub open spec fn is_lower_hex(c: char) -> bool {
    ('0' <= c && c <= '9') || ('a' <= c && c <= 'f')
}

/// The hyphenated lower-case text of a random (version 4, RFC 4122 variant)
/// UUID: 36 characters, hyphens at positions 8, 13, 18 and 23, hexadecimal
/// digits elsewhere, `4` at position 14 and one of `8 9 a b` at position 19.
pub open spec fn is_uuid_v4_text(s: Seq<char>) -> bool {
    &&& s.len() == 36
    &&& forall|i: int|
        0 <= i < 36 ==> if i == 8 || i == 13 || i == 18 || i == 23 {
            s[i] == '-'
        } else {
            is_lower_hex(#[trigger] s[i])
        }
    &&& s[14] == '4'
    &&& (s[19] == '8' || s[19] == '9' || s[19] == 'a' || s[19] == 'b')
}

/// Calls `uuid::Uuid::new_v4` and formats it with `to_string`. The value is
/// random; what the contract states holds of every outcome: the version
/// nibble is set to 4 and the variant bits to `10`, and `Display` writes the
/// hyphenated lower-case form. The call panics only where the system's
/// random source fails, which no argument can rule out.
#[verifier::external_body]
fn random_uuid_v4_text() -> (res: String)
    ensures
        is_uuid_v4_text(res@),
{
    uuid::Uuid::new_v4().to_string()
}

/// How this client names itself to the server, so that the server does not
/// echo the client's own changes back to it.
pub struct SyncSession {
    pub socket_id: String,
}

impl SyncSession {
    /// A session under a fresh random identifier.
    pub fn new() -> (res: SyncSession)
        ensures
            is_uuid_v4_text(res.socket_id@),
    {
        SyncSession { socket_id: random_uuid_v4_text() }
    }
}

/// Drops the running file-system watcher, if any; the slot is then empty.
pub fn stop<W>(watcher: &mut Option<W>)
    ensures
        *final(watcher) is None,
{
    let _ = watcher.take();
}

/// The kinds of file-system event the client tells apart. Any other kind,
/// including the more specific kinds of creation, removal and modification,
/// is `Other`.
#[derive(Clone, Copy, Debug, PartialEq, Eq, Structural)]
pub enum WatchEventKind {
    CreateAny,
    RemoveAny,
    RenameFrom,
    RenameTo,
    ModifyAny,
    Other,
}

/// What the client does to its local tree for an event, at the event's
/// first path.
#[derive(Clone, Copy, Debug, PartialEq, Eq, Structural)]
pub enum TreeAction {
    /// Read the node at the path and add it; a node that cannot be read is an error.
    AddNode,
    /// Read the node at the path and add it, where it can be read.
    AddNodeIfReadable,
    /// Remove the node at the path.
    DeleteNode,
    /// Leave the tree as it is.
    Nothing,
}

/// The outcome of an event.
#[derive(Clone, Copy, Debug, PartialEq, Eq, Structural)]
pub enum EventDecision {
    /// One of the event's paths is being written by the client itself: do nothing.
    Ignored,
    /// Apply the tree action, then schedule a comparison with the saved tree.
    Apply(TreeAction),
}

/// The tree action for an event of kind `kind`.
pub open spec fn tree_action_for(kind: WatchEventKind) -> TreeAction {
    match kind {
        WatchEventKind::CreateAny => TreeAction::AddNode,
        WatchEventKind::RemoveAny => TreeAction::DeleteNode,
        WatchEventKind::RenameFrom => TreeAction::DeleteNode,
        WatchEventKind::RenameTo => TreeAction::AddNodeIfReadable,
        WatchEventKind::ModifyAny => TreeAction::AddNodeIfReadable,
        WatchEventKind::Other => TreeAction::Nothing,
    }
}

/// Whether one of `paths` is in `ignored`.
pub open spec fn touches_ignored(paths: Seq<PathKey>, ignored: Set<Seq<Seq<char>>>) -> bool {
    exists|i: int| 0 <= i < paths.len() && ignored.contains(#[trigger] paths[i]@)
}

/// Decides what to do with a file-system event of kind `kind` on `paths`.
pub fn decide_event(kind: WatchEventKind, paths: &Vec<PathKey>, ignore: &IgnoreList) -> (res:
    EventDecision)
    ensures
        res == (if touches_ignored(paths@, ignore@) {
            EventDecision::Ignored
        } else {
            EventDecision::Apply(tree_action_for(kind))
        }),
{
    if ignore.contains_any(paths) {
        return EventDecision::Ignored;
    }
    let action = match kind {
        WatchEventKind::CreateAny => TreeAction::AddNode,
        WatchEventKind::RemoveAny => TreeAction::DeleteNode,
        WatchEventKind::RenameFrom => TreeAction::DeleteNode,
        WatchEventKind::RenameTo => TreeAction::AddNodeIfReadable,
        WatchEventKind::ModifyAny => TreeAction::AddNodeIfReadable,
        WatchEventKind::Other => TreeAction::Nothing,
    };
    EventDecision::Apply(action)
}

/// Whether a node is a file or a folder.
#[derive(Clone, Copy, Debug, PartialEq, Eq, Structural)]
pub enum NodeType {
    File,
    Folder,
}

/// How a node differs between two trees.
#[derive(Debug)]
pub enum ChangeType {
    Added,
    Deleted,
    Renamed { from: String },
    Modified,
}

/// One difference between two trees, at `path`.
#[derive(Debug)]
pub struct Change {
    pub change_type: ChangeType,
    pub node_type: NodeType,
    pub path: String,
}

/// What the client asks of the server for a change found on the local side.
#[derive(Debug)]
pub enum LocalSync {
    Upload { path: String },
    CreateFolder { path: String },
    Delete { path: String },
    Rename { from: String, to: String },
}

/// What the client does on its own disk for a change found on the server's side.
#[derive(Debug)]
pub enum RemoteSync {
    Download { path: String },
    CreateDir { path: String },
    RemoveFile { path: String },
    RemoveDir { path: String },
    Rename { from: String, to: String },
}

/// The request for a local change: added or modified files are uploaded,
/// added folders created, deleted nodes deleted, renamed nodes renamed.
pub open spec fn local_sync_for(change: Change) -> LocalSync {
    match change.change_type {
        ChangeType::Added => match change.node_type {
            NodeType::File => LocalSync::Upload { path: change.path },
            NodeType::Folder => LocalSync::CreateFolder { path: change.path },
        },
        ChangeType::Deleted => LocalSync::Delete { path: change.path },
        ChangeType::Renamed { from } => LocalSync::Rename { from, to: change.path },
        ChangeType::Modified => LocalSync::Upload { path: change.path },
    }
}

/// The disk action for a remote change: added or modified files are
/// downloaded, added folders created, deleted files and folders removed,
/// renamed nodes renamed.
pub open spec fn remote_sync_for(change: Change) -> RemoteSync {
    match change.change_type {
        ChangeType::Added => match change.node_type {
            NodeType::File => RemoteSync::Download { path: change.path },
            NodeType::Folder => RemoteSync::CreateDir { path: change.path },
        },
        ChangeType::Deleted => match change.node_type {
            NodeType::File => RemoteSync::RemoveFile { path: change.path },
            NodeType::Folder => RemoteSync::RemoveDir { path: change.path },
        },
        ChangeType::Renamed { from } => RemoteSync::Rename { from, to: change.path },
        ChangeType::Modified => RemoteSync::Download { path: change.path },
    }
}

/// What to ask of the server for a change found on the local side.
pub fn local_sync_action(change: Change) -> (res: LocalSync)
    ensures
        res == local_sync_for(change),
{
    let Change { change_type, node_type, path } = change;
    match change_type {
        ChangeType::Added => match node_type {
            NodeType::File => LocalSync::Upload { path },
            NodeType::Folder => LocalSync::CreateFolder { path },
        },
        ChangeType::Deleted => LocalSync::Delete { path },
        ChangeType::Renamed { from } => LocalSync::Rename { from, to: path },
        ChangeType::Modified => LocalSync::Upload { path },
    }
}

/// What to do on the local disk for a change found on the server's side.
pub fn remote_sync_action(change: Change) -> (res: RemoteSync)
    ensures
        res == remote_sync_for(change),
{
    let Change { change_type, node_type, path } = change;
    match change_type {
        ChangeType::Added => match node_type {
            NodeType::File => RemoteSync::Download { path },
            NodeType::Folder => RemoteSync::CreateDir { path },
        },
        ChangeType::Deleted => match node_type {
            NodeType::File => RemoteSync::RemoveFile { path },
            NodeType::Folder => RemoteSync::RemoveDir { path },
        },
        ChangeType::Renamed { from } => RemoteSync::Rename { from, to: path },
        ChangeType::Modified => RemoteSync::Download { path },
    }
}

/// What a change found on the local side asks of the server, by kind: an
/// added file is uploaded and an added folder created; a deleted node,
/// file or folder, is deleted at its path; a renamed node is renamed from
/// its old path to its new one; a modified node is uploaded.
pub proof fn law_local_sync(from: String, node_type: NodeType, path: String)
    ensures
        local_sync_for(Change { change_type: ChangeType::Added, node_type: NodeType::File, path })
            == (LocalSync::Upload { path }),
        local_sync_for(Change { change_type: ChangeType::Added, node_type: NodeType::Folder, path })
            == (LocalSync::CreateFolder { path }),
        local_sync_for(Change { change_type: ChangeType::Deleted, node_type, path })
            == (LocalSync::Delete { path }),
        local_sync_for(Change { change_type: ChangeType::Renamed { from }, node_type, path })
            == (LocalSync::Rename { from, to: path }),
        local_sync_for(Change { change_type: ChangeType::Modified, node_type, path })
            == (LocalSync::Upload { path }),
{
}

/// What a change found on the server's side does to the local disk, by
/// kind: an added file is downloaded and an added folder created; a deleted
/// file is removed as a file and a deleted folder as a folder; a renamed
/// node, file or folder, is renamed from its old path to its new one; a
/// modified node is downloaded.
pub proof fn law_remote_sync(from: String, node_type: NodeType, path: String)
    ensures
        remote_sync_for(Change { change_type: ChangeType::Added, node_type: NodeType::File, path })
            == (RemoteSync::Download { path }),
        remote_sync_for(Change { change_type: ChangeType::Added, node_type: NodeType::Folder, path })
            == (RemoteSync::CreateDir { path }),
        remote_sync_for(Change { change_type: ChangeType::Deleted, node_type: NodeType::File, path })
            == (RemoteSync::RemoveFile { path }),
        remote_sync_for(Change { change_type: ChangeType::Deleted, node_type: NodeType::Folder, path })
            == (RemoteSync::RemoveDir { path }),
        remote_sync_for(Change { change_type: ChangeType::Renamed { from }, node_type, path })
            == (RemoteSync::Rename { from, to: path }),
        remote_sync_for(Change { change_type: ChangeType::Modified, node_type, path })
            == (RemoteSync::Download { path }),
{
}

} // verus!
