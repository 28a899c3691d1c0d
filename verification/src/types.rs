//! The plain data the client keeps and exchanges.
use vstd::prelude::*;

verus! {

/// Settings of the client: who logs in, which server, which folder.
#[derive(Clone, Debug)]
pub struct Config {
    pub username: Option<String>,
    pub password: Option<String>,
    pub server_url: String,
    pub folder_path: String,
    pub token: Option<String>,
    pub refresh_token: Option<String>,
    pub is_configured: bool,
}

/// The server address a fresh installation talks to.
pub open spec fn default_server_url() -> Seq<char> {
    "http://localhost:3000"@
}

/// The folder a fresh installation watches.
pub open spec fn default_folder_path() -> Seq<char> {
    "D:\\python\\codes\\fiverr\\testfolder\\f1"@
}

impl Default for Config {
    fn default() -> (res: Self)
        ensures
            res.username is None,
            res.password is None,
            res.server_url@ == default_server_url(),
            res.folder_path@ == default_folder_path(),
            res.token is None,
            res.refresh_token is None,
            !res.is_configured,
    {
        Config {
            username: None,
            password: None,
            server_url: String::from_str("http://localhost:3000"),
            folder_path: String::from_str("D:\\python\\codes\\fiverr\\testfolder\\f1"),
            token: None,
            refresh_token: None,
            is_configured: false,
        }
    }
}

/// Direction of a transfer.
#[derive(Clone, Copy, Debug, PartialEq, Eq, Structural)]
pub enum TransferType {
    Upload,
    Download,
}

/// Whether a transfer is still running.
#[derive(Clone, Copy, Debug, PartialEq, Eq, Structural)]
pub enum TransferState {
    Active,
    Completed,
}

/// What the client knows of one upload or download.
#[derive(Debug)]
pub struct Transfer {
    pub transfer_type: TransferType,
    pub state: TransferState,
    pub progress: u32,
    pub path: String,
}

impl Clone for Transfer {
    fn clone(&self) -> (res: Self)
        ensures
            res == *self,
    {
        Transfer {
            transfer_type: self.transfer_type,
            state: self.state,
            progress: self.progress,
            path: self.path.clone(),
        }
    }
}

/// The tokens the server hands out on a successful login.
#[derive(Clone, Debug)]
pub struct LoginResponse {
    pub token: String,
    pub refresh_token: String,
}

} // verus!
