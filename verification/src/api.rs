//! The requests the client sends to the synchronisation server. Bodies are
//! compact JSON objects whose members stand in ascending key order, the order
//! in which a `serde_json` map writes its keys.
use vstd::prelude::*;
use vstd::string::StringSliceAdditionalSpecFns;
use crate::json::{json_object, json_object_text, fields_view};
use crate::text::{decimal, decimal_string};

verus! {

/// A request whose body is JSON text.
pub struct ApiRequest {
    pub url: String,
    pub body: String,
}

/// An upload request: its address and its headers, in order. The file's
/// bytes are the body.
pub struct UploadRequest {
    pub url: String,
    pub headers: Vec<(String, String)>,
}

/// The pairs of strings of `pairs`, taken by their characters.
pub open spec fn pairs_view(pairs: Seq<(String, String)>) -> Seq<(Seq<char>, Seq<char>)> {
    pairs.map_values(|p: (String, String)| (p.0@, p.1@))
}

/// A byte that URL encoding leaves as it is: ASCII letters and digits, `-`,
/// `.`, `_` and `~`.
pub open spec fn url_safe_byte(b: u8) -> bool {
    (0x30 <= b <= 0x39) || (0x41 <= b <= 0x5a) || (0x61 <= b <= 0x7a) || b == 0x2d || b == 0x2e
        || b == 0x5f || b == 0x7e
}

/// The upper-case hexadecimal digit for `d < 16`.
pub open spec fn upper_hex_digit(d: nat) -> char {
    if d < 10 {
        (d + 0x30) as char
    } else {
        (d - 10 + 0x41) as char
    }
}

/// `bytes` URL-encoded: every byte that is not safe becomes `%` and two
/// upper-case hexadecimal digits.
pub open spec fn percent_encode(bytes: Seq<u8>) -> Seq<char>
    decreases bytes.len(),
{
    if bytes.len() == 0 {
        seq![]
    } else {
        let b = bytes[0];
        let head = if url_safe_byte(b) {
            seq![b as char]
        } else {
            seq!['%', upper_hex_digit((b / 16) as nat), upper_hex_digit((b % 16) as nat)]
        };
        head + percent_encode(bytes.skip(1))
    }
}

/// Calls `urlencoding::encode`. It walks the UTF-8 bytes of `s`, copies
/// ASCII letters, digits, `-`, `.`, `_` and `~`, and writes every other byte
/// as `%` followed by two upper-case hexadecimal digits.
#[verifier::external_body]
fn url_encode(s: &str) -> (res: String)
    ensures
        res@ == percent_encode(s.spec_bytes()),
{
    urlencoding::encode(s).into_owned()
}

/// `server` followed by `route`.
fn endpoint(server: &str, route: &str) -> (res: String)
    ensures
        res@ == server@ + route@,
{
    let mut url = String::from_str(server);
    url.append(route);
    url
}

/// Asks the server to rename `path` to `destination`.
pub fn rename_request(server: &str, path: &str, destination: &str, socket_id: &str) -> (res:
    ApiRequest)
    ensures
        res.url@ == server@ + "/rename"@,
        res.body@ == json_object(
            seq![("destination"@, destination@), ("path"@, path@), ("socket_id"@, socket_id@)],
        ),
{
    let fields = vec![("destination", destination), ("path", path), ("socket_id", socket_id)];
    assert(fields_view(fields@) =~= seq![("destination"@, destination@), ("path"@, path@), ("socket_id"@, socket_id@)]);
    ApiRequest { url: endpoint(server, "/rename"), body: json_object_text(&fields) }
}

/// Asks the server to create the folder `path`.
pub fn create_folder_request(server: &str, path: &str, socket_id: &str) -> (res: ApiRequest)
    ensures
        res.url@ == server@ + "/createFolder"@,
        res.body@ == json_object(seq![("destination"@, path@), ("socket_id"@, socket_id@)]),
{
    let fields = vec![("destination", path), ("socket_id", socket_id)];
    assert(fields_view(fields@) =~= seq![("destination"@, path@), ("socket_id"@, socket_id@)]);
    ApiRequest { url: endpoint(server, "/createFolder"), body: json_object_text(&fields) }
}

/// Asks the server to delete `path`.
pub fn delete_request(server: &str, path: &str, socket_id: &str) -> (res: ApiRequest)
    ensures
        res.url@ == server@ + "/delete"@,
        res.body@ == json_object(seq![("path"@, path@), ("socket_id"@, socket_id@)]),
{
    let fields = vec![("path", path), ("socket_id", socket_id)];
    assert(fields_view(fields@) =~= seq![("path"@, path@), ("socket_id"@, socket_id@)]);
    ApiRequest { url: endpoint(server, "/delete"), body: json_object_text(&fields) }
}

/// Asks the server for the contents of `path`.
pub fn download_request(server: &str, path: &str) -> (res: ApiRequest)
    ensures
        res.url@ == server@ + "/download"@,
        res.body@ == json_object(seq![("path"@, path@)]),
{
    let fields = vec![("path", path)];
    assert(fields_view(fields@) =~= seq![("path"@, path@)]);
    ApiRequest { url: endpoint(server, "/download"), body: json_object_text(&fields) }
}

/// Asks the server to log `username` in.
pub fn login_request(server: &str, username: &str, password: &str) -> (res: ApiRequest)
    ensures
        res.url@ == server@ + "/users/auth/login"@,
        res.body@ == json_object(seq![("password"@, password@), ("username"@, username@)]),
{
    let fields = vec![("password", password), ("username", username)];
    assert(fields_view(fields@) =~= seq![("password"@, password@), ("username"@, username@)]);
    ApiRequest { url: endpoint(server, "/users/auth/login"), body: json_object_text(&fields) }
}

/// Sends a file of `file_size` bytes to the server, to be stored at `destination`.
pub fn upload_request(server: &str, destination: &str, socket_id: &str, file_size: u64) -> (res:
    UploadRequest)
    ensures
        res.url@ == server@ + "/upload"@,
        pairs_view(res.headers@) == seq![
            ("Content-Type"@, "application/octet-stream"@),
            ("Socket-ID"@, socket_id@),
            ("Destination"@, percent_encode(destination.spec_bytes())),
            ("Content-Length"@, decimal(file_size as nat)),
        ],
{
    let mut headers: Vec<(String, String)> = Vec::new();
    headers.push((String::from_str("Content-Type"), String::from_str("application/octet-stream")));
    headers.push((String::from_str("Socket-ID"), String::from_str(socket_id)));
    headers.push((String::from_str("Destination"), url_encode(destination)));
    headers.push((String::from_str("Content-Length"), decimal_string(file_size)));
    let res = UploadRequest { url: endpoint(server, "/upload"), headers };
    assert(pairs_view(res.headers@) =~= seq![
        ("Content-Type"@, "application/octet-stream"@),
        ("Socket-ID"@, socket_id@),
        ("Destination"@, percent_encode(destination.spec_bytes())),
        ("Content-Length"@, decimal(file_size as nat)),
    ]);
    res
}

/// Where the server answers whether it is up, for a changed setting.
pub fn health_check_url(server: &str) -> (res: String)
    ensures
        res@ == server@ + "/health/check"@,
{
    endpoint(server, "/health/check")
}

/// Where the server answers whether it is up, for the first setting.
pub fn actuator_health_url(server: &str) -> (res: String)
    ensures
        res@ == server@ + "/actuator/health"@,
{
    endpoint(server, "/actuator/health")
}

} // verus!
