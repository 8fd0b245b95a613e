//! Where the command-line client reaches the server.
use vstd::prelude::*;
use vstd::string::StringExecFns;

verus! {

/// The address of the catalogue server.
pub open spec fn server_url_spec() -> Seq<char> {
    "http://127.0.0.1:9090"@
}

/// The address of the catalogue server, `http://127.0.0.1:9090`.
pub fn server_url() -> (r: String)
    ensures
        r@ == server_url_spec(),
{
    String::from_str("http://127.0.0.1:9090")
}

/// The server address followed by `path`.
pub fn api_url(path: &str) -> (r: String)
    ensures
        r@ == server_url_spec() + path@,
{
    server_url().concat(path)
}

} // verus!
