//! Where the measurement service is reached, and what the upgrade request
//! to its socket carries.

use vstd::prelude::*;

verus! {

/// The host of the service.
pub const SERVER_HOST: &'static str = "www.itdog.cn";

/// The port that the secured connection to the service is opened on.
pub const SERVER_PORT: u16 = 443;

/// Where the negotiation request is posted.
pub const NEGOTIATION_URL: &'static str = "https://www.itdog.cn/http/";

/// The socket that the stream is read from.
pub const SOCKET_URL: &'static str = "wss://www.itdog.cn/websockets";

/// The method of the upgrade request.
pub const UPGRADE_METHOD: &'static str = "GET";

/// The headers of the upgrade request, in their order: the host, the
/// protocol asked for, the connection's new use, the handshake key and the
/// protocol's version.
pub open spec fn upgrade_header_pairs(key: Seq<char>) -> Seq<(Seq<char>, Seq<char>)> {
    seq![
        ("Host"@, "www.itdog.cn"@),
        ("Upgrade"@, "websocket"@),
        ("Connection"@, "upgrade"@),
        ("Sec-WebSocket-Key"@, key),
        ("Sec-WebSocket-Version"@, "13"@),
    ]
}

/// The headers of the upgrade request that carries the handshake key `key`,
/// each a name and a value.
pub fn upgrade_headers(key: &str) -> (headers: Vec<(String, String)>)
    ensures
        headers.deep_view() == upgrade_header_pairs(key@),
{
    let mut headers: Vec<(String, String)> = Vec::new();
    headers.push(("Host".to_owned(), SERVER_HOST.to_owned()));
    headers.push(("Upgrade".to_owned(), "websocket".to_owned()));
    headers.push(("Connection".to_owned(), "upgrade".to_owned()));
    headers.push(("Sec-WebSocket-Key".to_owned(), key.to_owned()));
    headers.push(("Sec-WebSocket-Version".to_owned(), "13".to_owned()));
    assert(headers.deep_view() =~= upgrade_header_pairs(key@));
    headers
}

} // verus!
