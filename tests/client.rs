use jubjub::cli::{cli, Args, Mode};
use jubjub::error::ClientError;
use jubjub::handshake::{Handshake, HANDSHAKE_LEN};
use jubjub::rpc::Method;

#[test]
fn handshake_new_fills_protocol() {
    let h = Handshake::new([1; 20], [2; 20]);
    assert_eq!(h.len, 19);
    assert_eq!(&h.bittorent, b"BitTorrent protocol");
    assert_eq!(h.reserved, [0; 8]);
    assert_eq!(h.info_hash, [1; 20]);
    assert_eq!(h.peer_id, [2; 20]);
}

#[test]
fn handshake_bytes_round_trip() {
    let mut info = [0u8; 20];
    for (i, b) in info.iter_mut().enumerate() {
        *b = i as u8;
    }
    let h = Handshake::new(info, [0xab; 20]);
    let bytes = h.to_bytes();
    assert_eq!(bytes.len(), HANDSHAKE_LEN);
    assert_eq!(bytes[0], 19);
    assert_eq!(&bytes[1..20], b"BitTorrent protocol");
    assert_eq!(&bytes[28..48], &info[..]);
    assert_eq!(Handshake::from_bytes(&bytes), Some(h));
    assert_eq!(Handshake::from_bytes(&bytes[..67]), None);
}

#[test]
fn cli_announces_mode() {
    let args = |mode: Mode| Args { host: "localhost".to_string(), ip: "127.0.0.1".to_string(), mode };
    assert_eq!(cli(&args(Mode::ServerMode)), "Server mode selected");
    assert_eq!(cli(&args(Mode::ClientMode)), "Client mode selected");
    assert_eq!(cli(&args(Mode::DiscoveryMode)), "Discovery mode selected");
    assert_eq!(cli(&args(Mode::TrackingMode)), "Tracking mode selected");
    assert_eq!(cli(&args(Mode::StreamingMode)), "Streaming mode selected");
    assert_eq!(cli(&args(Mode::UploadingMode)), "Uploading mode selected");
}

#[test]
fn error_messages() {
    assert_eq!(ClientError::InvalidMethod.message(), "Requested method does not exist");
    assert_eq!(ClientError::InvalidParams.message(), "Invalid params provided");
    assert_eq!(ClientError::ConnectionError.message(), "Connection error");
}

#[test]
fn method_names() {
    assert_eq!(Method::parse(Some("provide")), Ok(Some(Method::Provide)));
    assert_eq!(Method::parse(Some("get")), Ok(Some(Method::Get)));
    assert_eq!(Method::parse(Some("listen")), Ok(Some(Method::Listen)));
    assert_eq!(Method::parse(Some("dial")), Ok(Some(Method::Dial)));
    assert_eq!(Method::parse(Some("get_peers")), Ok(Some(Method::GetPeers)));
    assert_eq!(Method::parse(Some("fly")), Err(ClientError::InvalidMethod));
    assert_eq!(Method::parse(None), Ok(None));
}

#[test]
fn test_decode_value() {
    assert_eq!(jubjub::bencode::bencode_text("d4:spam3:egge"), "13:d4:spam3:egge");
    assert_eq!(jubjub::bencode::bencode_text(""), "0:");
    assert_eq!(jubjub::bencode::bencode_text("é"), "2:é");
}
