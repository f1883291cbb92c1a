use wrpc_test::negotiate::{join_sides, session_url};
use wrpc_test::text::{broker_args, broker_url, port_text, session_url_text};
use wrpc_test::Error;

#[test]
fn join_hands_out_the_pair_when_both_succeed() {
    let r: Result<(u32, u64), Error> = join_sides(Ok(3u32), Ok(4u64));
    assert_eq!(r, Ok((3, 4)));
}

#[test]
fn join_fails_when_either_side_fails() {
    let r: Result<(u32, u64), Error> = join_sides(Err(Error::ClientHandshake), Ok(4u64));
    assert_eq!(r, Err(Error::ClientHandshake));
    let r: Result<(u32, u64), Error> = join_sides(Ok(3u32), Err(Error::ServerAccept));
    assert_eq!(r, Err(Error::ServerAccept));
    let r: Result<(u32, u64), Error> = join_sides(
        Err(Error::ClientConnect),
        Err(Error::ServerHandshake),
    );
    assert_eq!(r, Err(Error::ClientConnect));
}

#[test]
fn port_renders_in_decimal() {
    assert_eq!(port_text(0), "0");
    assert_eq!(port_text(7), "7");
    assert_eq!(port_text(42), "42");
    assert_eq!(port_text(4222), "4222");
    assert_eq!(port_text(65535), "65535");
}

#[test]
fn broker_texts_name_localhost_and_the_port() {
    assert_eq!(broker_url(4222), "nats://localhost:4222");
    assert_eq!(broker_args(14222), vec!["-T=false", "-p", "14222"]);
}

#[test]
fn session_url_names_the_server_and_port() {
    assert_eq!(session_url_text(443), "https://localhost:443");
    let url = session_url(4433).expect("session URL must parse");
    assert_eq!(url.scheme(), "https");
    assert_eq!(url.host_str(), Some("localhost"));
    assert_eq!(url.port(), Some(4433));
}
