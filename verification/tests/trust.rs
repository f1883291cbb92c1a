use std::time::Duration;

use wrpc_test::trust::{build_trust_pair, generate_identity, TrustPair};

fn rt() -> tokio::runtime::Runtime {
    tokio::runtime::Builder::new_current_thread()
        .enable_all()
        .build()
        .expect("runtime")
}

#[test]
fn identities_are_fresh_and_nonempty() {
    let a = generate_identity("localhost").expect("identity");
    let b = generate_identity("localhost").expect("identity");
    assert!(!a.cert_der.is_empty());
    assert!(!a.key_der.is_empty());
    // Generation is fresh per call: two identities for the same name differ.
    assert_ne!(a.cert_der, b.cert_der);
}

#[test]
fn trust_pair_holds_two_distinct_certificates() {
    let pair = build_trust_pair("localhost", "client.wrpc").expect("trust pair");
    assert!(!pair.server_cert_der.is_empty());
    assert!(!pair.client_cert_der.is_empty());
    assert_ne!(pair.server_cert_der, pair.client_cert_der);
}

#[test]
fn endpoints_accept_the_trust_pair_configs() {
    // Packet delivery is not exercised here: this environment offers no UDP
    // traffic, so the handshake itself runs only outside these tests. What is
    // checked is that the transport accepts both assembled configurations and
    // that the server endpoint binds to a concrete loopback port.
    rt().block_on(async {
        let TrustPair { client, server, .. } =
            build_trust_pair("localhost", "client.wrpc").expect("trust pair");
        let mut clt_ep =
            quinn::Endpoint::client(([127, 0, 0, 1], 0).into()).expect("client endpoint");
        clt_ep.set_default_client_config(client);
        let srv_ep = quinn::Endpoint::server(server, ([127, 0, 0, 1], 0).into())
            .expect("server endpoint");
        let srv_addr = srv_ep.local_addr().expect("server address");
        assert_ne!(srv_addr.port(), 0);
        let clt_addr = clt_ep.local_addr().expect("client address");
        assert_ne!(clt_addr.port(), 0);
        assert_ne!(clt_addr.port(), srv_addr.port());
    });
}
