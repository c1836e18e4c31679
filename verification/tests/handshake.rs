use tls_bench::{
    Blinding, CipherSuite, ClientAuthType, ConnectedBuffer, ConstructionError, CryptoConfig,
    ECGroup, HandshakeCycle, HandshakeType, Mode, PemStore, PemType, PollOutcome, S2NHarness,
    SigType, TransferError, TransferOp, UnrecognizedNegotiatedValue, Version,
};

const SIG: SigType = SigType::Rsa2048;

fn server_only_store() -> PemStore {
    let mut store = PemStore::new();
    store.insert(PemType::CACert, SIG, b"ca".to_vec());
    store.insert(PemType::ServerCertChain, SIG, b"server chain".to_vec());
    store.insert(PemType::ServerKey, SIG, b"server key".to_vec());
    store
}

fn full_store() -> PemStore {
    let mut store = server_only_store();
    store.insert(PemType::ClientCertChain, SIG, b"client chain".to_vec());
    store.insert(PemType::ClientKey, SIG, b"client key".to_vec());
    store
}

fn harness(handshake_type: HandshakeType) -> S2NHarness {
    let crypto_config =
        CryptoConfig::new(CipherSuite::AES_128_GCM_SHA256, ECGroup::SECP256R1, SIG);
    S2NHarness::new(crypto_config, handshake_type, ConnectedBuffer::new(), &full_store()).unwrap()
}

/// One driving cycle in which the polls report `outcomes`, one after the other.
fn drive(harness: &mut S2NHarness, outcomes: Vec<PollOutcome>) -> Vec<Mode> {
    let mut cycle = HandshakeCycle::new();
    let mut polled = Vec::new();
    let mut outcomes = outcomes.into_iter();
    while let Some(mode) = cycle.next_role() {
        polled.push(mode);
        let outcome = outcomes.next().expect("an outcome for every poll");
        if harness.handshake(&mut cycle, outcome).is_err() {
            break;
        }
    }
    polled
}

#[test]
fn construction_succeeds_for_every_combination() {
    let suites = [CipherSuite::AES_128_GCM_SHA256, CipherSuite::AES_256_GCM_SHA384];
    let groups = [ECGroup::SECP256R1, ECGroup::X25519];
    let kinds = [HandshakeType::ServerAuth, HandshakeType::MutualAuth];
    let store = full_store();
    for cipher_suite in suites {
        for ec_group in groups {
            for handshake_type in kinds {
                let crypto_config = CryptoConfig::new(cipher_suite, ec_group, SIG);
                let mut harness = S2NHarness::new(
                    crypto_config,
                    handshake_type,
                    ConnectedBuffer::new(),
                    &store,
                )
                .unwrap();
                assert!(!harness.handshake_completed());
                drive(
                    &mut harness,
                    vec![
                        PollOutcome::Pending,
                        PollOutcome::Pending,
                        PollOutcome::Negotiated,
                        PollOutcome::Negotiated,
                    ],
                );
                assert!(harness.handshake_completed());
            }
        }
    }
}

#[test]
fn new_harness_wires_each_connection_to_its_own_endpoint() {
    let harness = harness(HandshakeType::MutualAuth);
    assert!(!harness.handshake_completed());
    for mode in [Mode::Client, Mode::Server] {
        let conn = harness.conn(mode);
        assert_eq!(conn.mode(), mode);
        assert_eq!(conn.blinding(), Blinding::SelfService);
        assert_eq!(conn.send_endpoint(), Some(mode));
        assert_eq!(conn.receive_endpoint(), Some(mode));
        let config = conn.config().as_ref().expect("a configuration");
        assert_eq!(config.security_policy(), Some("20230317"));
        assert_eq!(config.client_auth_type(), ClientAuthType::Required);
    }
    let client = harness.conn(Mode::Client).config().as_ref().unwrap();
    assert_eq!(client.cert_chains()[0].chain(), &b"client chain".to_vec());
    let server = harness.conn(Mode::Server).config().as_ref().unwrap();
    assert_eq!(server.cert_chains()[0].chain(), &b"server chain".to_vec());
}

#[test]
fn new_harness_keeps_the_channel_it_was_given() {
    let mut buffer = ConnectedBuffer::new();
    buffer.write(Mode::Client, &[1, 2, 3]);
    let crypto_config = CryptoConfig::new(CipherSuite::AES_256_GCM_SHA384, ECGroup::X25519, SIG);
    let mut harness =
        S2NHarness::new(crypto_config, HandshakeType::ServerAuth, buffer, &full_store()).unwrap();
    assert_eq!(harness.buffer().pending(Mode::Server), 3);
    let mut data = [0u8; 3];
    assert_eq!(S2NHarness::recv_cb(harness.buffer_mut(), Mode::Server, &mut data), 3);
    assert_eq!(data, [1, 2, 3]);
    assert_eq!(harness.buffer().pending(Mode::Server), 0);
}

#[test]
fn mutual_auth_without_client_certificate_fails_where_server_auth_succeeds() {
    let crypto_config = CryptoConfig::new(CipherSuite::AES_128_GCM_SHA256, ECGroup::X25519, SIG);
    let store = server_only_store();
    let server_auth =
        S2NHarness::new(crypto_config, HandshakeType::ServerAuth, ConnectedBuffer::new(), &store);
    assert!(server_auth.is_ok());
    let mutual_auth =
        S2NHarness::new(crypto_config, HandshakeType::MutualAuth, ConnectedBuffer::new(), &store);
    assert_eq!(
        mutual_auth.err(),
        Some(ConstructionError::MissingPem { pem_type: PemType::ClientCertChain, sig_type: SIG })
    );
}

#[test]
fn construction_reports_the_clients_missing_material_first() {
    let crypto_config = CryptoConfig::new(CipherSuite::AES_128_GCM_SHA256, ECGroup::X25519, SIG);
    let empty = PemStore::new();
    let result =
        S2NHarness::new(crypto_config, HandshakeType::ServerAuth, ConnectedBuffer::new(), &empty);
    assert_eq!(
        result.err(),
        Some(ConstructionError::MissingPem { pem_type: PemType::CACert, sig_type: SIG })
    );
    let mut only_ca = PemStore::new();
    only_ca.insert(PemType::CACert, SIG, b"ca".to_vec());
    let result =
        S2NHarness::new(crypto_config, HandshakeType::ServerAuth, ConnectedBuffer::new(), &only_ca);
    assert_eq!(
        result.err(),
        Some(ConstructionError::MissingPem { pem_type: PemType::ServerCertChain, sig_type: SIG })
    );
}

#[test]
fn a_cycle_polls_client_and_server_twice_in_turn() {
    let mut harness = harness(HandshakeType::ServerAuth);
    let polled = drive(
        &mut harness,
        vec![
            PollOutcome::Pending,
            PollOutcome::Pending,
            PollOutcome::Pending,
            PollOutcome::Pending,
        ],
    );
    assert_eq!(polled, vec![Mode::Client, Mode::Server, Mode::Client, Mode::Server]);
    assert!(!harness.handshake_completed());
}

#[test]
fn server_auth_scenario_completes_after_two_cycles() {
    let crypto_config =
        CryptoConfig::new(CipherSuite::AES_128_GCM_SHA256, ECGroup::SECP256R1, SIG);
    let mut harness = S2NHarness::new(
        crypto_config,
        HandshakeType::ServerAuth,
        ConnectedBuffer::new(),
        &server_only_store(),
    )
    .unwrap();
    let policy = harness.conn(Mode::Client).config().as_ref().unwrap().security_policy();
    assert_eq!(policy, Some("20230317"));

    drive(
        &mut harness,
        vec![
            PollOutcome::Pending,
            PollOutcome::Pending,
            PollOutcome::Pending,
            PollOutcome::Negotiated,
        ],
    );
    assert!(!harness.handshake_completed());
    drive(
        &mut harness,
        vec![
            PollOutcome::Negotiated,
            PollOutcome::Negotiated,
            PollOutcome::Negotiated,
            PollOutcome::Negotiated,
        ],
    );
    assert!(harness.handshake_completed());
    assert_eq!(
        harness.get_negotiated_cipher_suite("TLS_AES_128_GCM_SHA256"),
        Ok(CipherSuite::AES_128_GCM_SHA256)
    );
    assert!(harness.negotiated_tls13(Version::TLS13));
}

#[test]
fn handshake_conn_sets_the_flag_of_the_polled_role_only() {
    let mut harness = harness(HandshakeType::ServerAuth);
    assert!(harness.handshake_conn(Mode::Client, PollOutcome::Negotiated).is_ok());
    assert!(!harness.handshake_completed());
    assert!(harness.handshake_conn(Mode::Server, PollOutcome::Negotiated).is_ok());
    assert!(harness.handshake_completed());
}

#[test]
fn a_step_that_is_not_ready_clears_the_flag_without_error() {
    let mut harness = harness(HandshakeType::ServerAuth);
    harness.handshake_conn(Mode::Client, PollOutcome::Negotiated).unwrap();
    harness.handshake_conn(Mode::Server, PollOutcome::Negotiated).unwrap();
    assert!(harness.handshake_completed());
    assert!(harness.handshake_conn(Mode::Server, PollOutcome::Pending).is_ok());
    assert!(!harness.handshake_completed());
    harness.handshake_conn(Mode::Server, PollOutcome::Negotiated).unwrap();
    assert!(harness.handshake_completed());
    assert!(harness.handshake_conn(Mode::Client, PollOutcome::Pending).is_ok());
    assert!(!harness.handshake_completed());
}

#[test]
fn a_failed_step_is_an_error_that_names_the_role() {
    let mut harness = harness(HandshakeType::MutualAuth);
    harness.handshake_conn(Mode::Client, PollOutcome::Negotiated).unwrap();
    harness.handshake_conn(Mode::Server, PollOutcome::Negotiated).unwrap();
    let error = harness
        .handshake_conn(Mode::Server, PollOutcome::Failed("bad certificate".to_string()))
        .unwrap_err();
    assert_eq!(error.mode, Mode::Server);
    assert_eq!(error.reason, "bad certificate");
    assert!(!harness.handshake_completed());
}

#[test]
fn a_failed_step_ends_the_cycle() {
    let mut harness = harness(HandshakeType::ServerAuth);
    let mut cycle = HandshakeCycle::new();
    assert_eq!(cycle.next_role(), Some(Mode::Client));
    harness.handshake(&mut cycle, PollOutcome::Pending).unwrap();
    assert_eq!(cycle.next_role(), Some(Mode::Server));
    let error = harness
        .handshake(&mut cycle, PollOutcome::Failed("handshake failure".to_string()))
        .unwrap_err();
    assert_eq!(error.mode, Mode::Server);
    assert_eq!(error.reason, "handshake failure");
    assert_eq!(cycle.next_role(), None);
}

#[test]
fn a_step_on_a_finished_cycle_changes_nothing() {
    let mut harness = harness(HandshakeType::ServerAuth);
    let mut cycle = HandshakeCycle::new();
    for _ in 0..4 {
        harness.handshake(&mut cycle, PollOutcome::Negotiated).unwrap();
    }
    assert_eq!(cycle.next_role(), None);
    assert!(harness.handshake_completed());
    assert!(harness.handshake(&mut cycle, PollOutcome::Pending).is_ok());
    assert!(harness.handshake(&mut cycle, PollOutcome::Failed("late".to_string())).is_ok());
    assert_eq!(cycle.next_role(), None);
    assert!(harness.handshake_completed());
}

#[test]
fn only_the_last_poll_of_each_role_counts() {
    let mut harness = harness(HandshakeType::ServerAuth);
    drive(
        &mut harness,
        vec![
            PollOutcome::Negotiated,
            PollOutcome::Negotiated,
            PollOutcome::Pending,
            PollOutcome::Negotiated,
        ],
    );
    assert!(!harness.handshake_completed());
    drive(
        &mut harness,
        vec![
            PollOutcome::Pending,
            PollOutcome::Pending,
            PollOutcome::Negotiated,
            PollOutcome::Negotiated,
        ],
    );
    assert!(harness.handshake_completed());
}

fn completed_harness() -> S2NHarness {
    let mut harness = harness(HandshakeType::ServerAuth);
    harness.handshake_conn(Mode::Client, PollOutcome::Negotiated).unwrap();
    harness.handshake_conn(Mode::Server, PollOutcome::Negotiated).unwrap();
    harness
}

#[test]
fn negotiated_cipher_suite_is_read_from_its_name() {
    let harness = completed_harness();
    assert_eq!(
        harness.get_negotiated_cipher_suite("TLS_AES_128_GCM_SHA256"),
        Ok(CipherSuite::AES_128_GCM_SHA256)
    );
    assert_eq!(
        harness.get_negotiated_cipher_suite("TLS_AES_256_GCM_SHA384"),
        Ok(CipherSuite::AES_256_GCM_SHA384)
    );
}

#[test]
fn unknown_cipher_suite_name_is_rejected() {
    let harness = completed_harness();
    for name in [
        "",
        "AES_128_GCM_SHA256",
        "TLS_AES_128_GCM_SHA25",
        "TLS_AES_128_GCM_SHA2566",
        "tls_aes_128_gcm_sha256",
        "TLS_CHACHA20_POLY1305_SHA256",
        "ECDHE-RSA-AES128-GCM-SHA256",
    ] {
        assert_eq!(harness.get_negotiated_cipher_suite(name), Err(UnrecognizedNegotiatedValue));
    }
}

#[test]
fn only_version_tls13_counts_as_tls13() {
    let harness = completed_harness();
    assert!(harness.negotiated_tls13(Version::TLS13));
    for version in
        [Version::SSLV2, Version::SSLV3, Version::TLS10, Version::TLS11, Version::TLS12]
    {
        assert!(!harness.negotiated_tls13(version));
    }
}

#[test]
fn send_has_to_write_and_flush_at_once() {
    let harness = completed_harness();
    assert_eq!(harness.send(Mode::Client, true, true), Ok(()));
    assert_eq!(harness.send(Mode::Server, true, true), Ok(()));
    assert_eq!(
        harness.send(Mode::Client, false, true),
        Err(TransferError { mode: Mode::Client, op: TransferOp::Send })
    );
    assert_eq!(
        harness.send(Mode::Server, false, false),
        Err(TransferError { mode: Mode::Server, op: TransferOp::Send })
    );
    assert_eq!(
        harness.send(Mode::Server, true, false),
        Err(TransferError { mode: Mode::Server, op: TransferOp::Flush })
    );
}

#[test]
fn recv_has_to_read_at_once() {
    let harness = completed_harness();
    assert_eq!(harness.recv(Mode::Server, true), Ok(()));
    assert_eq!(
        harness.recv(Mode::Server, false),
        Err(TransferError { mode: Mode::Server, op: TransferOp::Recv })
    );
    assert_eq!(
        harness.recv(Mode::Client, false),
        Err(TransferError { mode: Mode::Client, op: TransferOp::Recv })
    );
}
