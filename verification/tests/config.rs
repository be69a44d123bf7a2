//! The configuration that an environment gives, certificates and invitations.
use akson::config::{
    default_data_dir, read_secret, recover_from_crash, BootstrapError, DaemonConfig, Environment,
};
use akson::identity::{Fingerprint, FingerprintKind};
use akson::meta::{
    check_journal, journal_holds, meta_get_i64, meta_get_u64, meta_set_i64, meta_set_u64,
    outstanding_migrations,
};
use akson::pairing::invitation_url;
use akson::store::{ExternalCheckpoint, Store, StoreError};
use akson::tls::{cert_sha256, check_cert_time, check_pinned, CertVerdict};

fn environment() -> Environment {
    Environment {
        data_dir: None,
        xdg_data_home: None,
        home: None,
        temp_dir: "/tmp".to_owned(),
        issuer: None,
        agent: None,
        receive_addr: None,
        interface_url: None,
        worker_cmd: None,
        worker_exec: None,
        on_task: None,
    }
}

fn some(s: &str) -> Option<String> {
    Some(s.to_owned())
}

#[test]
fn an_empty_environment_gives_the_defaults() {
    let c = DaemonConfig::from_env(&environment());
    assert_eq!(c.data_dir, "/tmp/akson-data");
    assert_eq!(c.local_performer.issuer, "local");
    assert_eq!(c.local_performer.agent, "akson-local");
    assert_eq!(c.local_performer.root, "");
    assert_eq!(c.receive_addr, some("127.0.0.1:18443"));
    assert_eq!(c.interface_url, "https://127.0.0.1:18443/a2a");
    assert_eq!(c.worker_command, None);
    assert_eq!(c.worker_exec, None);
    assert_eq!(c.on_task, None);
}

#[test]
fn a_listener_can_be_switched_off() {
    for word in ["off", "OFF", "none", "None"] {
        let mut env = environment();
        env.receive_addr = some(word);
        let c = DaemonConfig::from_env(&env);
        assert_eq!(c.receive_addr, None);
        assert_eq!(c.interface_url, "https://127.0.0.1:18443/a2a");
    }
}

#[test]
fn an_address_for_all_is_advertised_as_the_loopback_address() {
    let mut env = environment();
    env.receive_addr = some("0.0.0.0:9000");
    let c = DaemonConfig::from_env(&env);
    assert_eq!(c.receive_addr, some("0.0.0.0:9000"));
    assert_eq!(c.interface_url, "https://127.0.0.1:9000/a2a");
    env.receive_addr = some("[::]:9000");
    assert_eq!(
        DaemonConfig::from_env(&env).interface_url,
        "https://[::1]:9000/a2a"
    );
    env.interface_url = some("https://agent.example/a2a");
    assert_eq!(
        DaemonConfig::from_env(&env).interface_url,
        "https://agent.example/a2a"
    );
}

#[test]
fn an_empty_setting_is_as_good_as_none() {
    let mut env = environment();
    env.issuer = some("");
    env.receive_addr = some("");
    env.worker_exec = some("");
    assert_eq!(
        DaemonConfig::from_env(&env),
        DaemonConfig::from_env(&environment())
    );
}

#[test]
fn a_program_is_split_into_its_words() {
    let mut env = environment();
    env.worker_exec = some("  /bin/adapter\t--mode  strict\n");
    env.worker_cmd = some("run it");
    env.on_task = some("poke");
    let c = DaemonConfig::from_env(&env);
    assert_eq!(
        c.worker_exec,
        Some(vec![
            "/bin/adapter".to_owned(),
            "--mode".to_owned(),
            "strict".to_owned()
        ])
    );
    assert_eq!(c.worker_command, some("run it"));
    assert_eq!(c.on_task, some("poke"));
    env.worker_exec = some("   ");
    assert_eq!(DaemonConfig::from_env(&env).worker_exec, None);
}

#[test]
fn the_data_directory_follows_the_environment() {
    let mut env = environment();
    env.home = some("/home/a");
    assert_eq!(default_data_dir(&env), "/home/a/.local/share/akson");
    env.xdg_data_home = some("/data/");
    assert_eq!(default_data_dir(&env), "/data/akson");
    env.data_dir = some("/srv/akson");
    assert_eq!(DaemonConfig::from_env(&env).data_dir, "/srv/akson");
}

#[test]
fn recovery_of_an_idle_store_changes_nothing() {
    let checkpoint = ExternalCheckpoint {
        state_generation: 0,
        trusted_time: 0,
        rollback_detectable: true,
    };
    let mut store = Store::open_in_memory([1u8; 32], checkpoint).unwrap();
    let before = store.snapshot();
    recover_from_crash(&mut store, 100).unwrap();
    assert_eq!(store.snapshot(), before);
}

#[test]
fn an_invitation_needs_an_address() {
    assert_eq!(
        invitation_url(Some("host:8000")).unwrap(),
        "https://host:8000/bootstrap"
    );
    let p = invitation_url(None).unwrap_err();
    assert_eq!(p.status, 409);
    assert_eq!(p.type_, "urn:akson:error:pairing-not-enabled");
}

#[test]
fn a_certificate_is_judged_by_its_pin_and_its_time() {
    let pin = cert_sha256(b"hello");
    assert_eq!(
        pin,
        Fingerprint {
            kind: FingerprintKind::CertSha256,
            value: "2cf24dba5fb0a30e26e83b2ac5b9e29e1b161e5c1fa7425e73043362938b9824".to_owned(),
        }
    );
    let window = Some((100, 200));
    assert_eq!(check_pinned(&pin, b"hello", window, 100), CertVerdict::Accepted);
    assert_eq!(check_pinned(&pin, b"hello", window, 200), CertVerdict::Accepted);
    assert_eq!(check_pinned(&pin, b"hello", window, 99), CertVerdict::NotValidYet);
    assert_eq!(check_pinned(&pin, b"hello", window, 201), CertVerdict::Expired);
    assert_eq!(check_pinned(&pin, b"other", window, 150), CertVerdict::NotPinned);
    assert_eq!(check_cert_time(None, 150), CertVerdict::BadEncoding);
}

#[test]
fn a_secret_is_of_exactly_32_bytes() {
    assert_eq!(read_secret("kek", &vec![7u8; 32]).unwrap(), [7u8; 32]);
    for length in [0usize, 31, 33] {
        match read_secret("kek", &vec![7u8; length]) {
            Err(BootstrapError::Config(why)) => {
                assert_eq!(why, "the secret file kek is not exactly 32 bytes")
            }
            other => panic!("unexpected: {other:?}"),
        }
    }
}

#[test]
fn numbers_are_kept_as_eight_bytes() {
    assert_eq!(meta_set_u64(0x0102_0304_0506_0708), vec![1, 2, 3, 4, 5, 6, 7, 8]);
    assert_eq!(meta_get_u64(&Some(vec![1, 2, 3, 4, 5, 6, 7, 8])), Some(0x0102_0304_0506_0708));
    for n in [0u64, 1, 255, 256, u64::MAX] {
        assert_eq!(meta_set_u64(n), n.to_be_bytes().to_vec());
        assert_eq!(meta_get_u64(&Some(meta_set_u64(n))), Some(n));
    }
    for n in [0i64, 1, -1, i64::MIN, i64::MAX] {
        assert_eq!(meta_set_i64(n), n.to_be_bytes().to_vec());
        assert_eq!(meta_get_i64(&Some(meta_set_i64(n))), Some(n));
    }
    assert_eq!(meta_get_u64(&Some(vec![1; 7])), None);
    assert_eq!(meta_get_i64(&None), None);
}

#[test]
fn only_the_outstanding_steps_are_taken() {
    assert_eq!(outstanding_migrations(0, &vec![1, 2, 3]), vec![1, 2, 3]);
    assert_eq!(outstanding_migrations(2, &vec![1, 2, 3]), vec![3]);
    assert_eq!(outstanding_migrations(3, &vec![1, 2, 3]), Vec::<i64>::new());
}

#[test]
fn a_worker_without_a_word_is_none() {
    let mut env = environment();
    env.worker_exec = Some(" \t ".to_owned());
    assert_eq!(DaemonConfig::from_env(&env).worker_exec, None);
}

#[test]
fn only_a_journal_that_is_written_ahead_holds() {
    assert!(journal_holds("wal"));
    assert!(journal_holds("memory"));
    assert!(!journal_holds("delete"));
    assert!(!journal_holds("WAL"));
    assert_eq!(check_journal("wal"), Ok(()));
    let why = "journal_mode is \"delete\", expected wal (durable claim/CAS need WAL)";
    assert_eq!(check_journal("delete"), Err(StoreError::Corrupt(why.to_owned())));
}
