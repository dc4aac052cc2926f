use aes_gcm::aead::{Aead, KeyInit};
use base64::Engine;
use ssh_manager::format::{detect_shape, EncryptedConfig, FileShape};
use ssh_manager::profile::{AuthType, Server};
use ssh_manager::store::{Config, Loaded, StoreError};

fn db1() -> Server {
    Server {
        name: "db1".to_string(),
        user: "root".to_string(),
        host: "10.0.0.5".to_string(),
        port: 5432,
        auth_type: AuthType::Agent,
        group: "General".to_string(),
    }
}

fn three() -> Vec<Server> {
    vec![
        db1(),
        Server {
            name: "web \"edge\"".to_string(),
            user: "déploy".to_string(),
            host: "example.org".to_string(),
            port: 22,
            auth_type: AuthType::Password("s3cr3t\n\\".to_string()),
            group: "Prod".to_string(),
        },
        Server {
            name: "build".to_string(),
            user: "ci".to_string(),
            host: "::1".to_string(),
            port: 65535,
            auth_type: AuthType::Key("~/.ssh/id_ed25519".to_string()),
            group: "".to_string(),
        },
    ]
}

fn locked(text: &str) -> EncryptedConfig {
    match Config::load("servers.json", Some(text)) {
        Ok(Loaded::Locked(sealed)) => sealed,
        _ => panic!("the text is not an encrypted catalogue"),
    }
}

fn flip(text: &str, at: usize) -> String {
    let mut bytes = text.as_bytes().to_vec();
    bytes[at] ^= 0x01;
    String::from_utf8(bytes).unwrap()
}

#[test]
fn no_file_loads_as_empty_catalogue() {
    match Config::load("servers.json", None) {
        Ok(Loaded::Ready(config)) => {
            assert!(config.servers.is_empty());
            assert!(config.needs_passphrase());
        }
        _ => panic!("an empty catalogue was expected"),
    }
}

#[test]
fn sealed_text_round_trips_with_fixed_salt_and_nonce() {
    let servers = three();
    let text = Config::seal_with(&servers, "correct-horse", &[7u8; 16], &[9u8; 12]).unwrap();
    let sealed = locked(&text);
    assert_eq!(sealed.salt, "BwcHBwcHBwcHBwcHBwcHBw==");
    assert_eq!(sealed.nonce, "CQkJCQkJCQkJCQkJ");
    let config = Config::unlock("servers.json", &sealed, "correct-horse".to_string()).unwrap();
    assert_eq!(config.servers, servers);
    assert!(!config.needs_passphrase());
}

#[test]
fn sealing_is_a_function_of_its_inputs() {
    let servers = three();
    let a = Config::seal_with(&servers, "pw", &[1u8; 16], &[2u8; 12]).unwrap();
    let b = Config::seal_with(&servers, "pw", &[1u8; 16], &[2u8; 12]).unwrap();
    let c = Config::seal_with(&servers, "pw", &[1u8; 16], &[3u8; 12]).unwrap();
    let d = Config::seal_with(&servers, "pw", &[4u8; 16], &[2u8; 12]).unwrap();
    assert_eq!(a, b);
    assert_ne!(a, c);
    assert_ne!(a, d);
}

#[test]
fn sealed_text_has_the_three_pretty_printed_fields() {
    let text = Config::seal_with(&Vec::new(), "pw", &[0u8; 16], &[0u8; 12]).unwrap();
    let lines: Vec<&str> = text.lines().collect();
    assert_eq!(lines.len(), 5);
    assert_eq!(lines[0], "{");
    assert_eq!(lines[1], "  \"salt\": \"AAAAAAAAAAAAAAAAAAAAAA==\",");
    assert_eq!(lines[2], "  \"nonce\": \"AAAAAAAAAAAAAAAA\",");
    assert!(lines[3].starts_with("  \"ciphertext\": \""));
    assert_eq!(lines[4], "}");
    // The payload "[]" is two bytes; the tag adds sixteen; base64 makes 24 characters.
    assert_eq!(lines[3].len(), "  \"ciphertext\": \"\"".len() + 24);
}

#[test]
fn sealing_refuses_a_salt_or_nonce_of_the_wrong_length() {
    assert!(matches!(
        Config::seal_with(&three(), "pw", &[0u8; 15], &[0u8; 12]),
        Err(StoreError::Seal)
    ));
    assert!(matches!(
        Config::seal_with(&three(), "pw", &[0u8; 16], &[0u8; 13]),
        Err(StoreError::Seal)
    ));
    assert!(matches!(Config::seal_with(&three(), "pw", &[], &[]), Err(StoreError::Seal)));
}

#[test]
fn example_scenario_save_then_load() {
    let mut config = Config::new();
    config.add_server(db1());
    let text = config.save("correct-horse", "correct-horse").unwrap();
    assert!(!config.needs_passphrase());

    let sealed = locked(&text);
    let again = Config::unlock("servers.json", &sealed, "correct-horse".to_string()).unwrap();
    assert_eq!(again.servers, vec![db1()]);

    assert!(matches!(
        Config::unlock("servers.json", &sealed, "wrong".to_string()),
        Err(StoreError::Auth)
    ));
}

#[test]
fn every_save_draws_a_new_salt_and_nonce() {
    let mut config = Config::new();
    config.add_server(db1());
    let first = locked(&config.save("pw", "pw").unwrap());
    let second = locked(&config.save("ignored", "also ignored").unwrap());
    assert_ne!(first.salt, second.salt);
    assert_ne!(first.nonce, second.nonce);
    assert_ne!(first.ciphertext, second.ciphertext);
    let reopened = Config::unlock("p", &second, "pw".to_string()).unwrap();
    assert_eq!(reopened.servers, vec![db1()]);
}

#[test]
fn mismatched_confirmation_fails_the_save_and_changes_nothing() {
    let mut config = Config::new();
    config.add_server(db1());
    assert!(matches!(config.save("one", "two"), Err(StoreError::PassphraseMismatch)));
    assert!(config.needs_passphrase());
    assert_eq!(config.servers, vec![db1()]);
    assert!(config.save("one", "one").is_ok());
}

#[test]
fn unlocked_catalogue_saves_without_asking_again() {
    let text = Config::seal_with(&three(), "pw", &[5u8; 16], &[6u8; 12]).unwrap();
    let mut config = Config::unlock("p", &locked(&text), "pw".to_string()).unwrap();
    config.remove_server(0);
    let text = config.save("x", "y").unwrap();
    let again = Config::unlock("p", &locked(&text), "pw".to_string()).unwrap();
    assert_eq!(again.servers, three()[1..].to_vec());
}

#[test]
fn legacy_file_is_upgraded_in_memory() {
    let text = r#"[{"name":"a","user":"u","host":"h","port":22},
                   {"name":"b","user":"v","host":"i","port":2222}]"#;
    match Config::load("servers.json", Some(text)) {
        Ok(Loaded::Migrated(config)) => {
            assert_eq!(config.servers.len(), 2);
            assert_eq!(config.servers[0].name, "a");
            assert_eq!(config.servers[0].user, "u");
            assert_eq!(config.servers[0].host, "h");
            assert_eq!(config.servers[0].port, 22);
            assert_eq!(config.servers[0].auth_type, AuthType::Agent);
            assert_eq!(config.servers[0].group, "General");
            assert_eq!(config.servers[1].name, "b");
            assert_eq!(config.servers[1].port, 2222);
            assert_eq!(config.servers[1].auth_type, AuthType::Agent);
            assert_eq!(config.servers[1].group, "General");
            assert!(config.needs_passphrase());
        }
        _ => panic!("a migrated catalogue was expected"),
    }
}

#[test]
fn current_shape_wins_over_legacy() {
    let text = r#"[{"name":"a","user":"u","host":"h","port":22,
                    "auth_type":{"Key":"/k"},"group":"Ops","colour":"red","tags":[1,2.5,-3]}]"#;
    match Config::load("servers.json", Some(text)) {
        Ok(Loaded::Ready(config)) => {
            assert_eq!(config.servers.len(), 1);
            assert_eq!(config.servers[0].auth_type, AuthType::Key("/k".to_string()));
            assert_eq!(config.servers[0].group, "Ops");
        }
        _ => panic!("the current shape was expected"),
    }
}

#[test]
fn current_shape_defaults_the_group() {
    let text = r#"[{"name":"a","user":"u","host":"h","port":0,"auth_type":{"Password":"p"}},
                   {"name":"b","user":"u","host":"h","port":1,"auth_type":"Agent","group":"G"},
                   {"group":"","auth_type":{"Key":"k"},"port":2,"host":"h","user":"u","name":"c"}]"#;
    match detect_shape(text) {
        FileShape::Current(servers) => {
            assert_eq!(servers.len(), 3);
            assert_eq!(servers[0].group, "General");
            assert_eq!(servers[0].auth_type, AuthType::Password("p".to_string()));
            assert_eq!(servers[1].group, "G");
            assert_eq!(servers[1].auth_type, AuthType::Agent);
            assert_eq!(servers[2].group, "");
            assert_eq!(servers[2].auth_type, AuthType::Key("k".to_string()));
            assert_eq!(servers[2].name, "c");
        }
        _ => panic!("the current shape was expected"),
    }
}

#[test]
fn empty_array_is_an_empty_current_catalogue() {
    assert!(matches!(detect_shape("[]"), FileShape::Current(v) if v.is_empty()));
    assert!(matches!(detect_shape(" [ ] \n"), FileShape::Current(v) if v.is_empty()));
}

#[test]
fn record_with_a_bad_auth_falls_back_to_legacy() {
    for auth in [
        r#""Password""#,
        r#"{"Password":"p","Key":"k"}"#,
        r#"{"Password":5}"#,
        r#"{"Agent":"x"}"#,
        r#"{"Agent":null}"#,
        r#""agent""#,
        r#"["Agent"]"#,
        r#"{"Token":"t"}"#,
        r#"{}"#,
        "null",
        "7",
    ] {
        let text = format!(
            r#"[{{"name":"a","user":"u","host":"h","port":22,"auth_type":{},"group":"G"}}]"#,
            auth
        );
        match detect_shape(&text) {
            FileShape::Legacy(servers) => {
                assert_eq!(servers[0].auth_type, AuthType::Agent);
                assert_eq!(servers[0].group, "General");
            }
            _ => panic!("the legacy shape was expected for {}", auth),
        }
    }
}

#[test]
fn record_with_a_group_that_is_no_string_falls_back_to_legacy() {
    let text =
        r#"[{"name":"a","user":"u","host":"h","port":22,"auth_type":"Agent","group":null}]"#;
    assert!(matches!(detect_shape(text), FileShape::Legacy(_)));
}

#[test]
fn port_must_be_an_integer_of_sixteen_bits() {
    for port in ["65536", "-1", "22.0", "\"22\"", "null", "1e2", "18446744073709551616"] {
        let text = format!(r#"[{{"name":"a","user":"u","host":"h","port":{}}}]"#, port);
        assert!(matches!(detect_shape(&text), FileShape::Unknown), "port {}", port);
    }
    let text = r#"[{"name":"a","user":"u","host":"h","port":65535}]"#;
    assert!(matches!(detect_shape(text), FileShape::Legacy(v) if v[0].port == 65535));
}

#[test]
fn file_of_no_known_shape_is_refused_with_its_path() {
    for text in ["", "not json", "{}", "42", "[1]", "[{}]", r#"{"salt":"a","nonce":"b"}"#,
        r#"{"salt":"a","nonce":"b","ciphertext":3}"#, r#"[{"name":"a"}]"#, "[] trailing"]
    {
        match Config::load("/cfg/ssh-manager/servers.json", Some(text)) {
            Err(StoreError::Format { path }) => assert_eq!(path, "/cfg/ssh-manager/servers.json"),
            _ => panic!("a format error was expected for {:?}", text),
        }
    }
}

#[test]
fn encrypted_shape_is_recognised_last() {
    let text = r#"{"ciphertext":"c2VjcmV0","extra":[],"nonce":"bm9uY2U=","salt":"c2FsdA=="}"#;
    match Config::load("p", Some(text)) {
        Ok(Loaded::Locked(sealed)) => {
            assert_eq!(sealed.salt, "c2FsdA==");
            assert_eq!(sealed.nonce, "bm9uY2U=");
            assert_eq!(sealed.ciphertext, "c2VjcmV0");
        }
        _ => panic!("the encrypted shape was expected"),
    }
}

#[test]
fn wrong_passphrase_is_an_authentication_failure() {
    let text = Config::seal_with(&three(), "correct-horse", &[1u8; 16], &[2u8; 12]).unwrap();
    let sealed = locked(&text);
    for wrong in ["", "correct-horsf", "Correct-horse"] {
        assert!(matches!(
            Config::unlock("p", &sealed, wrong.to_string()),
            Err(StoreError::Auth)
        ));
    }
}

#[test]
fn tampered_ciphertext_is_an_authentication_failure() {
    let text = Config::seal_with(&three(), "pw", &[1u8; 16], &[2u8; 12]).unwrap();
    let sealed = locked(&text);
    let last = sealed.ciphertext.len() - 1;
    for at in [0, 1, last / 2, last - 3, last] {
        let tampered = EncryptedConfig {
            salt: sealed.salt.clone(),
            nonce: sealed.nonce.clone(),
            ciphertext: flip(&sealed.ciphertext, at),
        };
        assert!(
            matches!(Config::unlock("p", &tampered, "pw".to_string()), Err(StoreError::Auth)),
            "byte {}",
            at
        );
    }
}

#[test]
fn tampered_nonce_is_an_authentication_failure() {
    let text = Config::seal_with(&three(), "pw", &[1u8; 16], &[2u8; 12]).unwrap();
    let sealed = locked(&text);
    for at in [0, 7, 15] {
        let tampered = EncryptedConfig {
            salt: sealed.salt.clone(),
            nonce: flip(&sealed.nonce, at),
            ciphertext: sealed.ciphertext.clone(),
        };
        assert!(
            matches!(Config::unlock("p", &tampered, "pw".to_string()), Err(StoreError::Auth)),
            "byte {}",
            at
        );
    }
}

#[test]
fn tampered_salt_is_an_authentication_failure() {
    let text = Config::seal_with(&three(), "pw", &[1u8; 16], &[2u8; 12]).unwrap();
    let sealed = locked(&text);
    for at in [0, 11, 21, 23] {
        let tampered = EncryptedConfig {
            salt: flip(&sealed.salt, at),
            nonce: sealed.nonce.clone(),
            ciphertext: sealed.ciphertext.clone(),
        };
        assert!(
            matches!(Config::unlock("p", &tampered, "pw".to_string()), Err(StoreError::Auth)),
            "byte {}",
            at
        );
    }
}

#[test]
fn nonce_of_the_wrong_length_is_an_authentication_failure() {
    let text = Config::seal_with(&three(), "pw", &[1u8; 16], &[2u8; 12]).unwrap();
    let sealed = locked(&text);
    for nonce in ["", "AgICAgICAgICAgI=", "AgICAgICAgICAgICAg=="] {
        let tampered = EncryptedConfig {
            salt: sealed.salt.clone(),
            nonce: nonce.to_string(),
            ciphertext: sealed.ciphertext.clone(),
        };
        assert!(matches!(
            Config::unlock("p", &tampered, "pw".to_string()),
            Err(StoreError::Auth)
        ));
    }
}

#[test]
fn text_that_is_not_base64_is_an_authentication_failure() {
    let sealed = EncryptedConfig {
        salt: "***".to_string(),
        nonce: "AgICAgICAgICAgIC".to_string(),
        ciphertext: "AAAA".to_string(),
    };
    assert!(matches!(Config::unlock("p", &sealed, "pw".to_string()), Err(StoreError::Auth)));
}

#[test]
fn payload_that_holds_no_profiles_is_a_format_failure() {
    assert!(Config::read_payload(b"[]".to_vec()).is_some());
    assert!(Config::read_payload(b"{}".to_vec()).is_none());
    assert!(Config::read_payload(vec![0xff, 0xfe]).is_none());
    // A payload is never read as the legacy shape.
    let legacy = br#"[{"name":"a","user":"u","host":"h","port":22}]"#.to_vec();
    assert!(Config::read_payload(legacy).is_none());
}

#[test]
fn add_appends_and_remove_is_bounds_checked() {
    let mut config = Config::new();
    for server in three() {
        config.add_server(server);
    }
    assert_eq!(config.servers, three());
    config.remove_server(3);
    config.remove_server(usize::MAX);
    assert_eq!(config.servers, three());
    config.remove_server(1);
    assert_eq!(config.servers, vec![three()[0].clone(), three()[2].clone()]);
    config.remove_server(0);
    config.remove_server(0);
    config.remove_server(0);
    assert!(config.servers.is_empty());
}

#[test]
fn save_with_a_given_draw_is_the_sealed_text() {
    let mut config = Config::new();
    for server in three() {
        config.add_server(server);
    }
    let drawn = Some((vec![7u8; 16], vec![9u8; 12]));
    let text = config.save_with("correct-horse", "correct-horse", drawn).unwrap();
    assert_eq!(text, Config::seal_with(&three(), "correct-horse", &[7u8; 16], &[9u8; 12]).unwrap());
    assert!(!config.needs_passphrase());
    // The passphrase held is the one that counts from now on.
    let drawn = Some((vec![1u8; 16], vec![2u8; 12]));
    let text = config.save_with("other", "mismatch", drawn).unwrap();
    assert_eq!(text, Config::seal_with(&three(), "correct-horse", &[1u8; 16], &[2u8; 12]).unwrap());
}

#[test]
fn save_without_random_bytes_fails_but_keeps_the_passphrase() {
    let mut config = Config::new();
    config.add_server(db1());
    assert!(matches!(config.save_with("pw", "pw", None), Err(StoreError::Seal)));
    assert!(!config.needs_passphrase());
    assert_eq!(config.servers, vec![db1()]);
    let text = config.save_with("", "", Some((vec![0u8; 16], vec![0u8; 12]))).unwrap();
    assert_eq!(Config::unlock("p", &locked(&text), "pw".to_string()).unwrap().servers, vec![db1()]);
}

#[test]
fn save_with_a_draw_of_the_wrong_length_fails() {
    let mut config = Config::new();
    assert!(matches!(
        config.save_with("pw", "pw", Some((vec![0u8; 12], vec![0u8; 16]))),
        Err(StoreError::Seal)
    ));
}

#[test]
fn mismatch_comes_before_the_draw() {
    let mut config = Config::new();
    assert!(matches!(
        config.save_with("a", "b", Some((vec![0u8; 16], vec![0u8; 12]))),
        Err(StoreError::PassphraseMismatch)
    ));
    assert!(matches!(config.save_with("a", "b", None), Err(StoreError::PassphraseMismatch)));
    assert!(config.needs_passphrase());
}

#[test]
fn error_messages() {
    assert_eq!(
        StoreError::Format { path: "/x/servers.json".to_string() }.message(),
        "Failed to parse config file at /x/servers.json"
    );
    assert_eq!(StoreError::Auth.message(), "Invalid password or corrupted data");
    assert_eq!(StoreError::PassphraseMismatch.message(), "Passwords do not match");
    assert_eq!(StoreError::Seal.message(), "Encryption failed");
}

#[test]
fn store_file_names() {
    assert_eq!(ssh_manager::store::STORE_DIRECTORY, "ssh-manager");
    assert_eq!(ssh_manager::store::STORE_FILE, "servers.json");
    assert_eq!(ssh_manager::profile::default_group(), "General");
}

#[test]
fn payload_is_compact_json_in_field_order() {
    let text = Config::seal_with(&three()[1..2].to_vec(), "pw", &[3u8; 16], &[4u8; 12]).unwrap();
    let sealed = locked(&text);
    let ciphertext = base64::engine::general_purpose::STANDARD.decode(&sealed.ciphertext).unwrap();
    let key = ssh_manager::crypto::derive_key("pw", &[3u8; 16]);
    let cipher = aes_gcm::Aes256Gcm::new(&key.into());
    let payload =
        cipher.decrypt(aes_gcm::Nonce::from_slice(&[4u8; 12]), ciphertext.as_ref()).unwrap();
    assert_eq!(
        String::from_utf8(payload).unwrap(),
        "[{\"name\":\"web \\\"edge\\\"\",\"user\":\"déploy\",\"host\":\"example.org\",\"port\":22,\"auth_type\":{\"Password\":\"s3cr3t\\n\\\\\"},\"group\":\"Prod\"}]"
    );
}

#[test]
fn passphrases_that_derive_the_same_key_open_the_same_file() {
    // HMAC pads a short key with zero bytes, so a trailing NUL changes nothing.
    assert_eq!(
        ssh_manager::crypto::derive_key("pw", &[1u8; 16]),
        ssh_manager::crypto::derive_key("pw\0", &[1u8; 16])
    );
    let text = Config::seal_with(&three(), "pw", &[1u8; 16], &[2u8; 12]).unwrap();
    let config = Config::unlock("p", &locked(&text), "pw\0".to_string()).unwrap();
    assert_eq!(config.servers, three());
}

#[test]
fn a_draw_needs_both_salt_and_nonce() {
    assert_eq!(
        Config::pair_of_draws(Some(vec![1u8; 16]), Some(vec![2u8; 12])),
        Some((vec![1u8; 16], vec![2u8; 12]))
    );
    assert_eq!(Config::pair_of_draws(Some(vec![1u8; 16]), None), None);
    assert_eq!(Config::pair_of_draws(None, Some(vec![2u8; 12])), None);
    assert_eq!(Config::pair_of_draws(None, None), None);
    // The lengths are not looked at here: sealing refuses what does not fit.
    assert_eq!(Config::pair_of_draws(Some(vec![1u8]), Some(Vec::new())), Some((vec![1u8], Vec::new())));
}
