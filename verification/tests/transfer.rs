use interconnect_core::manifest::Manifest;
use interconnect_core::ClientMessage;
use interconnect_core::Identity;
use interconnect_core::Passport;
use interconnect_core::ServerMessage;
use interconnect_core::Transfer;

#[test]
fn unsigned_passport_has_no_signature() {
    let p = Passport::new(Identity::local("alice"), vec![1, 2, 3]);
    assert_eq!(p.identity, Identity::local("alice"));
    assert_eq!(p.data, vec![1, 2, 3]);
    assert_eq!(p.signature, None);
}

#[test]
fn signed_passport_carries_signature() {
    let p = Passport::signed(Identity::new("ed25519", "abcd"), vec![9], vec![7, 7]);
    assert_eq!(p.identity, Identity::new("ed25519", "abcd"));
    assert_eq!(p.data, vec![9]);
    assert_eq!(p.signature, Some(vec![7, 7]));
}

#[test]
fn passport_with_empty_data() {
    let p = Passport::new(Identity::url("a@b"), Vec::new());
    assert!(p.data.is_empty());
    assert!(p.signature.is_none());
    let q = Passport::signed(Identity::url("a@b"), Vec::new(), Vec::new());
    assert_eq!(q.signature, Some(Vec::new()));
}

#[test]
fn passport_clone_keeps_all_parts() {
    let p = Passport::signed(Identity::local("alice"), vec![1, 2], vec![3]);
    let q = p.clone();
    assert_eq!(q.identity, p.identity);
    assert_eq!(q.data, p.data);
    assert_eq!(q.signature, p.signature);
    let u = Passport::new(Identity::local("bob"), vec![5]);
    let v = u.clone();
    assert_eq!(v.identity, Identity::local("bob"));
    assert_eq!(v.data, vec![5]);
    assert_eq!(v.signature, None);
}

#[test]
fn transfer_clone_keeps_all_parts() {
    let t = Transfer {
        destination: String::from("ws://zone-b:9000"),
        passport: Passport::new(Identity::local("alice"), vec![4, 2]),
    };
    let u = t.clone();
    assert_eq!(u.destination, "ws://zone-b:9000");
    assert_eq!(u.passport.identity, Identity::local("alice"));
    assert_eq!(u.passport.data, vec![4, 2]);
    assert_eq!(u.passport.signature, None);
}

#[test]
fn manifest_clone_keeps_metadata() {
    let mut fields = serde_json::Map::new();
    fields.insert(String::from("max_players"), serde_json::Value::from(64));
    fields.insert(String::from("region"), serde_json::Value::from("eu"));
    let m = Manifest {
        identity: Identity::url("zone-a@example.com"),
        name: String::from("Zone A"),
        substrate: Some(String::from("abc123")),
        metadata: serde_json::Value::Object(fields),
    };
    let c = m.clone();
    assert_eq!(c.identity, m.identity);
    assert_eq!(c.name, "Zone A");
    assert_eq!(c.substrate, Some(String::from("abc123")));
    assert_eq!(c.metadata, m.metadata);
    assert_eq!(c.metadata["max_players"], serde_json::Value::from(64));
    assert_ne!(c.metadata, serde_json::Value::Null);
}

#[test]
fn manifest_without_substrate_or_metadata() {
    let m = Manifest {
        identity: Identity::local("dev"),
        name: String::from("Dev"),
        substrate: None,
        metadata: serde_json::Value::Null,
    };
    let c = m.clone();
    assert_eq!(c.substrate, None);
    assert_eq!(c.metadata, serde_json::Value::Null);
}

#[test]
fn envelopes_hold_their_payloads() {
    let auth: ClientMessage<u32> = ClientMessage::Auth {
        identity: Identity::local("alice"),
        passport: Some(vec![1]),
    };
    match auth.clone() {
        ClientMessage::Auth { identity, passport } => {
            assert_eq!(identity, Identity::local("alice"));
            assert_eq!(passport, Some(vec![1]));
        }
        other => panic!("unexpected: {:?}", other),
    }
    let snap: ServerMessage<String> = ServerMessage::Snapshot {
        seq: 3,
        data: String::from("state"),
    };
    match snap {
        ServerMessage::Snapshot { seq, data } => {
            assert_eq!(seq, 3);
            assert_eq!(data, "state");
        }
        other => panic!("unexpected: {:?}", other),
    }
    let err: ServerMessage<String> = ServerMessage::Error {
        code: String::from("import_rejected"),
        message: String::from("weapons not allowed"),
    };
    assert!(matches!(err, ServerMessage::Error { .. }));
}
