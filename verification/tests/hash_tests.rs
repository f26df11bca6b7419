use messenger_core::hash::{digest_text, hash_phone, hash_phone_sha256};
use messenger_core::ids::Uuid;
use messenger_core::migration::{
    migration_due, migration_step, rehash_phone_numbers, MigrationAction, UserRow,
};
use messenger_core::store::StoreCommand;

#[test]
fn plain_hash_is_sha256_in_hex() {
    assert_eq!(
        hash_phone_sha256("abc"),
        "ba7816bf8f01cfea414140de5dae2223b00361a396177a9cb410ff61f20015ad"
    );
}

#[test]
fn keyed_hash_is_hmac_in_hex() {
    assert_eq!(
        hash_phone("what do ya want for nothing?", b"Jefe"),
        "5bdcc146bf60754e6a042426089575c75a003f089d2739839dec58b964ec3843"
    );
}

#[test]
fn keyed_hash_depends_on_phone_and_secret() {
    let a = hash_phone("+573001234567", b"one");
    assert_eq!(a, hash_phone("+573001234567", b"one"));
    assert_ne!(a, hash_phone("+573001234568", b"one"));
    assert_ne!(a, hash_phone("+573001234567", b"two"));
    assert_ne!(a, hash_phone_sha256("+573001234567"));
    assert_eq!(a.len(), 64);
    assert!(a.chars().all(|c| c.is_ascii_digit() || ('a'..='f').contains(&c)));
}

#[test]
fn any_secret_will_do() {
    assert_eq!(hash_phone("1", b"").len(), 64);
    assert_eq!(hash_phone("1", &[7u8; 200]).len(), 64);
}

#[test]
fn digests_are_written_byte_by_byte() {
    let mut digest = vec![0u8; 32];
    digest[0] = 0x0f;
    digest[31] = 0xa9;
    let text = digest_text(&digest);
    assert!(text.starts_with("0f00"));
    assert!(text.ends_with("00a9"));
}

fn row(bits: u128, phone: &str, phone_hash: Option<String>) -> UserRow {
    UserRow { id: Uuid { bits }, phone: phone.to_string(), phone_hash }
}

#[test]
fn migration_computes_the_keyed_hash_of_each_row() {
    let rows = vec![
        row(1, "111", Some(hash_phone_sha256("111"))),
        row(2, "222", None),
    ];
    let changes = rehash_phone_numbers(rows, "secret");
    assert_eq!(changes.len(), 2);
    assert_eq!(changes[0].id, Uuid { bits: 1 });
    assert_eq!(changes[0].old_hash, hash_phone_sha256("111"));
    assert_eq!(changes[0].new_hash, hash_phone("111", b"secret"));
    assert_eq!(changes[1].id, Uuid { bits: 2 });
    assert_eq!(changes[1].old_hash, "");
    assert_eq!(changes[1].new_hash, hash_phone("222", b"secret"));
}

#[test]
fn migration_of_no_rows_changes_nothing() {
    assert!(rehash_phone_numbers(vec![], "secret").is_empty());
}

#[test]
fn migration_replaces_the_hash_in_the_set() {
    let changes = rehash_phone_numbers(vec![row(1, "111", Some("old".to_string()))], "s");
    let (remove, insert) = changes[0].commands();
    assert_eq!(
        remove,
        StoreCommand::SetRemove { set: "phone_hashes".to_string(), member: "old".to_string() }
    );
    assert_eq!(
        insert,
        StoreCommand::SetAdd {
            set: "phone_hashes".to_string(),
            member: hash_phone("111", b"s")
        }
    );
}

#[test]
fn a_migrated_user_is_not_migrated_again() {
    let phone = "+573001234567";
    let changes = rehash_phone_numbers(vec![row(9, phone, Some(hash_phone_sha256(phone)))], "s");
    assert_eq!(changes[0].old_hash, hash_phone_sha256(phone));
    assert_ne!(changes[0].new_hash, hash_phone_sha256(phone));
}

#[test]
fn migration_needs_a_secret() {
    assert!(!migration_due(""));
    assert!(migration_due("s"));
}

#[test]
fn migration_goes_row_by_row_and_stops_at_a_failure() {
    let rows = vec![row(1, "111", Some("a".to_string())), row(2, "222", Some("b".to_string()))];
    let changes = rehash_phone_numbers(rows, "s");
    assert_eq!(
        migration_step(&changes, 0, None),
        MigrationAction::Update { id: Uuid { bits: 1 }, new_hash: hash_phone("111", b"s") }
    );
    let (remove, insert) = changes[0].commands();
    assert_eq!(
        migration_step(&changes, 0, Some(true)),
        MigrationAction::Replace { remove, insert, next: 1 }
    );
    assert_eq!(
        migration_step(&changes, 1, None),
        MigrationAction::Update { id: Uuid { bits: 2 }, new_hash: hash_phone("222", b"s") }
    );
    assert_eq!(migration_step(&changes, 1, Some(false)), MigrationAction::Stop);
    assert_eq!(migration_step(&changes, 2, None), MigrationAction::Complete);
    assert_eq!(migration_step(&vec![], 0, None), MigrationAction::Complete);
}
