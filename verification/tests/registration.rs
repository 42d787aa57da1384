use key_registry::challenge::Challenge;
use key_registry::cipher::ServerKey;
use key_registry::directory::{Directory, InsertOutcome};
use key_registry::key::PublicKey;
use key_registry::registration::{
    conclude, lookup, lookup_reply, register, start, Lookup, Reply, Step,
};
use key_registry::response::Response;

/// Stands in for the client's public-key scheme: the tests need encryption
/// that only the key holder undoes, not a secure one.
fn toy_encrypt(public: &[u8], message: &[u8]) -> Vec<u8> {
    message
        .iter()
        .zip(public.iter().cycle())
        .map(|(m, k)| m ^ k.rotate_left(3))
        .collect()
}

fn toy_decrypt(private: &[u8], ciphertext: &[u8]) -> Vec<u8> {
    toy_encrypt(private, ciphertext)
}

fn key_a() -> PublicKey {
    PublicKey::from_bytes((0u8..64).map(|b| b.wrapping_mul(7).wrapping_add(1)).collect())
}

fn key_b() -> PublicKey {
    PublicKey::from_bytes((0u8..64).map(|b| b.wrapping_mul(11).wrapping_add(2)).collect())
}

fn issue(server: &ServerKey, key: &PublicKey) -> Challenge {
    let pending = Challenge::new_challenge(server, key);
    let encrypted = toy_encrypt(key.as_bytes(), &pending.challenge_nonce);
    pending.complete(encrypted)
}

fn answer(challenge: &Challenge, private: &[u8], name: &str) -> Response {
    Response {
        response: toy_decrypt(private, &challenge.challenge),
        state: challenge.state.clone(),
        nonce: challenge.nonce.clone(),
        name: name.to_string(),
    }
}

#[test]
fn registration_from_challenge_to_lookup() {
    let server = ServerKey::generate();
    let mut directory = Directory::new();

    let challenge = issue(&server, &key_a());
    assert_ne!(challenge.challenge, Vec::<u8>::new());
    let response = answer(&challenge, key_a().as_bytes(), "alice");

    let created = register(&response, &server, &mut directory);
    assert_eq!(created, Reply::Created);
    assert_eq!(created.status(), 201);
    assert_eq!(created.error(), None);

    let again = register(&response, &server, &mut directory);
    assert_eq!(again, Reply::Conflict);
    assert_eq!(again.status(), 409);
    assert_eq!(again.error(), Some("name taken"));

    let wrong = Response {
        response: b"arbitrary wrong bytes".to_vec(),
        state: challenge.state.clone(),
        nonce: challenge.nonce.clone(),
        name: "alice".to_string(),
    };
    let failed = register(&wrong, &server, &mut directory);
    assert_eq!(failed, Reply::BadRequest);
    assert_eq!(failed.status(), 400);
    assert_eq!(failed.error(), Some("failed challenge"));

    let alice = lookup(&directory, "alice");
    assert_eq!(alice, Lookup::Found(key_a().into_bytes()));
    assert_eq!(alice.status(), 200);
    assert_eq!(alice.error(), None);

    let bob = lookup(&directory, "bob");
    assert_eq!(bob, Lookup::NotFound);
    assert_eq!(bob.status(), 404);
    assert_eq!(bob.error(), Some("not found"));
}

#[test]
fn a_failed_challenge_does_not_reach_the_directory() {
    let server = ServerKey::generate();
    let mut directory = Directory::new();
    let challenge = issue(&server, &key_a());
    let response = answer(&challenge, key_b().as_bytes(), "alice");
    assert_eq!(register(&response, &server, &mut directory), Reply::BadRequest);
    assert_eq!(directory.len(), 0);
    assert_eq!(directory.lookup("alice"), None);
    assert_eq!(start(&response, &server), Step::Done(Reply::BadRequest));
}

#[test]
fn a_failed_challenge_under_a_taken_name_is_a_bad_request() {
    let server = ServerKey::generate();
    let mut directory = Directory::new();
    let challenge = issue(&server, &key_a());
    let good = answer(&challenge, key_a().as_bytes(), "alice");
    assert_eq!(register(&good, &server, &mut directory), Reply::Created);
    let bad = answer(&challenge, key_b().as_bytes(), "alice");
    assert_eq!(register(&bad, &server, &mut directory), Reply::BadRequest);
    assert_eq!(directory.lookup("alice"), Some(key_a().into_bytes()));
}

#[test]
fn the_same_name_twice_leaves_one_entry_with_the_first_key() {
    let server = ServerKey::generate();
    let mut directory = Directory::new();
    let first = answer(&issue(&server, &key_a()), key_a().as_bytes(), "alice");
    let second = answer(&issue(&server, &key_b()), key_b().as_bytes(), "alice");
    assert_eq!(first.verify(&server), Some(key_a()));
    assert_eq!(second.verify(&server), Some(key_b()));

    assert_eq!(register(&first, &server, &mut directory), Reply::Created);
    assert_eq!(register(&second, &server, &mut directory), Reply::Conflict);
    assert_eq!(directory.len(), 1);
    assert_eq!(directory.lookup("alice"), Some(key_a().into_bytes()));
}

#[test]
fn the_stored_key_is_the_sealed_one_under_any_name() {
    let server = ServerKey::generate();
    let challenge = issue(&server, &key_a());
    for name in ["alice", "bob", "", "key_b", "x y z"] {
        let mut directory = Directory::new();
        let response = answer(&challenge, key_a().as_bytes(), name);
        assert_eq!(register(&response, &server, &mut directory), Reply::Created);
        assert_eq!(directory.len(), 1);
        assert_eq!(directory.lookup(name), Some(key_a().into_bytes()));
    }
}

#[test]
fn one_proof_can_register_two_names() {
    let server = ServerKey::generate();
    let mut directory = Directory::new();
    let challenge = issue(&server, &key_a());
    let as_alice = answer(&challenge, key_a().as_bytes(), "alice");
    let as_bob = answer(&challenge, key_a().as_bytes(), "bob");
    assert_eq!(register(&as_alice, &server, &mut directory), Reply::Created);
    assert_eq!(register(&as_bob, &server, &mut directory), Reply::Created);
    assert_eq!(directory.lookup("alice"), Some(key_a().into_bytes()));
    assert_eq!(directory.lookup("bob"), Some(key_a().into_bytes()));
    assert_eq!(directory.len(), 2);
}

#[test]
fn a_challenge_does_not_outlive_the_server_key() {
    let old = ServerKey::generate();
    let challenge = issue(&old, &key_a());
    let response = answer(&challenge, key_a().as_bytes(), "alice");
    let new = ServerKey::generate();
    let mut directory = Directory::new();
    assert_eq!(register(&response, &new, &mut directory), Reply::BadRequest);
    assert_eq!(directory.len(), 0);
    assert_eq!(register(&response, &old, &mut directory), Reply::Created);
}

#[test]
fn start_asks_for_the_sealed_key_under_the_given_name() {
    let server = ServerKey::generate();
    let challenge = issue(&server, &key_a());
    let response = answer(&challenge, key_a().as_bytes(), "alice");
    assert_eq!(
        start(&response, &server),
        Step::Insert { name: "alice".to_string(), key: key_a().into_bytes() }
    );
}

#[test]
fn conclude_replies_to_each_outcome() {
    assert_eq!(conclude(InsertOutcome::Inserted), Reply::Created);
    assert_eq!(conclude(InsertOutcome::ConstraintViolation), Reply::Conflict);
    assert_eq!(conclude(InsertOutcome::Failed), Reply::InternalError);
}

#[test]
fn replies_have_their_status_and_message() {
    assert_eq!(Reply::Created.status(), 201);
    assert_eq!(Reply::BadRequest.status(), 400);
    assert_eq!(Reply::Conflict.status(), 409);
    assert_eq!(Reply::InternalError.status(), 500);
    assert_eq!(Reply::Created.error(), None);
    assert_eq!(Reply::BadRequest.error(), Some("failed challenge"));
    assert_eq!(Reply::Conflict.error(), Some("name taken"));
    assert_eq!(Reply::InternalError.error(), Some("could not insert"));
}

#[test]
fn lookup_reply_passes_on_what_the_directory_found() {
    assert_eq!(lookup_reply(Some(vec![1, 2, 3])), Lookup::Found(vec![1, 2, 3]));
    assert_eq!(lookup_reply(Some(vec![])), Lookup::Found(vec![]));
    assert_eq!(lookup_reply(None), Lookup::NotFound);
    assert_eq!(Lookup::Found(vec![1]).status(), 200);
    assert_eq!(Lookup::NotFound.status(), 404);
    assert_eq!(Lookup::Found(vec![1]).error(), None);
    assert_eq!(Lookup::NotFound.error(), Some("not found"));
}
