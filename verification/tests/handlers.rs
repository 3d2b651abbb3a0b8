use openmscp::address::ProfileAddress;
use openmscp::error::ErrorCode;
use openmscp::identity::Identity;
use openmscp::ledger::{
    initialize, memo_program_id, CreatePost, CreateProfile, Initialize, Ledger, MarkMessageRead,
    SendMessage, UpdateProfile,
};
use openmscp::payload::canonical_payload;
use openmscp::records::Instruction;

fn mk_id(b: u8) -> Identity {
    Identity { bytes: vec![b; 32] }
}

fn mk_ledger() -> Ledger {
    Ledger::new(memo_program_id())
}

fn bytes(s: &str) -> Vec<u8> {
    s.as_bytes().to_vec()
}

fn profile_addr(b: u8) -> ProfileAddress {
    ProfileAddress { owner: mk_id(b) }
}

#[test]
fn initialize_is_a_noop_success() {
    assert_eq!(initialize(Initialize {}), Ok(()));
}

#[test]
fn create_profile_accepts_length_bounds() {
    let mut l = mk_ledger();
    let r = l.create_profile(
        CreateProfile { user: mk_id(1) },
        bytes("abc"),
        bytes(""),
        bytes(""),
        10,
    );
    assert_eq!(r, Ok(()));
    let r = l.create_profile(
        CreateProfile { user: mk_id(2) },
        bytes("abcdefghijklmnopqrst"),
        bytes(""),
        bytes(""),
        10,
    );
    assert_eq!(r, Ok(()));
    assert_eq!(l.profiles.len(), 2);
}

#[test]
fn create_profile_rejects_username_just_outside_bounds() {
    let mut l = mk_ledger();
    let r = l.create_profile(CreateProfile { user: mk_id(1) }, bytes("ab"), bytes(""), bytes(""), 10);
    assert_eq!(r, Err(ErrorCode::UsernameInvalid));
    let r = l.create_profile(
        CreateProfile { user: mk_id(1) },
        bytes("abcdefghijklmnopqrstu"),
        bytes(""),
        bytes(""),
        10,
    );
    assert_eq!(r, Err(ErrorCode::UsernameInvalid));
    assert_eq!(l.profiles.len(), 0);
}

#[test]
fn create_profile_rejects_long_bio_and_writes_nothing() {
    let mut l = mk_ledger();
    let r = l.create_profile(
        CreateProfile { user: mk_id(1) },
        bytes("alice"),
        vec![120u8; 141],
        bytes(""),
        10,
    );
    assert_eq!(r, Err(ErrorCode::BioTooLong));
    assert_eq!(l.profiles.len(), 0);
    let r = l.create_profile(
        CreateProfile { user: mk_id(1) },
        bytes("alice"),
        vec![120u8; 140],
        bytes(""),
        10,
    );
    assert_eq!(r, Ok(()));
}

#[test]
fn create_profile_rejects_long_picture_reference() {
    let mut l = mk_ledger();
    let r = l.create_profile(
        CreateProfile { user: mk_id(1) },
        bytes("alice"),
        bytes(""),
        vec![120u8; 101],
        10,
    );
    assert_eq!(r, Err(ErrorCode::ProfilePictureTooLong));
    assert_eq!(l.profiles.len(), 0);
}

#[test]
fn create_profile_twice_fails_with_address_collision() {
    let mut l = mk_ledger();
    let r = l.create_profile(
        CreateProfile { user: mk_id(1) },
        bytes("alice"),
        bytes("hi"),
        bytes("cid123"),
        10,
    );
    assert_eq!(r, Ok(()));
    let r = l.create_profile(
        CreateProfile { user: mk_id(1) },
        bytes("other"),
        bytes("bye"),
        bytes("cid456"),
        20,
    );
    assert_eq!(r, Err(ErrorCode::AddressInUse));
    assert_eq!(l.profiles.len(), 1);
    assert_eq!(l.profiles[0].username, bytes("alice"));
    assert_eq!(l.profiles[0].bio, bytes("hi"));
}

#[test]
fn update_profile_rejects_long_bio_and_writes_nothing() {
    let mut l = mk_ledger();
    l.create_profile(
        CreateProfile { user: mk_id(1) },
        bytes("alice"),
        bytes("hi"),
        bytes("cid123"),
        10,
    )
    .unwrap();
    let r = l.update_profile(
        UpdateProfile { profile: profile_addr(1), user: mk_id(1) },
        Some(vec![120u8; 141]),
        Some(bytes("cid999")),
        20,
    );
    assert_eq!(r, Err(ErrorCode::BioTooLong));
    assert_eq!(l.profiles[0].bio, bytes("hi"));
    assert_eq!(l.profiles[0].profile_picture, bytes("cid123"));
    assert_eq!(l.profiles[0].updated_at, 10);
}

#[test]
fn update_profile_rejects_long_picture_reference() {
    let mut l = mk_ledger();
    l.create_profile(
        CreateProfile { user: mk_id(1) },
        bytes("alice"),
        bytes("hi"),
        bytes("cid123"),
        10,
    )
    .unwrap();
    let r = l.update_profile(
        UpdateProfile { profile: profile_addr(1), user: mk_id(1) },
        None,
        Some(vec![120u8; 101]),
        20,
    );
    assert_eq!(r, Err(ErrorCode::ProfilePictureTooLong));
    assert_eq!(l.profiles[0].profile_picture, bytes("cid123"));
}

#[test]
fn update_profile_by_non_owner_is_unauthorized() {
    let mut l = mk_ledger();
    l.create_profile(
        CreateProfile { user: mk_id(1) },
        bytes("alice"),
        bytes("hi"),
        bytes("cid123"),
        10,
    )
    .unwrap();
    let r = l.update_profile(
        UpdateProfile { profile: profile_addr(1), user: mk_id(2) },
        Some(bytes("hacked")),
        None,
        20,
    );
    assert_eq!(r, Err(ErrorCode::Unauthorized));
    assert_eq!(l.profiles[0].bio, bytes("hi"));
    assert_eq!(l.profiles[0].updated_at, 10);
}

#[test]
fn profile_lifecycle_keeps_absent_avatar_and_advances_clock() {
    let mut l = mk_ledger();
    let r = l.create_profile(
        CreateProfile { user: mk_id(1) },
        bytes("alice"),
        bytes("hi"),
        bytes("cid123"),
        100,
    );
    assert_eq!(r, Ok(()));
    assert_eq!(l.profiles[0].owner, mk_id(1));
    assert_eq!(l.profiles[0].username, bytes("alice"));
    assert_eq!(l.profiles[0].bio, bytes("hi"));
    assert_eq!(l.profiles[0].profile_picture, bytes("cid123"));
    assert_eq!(l.profiles[0].created_at, l.profiles[0].updated_at);
    let r = l.update_profile(
        UpdateProfile { profile: profile_addr(1), user: mk_id(1) },
        Some(bytes("new bio")),
        None,
        200,
    );
    assert_eq!(r, Ok(()));
    assert_eq!(l.profiles[0].bio, bytes("new bio"));
    assert_eq!(l.profiles[0].profile_picture, bytes("cid123"));
    assert_eq!(l.profiles[0].username, bytes("alice"));
    assert!(l.profiles[0].updated_at > l.profiles[0].created_at);
    // A later update of only the avatar leaves the bio alone.
    let r = l.update_profile(
        UpdateProfile { profile: profile_addr(1), user: mk_id(1) },
        None,
        Some(bytes("cid999")),
        300,
    );
    assert_eq!(r, Ok(()));
    assert_eq!(l.profiles[0].bio, bytes("new bio"));
    assert_eq!(l.profiles[0].profile_picture, bytes("cid999"));
    assert_eq!(l.profiles[0].updated_at, 300);
}

fn memo_instruction(payload: Vec<u8>) -> Instruction {
    Instruction { program_id: memo_program_id(), data: payload }
}

fn marker_instruction() -> Instruction {
    Instruction { program_id: mk_id(9), data: vec![] }
}

// The base58 form of the all-zero key is thirty-two '1' characters.
const ZERO_KEY_BASE58: &str = "11111111111111111111111111111111";

#[test]
fn create_post_succeeds_with_exact_sibling_payload() {
    let mut l = mk_ledger();
    let author = Identity { bytes: vec![0u8; 32] };
    let payload = format!(
        "{{\"type\":\"post\",\"author\":\"{}\",\"ts\":1000,\"content\":\"hello\"}}",
        ZERO_KEY_BASE58
    );
    let tx = vec![marker_instruction(), memo_instruction(payload.into_bytes())];
    let r = l.create_post(
        CreatePost { user: author, memo_account: mk_id(7) },
        bytes("hello"),
        &tx,
        0,
        1000,
    );
    assert_eq!(r, Ok(()));
    assert_eq!(l.posts.len(), 1);
    assert_eq!(l.posts[0].author, Identity { bytes: vec![0u8; 32] });
    assert_eq!(l.posts[0].timestamp, 1000);
    assert_eq!(l.posts[0].memo_account, mk_id(7));
}

#[test]
fn create_post_rejects_one_byte_payload_change() {
    let mut l = mk_ledger();
    let author = Identity { bytes: vec![0u8; 32] };
    let payload = format!(
        "{{\"type\":\"post\",\"author\":\"{}\",\"ts\":1000,\"content\":\"hellO\"}}",
        ZERO_KEY_BASE58
    );
    let tx = vec![marker_instruction(), memo_instruction(payload.into_bytes())];
    let r = l.create_post(
        CreatePost { user: author, memo_account: mk_id(7) },
        bytes("hello"),
        &tx,
        0,
        1000,
    );
    assert_eq!(r, Err(ErrorCode::InvalidMemoData));
    assert_eq!(l.posts.len(), 0);
}

#[test]
fn create_post_rejects_displaced_sibling() {
    let mut l = mk_ledger();
    let author = Identity { bytes: vec![0u8; 32] };
    let payload = format!(
        "{{\"type\":\"post\",\"author\":\"{}\",\"ts\":1000,\"content\":\"hello\"}}",
        ZERO_KEY_BASE58
    );
    // The logging call sits two slots later, not immediately next: rejected.
    let tx = vec![
        marker_instruction(),
        marker_instruction(),
        memo_instruction(payload.into_bytes()),
    ];
    let r = l.create_post(
        CreatePost { user: author, memo_account: mk_id(7) },
        bytes("hello"),
        &tx,
        0,
        1000,
    );
    assert_eq!(r, Err(ErrorCode::InvalidMemoInstruction));
    assert_eq!(l.posts.len(), 0);
}

#[test]
fn create_post_rejects_missing_sibling() {
    let mut l = mk_ledger();
    let author = Identity { bytes: vec![0u8; 32] };
    let tx = vec![marker_instruction()];
    let r = l.create_post(
        CreatePost { user: author, memo_account: mk_id(7) },
        bytes("hello"),
        &tx,
        0,
        1000,
    );
    assert_eq!(r, Err(ErrorCode::InvalidMemoInstruction));
}

#[test]
fn create_post_rejects_wrong_target_program() {
    let mut l = mk_ledger();
    let author = Identity { bytes: vec![0u8; 32] };
    let payload = format!(
        "{{\"type\":\"post\",\"author\":\"{}\",\"ts\":1000,\"content\":\"hello\"}}",
        ZERO_KEY_BASE58
    );
    let tx = vec![
        marker_instruction(),
        Instruction { program_id: mk_id(8), data: payload.into_bytes() },
    ];
    let r = l.create_post(
        CreatePost { user: author, memo_account: mk_id(7) },
        bytes("hello"),
        &tx,
        0,
        1000,
    );
    assert_eq!(r, Err(ErrorCode::InvalidMemoInstruction));
}

#[test]
fn create_post_rejects_long_content() {
    let mut l = mk_ledger();
    let author = Identity { bytes: vec![0u8; 32] };
    let content = vec![97u8; 281];
    let tx = vec![marker_instruction(), memo_instruction(vec![])];
    let r = l.create_post(
        CreatePost { user: author, memo_account: mk_id(7) },
        content,
        &tx,
        0,
        1000,
    );
    assert_eq!(r, Err(ErrorCode::PostTooLong));
}

#[test]
fn create_post_same_author_same_second_collides() {
    let mut l = mk_ledger();
    let author = Identity { bytes: vec![0u8; 32] };
    let payload = canonical_payload(&author, 1000, &bytes("hello"));
    let tx = vec![marker_instruction(), memo_instruction(payload)];
    let r = l.create_post(
        CreatePost { user: author, memo_account: mk_id(7) },
        bytes("hello"),
        &tx,
        0,
        1000,
    );
    assert_eq!(r, Ok(()));
    let author = Identity { bytes: vec![0u8; 32] };
    let r = l.create_post(
        CreatePost { user: author, memo_account: mk_id(7) },
        bytes("hello"),
        &tx,
        0,
        1000,
    );
    assert_eq!(r, Err(ErrorCode::AddressInUse));
    assert_eq!(l.posts.len(), 1);
}

#[test]
fn send_message_copies_recipient_from_profile() {
    let mut l = mk_ledger();
    l.create_profile(
        CreateProfile { user: mk_id(3) },
        bytes("carol"),
        bytes(""),
        bytes(""),
        10,
    )
    .unwrap();
    let r = l.send_message(
        SendMessage { sender: mk_id(2), recipient_profile: profile_addr(3) },
        bytes("ciphertext"),
        50,
    );
    assert_eq!(r, Ok(()));
    assert_eq!(l.messages.len(), 1);
    assert_eq!(l.messages[0].sender, mk_id(2));
    assert_eq!(l.messages[0].recipient, mk_id(3));
    assert_eq!(l.messages[0].encrypted_content, bytes("ciphertext"));
    assert_eq!(l.messages[0].timestamp, 50);
    assert!(!l.messages[0].read);
}

#[test]
fn send_message_rejects_long_ciphertext() {
    let mut l = mk_ledger();
    l.create_profile(
        CreateProfile { user: mk_id(3) },
        bytes("carol"),
        bytes(""),
        bytes(""),
        10,
    )
    .unwrap();
    let r = l.send_message(
        SendMessage { sender: mk_id(2), recipient_profile: profile_addr(3) },
        vec![120u8; 1001],
        50,
    );
    assert_eq!(r, Err(ErrorCode::MessageTooLong));
    assert_eq!(l.messages.len(), 0);
    let r = l.send_message(
        SendMessage { sender: mk_id(2), recipient_profile: profile_addr(3) },
        vec![120u8; 1000],
        50,
    );
    assert_eq!(r, Ok(()));
}

#[test]
fn mark_message_read_by_anyone_but_recipient_is_unauthorized() {
    let mut l = mk_ledger();
    l.create_profile(
        CreateProfile { user: mk_id(3) },
        bytes("carol"),
        bytes(""),
        bytes(""),
        10,
    )
    .unwrap();
    l.send_message(
        SendMessage { sender: mk_id(2), recipient_profile: profile_addr(3) },
        bytes("ciphertext"),
        50,
    )
    .unwrap();
    // The sender may not mark their own message read.
    let r = l.mark_message_read(MarkMessageRead { message: 0, user: mk_id(2) });
    assert_eq!(r, Err(ErrorCode::Unauthorized));
    // Neither may a third party.
    let r = l.mark_message_read(MarkMessageRead { message: 0, user: mk_id(4) });
    assert_eq!(r, Err(ErrorCode::Unauthorized));
    assert!(!l.messages[0].read);
}

#[test]
fn mark_message_read_by_recipient_sticks() {
    let mut l = mk_ledger();
    l.create_profile(
        CreateProfile { user: mk_id(3) },
        bytes("carol"),
        bytes(""),
        bytes(""),
        10,
    )
    .unwrap();
    l.send_message(
        SendMessage { sender: mk_id(2), recipient_profile: profile_addr(3) },
        bytes("ciphertext"),
        50,
    )
    .unwrap();
    let r = l.mark_message_read(MarkMessageRead { message: 0, user: mk_id(3) });
    assert_eq!(r, Ok(()));
    assert!(l.messages[0].read);
    // Re-marking is a no-op success.
    let r = l.mark_message_read(MarkMessageRead { message: 0, user: mk_id(3) });
    assert_eq!(r, Ok(()));
    assert!(l.messages[0].read);
    assert_eq!(l.messages[0].encrypted_content, bytes("ciphertext"));
}
