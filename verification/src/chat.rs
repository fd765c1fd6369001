//! Club chat: who may read it, and how message contents pass through the
//! cipher on their way to and from storage.

use crate::cipher::{
    bytes_of_hex, decrypt_string, encrypt_string, is_encryption_of,
    lemma_decrypt_string_inverts_encrypt_string, text_decryption, KEY_LEN, MAX_PLAINTEXT_LEN,
};
use crate::encoding::{hex_encoding, is_hex};
use crate::error::CryptoError;
use vstd::prelude::*;
use vstd::utf8::encode_utf8;

verus! {

/// The part a member plays in a club.
#[derive(Debug, Clone, Copy, PartialEq, Eq, Structural)]
pub enum UserRole {
    Owner,
    Mod,
    Member,
}

/// Whether a membership is in force.
#[derive(Debug, Clone, Copy, PartialEq, Eq, Structural)]
pub enum MemberStatus {
    Active,
    Banned,
}

/// A membership together with what is shown of the user.
#[derive(Debug)]
pub struct ClubMemberWithUser {
    pub club_id: i32,
    pub user_id: i32,
    pub display_name: String,
    pub avatar_url: Option<String>,
    pub role: UserRole,
    pub status: MemberStatus,
}

/// A message as the client sends it.
#[derive(Debug)]
pub struct SendMessageInput {
    pub club_id: i32,
    /// The plain text.
    pub content: String,
}

/// A message of a club. In storage `content` is an encrypted blob in
/// hexadecimal; towards the client it is plain text.
#[derive(Debug)]
pub struct ClubMessage {
    pub id: i32,
    pub club_id: i32,
    pub user_id: Option<i32>,
    pub content: String,
    /// When it was sent, in seconds since the Unix epoch.
    pub created_at: Option<i64>,
    pub user_display_name: Option<String>,
    pub user_avatar_url: Option<String>,
}

/// Why a chat was not shown.
#[derive(Clone, Copy, Debug, PartialEq, Eq, Structural)]
pub enum ChatError {
    /// The reader is no active member of the club.
    NotAMember,
}

impl ChatError {
    /// The message shown to the user.
    pub fn message(&self) -> (r: &'static str)
        ensures
            r@ == "Je bent geen lid van deze club"@,
    {
        "Je bent geen lid van deze club"
    }
}

/// What stands in for a message that could not be decrypted.
pub open spec fn unreadable_notice() -> Seq<char> {
    "\u{26a0}\u{fe0f} Bericht kon niet ontsleuteld worden"@
}

/// What the client is shown for a stored content: the decrypted text, or
/// the notice where the blob does not decrypt.
pub open spec fn shown_content(stored: Seq<char>, key_hex: Seq<char>) -> Seq<char> {
    match text_decryption(stored, key_hex) {
        Ok(text) => text,
        Err(_) => unreadable_notice(),
    }
}

/// `shown` is the stored message `stored` with its content made readable
/// and nothing else changed.
pub open spec fn is_shown_form(shown: ClubMessage, stored: ClubMessage, key_hex: Seq<char>) -> bool {
    &&& shown.id == stored.id
    &&& shown.club_id == stored.club_id
    &&& shown.user_id == stored.user_id
    &&& shown.created_at == stored.created_at
    &&& shown.user_display_name == stored.user_display_name
    &&& shown.user_avatar_url == stored.user_avatar_url
    &&& shown.content@ == shown_content(stored.content@, key_hex)
}

/// `member` is an active membership of `user_id` in `club_id`.
pub open spec fn is_active_membership(member: ClubMemberWithUser, club_id: i32, user_id: i32)
    -> bool {
    member.club_id == club_id && member.user_id == user_id && member.status
        == MemberStatus::Active
}

/// Whether the membership found for a reader lets them read the chat of
/// `club_id`: it must be theirs, of that club, and active.
pub fn may_read_messages(membership: Option<&ClubMemberWithUser>, club_id: i32, user_id: i32) -> (r:
    Result<(), ChatError>)
    ensures
        r is Ok <==> (membership matches Some(m) && is_active_membership(*m, club_id, user_id)),
        r is Err ==> r == Err::<(), ChatError>(ChatError::NotAMember),
{
    match membership {
        Some(m) => {
            if m.club_id == club_id && m.user_id == user_id && m.status == MemberStatus::Active {
                Ok(())
            } else {
                Err(ChatError::NotAMember)
            }
        },
        None => Err(ChatError::NotAMember),
    }
}

/// Encrypts the content of a message for storage: the result is the
/// hexadecimal text of a blob that holds the content's bytes encrypted under
/// the key, and it decrypts to the content again. A key that is no
/// hexadecimal text or not 32 bytes long is refused as such; with a good key
/// the call fails only for want of randomness or on a content of more than
/// 2^36 bytes.
pub fn encrypt_message(input: &SendMessageInput, key_hex: &str) -> (r: Result<String, CryptoError>)
    ensures
        match r {
            Ok(stored) => {
                &&& is_hex(encode_utf8(key_hex@))
                &&& bytes_of_hex(key_hex@).len() == KEY_LEN
                &&& stored@ == hex_encoding(bytes_of_hex(stored@))
                &&& is_encryption_of(
                    bytes_of_hex(stored@),
                    bytes_of_hex(key_hex@),
                    encode_utf8(input.content@),
                )
                &&& text_decryption(stored@, key_hex@) == Ok::<Seq<char>, CryptoError>(
                    input.content@,
                )
            },
            Err(e) => {
                ||| e == CryptoError::InvalidKeyHex && !is_hex(encode_utf8(key_hex@))
                ||| e == CryptoError::InvalidKey && is_hex(encode_utf8(key_hex@)) && bytes_of_hex(
                    key_hex@,
                ).len() != KEY_LEN
                ||| e == CryptoError::RandomSource && is_hex(encode_utf8(key_hex@)) && bytes_of_hex(
                    key_hex@,
                ).len() == KEY_LEN
                ||| e == CryptoError::PlaintextTooLong && is_hex(encode_utf8(key_hex@))
                    && bytes_of_hex(key_hex@).len() == KEY_LEN && encode_utf8(input.content@).len()
                    > MAX_PLAINTEXT_LEN
            },
        },
{
    match encrypt_string(input.content.as_str(), key_hex) {
        Ok(stored) => {
            proof {
                lemma_decrypt_string_inverts_encrypt_string(stored@, key_hex@, input.content@);
            }
            Ok(stored)
        },
        Err(e) => Err(e),
    }
}

/// Makes the content of one stored message readable. A blob that does not
/// decrypt is no error: the notice takes its place.
pub fn show_message(stored: ClubMessage, key_hex: &str) -> (shown: ClubMessage)
    ensures
        is_shown_form(shown, stored, key_hex@),
{
    let content = match decrypt_string(stored.content.as_str(), key_hex) {
        Ok(text) => text,
        Err(_) => "\u{26a0}\u{fe0f} Bericht kon niet ontsleuteld worden".to_owned(),
    };
    ClubMessage {
        id: stored.id,
        club_id: stored.club_id,
        user_id: stored.user_id,
        content,
        created_at: stored.created_at,
        user_display_name: stored.user_display_name,
        user_avatar_url: stored.user_avatar_url,
    }
}

/// Makes a batch of stored messages readable, in order. One message that
/// does not decrypt does not fail the batch.
pub fn show_messages(stored: Vec<ClubMessage>, key_hex: &str) -> (shown: Vec<ClubMessage>)
    ensures
        shown@.len() == stored@.len(),
        forall|i: int|
            0 <= i < stored@.len() ==> is_shown_form(#[trigger] shown@[i], stored@[i], key_hex@),
{
    let mut shown: Vec<ClubMessage> = Vec::new();
    for message in it: stored
        invariant
            shown@.len() == it.index(),
            forall|i: int|
                0 <= i < it.index() ==> is_shown_form(#[trigger] shown@[i], it.seq()[i], key_hex@),
    {
        shown.push(show_message(message, key_hex));
    }
    shown
}

} // verus!
