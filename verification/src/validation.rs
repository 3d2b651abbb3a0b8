use vstd::prelude::*;
use crate::error::ErrorCode;
use crate::records::{
    BIO_MAX_LEN, MESSAGE_MAX_LEN, POST_CONTENT_MAX_LEN, PROFILE_PICTURE_MAX_LEN, USERNAME_MAX_LEN,
    USERNAME_MIN_LEN,
};

verus! {

/// Admissible username: byte length in [3, 20].
pub open spec fn username_ok(s: Seq<u8>) -> bool {
    USERNAME_MIN_LEN <= s.len() <= USERNAME_MAX_LEN
}

/// Admissible bio: at most 140 bytes.
pub open spec fn bio_ok(s: Seq<u8>) -> bool {
    s.len() <= BIO_MAX_LEN
}

/// Admissible profile-picture reference: at most 100 bytes.
pub open spec fn profile_picture_ok(s: Seq<u8>) -> bool {
    s.len() <= PROFILE_PICTURE_MAX_LEN
}

/// Admissible post content, before canonicalization: at most 280 bytes.
pub open spec fn post_content_ok(s: Seq<u8>) -> bool {
    s.len() <= POST_CONTENT_MAX_LEN
}

/// Admissible message ciphertext: at most 1000 bytes.
pub open spec fn message_content_ok(s: Seq<u8>) -> bool {
    s.len() <= MESSAGE_MAX_LEN
}

/// Pass iff the username's raw byte length is in [3, 20].
pub fn validate_username(s: &Vec<u8>) -> (r: Result<(), ErrorCode>)
    ensures
        r is Ok <==> username_ok(s@),
        r is Err ==> r == Err::<(), ErrorCode>(ErrorCode::UsernameInvalid),
{
    if s.len() < USERNAME_MIN_LEN || s.len() > USERNAME_MAX_LEN {
        Err(ErrorCode::UsernameInvalid)
    } else {
        Ok(())
    }
}

/// Pass iff the bio's raw byte length is at most 140.
pub fn validate_bio(s: &Vec<u8>) -> (r: Result<(), ErrorCode>)
    ensures
        r is Ok <==> bio_ok(s@),
        r is Err ==> r == Err::<(), ErrorCode>(ErrorCode::BioTooLong),
{
    if s.len() > BIO_MAX_LEN {
        Err(ErrorCode::BioTooLong)
    } else {
        Ok(())
    }
}

/// Pass iff the picture reference's raw byte length is at most 100.
pub fn validate_profile_picture(s: &Vec<u8>) -> (r: Result<(), ErrorCode>)
    ensures
        r is Ok <==> profile_picture_ok(s@),
        r is Err ==> r == Err::<(), ErrorCode>(ErrorCode::ProfilePictureTooLong),
{
    if s.len() > PROFILE_PICTURE_MAX_LEN {
        Err(ErrorCode::ProfilePictureTooLong)
    } else {
        Ok(())
    }
}

/// Pass iff the post content's raw byte length is at most 280.
pub fn validate_post_content(s: &Vec<u8>) -> (r: Result<(), ErrorCode>)
    ensures
        r is Ok <==> post_content_ok(s@),
        r is Err ==> r == Err::<(), ErrorCode>(ErrorCode::PostTooLong),
{
    if s.len() > POST_CONTENT_MAX_LEN {
        Err(ErrorCode::PostTooLong)
    } else {
        Ok(())
    }
}

/// Pass iff the ciphertext's raw byte length is at most 1000.
pub fn validate_message_content(s: &Vec<u8>) -> (r: Result<(), ErrorCode>)
    ensures
        r is Ok <==> message_content_ok(s@),
        r is Err ==> r == Err::<(), ErrorCode>(ErrorCode::MessageTooLong),
{
    if s.len() > MESSAGE_MAX_LEN {
        Err(ErrorCode::MessageTooLong)
    } else {
        Ok(())
    }
}

} // verus!
