//! Where the data of a user lies on disk, and the form in which an avatar
//! image is stored with the user. Reading and writing are left to the
//! caller.

use crate::ids::{decimal, i32_to_decimal};
use base64::Engine;
use vstd::prelude::*;

verus! {

/// The standard base64 text, with padding, of some bytes.
pub uninterp spec fn base64_standard(data: Seq<u8>) -> Seq<char>;

/// `STANDARD.encode` of `base64`'s general-purpose engine.
#[verifier::external_body]
fn base64_encode(data: &[u8]) -> (r: String)
    ensures
        r@ == base64_standard(data@),
{
    base64::engine::general_purpose::STANDARD.encode(data)
}

/// The directory of a user's data.
pub open spec fn user_directory_of(user_id: i32) -> Seq<char> {
    "../assets/user_data/"@ + decimal(user_id as int)
}

/// The file of the encrypted metadata in a user's directory.
pub open spec fn metadata_file_in(user_dir: Seq<char>) -> Seq<char> {
    user_dir + "/metadata.bin"@
}

/// The directory in which the data of `user_id` is kept.
pub fn user_directory(user_id: i32) -> (r: String)
    ensures
        r@ == user_directory_of(user_id),
{
    let id = i32_to_decimal(user_id);
    "../assets/user_data/".to_owned().concat(id.as_str())
}

/// The file that holds the encrypted metadata of the user whose directory
/// is `user_dir`.
pub fn metadata_path(user_dir: &str) -> (r: String)
    ensures
        r@ == metadata_file_in(user_dir@),
{
    user_dir.to_owned().concat("/metadata.bin")
}

/// The file that holds the encrypted metadata of `user_id`.
pub fn user_metadata_path(user_id: i32) -> (r: String)
    ensures
        r@ == metadata_file_in(user_directory_of(user_id)),
{
    let dir = user_directory(user_id);
    metadata_path(dir.as_str())
}

/// The data URL under which a PNG image is stored as a user's avatar; the
/// empty text where there is no image.
pub fn avatar_data_url(image: Option<&[u8]>) -> (r: String)
    ensures
        r@ == match image {
            Some(bytes) => "data:image/png;base64,"@ + base64_standard(bytes@),
            None => Seq::<char>::empty(),
        },
{
    match image {
        Some(bytes) => {
            let encoded = base64_encode(bytes);
            "data:image/png;base64,".to_owned().concat(encoded.as_str())
        },
        None => String::new(),
    }
}

} // verus!
