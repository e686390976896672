//! Planning of file and avatar uploads.
//!
//! The verified part decides what to do with each incoming file — skip
//! it, reuse an earlier upload found by checksum, or store it under a
//! fresh object name — and computes the checksums and names; the file
//! system and the store run in the surrounding binary.

use vstd::prelude::*;
use vstd::utf8::encode_utf8;
use crate::codec::{lossy_of, lossy_string};
use crate::digest::{hex_encode, md5_bytes, md5_of, sha1_bytes, sha1_of, spec_hex};
use crate::entity::AttachRecord;
use crate::envelope::{error_envelope, success_envelope, Envelope};
use crate::strutil::{get_extension, spec_dec_bytes, spec_ext, u32_dec_bytes};

verus! {

/// The reply payload for one stored or reused file.
pub struct FileData {
    pub id: u32,
    pub url: String,
}

/// The reply payload of the avatar endpoint.
pub struct AvatarData {
    pub url: String,
}

/// The de-duplication checksum of an upload: the bytes read lossily as
/// text, digested, and rendered in hex.
pub open spec fn spec_checksum(data: Seq<u8>) -> Seq<char> {
    spec_hex(md5_of(encode_utf8(lossy_of(data))))
}

/// The checksum a stored upload is looked up by.
pub fn file_checksum(data: &[u8]) -> (r: String)
    ensures
        r@ == spec_checksum(data@),
{
    let text = lossy_string(data);
    let digest = md5_bytes(text.as_str().as_bytes());
    hex_encode(digest.as_slice())
}

/// The object name a fresh upload is stored under.
pub open spec fn spec_object_name(name: Seq<char>, ext: Seq<char>) -> Seq<char> {
    name + "."@ + ext
}

/// Joins a fresh name and an extension into an object name.
pub fn object_name(name: &str, ext: &str) -> (r: String)
    ensures
        r@ == spec_object_name(name@, ext@),
{
    String::from_str(name).concat(".").concat(ext)
}

/// The reply when reading, persisting or recording an upload failed —
/// the endpoint's one fixed failure text.
pub fn upload_failed() -> (r: Envelope)
    ensures
        !r.success,
        r.message@ == "上传失败"@,
{
    error_envelope("上传失败")
}

/// The reply once every incoming file is stored or reused.
pub fn upload_done() -> (r: Envelope)
    ensures
        r.success,
        r.message@ == "上传成功"@,
{
    success_envelope("上传成功")
}

/// What to do with one incoming file.
pub enum UploadPlan {
    /// No usable file name came with it: pass it over.
    Skip,
    /// An earlier upload has the same checksum: answer with its row.
    Reuse { id: u32, url: String },
    /// Store it under this object name.
    Store { target: String, ext: String },
}

/// Plans one incoming file: nameless files are skipped, a row already
/// stored under the same checksum is reused, and anything else is
/// stored under the fresh name with the file's own extension.
pub fn plan_upload(file_name: &str, fresh_name: &str, existing: Option<&AttachRecord>) -> (r:
    UploadPlan)
    ensures
        file_name@.len() == 0 ==> r is Skip,
        file_name@.len() != 0 && (existing matches Some(e) && e.id > 0) ==> (r matches
        UploadPlan::Reuse { id, url } && id == existing->0.id && url@ == existing->0.path@),
        file_name@.len() != 0 && !(existing matches Some(e) && e.id > 0) ==> (r matches
        UploadPlan::Store { target, ext } && ext@ == spec_ext(file_name@) && target@
            == spec_object_name(fresh_name@, spec_ext(file_name@))),
{
    if file_name.is_empty() {
        return UploadPlan::Skip;
    }
    match existing {
        Some(e) => {
            if e.id > 0 {
                return UploadPlan::Reuse { id: e.id, url: e.path.clone() };
            }
        },
        None => {},
    }
    let ext = get_extension(file_name);
    let target = object_name(fresh_name, ext.as_str());
    UploadPlan::Store { target, ext }
}

/// The object name an avatar is stored under: a digest of the owner's
/// identifier, inside the avatar directory, with the file's extension.
pub open spec fn spec_avatar_object(login_id: u32, ext: Seq<char>) -> Seq<char> {
    "avatar/"@ + spec_hex(sha1_of(spec_dec_bytes(login_id as int))) + "."@ + ext
}

/// Plans an avatar upload: a nameless file is refused with the fixed
/// upload-failure message, anything else is stored under the owner's
/// digest name.
pub fn avatar(file_name: &str, login_id: u32) -> (r: Result<String, Envelope>)
    ensures
        file_name@.len() == 0 ==> (r matches Err(e) && !e.success && e.message@ == "上传失败"@),
        file_name@.len() != 0 ==> (r matches Ok(target) && target@ == spec_avatar_object(
            login_id,
            spec_ext(file_name@),
        )),
{
    if file_name.is_empty() {
        return Err(upload_failed());
    }
    let dec = u32_dec_bytes(login_id);
    let digest = sha1_bytes(dec.as_slice());
    let name = hex_encode(digest.as_slice());
    let ext = get_extension(file_name);
    let target = String::from_str("avatar/").concat(name.as_str()).concat(".").concat(
        ext.as_str(),
    );
    assert(target@ =~= spec_avatar_object(login_id, spec_ext(file_name@)));
    Ok(target)
}

} // verus!
