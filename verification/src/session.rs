//! Reading the server's answer to the request for an upload session.

use vstd::prelude::*;
use crate::error::TransferError;
use crate::json::{
    json_document, json_member, json_text, member, member_bool, member_items, member_string,
    member_u64, parse, spec_member_bool, spec_member_items, spec_member_string, spec_member_u64,
    text_of,
};
use crate::text::spec_holds_text;
use crate::upload::{CreateReply, PartTarget};

verus! {

/// A text that may be absent, taken as empty where it is.
pub open spec fn spec_text_or_empty(text: Option<Seq<char>>) -> Seq<char> {
    match text {
        Some(t) => t,
        None => Seq::empty(),
    }
}

/// Whether `target` is what the item `item` of `part_info_list` says: its
/// members `upload_url`, a string, and `part_number`, an integer.
pub open spec fn spec_is_part_target(item: serde_json::Value, target: PartTarget) -> bool {
    &&& spec_holds_text(target.upload_url, spec_member_string(item, "upload_url"@))
    &&& target.part_number == spec_member_u64(item, "part_number"@)
}

/// Whether `reply` is what the document says. The member `code`, of whatever
/// form, is the error code, kept as the JSON text it was written as. The
/// members `file_id` and `upload_id` are strings, taken as empty where they
/// are missing. The upload is rapid only where `rapid_upload` is the boolean
/// true. The items of `part_info_list` are the upload targets, none where
/// the member is missing or no array.
pub open spec fn spec_is_create_reply(document: serde_json::Value, reply: CreateReply) -> bool {
    &&& match json_member(document, "code"@) {
        Some(code) => reply.code matches Some(c) && c@ == json_text(code),
        None => reply.code is None,
    }
    &&& reply.file_id@ == spec_text_or_empty(spec_member_string(document, "file_id"@))
    &&& reply.upload_id@ == spec_text_or_empty(spec_member_string(document, "upload_id"@))
    &&& reply.rapid_upload == (spec_member_bool(document, "rapid_upload"@) == Some(true))
    &&& match spec_member_items(document, "part_info_list"@) {
        Some(items) => {
            &&& reply.parts@.len() == items.len()
            &&& forall|k: int|
                0 <= k < items.len() ==> spec_is_part_target(items[k], #[trigger] reply.parts@[k])
        },
        None => reply.parts@.len() == 0,
    }
}

/// A text that may be absent, taken as empty where it is.
pub fn text_or_empty(text: Option<String>) -> (r: String)
    ensures
        text matches Some(t) ==> r == t,
        text is None ==> r@ == Seq::<char>::empty(),
{
    match text {
        Some(t) => t,
        None => String::new(),
    }
}

/// Reads one item of `part_info_list`.
fn read_part_target(item: &serde_json::Value) -> (target: PartTarget)
    ensures
        spec_is_part_target(*item, target),
{
    PartTarget {
        upload_url: member_string(item, "upload_url"),
        part_number: member_u64(item, "part_number"),
    }
}

/// Reads the server's answer to the session request. An answer that is no
/// JSON document is an error; any document gives a reply, which the upload
/// engine then judges.
pub fn read_create_reply(body: &str) -> (r: Result<CreateReply, TransferError>)
    ensures
        match json_document(body@) {
            Some(document) => r matches Ok(reply) && spec_is_create_reply(document, reply),
            None => r == Err::<CreateReply, TransferError>(TransferError::MalformedSessionReply),
        },
{
    match parse(body) {
        Err(_) => Err(TransferError::MalformedSessionReply),
        Ok(document) => {
            let code = match member(&document, "code") {
                Some(code) => Some(text_of(code)),
                None => None,
            };
            let file_id = text_or_empty(member_string(&document, "file_id"));
            let upload_id = text_or_empty(member_string(&document, "upload_id"));
            let rapid_upload = match member_bool(&document, "rapid_upload") {
                Some(flag) => flag,
                None => false,
            };
            let mut parts: Vec<PartTarget> = Vec::new();
            match member_items(&document, "part_info_list") {
                None => {},
                Some(items) => {
                    let mut k: usize = 0;
                    while k < items.len()
                        invariant
                            k <= items@.len(),
                            parts@.len() == k,
                            forall|j: int|
                                0 <= j < k ==> spec_is_part_target(
                                    items@[j],
                                    #[trigger] parts@[j],
                                ),
                        decreases items@.len() - k,
                    {
                        parts.push(read_part_target(&items[k]));
                        k = k + 1;
                    }
                },
            }
            Ok(CreateReply { code, file_id, upload_id, rapid_upload, parts })
        },
    }
}

/// What the request for an upload session carries.
#[derive(Clone, Debug, PartialEq, Eq)]
pub struct CreateRequest {
    pub drive_id: String,
    pub parent_file_id: String,
    pub name: String,
    /// What is created: a file.
    pub kind: String,
    /// What the server does where the name is taken: it picks another.
    pub check_name_mode: String,
    /// The numbers of the declared parts: 1, 2, and so on.
    pub part_numbers: Vec<u32>,
    /// Length of the file.
    pub size: u64,
    /// The hash by which the server may know the content.
    pub content_hash_name: String,
    pub proof_version: String,
}

/// What the finalize call carries.
#[derive(Clone, Debug, PartialEq, Eq)]
pub struct CompleteRequest {
    pub drive_id: String,
    pub file_id: String,
    pub upload_id: String,
}

/// The numbers 1 to `count`, in order.
pub fn part_numbers(count: u32) -> (numbers: Vec<u32>)
    ensures
        numbers@.len() == count,
        forall|k: int| 0 <= k < count ==> numbers@[k] == k + 1,
{
    let mut numbers: Vec<u32> = Vec::new();
    let mut k: u32 = 0;
    while k < count
        invariant
            k <= count,
            numbers@.len() == k,
            forall|j: int| 0 <= j < k ==> numbers@[j] == j + 1,
        decreases count - k,
    {
        numbers.push(k + 1);
        k = k + 1;
    }
    numbers
}

/// The request for an upload session for a file named `name`, of `size`
/// bytes, that is sent in `declared_parts` parts. The server renames the file
/// where the name is taken, and is told that the content can be known by its
/// SHA-1.
pub fn create_request(
    drive_id: &str,
    parent_file_id: &str,
    name: &str,
    size: u64,
    declared_parts: u32,
) -> (request: CreateRequest)
    ensures
        request.drive_id@ == drive_id@,
        request.parent_file_id@ == parent_file_id@,
        request.name@ == name@,
        request.kind@ == "file"@,
        request.check_name_mode@ == "auto_rename"@,
        request.part_numbers@.len() == declared_parts,
        forall|k: int| 0 <= k < declared_parts ==> request.part_numbers@[k] == k + 1,
        request.size == size,
        request.content_hash_name@ == "sha1"@,
        request.proof_version@ == "v1"@,
{
    CreateRequest {
        drive_id: drive_id.to_owned(),
        parent_file_id: parent_file_id.to_owned(),
        name: name.to_owned(),
        kind: "file".to_owned(),
        check_name_mode: "auto_rename".to_owned(),
        part_numbers: part_numbers(declared_parts),
        size,
        content_hash_name: "sha1".to_owned(),
        proof_version: "v1".to_owned(),
    }
}

/// The finalize call for a session.
pub fn complete_request(drive_id: &str, session: &crate::upload::TransferSession) -> (request:
    CompleteRequest)
    ensures
        request.drive_id@ == drive_id@,
        request.file_id == session.file_id,
        request.upload_id == session.session_id,
{
    CompleteRequest {
        drive_id: drive_id.to_owned(),
        file_id: session.file_id.clone(),
        upload_id: session.session_id.clone(),
    }
}

} // verus!
