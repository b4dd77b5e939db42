use vstd::prelude::*;
use vstd::string::StringExecFns;

use crate::method::Method;

verus! {

/// The media type that the file name of a path suggests, as mime_guess
/// reports it.
pub uninterp spec fn mime_of(path: Seq<char>) -> Seq<char>;

/// Relies on mime_guess::from_path followed by MimeGuess::first_or_octet_stream:
/// the first media type known for the path's extension, or
/// `application/octet-stream` where none is known. The guess reads the path's
/// text only, never the disk, so it is a function of the path.
#[verifier::external_body]
fn guess_mime(path: &str) -> (r: String)
    ensures
        r@ == mime_of(path@),
{
    mime_guess::from_path(path).first_or_octet_stream().to_string()
}

/// The text of a boolean flag.
pub open spec fn spec_flag_text(b: bool) -> Seq<char> {
    if b {
        "true"@
    } else {
        "false"@
    }
}

/// The text of a boolean flag: `true` or `false`.
pub fn flag_text(b: bool) -> (r: String)
    ensures
        r@ == spec_flag_text(b),
{
    if b {
        String::from_str("true")
    } else {
        String::from_str("false")
    }
}

/// The file part of a multipart form: the form field it fills, the file name
/// and media type announced for it, and its bytes.
pub struct FilePart {
    pub field: String,
    pub file_name: String,
    pub mime: String,
    pub content: Vec<u8>,
}

/// A multipart upload ready to be sent: the verb, the target, the headers, the
/// file part and the text fields of the form, in order.
pub struct UploadRequest {
    pub method: Method,
    pub url: String,
    pub headers: Vec<(String, String)>,
    pub file: FilePart,
    pub text_fields: Vec<(String, String)>,
}

/// The upload that sends `content` to `url` under `file_name`, labelled with
/// `mime`, authenticated by `api_key` and carrying the `update` flag.
pub open spec fn is_upload_of(
    req: UploadRequest,
    url: Seq<char>,
    file_name: Seq<char>,
    api_key: Seq<char>,
    update: bool,
    content: Seq<u8>,
    mime: Seq<char>,
) -> bool {
    &&& req.method == Method::Post
    &&& req.url@ == url
    &&& req.headers@.len() == 1
    &&& req.headers@[0].0@ == "X-API-Key"@
    &&& req.headers@[0].1@ == api_key
    &&& req.file.field@ == "file"@
    &&& req.file.file_name@ == file_name
    &&& req.file.mime@ == mime
    &&& req.file.content@ == content
    &&& req.text_fields@.len() == 1
    &&& req.text_fields@[0].0@ == "update"@
    &&& req.text_fields@[0].1@ == spec_flag_text(update)
}

/// Builds the upload from the outcome of reading the file and from its media
/// type. Where the file could not be read, that error is returned and nothing
/// is built.
pub fn upload_request(
    url: String,
    file_name: String,
    api_key: String,
    update: bool,
    content: Result<Vec<u8>, String>,
    mime: String,
) -> (r: Result<UploadRequest, String>)
    ensures
        content matches Err(e) ==> r == Err::<UploadRequest, String>(e),
        content matches Ok(bytes) ==> (r matches Ok(req) && is_upload_of(
            req,
            url@,
            file_name@,
            api_key@,
            update,
            bytes@,
            mime@,
        )),
{
    let content = match content {
        Ok(bytes) => bytes,
        Err(e) => {
            return Err(e);
        },
    };
    let mut headers: Vec<(String, String)> = Vec::new();
    headers.push((String::from_str("X-API-Key"), api_key));
    let mut text_fields: Vec<(String, String)> = Vec::new();
    text_fields.push((String::from_str("update"), flag_text(update)));
    let file = FilePart { field: String::from_str("file"), file_name, mime, content };
    Ok(UploadRequest { method: Method::Post, url, headers, file, text_fields })
}

/// Builds the upload of the file at `file_path`, given the outcome of reading
/// it. The media type is guessed from the path's extension. Where the file
/// could not be read, that error is returned and nothing is built.
pub fn prepare_upload(
    url: String,
    file_path: &str,
    file_name: String,
    api_key: String,
    update: bool,
    content: Result<Vec<u8>, String>,
) -> (r: Result<UploadRequest, String>)
    ensures
        content matches Err(e) ==> r == Err::<UploadRequest, String>(e),
        content matches Ok(bytes) ==> (r matches Ok(req) && is_upload_of(
            req,
            url@,
            file_name@,
            api_key@,
            update,
            bytes@,
            mime_of(file_path@),
        )),
{
    if let Err(e) = content {
        return Err(e);
    }
    let mime = guess_mime(file_path);
    upload_request(url, file_name, api_key, update, content, mime)
}

} // verus!
