//! Checks on uploaded multipart files, and the settling of the blocking
//! codec tasks that the handlers run.

use vstd::prelude::*;
use vstd::string::*;

use crate::errors::ApiError;

verus! {

/// The first field of a multipart upload: its file name, if it gave one,
/// and its bytes.
#[derive(Debug)]
pub struct UploadField {
    pub file_name: Option<String>,
    pub data: Vec<u8>,
}

/// A file restored from a WAV: its original name and its bytes.
#[derive(Debug)]
pub struct Decoded {
    pub filename: String,
    pub data: Vec<u8>,
}

/// The name an uploaded file goes by: the name it gave, else "upload".
pub open spec fn upload_name(file_name: Option<String>) -> Seq<char> {
    match file_name {
        Some(n) => n@,
        None => "upload"@,
    }
}

/// Accepts the first multipart field of an upload: there must be one, and
/// it must not be empty.
pub fn accept_upload(field: Option<UploadField>) -> (res: Result<(String, Vec<u8>), ApiError>)
    ensures
        field is None ==> (res matches Err(e) && e is BadRequest && e.message_text()
            == "no file field found in multipart body"@),
        field is Some && field->0.data@.len() == 0 ==> (res matches Err(e) && e is BadRequest
            && e.message_text() == "file field is empty"@),
        field is Some && field->0.data@.len() > 0 ==> (res matches Ok((name, data)) && name@
            == upload_name(field->0.file_name) && data@ == field->0.data@),
        field is Some && field->0.data@.len() > 0 && field->0.file_name is Some ==> (res matches Ok(
            (name, _),
        ) && name@ == field->0.file_name->0@),
        field is Some && field->0.data@.len() > 0 && field->0.file_name is None ==> (res matches Ok(
            (name, _),
        ) && name@ == "upload"@),
{
    match field {
        None => Err(ApiError::BadRequest("no file field found in multipart body".to_owned())),
        Some(f) => {
            let name = match f.file_name {
                Some(n) => n,
                None => "upload".to_owned(),
            };
            if f.data.len() == 0 {
                Err(ApiError::BadRequest("file field is empty".to_owned()))
            } else {
                Ok((name, f.data))
            }
        },
    }
}

/// The answer to a multipart stream that could not be read.
pub fn multipart_error(detail: &str) -> (e: ApiError)
    ensures
        e is BadRequest,
        e.message_text() == "multipart error: "@ + detail@,
{
    ApiError::BadRequest("multipart error: ".to_owned().concat(detail))
}

/// The answer to a field whose bytes could not be read.
pub fn field_read_error(detail: &str) -> (e: ApiError)
    ensures
        e is BadRequest,
        e.message_text() == "could not read field bytes: "@ + detail@,
{
    ApiError::BadRequest("could not read field bytes: ".to_owned().concat(detail))
}

/// The answer to a blocking task that did not finish (it panicked or was
/// cancelled); `detail` is the join error's text.
pub fn task_failure(detail: &str) -> (e: ApiError)
    ensures
        e is Internal,
        e.message_text() == "task panic: "@ + detail@,
{
    ApiError::Internal("task panic: ".to_owned().concat(detail))
}

/// Settles an encoding task: a task that did not finish is an internal
/// error, a codec error is an encoding failure, else the WAV bytes.
pub fn settle_encoding(outcome: Result<Result<Vec<u8>, String>, String>) -> (res: Result<
    Vec<u8>,
    ApiError,
>)
    ensures
        outcome matches Err(j) ==> (res matches Err(e) && e is Internal && e.message_text()
            == "task panic: "@ + j@),
        outcome matches Ok(Err(m)) ==> (res matches Err(e) && e is EncodeFailed && e.message_text()
            == m@),
        outcome matches Ok(Ok(wav)) ==> res == Ok::<Vec<u8>, ApiError>(wav),
{
    match outcome {
        Err(j) => Err(task_failure(j.as_str())),
        Ok(Err(m)) => Err(ApiError::EncodeFailed(m)),
        Ok(Ok(wav)) => Ok(wav),
    }
}

/// Settles a decoding task: a task that did not finish is an internal
/// error, a codec error is a decoding failure, else the restored file.
pub fn settle_decoding(outcome: Result<Result<Decoded, String>, String>) -> (res: Result<
    Decoded,
    ApiError,
>)
    ensures
        outcome matches Err(j) ==> (res matches Err(e) && e is Internal && e.message_text()
            == "task panic: "@ + j@),
        outcome matches Ok(Err(m)) ==> (res matches Err(e) && e is DecodeFailed && e.message_text()
            == m@),
        outcome matches Ok(Ok(d)) ==> res == Ok::<Decoded, ApiError>(d),
{
    match outcome {
        Err(j) => Err(task_failure(j.as_str())),
        Ok(Err(m)) => Err(ApiError::DecodeFailed(m)),
        Ok(Ok(d)) => Ok(d),
    }
}

} // verus!
