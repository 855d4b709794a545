//! File-name handling: the stem of an uploaded file's name, and where a
//! decoded file is written.

use vstd::prelude::*;
use vstd::string::*;

verus! {

/// What `std::path::Path::file_stem` gives for a path written as `path`.
pub uninterp spec fn path_file_stem(path: Seq<char>) -> Option<Seq<char>>;

/// What `std::path::Path::parent` gives for a path written as `path`.
pub uninterp spec fn path_parent(path: Seq<char>) -> Option<Seq<char>>;

/// What `std::path::Path::join` gives for `base` joined with `name`.
pub uninterp spec fn path_joined(base: Seq<char>, name: Seq<char>) -> Seq<char>;

/// The view of an optional string.
pub open spec fn opt_text(s: Option<String>) -> Option<Seq<char>> {
    match s {
        Some(t) => Some(t@),
        None => None,
    }
}

/// `Path::file_stem` of `path`, as text. The stem of a path given as UTF-8
/// is UTF-8, so the conversion loses nothing.
#[verifier::external_body]
pub(crate) fn file_stem(path: &str) -> (stem: Option<String>)
    ensures
        opt_text(stem) == path_file_stem(path@),
{
    std::path::Path::new(path).file_stem().map(|s| s.to_string_lossy().into_owned())
}

/// `Path::parent` of `path`, as text.
#[verifier::external_body]
pub(crate) fn parent_dir(path: &str) -> (parent: Option<String>)
    ensures
        opt_text(parent) == path_parent(path@),
{
    std::path::Path::new(path).parent().map(|p| p.to_string_lossy().into_owned())
}

/// `Path::join` of `base` and `name`, as text.
#[verifier::external_body]
pub(crate) fn join_path(base: &str, name: &str) -> (joined: String)
    ensures
        joined@ == path_joined(base@, name@),
{
    std::path::Path::new(base).join(name).to_string_lossy().into_owned()
}

/// The stem used for a file name: the path's stem, or nothing when it has none.
pub open spec fn stem_or_empty(stem: Option<Seq<char>>) -> Seq<char> {
    match stem {
        Some(s) => s,
        None => Seq::empty(),
    }
}

/// The name of the WAV made from a file whose name has stem `stem`:
/// `{stem}_encoded.wav`.
pub fn wav_name_for_stem(stem: Option<String>) -> (name: String)
    ensures
        name@ == stem_or_empty(opt_text(stem)) + "_encoded.wav"@,
        stem matches Some(s) ==> name@ == s@ + "_encoded.wav"@,
        stem is None ==> name@ == "_encoded.wav"@,
{
    let base = match stem {
        Some(s) => s,
        None => String::new(),
    };
    base.concat("_encoded.wav")
}

/// The name of the WAV made from the uploaded file `original_filename`.
pub fn encoded_wav_name(original_filename: &str) -> (name: String)
    ensures
        name@ == stem_or_empty(path_file_stem(original_filename@)) + "_encoded.wav"@,
        path_file_stem(original_filename@) matches Some(s) ==> name@ == s + "_encoded.wav"@,
        path_file_stem(original_filename@) is None ==> name@ == "_encoded.wav"@,
{
    let stem = file_stem(original_filename);
    wav_name_for_stem(stem)
}

/// The directory a decoded file goes to by default: that of its input, or
/// the current directory when the input has no parent.
pub open spec fn dir_or_current(parent: Option<Seq<char>>) -> Seq<char> {
    match parent {
        Some(p) => p,
        None => "."@,
    }
}

/// `dir_or_current`, computed.
pub fn default_output_dir(parent: Option<String>) -> (dir: String)
    ensures
        dir@ == dir_or_current(opt_text(parent)),
        parent matches Some(p) ==> dir@ == p@,
        parent is None ==> dir@ == "."@,
{
    match parent {
        Some(p) => p,
        None => ".".to_owned(),
    }
}

/// Where a decoded file is written: the explicit output when one is given,
/// else the decoded file's original name in the input's directory.
pub fn output_path(explicit: Option<String>, input: &str, decoded_filename: &str) -> (path: String)
    ensures
        explicit is Some ==> path@ == explicit.unwrap()@,
        explicit is None ==> path@ == path_joined(
            dir_or_current(path_parent(input@)),
            decoded_filename@,
        ),
        explicit is None && path_parent(input@) is Some ==> path@ == path_joined(
            path_parent(input@)->0,
            decoded_filename@,
        ),
        explicit is None && path_parent(input@) is None ==> path@ == path_joined(
            "."@,
            decoded_filename@,
        ),
{
    match explicit {
        Some(p) => p,
        None => {
            let dir = default_output_dir(parent_dir(input));
            join_path(dir.as_str(), decoded_filename)
        },
    }
}

} // verus!
