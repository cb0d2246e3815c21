//! Argument validation for the plugin's commands: relative paths that stay
//! inside the container, container identifiers, watch ids, encodings and the
//! defaults of each command's options.
use vstd::prelude::*;

use crate::error::{error_of, outcome, ErrorCode, ErrorView, PluginError};
use crate::models::{
    CreateDirectoryOptions, CreateFileOptions, FileProtectionType, ListDirectoryOptions,
    ReadFileOptions, WriteFileOptions,
};
use crate::text::{chars_of, range_equals, trim, trim_bounds, trimmed};

verus! {

// ============================================================================
// Identifiers and watch ids
// ============================================================================

/// What validating a container identifier gives: the trimmed identifier, or
/// an `invalid_argument` error when nothing but whitespace is left.
pub open spec fn identifier_outcome(identifier: Seq<char>) -> Result<Seq<char>, ErrorView> {
    let t = trim(identifier);
    if t.len() == 0 {
        Err(error_of(ErrorCode::InvalidArgument, Some("identifier is required and cannot be empty"@)))
    } else {
        Ok(t)
    }
}

/// What resolving an optional identifier override gives: no override stays
/// absent, a given one must be valid.
pub open spec fn optional_identifier_outcome(identifier: Option<Seq<char>>) -> Result<
    Option<Seq<char>>,
    ErrorView,
> {
    match identifier {
        None => Ok(None),
        Some(value) => match identifier_outcome(value) {
            Ok(t) => Ok(Some(t)),
            Err(e) => Err(e),
        },
    }
}

/// What validating a watch id gives: the trimmed id, or an
/// `invalid_argument` error when nothing but whitespace is left.
pub open spec fn watch_id_outcome(watch_id: Seq<char>) -> Result<Seq<char>, ErrorView> {
    let t = trim(watch_id);
    if t.len() == 0 {
        Err(error_of(ErrorCode::InvalidArgument, Some("watch_id is required and cannot be empty"@)))
    } else {
        Ok(t)
    }
}

/// Trims a container identifier, which must not be blank.
pub fn validate_identifier(identifier: String) -> (r: Result<String, PluginError>)
    ensures
        outcome(r) == identifier_outcome(identifier@),
{
    let t = trimmed(identifier.as_str());
    if t.as_str().is_empty() {
        return Err(
            PluginError::InvalidArgument {
                detail: Some("identifier is required and cannot be empty".to_owned()),
            },
        );
    }
    Ok(t)
}

/// Validates an identifier override when one is given.
pub fn resolve_optional_identifier(identifier: Option<String>) -> (r: Result<
    Option<String>,
    PluginError,
>)
    ensures
        outcome(r) == optional_identifier_outcome(identifier.deep_view()),
{
    match identifier {
        Some(value) => match validate_identifier(value) {
            Ok(t) => Ok(Some(t)),
            Err(e) => Err(e),
        },
        None => Ok(None),
    }
}

/// Trims a watch id, which must not be blank.
pub fn validate_watch_id(watch_id: String) -> (r: Result<String, PluginError>)
    ensures
        outcome(r) == watch_id_outcome(watch_id@),
{
    let t = trimmed(watch_id.as_str());
    if t.as_str().is_empty() {
        return Err(
            PluginError::InvalidArgument {
                detail: Some("watch_id is required and cannot be empty".to_owned()),
            },
        );
    }
    Ok(t)
}

// ============================================================================
// Relative paths
// ============================================================================

/// `p` has a `..` component at position `i`: two dots that make up a whole
/// `/`-separated segment.
pub open spec fn parent_segment_at(p: Seq<char>, i: int) -> bool {
    &&& 0 <= i
    &&& i + 2 <= p.len()
    &&& p[i] == '.'
    &&& p[i + 1] == '.'
    &&& (i == 0 || p[i - 1] == '/')
    &&& (i + 2 == p.len() || p[i + 2] == '/')
}

/// `p` has a `..` component somewhere.
pub open spec fn has_parent_segment(p: Seq<char>) -> bool {
    exists|i: int| #[trigger] parent_segment_at(p, i)
}

/// `p` is absolute: it starts at the root.
pub open spec fn is_absolute(p: Seq<char>) -> bool {
    p.len() > 0 && p[0] == '/'
}

/// What validating a path gives. The path is trimmed; it must not be blank,
/// must be relative to the container root, and must not climb out of it
/// through a `..` component. Paths follow the POSIX syntax of the platforms
/// the container lives on: `/` separates components and starts the root.
pub open spec fn relative_path_outcome(path: Seq<char>) -> Result<Seq<char>, ErrorView> {
    let t = trim(path);
    if t.len() == 0 {
        Err(error_of(ErrorCode::InvalidArgument, Some("path is required and cannot be empty"@)))
    } else if is_absolute(t) {
        Err(
            error_of(
                ErrorCode::PathOutsideContainer,
                Some("path must be relative to container root"@),
            ),
        )
    } else if has_parent_segment(t) {
        Err(
            error_of(
                ErrorCode::PathOutsideContainer,
                Some("path cannot traverse outside container root"@),
            ),
        )
    } else {
        Ok(t)
    }
}

/// Whether the characters of `v` in `lo..hi` hold a `..` component.
fn find_parent_segment(v: &Vec<char>, lo: usize, hi: usize) -> (r: bool)
    requires
        lo <= hi <= v@.len(),
    ensures
        r == has_parent_segment(v@.subrange(lo as int, hi as int)),
{
    let ghost t = v@.subrange(lo as int, hi as int);
    let mut i: usize = lo;
    while hi - i >= 2
        invariant
            lo <= i <= hi <= v@.len(),
            t == v@.subrange(lo as int, hi as int),
            forall|k: int| 0 <= k < i - lo ==> !parent_segment_at(t, k),
        decreases hi - i,
    {
        let at_start = i == lo || v[i - 1] == '/';
        let at_end = hi - i == 2 || v[i + 2] == '/';
        if v[i] == '.' && v[i + 1] == '.' && at_start && at_end {
            assert(parent_segment_at(t, i - lo));
            return true;
        }
        assert(!parent_segment_at(t, i - lo));
        i = i + 1;
    }
    assert forall|k: int| !parent_segment_at(t, k) by {
        if 0 <= k < i - lo {
        } else if k >= i - lo {
            assert(k + 2 > t.len());
        }
    }
    false
}

/// Trims a path and checks that it stays inside the container root.
pub fn validate_relative_path(path: String) -> (r: Result<String, PluginError>)
    ensures
        outcome(r) == relative_path_outcome(path@),
{
    let v = chars_of(path.as_str());
    let (lo, hi) = trim_bounds(&v);
    proof {
        assert(trim(path@) == v@.subrange(lo as int, hi as int));
    }
    if lo == hi {
        return Err(
            PluginError::InvalidArgument {
                detail: Some("path is required and cannot be empty".to_owned()),
            },
        );
    }
    if v[lo] == '/' {
        return Err(
            PluginError::PathOutsideContainer {
                detail: Some("path must be relative to container root".to_owned()),
            },
        );
    }
    if find_parent_segment(&v, lo, hi) {
        return Err(
            PluginError::PathOutsideContainer {
                detail: Some("path cannot traverse outside container root".to_owned()),
            },
        );
    }
    Ok(path.as_str().substring_char(lo, hi).to_owned())
}

// ============================================================================
// Encodings and options
// ============================================================================

/// The detail of the error for an unknown encoding `other`.
pub open spec fn invalid_encoding_detail(other: Seq<char>) -> Seq<char> {
    "invalid encoding '"@ + other + "', expected 'utf8' or 'bytes'"@
}

/// What resolving an encoding gives: `utf8` when none is given or only
/// whitespace, `utf8` or `bytes` when the trimmed value names one, and an
/// `invalid_argument` error for anything else.
pub open spec fn encoding_outcome(encoding: Option<Seq<char>>) -> Result<Seq<char>, ErrorView> {
    match encoding {
        None => Ok("utf8"@),
        Some(value) => {
            let t = trim(value);
            if t.len() == 0 || t == "utf8"@ {
                Ok("utf8"@)
            } else if t == "bytes"@ {
                Ok("bytes"@)
            } else {
                Err(error_of(ErrorCode::InvalidArgument, Some(invalid_encoding_detail(t))))
            }
        },
    }
}

/// Resolves the encoding option of a read, write or create command.
pub fn resolve_encoding(encoding: Option<String>) -> (r: Result<String, PluginError>)
    ensures
        outcome(r) == encoding_outcome(encoding.deep_view()),
{
    match encoding {
        None => Ok("utf8".to_owned()),
        Some(value) => {
            let v = chars_of(value.as_str());
            let (lo, hi) = trim_bounds(&v);
            proof {
                assert(trim(value@) == v@.subrange(lo as int, hi as int));
            }
            if lo == hi || range_equals(&v, lo, hi, "utf8") {
                Ok("utf8".to_owned())
            } else if range_equals(&v, lo, hi, "bytes") {
                Ok("bytes".to_owned())
            } else {
                let other = value.as_str().substring_char(lo, hi);
                let detail = "invalid encoding '".to_owned().concat(other).concat(
                    "', expected 'utf8' or 'bytes'",
                );
                Err(PluginError::InvalidArgument { detail: Some(detail) })
            }
        },
    }
}

/// The protection that applies when none is asked for.
pub open spec fn protection_or_default(p: Option<FileProtectionType>) -> FileProtectionType {
    match p {
        Some(p) => p,
        None => FileProtectionType::Complete,
    }
}

/// What resolving write options gives: (encoding, overwrite, protection),
/// overwriting and complete protection unless asked otherwise.
pub open spec fn write_options_outcome(options: Option<WriteFileOptions>) -> Result<
    (Seq<char>, bool, FileProtectionType),
    ErrorView,
> {
    let (encoding, overwrite, protection) = match options {
        Some(o) => (o.encoding.deep_view(), o.overwrite, o.file_protection),
        None => (None, None, None),
    };
    match encoding_outcome(encoding) {
        Ok(e) => Ok(
            (
                e,
                match overwrite {
                    Some(b) => b,
                    None => true,
                },
                protection_or_default(protection),
            ),
        ),
        Err(err) => Err(err),
    }
}

/// Resolves the options of `write_file`.
pub fn resolve_write_options(options: Option<WriteFileOptions>) -> (r: Result<
    (String, bool, FileProtectionType),
    PluginError,
>)
    ensures
        outcome(r) == write_options_outcome(options),
{
    let opts = match options {
        Some(o) => o,
        None => WriteFileOptions { encoding: None, overwrite: None, file_protection: None },
    };
    let encoding = match resolve_encoding(opts.encoding) {
        Ok(e) => e,
        Err(err) => return Err(err),
    };
    let overwrite = match opts.overwrite {
        Some(b) => b,
        None => true,
    };
    let protection = match opts.file_protection {
        Some(p) => p,
        None => FileProtectionType::Complete,
    };
    Ok((encoding, overwrite, protection))
}

/// What resolving read options gives: the encoding to read with.
pub open spec fn read_options_outcome(options: Option<ReadFileOptions>) -> Result<
    Seq<char>,
    ErrorView,
> {
    encoding_outcome(
        match options {
            Some(o) => o.encoding.deep_view(),
            None => None,
        },
    )
}

/// Resolves the options of `read_file`.
pub fn resolve_read_options(options: Option<ReadFileOptions>) -> (r: Result<String, PluginError>)
    ensures
        outcome(r) == read_options_outcome(options),
{
    let opts = match options {
        Some(o) => o,
        None => ReadFileOptions { encoding: None },
    };
    resolve_encoding(opts.encoding)
}

/// What resolving create-file options gives: (content, encoding,
/// protection), with empty content and complete protection unless given.
pub open spec fn create_file_options_outcome(options: Option<CreateFileOptions>) -> Result<
    (Seq<u8>, Seq<char>, FileProtectionType),
    ErrorView,
> {
    let (content, encoding, protection) = match options {
        Some(o) => (o.content.deep_view(), o.encoding.deep_view(), o.file_protection),
        None => (None, None, None),
    };
    match encoding_outcome(encoding) {
        Ok(e) => Ok(
            (
                match content {
                    Some(c) => c,
                    None => Seq::empty(),
                },
                e,
                protection_or_default(protection),
            ),
        ),
        Err(err) => Err(err),
    }
}

/// Resolves the options of `create_file`.
pub fn resolve_create_file_options(options: Option<CreateFileOptions>) -> (r: Result<
    (Vec<u8>, String, FileProtectionType),
    PluginError,
>)
    ensures
        outcome(r) == create_file_options_outcome(options),
{
    let opts = match options {
        Some(o) => o,
        None => CreateFileOptions { content: None, encoding: None, file_protection: None },
    };
    let encoding = match resolve_encoding(opts.encoding) {
        Ok(e) => e,
        Err(err) => return Err(err),
    };
    let protection = match opts.file_protection {
        Some(p) => p,
        None => FileProtectionType::Complete,
    };
    let content = match opts.content {
        Some(c) => c,
        None => Vec::new(),
    };
    proof {
        assert(content.deep_view() =~= content@);
    }
    Ok((content, encoding, protection))
}

/// What resolving create-directory options gives: (with intermediate
/// directories, protection), creating intermediate directories with complete
/// protection unless asked otherwise.
pub open spec fn create_directory_options_outcome(options: Option<CreateDirectoryOptions>) -> (
    bool,
    FileProtectionType,
) {
    match options {
        Some(o) => (
            match o.with_intermediate_directories {
                Some(b) => b,
                None => true,
            },
            protection_or_default(o.file_protection),
        ),
        None => (true, FileProtectionType::Complete),
    }
}

/// Resolves the options of `create_directory`.
pub fn resolve_create_directory_options(options: Option<CreateDirectoryOptions>) -> (r: (
    bool,
    FileProtectionType,
))
    ensures
        r == create_directory_options_outcome(options),
{
    let opts = match options {
        Some(o) => o,
        None => CreateDirectoryOptions { with_intermediate_directories: None, file_protection: None },
    };
    (
        match opts.with_intermediate_directories {
            Some(b) => b,
            None => true,
        },
        match opts.file_protection {
            Some(p) => p,
            None => FileProtectionType::Complete,
        },
    )
}

/// What resolving list-directory options gives: (recursive, skips hidden
/// files), both off unless asked for.
pub open spec fn list_directory_options_outcome(options: Option<ListDirectoryOptions>) -> (
    bool,
    bool,
) {
    match options {
        Some(o) => (
            match o.recursive {
                Some(b) => b,
                None => false,
            },
            match o.skips_hidden_files {
                Some(b) => b,
                None => false,
            },
        ),
        None => (false, false),
    }
}

/// Resolves the options of `list_directory`.
pub fn resolve_list_directory_options(options: Option<ListDirectoryOptions>) -> (r: (bool, bool))
    ensures
        r == list_directory_options_outcome(options),
{
    let opts = match options {
        Some(o) => o,
        None => ListDirectoryOptions { recursive: None, skips_hidden_files: None },
    };
    (
        match opts.recursive {
            Some(b) => b,
            None => false,
        },
        match opts.skips_hidden_files {
            Some(b) => b,
            None => false,
        },
    )
}

// ============================================================================
// Command requests: every argument of a command, checked in the order the
// command checks them, so that the first invalid argument decides the error.
// ============================================================================

/// What checking the arguments of a command on one item gives:
/// (path, identifier).
pub open spec fn path_request_outcome(path: Seq<char>, identifier: Option<Seq<char>>) -> Result<
    (Seq<char>, Option<Seq<char>>),
    ErrorView,
> {
    match relative_path_outcome(path) {
        Err(e) => Err(e),
        Ok(p) => match optional_identifier_outcome(identifier) {
            Err(e) => Err(e),
            Ok(id) => Ok((p, id)),
        },
    }
}

/// Checks the path and identifier of a command on one item (`item_exists`,
/// `get_attributes`, `delete_item`, `trash_item`, `get_item_sync_status`,
/// `start_download`, `evict_item`, `is_ubiquitous`, `watch_directory`,
/// `watch_file`).
pub fn prepare_path_request(path: String, identifier: Option<String>) -> (r: Result<
    (String, Option<String>),
    PluginError,
>)
    ensures
        outcome(r) == path_request_outcome(path@, identifier.deep_view()),
{
    let valid_path = match validate_relative_path(path) {
        Ok(p) => p,
        Err(e) => return Err(e),
    };
    let id = match resolve_optional_identifier(identifier) {
        Ok(id) => id,
        Err(e) => return Err(e),
    };
    Ok((valid_path, id))
}

/// What checking the arguments of `read_file` gives:
/// (path, identifier, encoding).
pub open spec fn read_file_request_outcome(
    path: Seq<char>,
    identifier: Option<Seq<char>>,
    options: Option<ReadFileOptions>,
) -> Result<(Seq<char>, Option<Seq<char>>, Seq<char>), ErrorView> {
    match path_request_outcome(path, identifier) {
        Err(e) => Err(e),
        Ok((p, id)) => match read_options_outcome(options) {
            Err(e) => Err(e),
            Ok(encoding) => Ok((p, id, encoding)),
        },
    }
}

/// Checks the arguments of `read_file`.
pub fn prepare_read_file(
    path: String,
    identifier: Option<String>,
    options: Option<ReadFileOptions>,
) -> (r: Result<(String, Option<String>, String), PluginError>)
    ensures
        outcome(r) == read_file_request_outcome(path@, identifier.deep_view(), options),
{
    let (valid_path, id) = match prepare_path_request(path, identifier) {
        Ok(x) => x,
        Err(e) => return Err(e),
    };
    let encoding = match resolve_read_options(options) {
        Ok(e) => e,
        Err(e) => return Err(e),
    };
    Ok((valid_path, id, encoding))
}

/// What checking the arguments of `write_file` gives:
/// (path, identifier, encoding, overwrite, protection).
pub open spec fn write_file_request_outcome(
    path: Seq<char>,
    identifier: Option<Seq<char>>,
    options: Option<WriteFileOptions>,
) -> Result<(Seq<char>, Option<Seq<char>>, Seq<char>, bool, FileProtectionType), ErrorView> {
    match path_request_outcome(path, identifier) {
        Err(e) => Err(e),
        Ok((p, id)) => match write_options_outcome(options) {
            Err(e) => Err(e),
            Ok((encoding, overwrite, protection)) => Ok((p, id, encoding, overwrite, protection)),
        },
    }
}

/// Checks the arguments of `write_file`; the content goes through as given.
pub fn prepare_write_file(
    path: String,
    identifier: Option<String>,
    options: Option<WriteFileOptions>,
) -> (r: Result<(String, Option<String>, String, bool, FileProtectionType), PluginError>)
    ensures
        outcome(r) == write_file_request_outcome(path@, identifier.deep_view(), options),
{
    let (valid_path, id) = match prepare_path_request(path, identifier) {
        Ok(x) => x,
        Err(e) => return Err(e),
    };
    let (encoding, overwrite, protection) = match resolve_write_options(options) {
        Ok(x) => x,
        Err(e) => return Err(e),
    };
    Ok((valid_path, id, encoding, overwrite, protection))
}

/// What checking the arguments of `create_file` gives:
/// (path, identifier, content, encoding, protection).
pub open spec fn create_file_request_outcome(
    path: Seq<char>,
    identifier: Option<Seq<char>>,
    options: Option<CreateFileOptions>,
) -> Result<(Seq<char>, Option<Seq<char>>, Seq<u8>, Seq<char>, FileProtectionType), ErrorView> {
    match path_request_outcome(path, identifier) {
        Err(e) => Err(e),
        Ok((p, id)) => match create_file_options_outcome(options) {
            Err(e) => Err(e),
            Ok((content, encoding, protection)) => Ok((p, id, content, encoding, protection)),
        },
    }
}

/// Checks the arguments of `create_file`.
pub fn prepare_create_file(
    path: String,
    identifier: Option<String>,
    options: Option<CreateFileOptions>,
) -> (r: Result<(String, Option<String>, Vec<u8>, String, FileProtectionType), PluginError>)
    ensures
        outcome(r) == create_file_request_outcome(path@, identifier.deep_view(), options),
{
    let (valid_path, id) = match prepare_path_request(path, identifier) {
        Ok(x) => x,
        Err(e) => return Err(e),
    };
    let (content, encoding, protection) = match resolve_create_file_options(options) {
        Ok(x) => x,
        Err(e) => return Err(e),
    };
    Ok((valid_path, id, content, encoding, protection))
}

/// What checking the arguments of `create_directory` gives:
/// (path, identifier, with intermediate directories, protection).
pub open spec fn create_directory_request_outcome(
    path: Seq<char>,
    identifier: Option<Seq<char>>,
    options: Option<CreateDirectoryOptions>,
) -> Result<(Seq<char>, Option<Seq<char>>, bool, FileProtectionType), ErrorView> {
    match path_request_outcome(path, identifier) {
        Err(e) => Err(e),
        Ok((p, id)) => {
            let (intermediate, protection) = create_directory_options_outcome(options);
            Ok((p, id, intermediate, protection))
        },
    }
}

/// Checks the arguments of `create_directory`.
pub fn prepare_create_directory(
    path: String,
    identifier: Option<String>,
    options: Option<CreateDirectoryOptions>,
) -> (r: Result<(String, Option<String>, bool, FileProtectionType), PluginError>)
    ensures
        outcome(r) == create_directory_request_outcome(path@, identifier.deep_view(), options),
{
    let (valid_path, id) = match prepare_path_request(path, identifier) {
        Ok(x) => x,
        Err(e) => return Err(e),
    };
    let (intermediate, protection) = resolve_create_directory_options(options);
    Ok((valid_path, id, intermediate, protection))
}

/// What checking the arguments of `list_directory` gives:
/// (path, identifier, recursive, skips hidden files).
pub open spec fn list_directory_request_outcome(
    path: Seq<char>,
    identifier: Option<Seq<char>>,
    options: Option<ListDirectoryOptions>,
) -> Result<(Seq<char>, Option<Seq<char>>, bool, bool), ErrorView> {
    match path_request_outcome(path, identifier) {
        Err(e) => Err(e),
        Ok((p, id)) => {
            let (recursive, skips_hidden_files) = list_directory_options_outcome(options);
            Ok((p, id, recursive, skips_hidden_files))
        },
    }
}

/// Checks the arguments of `list_directory`.
pub fn prepare_list_directory(
    path: String,
    identifier: Option<String>,
    options: Option<ListDirectoryOptions>,
) -> (r: Result<(String, Option<String>, bool, bool), PluginError>)
    ensures
        outcome(r) == list_directory_request_outcome(path@, identifier.deep_view(), options),
{
    let (valid_path, id) = match prepare_path_request(path, identifier) {
        Ok(x) => x,
        Err(e) => return Err(e),
    };
    let (recursive, skips_hidden_files) = resolve_list_directory_options(options);
    Ok((valid_path, id, recursive, skips_hidden_files))
}

/// What checking the arguments of `move_item` or `copy_item` gives:
/// (source path, destination path, identifier).
pub open spec fn transfer_request_outcome(
    source_path: Seq<char>,
    destination_path: Seq<char>,
    identifier: Option<Seq<char>>,
) -> Result<(Seq<char>, Seq<char>, Option<Seq<char>>), ErrorView> {
    match relative_path_outcome(source_path) {
        Err(e) => Err(e),
        Ok(source) => match relative_path_outcome(destination_path) {
            Err(e) => Err(e),
            Ok(destination) => match optional_identifier_outcome(identifier) {
                Err(e) => Err(e),
                Ok(id) => Ok((source, destination, id)),
            },
        },
    }
}

/// Checks the arguments of `move_item` and `copy_item`: both paths stay
/// inside the container.
pub fn prepare_transfer(
    source_path: String,
    destination_path: String,
    identifier: Option<String>,
) -> (r: Result<(String, String, Option<String>), PluginError>)
    ensures
        outcome(r) == transfer_request_outcome(
            source_path@,
            destination_path@,
            identifier.deep_view(),
        ),
{
    let source = match validate_relative_path(source_path) {
        Ok(p) => p,
        Err(e) => return Err(e),
    };
    let destination = match validate_relative_path(destination_path) {
        Ok(p) => p,
        Err(e) => return Err(e),
    };
    let id = match resolve_optional_identifier(identifier) {
        Ok(id) => id,
        Err(e) => return Err(e),
    };
    Ok((source, destination, id))
}

} // verus!
