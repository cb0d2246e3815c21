//! Properties that hold across the library's functions.
use vstd::prelude::*;

use crate::bridge::{
    content_bytes, is_normalized_identifier, mobile_error_outcome, mobile_error_prefix,
    normalized_identifier, protection_wire_name, wire_code,
};
use crate::commands::{
    create_directory_options_outcome, create_file_options_outcome, create_file_request_outcome,
    create_directory_request_outcome, encoding_outcome, has_parent_segment, identifier_outcome,
    is_absolute, list_directory_options_outcome, list_directory_request_outcome,
    optional_identifier_outcome, path_request_outcome, read_file_request_outcome,
    read_options_outcome, relative_path_outcome, transfer_request_outcome, watch_id_outcome,
    write_file_request_outcome, write_options_outcome,
};
use crate::error::{code_text, error_of, ErrorCode};
use crate::models::{
    CreateDirectoryOptions, CreateFileOptions, FileContent, FileProtectionType,
    ListDirectoryOptions, ReadFileOptions, WriteFileOptions,
};
use crate::text::{is_whitespace, lemma_trim_idempotent, trim};

verus! {

// ============================================================================
// Sandboxing of paths
// ============================================================================

/// A path that validation accepts is not blank, has no surrounding
/// whitespace, is relative to the container root and has no `..` component.
pub proof fn lemma_accepted_path_stays_inside(path: Seq<char>)
    requires
        relative_path_outcome(path) is Ok,
    ensures
        ({
            let p = relative_path_outcome(path)->Ok_0;
            &&& p.len() > 0
            &&& trim(p) == p
            &&& !is_absolute(p)
            &&& !has_parent_segment(p)
        }),
{
    lemma_trim_idempotent(path);
}

/// Validating a path that validation gave back accepts it unchanged.
pub proof fn lemma_path_validation_is_idempotent(path: Seq<char>)
    requires
        relative_path_outcome(path) is Ok,
    ensures
        relative_path_outcome(relative_path_outcome(path)->Ok_0) == relative_path_outcome(path),
{
    lemma_trim_idempotent(path);
}

/// Every command that takes paths checks each of them as `validate_relative_path`
/// does, before anything else: a path that it refuses makes the command fail
/// with that same error, and an accepted command carries the validated path.
pub proof fn lemma_requests_reuse_path_sandboxing(
    path: Seq<char>,
    other_path: Seq<char>,
    identifier: Option<Seq<char>>,
    read: Option<ReadFileOptions>,
    write: Option<WriteFileOptions>,
    create: Option<CreateFileOptions>,
    directory: Option<CreateDirectoryOptions>,
    list: Option<ListDirectoryOptions>,
)
    ensures
        relative_path_outcome(path) is Err ==> {
            let e = relative_path_outcome(path)->Err_0;
            &&& path_request_outcome(path, identifier) == Err::<
                (Seq<char>, Option<Seq<char>>),
                _,
            >(e)
            &&& read_file_request_outcome(path, identifier, read) is Err
            &&& read_file_request_outcome(path, identifier, read)->Err_0 == e
            &&& write_file_request_outcome(path, identifier, write) is Err
            &&& write_file_request_outcome(path, identifier, write)->Err_0 == e
            &&& create_file_request_outcome(path, identifier, create) is Err
            &&& create_file_request_outcome(path, identifier, create)->Err_0 == e
            &&& create_directory_request_outcome(path, identifier, directory) is Err
            &&& create_directory_request_outcome(path, identifier, directory)->Err_0 == e
            &&& list_directory_request_outcome(path, identifier, list) is Err
            &&& list_directory_request_outcome(path, identifier, list)->Err_0 == e
            &&& transfer_request_outcome(path, other_path, identifier) is Err
            &&& transfer_request_outcome(path, other_path, identifier)->Err_0 == e
        },
        relative_path_outcome(path) is Ok && relative_path_outcome(other_path) is Err ==> {
            &&& transfer_request_outcome(path, other_path, identifier) is Err
            &&& transfer_request_outcome(path, other_path, identifier)->Err_0
                == relative_path_outcome(other_path)->Err_0
        },
        path_request_outcome(path, identifier) is Ok ==> path_request_outcome(
            path,
            identifier,
        )->Ok_0.0 == relative_path_outcome(path)->Ok_0,
        transfer_request_outcome(path, other_path, identifier) is Ok ==> {
            let (source, destination, _) = transfer_request_outcome(
                path,
                other_path,
                identifier,
            )->Ok_0;
            &&& source == relative_path_outcome(path)->Ok_0
            &&& destination == relative_path_outcome(other_path)->Ok_0
        },
{
}

// ============================================================================
// Identifiers and watch ids
// ============================================================================

/// An identifier override that is not blank is validated to exactly what the
/// bridge's normalization makes of it; a blank one is refused, where
/// normalization drops it.
pub proof fn lemma_override_validation_agrees_with_normalization(identifier: Seq<char>)
    ensures
        trim(identifier).len() > 0 ==> optional_identifier_outcome(Some(identifier)) == Ok::<
            _,
            crate::error::ErrorView,
        >(normalized_identifier(Some(identifier))),
        trim(identifier).len() == 0 ==> optional_identifier_outcome(Some(identifier)) is Err
            && normalized_identifier(Some(identifier)) is None,
{
}

/// Validated identifiers and watch ids are normalized, and validating them
/// again gives them back unchanged.
pub proof fn lemma_identifier_validation_is_idempotent(value: Seq<char>)
    ensures
        identifier_outcome(value) is Ok ==> {
            let t = identifier_outcome(value)->Ok_0;
            &&& is_normalized_identifier(Some(t))
            &&& identifier_outcome(t) == identifier_outcome(value)
        },
        watch_id_outcome(value) is Ok ==> {
            let t = watch_id_outcome(value)->Ok_0;
            &&& t.len() > 0
            &&& trim(t) == t
            &&& watch_id_outcome(t) == watch_id_outcome(value)
        },
{
    lemma_trim_idempotent(value);
}

// ============================================================================
// Encodings and option defaults
// ============================================================================

/// A resolved encoding is `utf8` or `bytes`, and resolving it again gives it
/// back.
pub proof fn lemma_resolved_encoding_is_known(encoding: Option<Seq<char>>)
    ensures
        encoding_outcome(encoding) is Ok ==> {
            let e = encoding_outcome(encoding)->Ok_0;
            &&& e == "utf8"@ || e == "bytes"@
            &&& encoding_outcome(Some(e)) == encoding_outcome(encoding)
        },
{
    reveal_strlit("utf8");
    reveal_strlit("bytes");
    if encoding_outcome(encoding) is Ok {
        let e = encoding_outcome(encoding)->Ok_0;
        lemma_trim_fixed_on_word(e);
    }
}

/// A word without whitespace is its own trimmed form.
proof fn lemma_trim_fixed_on_word(s: Seq<char>)
    requires
        s.len() > 0,
        forall|i: int| 0 <= i < s.len() ==> !crate::text::is_whitespace(#[trigger] s[i]),
    ensures
        trim(s) == s,
{
    crate::text::lemma_trim_is_subrange(s, 0, s.len() as int);
    assert(s.subrange(0, s.len() as int) =~= s);
}

/// Leaving out the options of a command is the same as giving options with
/// every field left out.
pub proof fn lemma_absent_options_mean_defaults()
    ensures
        read_options_outcome(None) == read_options_outcome(
            Some(ReadFileOptions { encoding: None }),
        ),
        write_options_outcome(None) == write_options_outcome(
            Some(WriteFileOptions { encoding: None, overwrite: None, file_protection: None }),
        ),
        create_file_options_outcome(None) == create_file_options_outcome(
            Some(CreateFileOptions { content: None, encoding: None, file_protection: None }),
        ),
        create_directory_options_outcome(None) == create_directory_options_outcome(
            Some(
                CreateDirectoryOptions { with_intermediate_directories: None, file_protection: None },
            ),
        ),
        list_directory_options_outcome(None) == list_directory_options_outcome(
            Some(ListDirectoryOptions { recursive: None, skips_hidden_files: None }),
        ),
{
}

// ============================================================================
// Error codes and native failure messages
// ============================================================================

/// Distinct error codes have distinct stable texts.
pub proof fn lemma_code_text_is_injective(a: ErrorCode, b: ErrorCode)
    ensures
        code_text(a) == code_text(b) ==> a == b,
{
    reveal_strlit("container_unavailable");
    reveal_strlit("not_signed_in");
    reveal_strlit("permission_denied");
    reveal_strlit("path_outside_container");
    reveal_strlit("not_found");
    reveal_strlit("already_exists");
    reveal_strlit("io_error");
    reveal_strlit("sync_error");
    reveal_strlit("invalid_argument");
    if code_text(a) == code_text(b) {
        assert(code_text(a).len() == code_text(b).len());
        assert(code_text(a)[0] == code_text(b)[0]);
        assert(code_text(a)[1] == code_text(b)[1]);
    }
}

/// Distinct protection classes have distinct wire names.
pub proof fn lemma_protection_wire_name_is_injective(a: FileProtectionType, b: FileProtectionType)
    ensures
        protection_wire_name(a) == protection_wire_name(b) ==> a == b,
{
    reveal_strlit("complete");
    reveal_strlit("completeUnlessOpen");
    reveal_strlit("completeUntilFirstUserAuth");
    reveal_strlit("none");
    if protection_wire_name(a) == protection_wire_name(b) {
        assert(protection_wire_name(a).len() == protection_wire_name(b).len());
        assert(protection_wire_name(a)[0] == protection_wire_name(b)[0]);
    }
}

/// The native names of the codes hold no `:`.
proof fn lemma_wire_code_has_no_colon(code: ErrorCode)
    ensures
        !wire_code(code).contains(':'),
        wire_code(code).len() > 0,
{
    reveal_strlit("CONTAINER_UNAVAILABLE");
    reveal_strlit("NOT_SIGNED_IN");
    reveal_strlit("PERMISSION_DENIED");
    reveal_strlit("PATH_OUTSIDE_CONTAINER");
    reveal_strlit("NOT_FOUND");
    reveal_strlit("ALREADY_EXISTS");
    reveal_strlit("IO_ERROR");
    reveal_strlit("SYNC_ERROR");
    reveal_strlit("INVALID_ARGUMENT");
}

/// Looking a native name up gives back the code it names.
proof fn lemma_code_from_wire_inverts_wire_code(code: ErrorCode)
    ensures
        crate::bridge::code_from_wire(wire_code(code)) == Some(code),
{
    reveal_strlit("CONTAINER_UNAVAILABLE");
    reveal_strlit("NOT_SIGNED_IN");
    reveal_strlit("PERMISSION_DENIED");
    reveal_strlit("PATH_OUTSIDE_CONTAINER");
    reveal_strlit("NOT_FOUND");
    reveal_strlit("ALREADY_EXISTS");
    reveal_strlit("IO_ERROR");
    reveal_strlit("SYNC_ERROR");
    reveal_strlit("INVALID_ARGUMENT");
    // The native names all have different lengths.
    let w = wire_code(code);
    assert(w == "CONTAINER_UNAVAILABLE"@ ==> w.len() == 21);
    assert(w == "NOT_SIGNED_IN"@ ==> w.len() == 13);
    assert(w == "PERMISSION_DENIED"@ ==> w.len() == 17);
    assert(w == "PATH_OUTSIDE_CONTAINER"@ ==> w.len() == 22);
    assert(w == "NOT_FOUND"@ ==> w.len() == 9);
    assert(w == "ALREADY_EXISTS"@ ==> w.len() == 14);
    assert(w == "IO_ERROR"@ ==> w.len() == 8);
    assert(w == "SYNC_ERROR"@ ==> w.len() == 10);
    assert(w == "INVALID_ARGUMENT"@ ==> w.len() == 16);
}

/// A failure that the native plugin raises with a code and a detail maps back
/// to that code and that detail, whatever the detail holds.
pub proof fn lemma_mobile_error_round_trip(code: ErrorCode, detail: Seq<char>)
    ensures
        mobile_error_outcome(mobile_error_prefix() + wire_code(code) + ":"@ + detail)
            == error_of(code, Some(detail)),
        mobile_error_outcome(mobile_error_prefix() + wire_code(code)) == error_of(code, None),
{
    reveal_strlit("ICLOUD_CONTAINER_ERROR:");
    reveal_strlit(":");
    lemma_wire_code_has_no_colon(code);
    lemma_code_from_wire_inverts_wire_code(code);
    let p = mobile_error_prefix();
    let w = wire_code(code);
    let m = p + w + ":"@ + detail;
    assert(p.is_prefix_of(m)) by {
        assert forall|i: int| 0 <= i < p.len() implies p[i] == m[i] by {}
    }
    let rest = m.skip(p.len() as int);
    assert(rest =~= w + ":"@ + detail);
    rest.index_of_first_ensures(':');
    assert(rest[w.len() as int] == ':');
    let k = rest.index_of_first(':')->Some_0;
    if k < w.len() {
        assert(w[k] == rest[k]);
        assert(w.contains(':'));
    }
    assert(k == w.len());
    assert(rest.take(k) =~= w);
    assert(rest.skip(k + 1) =~= detail);
    let m2 = p + w;
    assert(p.is_prefix_of(m2)) by {
        assert forall|i: int| 0 <= i < p.len() implies p[i] == m2[i] by {}
    }
    let rest2 = m2.skip(p.len() as int);
    assert(rest2 =~= w);
    rest2.index_of_first_ensures(':');
}

/// A failure message without the plugin's prefix becomes an `io_error` that
/// carries the whole message.
pub proof fn lemma_unprefixed_failure_is_io_error(message: Seq<char>)
    requires
        !mobile_error_prefix().is_prefix_of(message),
    ensures
        mobile_error_outcome(message) == error_of(ErrorCode::IoError, Some(message)),
{
}

/// A failure raised with the plugin's prefix but a name that is no known code
/// becomes an `io_error` that carries the whole message, with or without a
/// detail after the name.
pub proof fn lemma_unknown_native_code_is_io_error(name: Seq<char>, detail: Seq<char>)
    requires
        !name.contains(':'),
        forall|code: ErrorCode| name != #[trigger] wire_code(code),
    ensures
        mobile_error_outcome(mobile_error_prefix() + name) == error_of(
            ErrorCode::IoError,
            Some(mobile_error_prefix() + name),
        ),
        mobile_error_outcome(mobile_error_prefix() + name + ":"@ + detail) == error_of(
            ErrorCode::IoError,
            Some(mobile_error_prefix() + name + ":"@ + detail),
        ),
{
    reveal_strlit(":");
    assert(name != wire_code(ErrorCode::ContainerUnavailable));
    assert(name != wire_code(ErrorCode::NotSignedIn));
    assert(name != wire_code(ErrorCode::PermissionDenied));
    assert(name != wire_code(ErrorCode::PathOutsideContainer));
    assert(name != wire_code(ErrorCode::NotFound));
    assert(name != wire_code(ErrorCode::AlreadyExists));
    assert(name != wire_code(ErrorCode::IoError));
    assert(name != wire_code(ErrorCode::SyncError));
    assert(name != wire_code(ErrorCode::InvalidArgument));
    assert(crate::bridge::code_from_wire(name) is None);
    let p = mobile_error_prefix();
    let m = p + name + ":"@ + detail;
    assert(p.is_prefix_of(m)) by {
        assert forall|i: int| 0 <= i < p.len() implies p[i] == m[i] by {}
    }
    let rest = m.skip(p.len() as int);
    assert(rest =~= name + ":"@ + detail);
    rest.index_of_first_ensures(':');
    assert(rest[name.len() as int] == ':');
    let k = rest.index_of_first(':')->Some_0;
    if k < name.len() {
        assert(name[k] == rest[k]);
        assert(name.contains(':'));
    }
    assert(rest.take(k) =~= name);
    let m2 = p + name;
    assert(p.is_prefix_of(m2)) by {
        assert forall|i: int| 0 <= i < p.len() implies p[i] == m2[i] by {}
    }
    let rest2 = m2.skip(p.len() as int);
    assert(rest2 =~= name);
    rest2.index_of_first_ensures(':');
}

/// Normalizing keeps a non-blank identifier as its trimmed form and drops a
/// blank or absent one.
pub proof fn lemma_normalization_keeps_non_blank_identifiers(value: Seq<char>)
    ensures
        trim(value).len() > 0 ==> normalized_identifier(Some(value)) == Some(trim(value)),
        trim(value).len() == 0 ==> normalized_identifier(Some(value)) is None,
        normalized_identifier(None) is None,
{
}

// ============================================================================
// Content
// ============================================================================

/// Binary content goes to the native side byte for byte.
pub proof fn lemma_binary_content_is_sent_unchanged(encoding: String, content: Vec<u8>)
    ensures
        content_bytes(FileContent::Bytes { encoding, content }) == content@,
{
}

// ============================================================================
// What each check accepts, field by field
// ============================================================================

/// Every safe path is accepted as its trimmed form: a path that, once
/// trimmed, is not blank, does not start at the root, and has no component
/// that is exactly `..` (two dots between separators or the ends).
pub proof fn lemma_safe_paths_are_accepted(path: Seq<char>)
    requires
        trim(path).len() > 0,
        trim(path)[0] != '/',
        forall|i: int|
            0 <= i && i + 2 <= trim(path).len() && #[trigger] trim(path)[i] == '.' && trim(path)[i
                + 1] == '.' && (i == 0 || trim(path)[i - 1] == '/') ==> i + 2 < trim(path).len()
                && trim(path)[i + 2] != '/',
    ensures
        relative_path_outcome(path) == Ok::<Seq<char>, crate::error::ErrorView>(trim(path)),
{
    let t = trim(path);
    if has_parent_segment(t) {
        let i = choose|i: int| crate::commands::parent_segment_at(t, i);
        assert(t[i] == '.');
    }
}

/// Every unsafe path is refused: a blank one as an invalid argument, one
/// that starts at the root or climbs through a `..` component as leaving the
/// container.
pub proof fn lemma_unsafe_paths_are_refused(path: Seq<char>)
    ensures
        trim(path).len() == 0 ==> relative_path_outcome(path) is Err && relative_path_outcome(
            path,
        )->Err_0.code == ErrorCode::InvalidArgument,
        trim(path).len() > 0 && trim(path)[0] == '/' ==> relative_path_outcome(path) is Err
            && relative_path_outcome(path)->Err_0.code == ErrorCode::PathOutsideContainer,
        forall|i: int|
            0 <= i && i + 2 <= trim(path).len() && #[trigger] trim(path)[i] == '.' && trim(path)[i
                + 1] == '.' && (i == 0 || trim(path)[i - 1] == '/') && (i + 2 == trim(path).len()
                || trim(path)[i + 2] == '/') ==> relative_path_outcome(path) is Err
                && relative_path_outcome(path)->Err_0.code == ErrorCode::PathOutsideContainer,
{
    let t = trim(path);
    assert forall|i: int|
        0 <= i && i + 2 <= t.len() && #[trigger] t[i] == '.' && t[i + 1] == '.' && (i == 0 || t[i
            - 1] == '/') && (i + 2 == t.len() || t[i + 2] == '/') implies relative_path_outcome(
        path,
    ) is Err && relative_path_outcome(path)->Err_0.code == ErrorCode::PathOutsideContainer by {
        assert(crate::commands::parent_segment_at(t, i));
    }
}

/// A non-blank identifier or watch id is accepted as its trimmed form; a
/// blank one is refused as an invalid argument.
pub proof fn lemma_non_blank_identifiers_are_accepted(value: Seq<char>)
    ensures
        trim(value).len() > 0 ==> identifier_outcome(value) == Ok::<
            Seq<char>,
            crate::error::ErrorView,
        >(trim(value)) && watch_id_outcome(value) == Ok::<Seq<char>, crate::error::ErrorView>(
            trim(value),
        ),
        trim(value).len() == 0 ==> identifier_outcome(value) is Err && identifier_outcome(
            value,
        )->Err_0.code == ErrorCode::InvalidArgument && watch_id_outcome(value) is Err
            && watch_id_outcome(value)->Err_0.code == ErrorCode::InvalidArgument,
        optional_identifier_outcome(None) == Ok::<Option<Seq<char>>, crate::error::ErrorView>(
            None,
        ),
        trim(value).len() > 0 ==> optional_identifier_outcome(Some(value)) == Ok::<
            Option<Seq<char>>,
            crate::error::ErrorView,
        >(Some(trim(value))),
{
}

/// The two encodings are accepted by name, with surrounding whitespace, and
/// no encoding (or a blank one) means `utf8`; any other name is refused as an
/// invalid argument.
pub proof fn lemma_encodings_are_accepted_by_name(value: Seq<char>)
    ensures
        encoding_outcome(None) == Ok::<Seq<char>, crate::error::ErrorView>("utf8"@),
        trim(value).len() == 0 ==> encoding_outcome(Some(value)) == Ok::<
            Seq<char>,
            crate::error::ErrorView,
        >("utf8"@),
        trim(value) == "utf8"@ ==> encoding_outcome(Some(value)) == Ok::<
            Seq<char>,
            crate::error::ErrorView,
        >("utf8"@),
        trim(value) == "bytes"@ ==> encoding_outcome(Some(value)) == Ok::<
            Seq<char>,
            crate::error::ErrorView,
        >("bytes"@),
        trim(value).len() > 0 && trim(value) != "utf8"@ && trim(value) != "bytes"@
            ==> encoding_outcome(Some(value)) is Err && encoding_outcome(Some(value))->Err_0.code
            == ErrorCode::InvalidArgument,
{
    reveal_strlit("utf8");
    reveal_strlit("bytes");
    assert("utf8"@.len() != "bytes"@.len());
}

/// Write options are resolved field by field: the encoding alone decides
/// whether they are accepted, a given overwrite flag or protection is kept
/// whatever the other fields hold, and absent ones mean overwriting and
/// complete protection.
pub proof fn lemma_write_options_resolve_each_field(o: WriteFileOptions)
    ensures
        write_options_outcome(Some(o)) is Ok <==> encoding_outcome(o.encoding.deep_view()) is Ok,
        write_options_outcome(Some(o)) is Err ==> write_options_outcome(Some(o))->Err_0
            == encoding_outcome(o.encoding.deep_view())->Err_0,
        write_options_outcome(Some(o)) is Ok ==> {
            let (encoding, overwrite, protection) = write_options_outcome(Some(o))->Ok_0;
            &&& encoding == encoding_outcome(o.encoding.deep_view())->Ok_0
            &&& (forall|b: bool| o.overwrite == Some(b) ==> overwrite == b)
            &&& o.overwrite is None ==> overwrite
            &&& (forall|p: FileProtectionType| o.file_protection == Some(p) ==> protection == p)
            &&& o.file_protection is None ==> protection == FileProtectionType::Complete
        },
{
}

/// Read options resolve to the encoding they name, as `resolve_encoding`
/// resolves it.
pub proof fn lemma_read_options_resolve_the_encoding(o: ReadFileOptions)
    ensures
        read_options_outcome(Some(o)) == encoding_outcome(o.encoding.deep_view()),
        read_options_outcome(None) == encoding_outcome(None),
{
}

/// Create-file options are resolved field by field: the encoding alone
/// decides whether they are accepted, given content is carried byte for byte
/// and a given protection is kept whatever the other fields hold, and absent
/// ones mean empty content and complete protection.
pub proof fn lemma_create_file_options_resolve_each_field(o: CreateFileOptions)
    ensures
        create_file_options_outcome(Some(o)) is Ok <==> encoding_outcome(o.encoding.deep_view())
            is Ok,
        create_file_options_outcome(Some(o)) is Err ==> create_file_options_outcome(
            Some(o),
        )->Err_0 == encoding_outcome(o.encoding.deep_view())->Err_0,
        create_file_options_outcome(Some(o)) is Ok ==> {
            let (content, encoding, protection) = create_file_options_outcome(Some(o))->Ok_0;
            &&& encoding == encoding_outcome(o.encoding.deep_view())->Ok_0
            &&& (forall|c: Vec<u8>| o.content == Some(c) ==> content == c@)
            &&& o.content is None ==> content.len() == 0
            &&& (forall|p: FileProtectionType| o.file_protection == Some(p) ==> protection == p)
            &&& o.file_protection is None ==> protection == FileProtectionType::Complete
        },
{
    if let Some(c) = o.content {
        assert(c.deep_view() =~= c@);
    }
}

/// Create-directory options are resolved field by field: a given flag or
/// protection is kept whatever the other field holds, and absent ones mean
/// creating intermediate directories with complete protection.
pub proof fn lemma_create_directory_options_resolve_each_field(o: CreateDirectoryOptions)
    ensures
        ({
            let (intermediate, protection) = create_directory_options_outcome(Some(o));
            &&& (forall|b: bool| o.with_intermediate_directories == Some(b) ==> intermediate == b)
            &&& o.with_intermediate_directories is None ==> intermediate
            &&& (forall|p: FileProtectionType| o.file_protection == Some(p) ==> protection == p)
            &&& o.file_protection is None ==> protection == FileProtectionType::Complete
        }),
{
}

/// List-directory options are resolved field by field: each given flag is
/// kept whatever the other holds, and absent ones are off.
pub proof fn lemma_list_directory_options_resolve_each_field(o: ListDirectoryOptions)
    ensures
        ({
            let (recursive, skips_hidden_files) = list_directory_options_outcome(Some(o));
            &&& (forall|b: bool| o.recursive == Some(b) ==> recursive == b)
            &&& o.recursive is None ==> !recursive
            &&& (forall|b: bool| o.skips_hidden_files == Some(b) ==> skips_hidden_files == b)
            &&& o.skips_hidden_files is None ==> !skips_hidden_files
        }),
{
}

// ============================================================================
// Requests are their checks put together
// ============================================================================

/// A command on one item is accepted exactly when its path and its
/// identifier are, and carries what each check gave; otherwise it fails with
/// the path's error, or failing that the identifier's.
pub proof fn lemma_path_request_is_its_checks(path: Seq<char>, identifier: Option<Seq<char>>)
    ensures
        path_request_outcome(path, identifier) is Ok <==> relative_path_outcome(path) is Ok
            && optional_identifier_outcome(identifier) is Ok,
        path_request_outcome(path, identifier) is Ok ==> path_request_outcome(path, identifier)->Ok_0
            == (relative_path_outcome(path)->Ok_0, optional_identifier_outcome(identifier)->Ok_0),
        relative_path_outcome(path) is Err ==> path_request_outcome(path, identifier)->Err_0
            == relative_path_outcome(path)->Err_0,
        relative_path_outcome(path) is Ok && optional_identifier_outcome(identifier) is Err
            ==> path_request_outcome(path, identifier)->Err_0 == optional_identifier_outcome(
            identifier,
        )->Err_0,
{
}

/// `read_file`, `write_file`, `create_file`, `create_directory` and
/// `list_directory` are accepted exactly when their path, identifier and
/// options are, and carry what each check gave; the options' error comes
/// only after the path and identifier passed.
pub proof fn lemma_option_requests_are_their_checks(
    path: Seq<char>,
    identifier: Option<Seq<char>>,
    read: Option<ReadFileOptions>,
    write: Option<WriteFileOptions>,
    create: Option<CreateFileOptions>,
    directory: Option<CreateDirectoryOptions>,
    list: Option<ListDirectoryOptions>,
)
    ensures
        ({
            let base = path_request_outcome(path, identifier);
            let p = relative_path_outcome(path)->Ok_0;
            let id = optional_identifier_outcome(identifier)->Ok_0;
            &&& read_file_request_outcome(path, identifier, read) is Ok <==> base is Ok
                && read_options_outcome(read) is Ok
            &&& read_file_request_outcome(path, identifier, read) is Ok ==> read_file_request_outcome(
                path,
                identifier,
                read,
            )->Ok_0 == (p, id, read_options_outcome(read)->Ok_0)
            &&& base is Ok && read_options_outcome(read) is Err ==> read_file_request_outcome(
                path,
                identifier,
                read,
            )->Err_0 == read_options_outcome(read)->Err_0
            &&& write_file_request_outcome(path, identifier, write) is Ok <==> base is Ok
                && write_options_outcome(write) is Ok
            &&& write_file_request_outcome(path, identifier, write) is Ok ==> {
                let (e, ow, pr) = write_options_outcome(write)->Ok_0;
                write_file_request_outcome(path, identifier, write)->Ok_0 == (p, id, e, ow, pr)
            }
            &&& base is Ok && write_options_outcome(write) is Err ==> write_file_request_outcome(
                path,
                identifier,
                write,
            )->Err_0 == write_options_outcome(write)->Err_0
            &&& create_file_request_outcome(path, identifier, create) is Ok <==> base is Ok
                && create_file_options_outcome(create) is Ok
            &&& create_file_request_outcome(path, identifier, create) is Ok ==> {
                let (c, e, pr) = create_file_options_outcome(create)->Ok_0;
                create_file_request_outcome(path, identifier, create)->Ok_0 == (p, id, c, e, pr)
            }
            &&& base is Ok && create_file_options_outcome(create) is Err
                ==> create_file_request_outcome(path, identifier, create)->Err_0
                == create_file_options_outcome(create)->Err_0
            &&& create_directory_request_outcome(path, identifier, directory) is Ok <==> base is Ok
            &&& create_directory_request_outcome(path, identifier, directory) is Ok ==> {
                let (w, pr) = create_directory_options_outcome(directory);
                create_directory_request_outcome(path, identifier, directory)->Ok_0 == (
                    p,
                    id,
                    w,
                    pr,
                )
            }
            &&& list_directory_request_outcome(path, identifier, list) is Ok <==> base is Ok
            &&& list_directory_request_outcome(path, identifier, list) is Ok ==> {
                let (r, h) = list_directory_options_outcome(list);
                list_directory_request_outcome(path, identifier, list)->Ok_0 == (p, id, r, h)
            }
        }),
{
}

/// `move_item` and `copy_item` are accepted exactly when both paths and the
/// identifier are, carry what each check gave in their own places, and fail
/// with the source's error first, then the destination's, then the
/// identifier's.
pub proof fn lemma_transfer_request_is_its_checks(
    source: Seq<char>,
    destination: Seq<char>,
    identifier: Option<Seq<char>>,
)
    ensures
        transfer_request_outcome(source, destination, identifier) is Ok <==> relative_path_outcome(
            source,
        ) is Ok && relative_path_outcome(destination) is Ok && optional_identifier_outcome(
            identifier,
        ) is Ok,
        transfer_request_outcome(source, destination, identifier) is Ok ==> transfer_request_outcome(
            source,
            destination,
            identifier,
        )->Ok_0 == (
            relative_path_outcome(source)->Ok_0,
            relative_path_outcome(destination)->Ok_0,
            optional_identifier_outcome(identifier)->Ok_0,
        ),
        relative_path_outcome(source) is Err ==> transfer_request_outcome(
            source,
            destination,
            identifier,
        )->Err_0 == relative_path_outcome(source)->Err_0,
        relative_path_outcome(source) is Ok && relative_path_outcome(destination) is Err
            ==> transfer_request_outcome(source, destination, identifier)->Err_0
            == relative_path_outcome(destination)->Err_0,
        relative_path_outcome(source) is Ok && relative_path_outcome(destination) is Ok
            && optional_identifier_outcome(identifier) is Err ==> transfer_request_outcome(
            source,
            destination,
            identifier,
        )->Err_0 == optional_identifier_outcome(identifier)->Err_0,
{
}

// ============================================================================
// Trimming
// ============================================================================

/// Trimming removes exactly the whitespace at both ends: what is left is a
/// range of the text, everything before and after it is whitespace, and it
/// neither starts nor ends with whitespace.
pub proof fn lemma_trim_removes_exactly_outer_whitespace(s: Seq<char>)
    ensures
        exists|lo: int, hi: int|
            {
                &&& 0 <= lo <= hi <= s.len()
                &&& trim(s) == s.subrange(lo, hi)
                &&& forall|j: int| 0 <= j < lo ==> is_whitespace(#[trigger] s[j])
                &&& forall|j: int| hi <= j < s.len() ==> is_whitespace(#[trigger] s[j])
                &&& lo < hi ==> !is_whitespace(s[lo]) && !is_whitespace(s[hi - 1])
            },
{
    let lo = first_non_whitespace(s, 0);
    if lo == s.len() {
        crate::text::lemma_trim_is_subrange(s, lo, lo);
        assert(trim(s) == s.subrange(lo, lo));
    } else {
        let hi = end_of_non_whitespace(s, s.len() as int);
        if hi <= lo {
            assert(is_whitespace(s[lo]));
        }
        crate::text::lemma_trim_is_subrange(s, lo, hi);
        assert(trim(s) == s.subrange(lo, hi));
    }
}

/// The first position at or after `i` that holds no whitespace, or the end.
proof fn first_non_whitespace(s: Seq<char>, i: int) -> (r: int)
    requires
        0 <= i <= s.len(),
    ensures
        i <= r <= s.len(),
        forall|j: int| i <= j < r ==> is_whitespace(#[trigger] s[j]),
        r < s.len() ==> !is_whitespace(s[r]),
    decreases s.len() - i,
{
    if i == s.len() || !is_whitespace(s[i]) {
        i
    } else {
        first_non_whitespace(s, i + 1)
    }
}

/// The position after the last character before `k` that is not
/// whitespace, or the start.
proof fn end_of_non_whitespace(s: Seq<char>, k: int) -> (r: int)
    requires
        0 <= k <= s.len(),
    ensures
        0 <= r <= k,
        forall|j: int| r <= j < k ==> is_whitespace(#[trigger] s[j]),
        r > 0 ==> !is_whitespace(s[r - 1]),
    decreases k,
{
    if k == 0 || !is_whitespace(s[k - 1]) {
        k
    } else {
        end_of_non_whitespace(s, k - 1)
    }
}

} // verus!
