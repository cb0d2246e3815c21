//! What the bridge to the native iOS plugin decides before and after each
//! call: which container identifier goes out, how content and protection are
//! put on the wire, and which error a native failure message stands for.
use vstd::prelude::*;

use crate::error::{error_of, ErrorCode, ErrorView, PluginError};
use crate::models::{FileContent, FileProtectionType};
use crate::text::{chars_of, range_equals, trim, trim_bounds};

verus! {

// ============================================================================
// Container identifiers
// ============================================================================

/// An identifier after normalizing: trimmed, and absent when blank.
pub open spec fn normalized_identifier(identifier: Option<Seq<char>>) -> Option<Seq<char>> {
    match identifier {
        None => None,
        Some(value) => if trim(value).len() == 0 {
            None
        } else {
            Some(trim(value))
        },
    }
}

/// An identifier that normalizing leaves as it is: absent, or trimmed and
/// not empty.
pub open spec fn is_normalized_identifier(identifier: Option<Seq<char>>) -> bool {
    match identifier {
        None => true,
        Some(value) => value.len() > 0 && trim(value) == value,
    }
}

/// Trims an identifier and discards it when it is blank.
pub fn normalize_identifier(identifier: Option<String>) -> (r: Option<String>)
    ensures
        r.deep_view() == normalized_identifier(identifier.deep_view()),
{
    match identifier {
        None => None,
        Some(value) => {
            let v = chars_of(value.as_str());
            let (lo, hi) = trim_bounds(&v);
            if lo == hi {
                None
            } else {
                Some(value.as_str().substring_char(lo, hi).to_owned())
            }
        },
    }
}

/// The container identifier that the bridge uses when a command names none.
pub struct IdentifierResolver {
    default_identifier: Option<String>,
}

impl View for IdentifierResolver {
    type V = Option<Seq<char>>;

    /// The default identifier.
    closed spec fn view(&self) -> Option<Seq<char>> {
        self.default_identifier.deep_view()
    }
}

impl IdentifierResolver {
    #[verifier::type_invariant]
    closed spec fn default_is_normalized(self) -> bool {
        is_normalized_identifier(self.default_identifier.deep_view())
    }

    /// Keeps the normalized form of the configured default identifier.
    pub fn new(default_identifier: Option<String>) -> (r: Self)
        ensures
            r@ == normalized_identifier(default_identifier.deep_view()),
    {
        let normalized = normalize_identifier(default_identifier);
        proof {
            lemma_normalized_is_normalized(default_identifier.deep_view());
        }
        IdentifierResolver { default_identifier: normalized }
    }

    /// The normalized default identifier.
    pub fn default_identifier(&self) -> (r: Option<String>)
        ensures
            r.deep_view() == self@,
            is_normalized_identifier(r.deep_view()),
    {
        proof {
            use_type_invariant(self);
        }
        match &self.default_identifier {
            Some(d) => Some(d.clone()),
            None => None,
        }
    }

    /// The identifier to send: the override when it is not blank, else the
    /// default.
    pub fn resolve_identifier(&self, override_identifier: Option<String>) -> (r: Option<String>)
        ensures
            r.deep_view() == match normalized_identifier(override_identifier.deep_view()) {
                Some(id) => Some(id),
                None => self@,
            },
            is_normalized_identifier(r.deep_view()),
    {
        proof {
            lemma_normalized_is_normalized(override_identifier.deep_view());
        }
        match normalize_identifier(override_identifier) {
            Some(id) => Some(id),
            None => self.default_identifier(),
        }
    }
}

/// Normalizing gives an identifier that normalizing leaves as it is.
pub proof fn lemma_normalized_is_normalized(identifier: Option<Seq<char>>)
    ensures
        is_normalized_identifier(normalized_identifier(identifier)),
        normalized_identifier(normalized_identifier(identifier)) == normalized_identifier(
            identifier,
        ),
{
    if let Some(value) = identifier {
        crate::text::lemma_trim_idempotent(value);
    }
}

// ============================================================================
// Wire encodings
// ============================================================================

/// The bytes that carry a file's content: the UTF-8 encoding of text, or the
/// bytes themselves.
pub open spec fn content_bytes(content: FileContent) -> Seq<u8> {
    match content {
        FileContent::Utf8 { content, .. } => vstd::utf8::encode_utf8(content@),
        FileContent::Bytes { content, .. } => content@,
    }
}

/// The bytes that carry `content` to the native side.
pub fn file_content_to_bytes(content: FileContent) -> (r: Vec<u8>)
    ensures
        r@ == content_bytes(content),
{
    match content {
        FileContent::Utf8 { content, .. } => content.as_str().as_bytes_vec(),
        FileContent::Bytes { content, .. } => content,
    }
}

/// The wire name of each protection class.
pub open spec fn protection_wire_name(value: FileProtectionType) -> Seq<char> {
    match value {
        FileProtectionType::Complete => "complete"@,
        FileProtectionType::CompleteUnlessOpen => "completeUnlessOpen"@,
        FileProtectionType::CompleteUntilFirstUserAuth => "completeUntilFirstUserAuth"@,
        FileProtectionType::NoProtection => "none"@,
    }
}

/// The wire name of a protection class.
pub fn file_protection_to_wire(value: FileProtectionType) -> (r: &'static str)
    ensures
        r@ == protection_wire_name(value),
{
    match value {
        FileProtectionType::Complete => "complete",
        FileProtectionType::CompleteUnlessOpen => "completeUnlessOpen",
        FileProtectionType::CompleteUntilFirstUserAuth => "completeUntilFirstUserAuth",
        FileProtectionType::NoProtection => "none",
    }
}

// ============================================================================
// Native failure messages
// ============================================================================

/// The prefix of a failure message that the native plugin raised on purpose.
pub open spec fn mobile_error_prefix() -> Seq<char> {
    "ICLOUD_CONTAINER_ERROR:"@
}

/// The native name of each error code.
pub open spec fn wire_code(code: ErrorCode) -> Seq<char> {
    match code {
        ErrorCode::ContainerUnavailable => "CONTAINER_UNAVAILABLE"@,
        ErrorCode::NotSignedIn => "NOT_SIGNED_IN"@,
        ErrorCode::PermissionDenied => "PERMISSION_DENIED"@,
        ErrorCode::PathOutsideContainer => "PATH_OUTSIDE_CONTAINER"@,
        ErrorCode::NotFound => "NOT_FOUND"@,
        ErrorCode::AlreadyExists => "ALREADY_EXISTS"@,
        ErrorCode::IoError => "IO_ERROR"@,
        ErrorCode::SyncError => "SYNC_ERROR"@,
        ErrorCode::InvalidArgument => "INVALID_ARGUMENT"@,
    }
}

/// The code whose native name is `name`, if any.
pub open spec fn code_from_wire(name: Seq<char>) -> Option<ErrorCode> {
    if name == "CONTAINER_UNAVAILABLE"@ {
        Some(ErrorCode::ContainerUnavailable)
    } else if name == "NOT_SIGNED_IN"@ {
        Some(ErrorCode::NotSignedIn)
    } else if name == "PERMISSION_DENIED"@ {
        Some(ErrorCode::PermissionDenied)
    } else if name == "PATH_OUTSIDE_CONTAINER"@ {
        Some(ErrorCode::PathOutsideContainer)
    } else if name == "NOT_FOUND"@ {
        Some(ErrorCode::NotFound)
    } else if name == "ALREADY_EXISTS"@ {
        Some(ErrorCode::AlreadyExists)
    } else if name == "IO_ERROR"@ {
        Some(ErrorCode::IoError)
    } else if name == "SYNC_ERROR"@ {
        Some(ErrorCode::SyncError)
    } else if name == "INVALID_ARGUMENT"@ {
        Some(ErrorCode::InvalidArgument)
    } else {
        None
    }
}

/// The error that a native failure message stands for. A message of the
/// form `ICLOUD_CONTAINER_ERROR:<CODE>[:<detail>]` with a known code gives
/// that code and the detail after the first `:` that follows the code; any
/// other message gives an `io_error` that carries the whole message.
pub open spec fn mobile_error_outcome(message: Seq<char>) -> ErrorView {
    let p = mobile_error_prefix();
    if p.is_prefix_of(message) {
        let rest = message.skip(p.len() as int);
        let (name, detail) = match rest.index_of_first(':') {
            Some(k) => (rest.take(k), Some(rest.skip(k + 1))),
            None => (rest, None),
        };
        match code_from_wire(name) {
            Some(code) => error_of(code, detail),
            None => error_of(ErrorCode::IoError, Some(message)),
        }
    } else {
        error_of(ErrorCode::IoError, Some(message))
    }
}

/// The code whose native name is spelled by `v` in `lo..hi`, if any.
fn code_from_wire_range(v: &Vec<char>, lo: usize, hi: usize) -> (r: Option<ErrorCode>)
    requires
        lo <= hi <= v@.len(),
    ensures
        r == code_from_wire(v@.subrange(lo as int, hi as int)),
{
    if range_equals(v, lo, hi, "CONTAINER_UNAVAILABLE") {
        Some(ErrorCode::ContainerUnavailable)
    } else if range_equals(v, lo, hi, "NOT_SIGNED_IN") {
        Some(ErrorCode::NotSignedIn)
    } else if range_equals(v, lo, hi, "PERMISSION_DENIED") {
        Some(ErrorCode::PermissionDenied)
    } else if range_equals(v, lo, hi, "PATH_OUTSIDE_CONTAINER") {
        Some(ErrorCode::PathOutsideContainer)
    } else if range_equals(v, lo, hi, "NOT_FOUND") {
        Some(ErrorCode::NotFound)
    } else if range_equals(v, lo, hi, "ALREADY_EXISTS") {
        Some(ErrorCode::AlreadyExists)
    } else if range_equals(v, lo, hi, "IO_ERROR") {
        Some(ErrorCode::IoError)
    } else if range_equals(v, lo, hi, "SYNC_ERROR") {
        Some(ErrorCode::SyncError)
    } else if range_equals(v, lo, hi, "INVALID_ARGUMENT") {
        Some(ErrorCode::InvalidArgument)
    } else {
        None
    }
}

/// The position of the first `:` in `v` at or after `from`, if any.
fn find_colon(v: &Vec<char>, from: usize) -> (r: Option<usize>)
    requires
        from <= v@.len(),
    ensures
        match r {
            Some(k) => from <= k < v@.len() && v@[k as int] == ':' && forall|j: int|
                from <= j < k ==> v@[j] != ':',
            None => forall|j: int| from <= j < v@.len() ==> v@[j] != ':',
        },
{
    let mut k: usize = from;
    while k < v.len()
        invariant
            from <= k <= v@.len(),
            forall|j: int| from <= j < k ==> v@[j] != ':',
        decreases v@.len() - k,
    {
        if v[k] == ':' {
            return Some(k);
        }
        k = k + 1;
    }
    None
}

/// Maps a failure message of the native plugin to the plugin's error.
pub fn normalize_mobile_error(message: String) -> (r: PluginError)
    ensures
        r@ == mobile_error_outcome(message@),
{
    let v = chars_of(message.as_str());
    let n = v.len();
    let plen = "ICLOUD_CONTAINER_ERROR:".unicode_len();
    let ghost p = mobile_error_prefix();
    let ghost m = message@;
    if plen > n || !range_equals(&v, 0, plen, "ICLOUD_CONTAINER_ERROR:") {
        proof {
            if p.is_prefix_of(m) {
                assert(m.subrange(0, plen as int) =~= p);
            }
        }
        return PluginError::IoError { detail: Some(message) };
    }
    let ghost rest = m.skip(plen as int);
    proof {
        assert(p.is_prefix_of(m)) by {
            assert(m.subrange(0, plen as int) == p);
            assert forall|i: int| 0 <= i < p.len() implies p[i] == m[i] by {
                assert(m.subrange(0, plen as int)[i] == m[i]);
            }
        }
        rest.index_of_first_ensures(':');
    }
    let (name_end, detail) = match find_colon(&v, plen) {
        Some(k) => {
            proof {
                assert(rest[k - plen] == ':');
                assert(rest.contains(':'));
                let f = rest.index_of_first(':').unwrap();
                assert(m[f + plen] == ':');
                if f < k - plen {
                    assert(v@[f + plen] != ':');
                }
                assert(forall|j: int| 0 <= j < f ==> rest[j] != ':');
                if f > k - plen {
                    assert(rest[k - plen] != ':');
                }
                assert(f == k - plen);
                assert(rest.take(f) =~= v@.subrange(plen as int, k as int));
                assert(rest.skip(f + 1) =~= m.subrange(k + 1, n as int));
            }
            (k, Some(message.as_str().substring_char(k + 1, n).to_owned()))
        },
        None => {
            proof {
                if rest.contains(':') {
                    let j = choose|j: int| 0 <= j < rest.len() && rest[j] == ':';
                    assert(v@[j + plen] == ':');
                }
                assert(rest =~= v@.subrange(plen as int, n as int));
            }
            (n, None)
        },
    };
    match code_from_wire_range(&v, plen, name_end) {
        Some(code) => PluginError::with_code(code, detail),
        None => PluginError::IoError { detail: Some(message) },
    }
}

} // verus!
