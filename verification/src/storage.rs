//! The storage-backend descriptor: where a resolved object lives.
//!
//! A [`Storage`] is a closed tagged union: a bare backend tag whose
//! parameters come from process-wide defaults, a fully specified
//! local-filesystem descriptor, or a fully specified object-store
//! descriptor.  Raw configuration does not carry the discriminant;
//! [`storage_from_raw`] computes it from which fields are present, in a
//! fixed priority order (bare tag, then object store, then local), and
//! rejects records whose fields straddle two variants.

use crate::util::str_eq;
use vstd::prelude::*;

verus! {

/// Schemes a local backend can serve over.
#[derive(Clone, Copy, Debug, PartialEq, Eq, Structural)]
pub enum Scheme {
    Http,
    Https,
}

impl Default for Scheme {
    /// Plain http.
    fn default() -> (r: Self)
        ensures
            r == Scheme::Http,
    {
        Scheme::Http
    }
}

/// The bare backend tags: parameters come from process-wide defaults.
#[derive(Clone, Copy, Debug, PartialEq, Eq, Structural)]
pub enum TaggedStorageTypes {
    Local,
    S3,
}

impl Default for TaggedStorageTypes {
    /// The local backend.
    fn default() -> (r: Self)
        ensures
            r == TaggedStorageTypes::Local,
    {
        TaggedStorageTypes::Local
    }
}

/// Specify the storage backend to use.
#[derive(Clone, Debug, PartialEq, Eq)]
pub enum Storage {
    Tagged(TaggedStorageTypes),
    Local { scheme: Scheme, authority: String, local_path: String, path_prefix: String },
    S3 { bucket: String },
}

/// The mathematical image of a [`Storage`], strings as character
/// sequences.
pub enum StorageView {
    Tagged(TaggedStorageTypes),
    Local { scheme: Scheme, authority: Seq<char>, local_path: Seq<char>, path_prefix: Seq<char> },
    S3 { bucket: Seq<char> },
}

impl View for Storage {
    type V = StorageView;

    open spec fn view(&self) -> StorageView {
        match self {
            Storage::Tagged(kind) => StorageView::Tagged(*kind),
            Storage::Local { scheme, authority, local_path, path_prefix } => StorageView::Local {
                scheme: *scheme,
                authority: authority@,
                local_path: local_path@,
                path_prefix: path_prefix@,
            },
            Storage::S3 { bucket } => StorageView::S3 { bucket: bucket@ },
        }
    }
}

impl Default for Storage {
    /// The default backend tag.
    fn default() -> (r: Self)
        ensures
            r == Storage::Tagged(TaggedStorageTypes::Local),
    {
        Storage::Tagged(TaggedStorageTypes::Local)
    }
}

/// The process-wide default authority of the local backend.
pub open spec fn spec_default_authority() -> Seq<char> {
    "127.0.0.1:8081"@
}

/// The process-wide default authority of the local backend.
pub fn default_authority() -> (r: String)
    ensures
        r@ == spec_default_authority(),
{
    "127.0.0.1:8081".to_owned()
}

/// The process-wide default path of the local backend.
pub open spec fn spec_default_local_path() -> Seq<char> {
    "data"@
}

/// The process-wide default path of the local backend.
pub fn default_local_path() -> (r: String)
    ensures
        r@ == spec_default_local_path(),
{
    "data".to_owned()
}

/// The process-wide default serve prefix of the local backend.
pub open spec fn spec_default_path_prefix() -> Seq<char> {
    "/data"@
}

/// The process-wide default serve prefix of the local backend.
pub fn default_path_prefix() -> (r: String)
    ensures
        r@ == spec_default_path_prefix(),
{
    "/data".to_owned()
}

/// The backend tag a raw string names, aliases included.
pub open spec fn spec_tag_of(s: Seq<char>) -> Option<TaggedStorageTypes> {
    if s == "Local"@ || s == "local"@ || s == "LOCAL"@ {
        Some(TaggedStorageTypes::Local)
    } else if s == "S3"@ || s == "s3"@ {
        Some(TaggedStorageTypes::S3)
    } else {
        None
    }
}

/// Parse a backend tag, aliases included.
pub fn tag_of(s: &String) -> (r: Option<TaggedStorageTypes>)
    ensures
        r == spec_tag_of(s@),
{
    if str_eq(s, "Local") || str_eq(s, "local") || str_eq(s, "LOCAL") {
        Some(TaggedStorageTypes::Local)
    } else if str_eq(s, "S3") || str_eq(s, "s3") {
        Some(TaggedStorageTypes::S3)
    } else {
        None
    }
}

/// The scheme a raw string names, aliases included.
pub open spec fn spec_scheme_of(s: Seq<char>) -> Option<Scheme> {
    if s == "HTTP"@ || s == "Http"@ || s == "http"@ {
        Some(Scheme::Http)
    } else if s == "HTTPS"@ || s == "Https"@ || s == "https"@ {
        Some(Scheme::Https)
    } else {
        None
    }
}

/// Parse a scheme name, aliases included.
pub fn scheme_of(s: &String) -> (r: Option<Scheme>)
    ensures
        r == spec_scheme_of(s@),
{
    if str_eq(s, "HTTP") || str_eq(s, "Http") || str_eq(s, "http") {
        Some(Scheme::Http)
    } else if str_eq(s, "HTTPS") || str_eq(s, "Https") || str_eq(s, "https") {
        Some(Scheme::Https)
    } else {
        None
    }
}

/// A raw storage record, as a configuration loader hands it over: the
/// recognized fields, each present or absent.  A loader must reject a
/// record with unrecognized keys before building one of these (the
/// schema is closed).
#[derive(Clone, Debug, PartialEq, Eq)]
pub struct RawStorage {
    pub tag: Option<String>,
    pub scheme: Option<String>,
    pub authority: Option<String>,
    pub local_path: Option<String>,
    pub path_prefix: Option<String>,
    pub bucket: Option<String>,
}

/// The mathematical image of a [`RawStorage`].
pub struct RawStorageView {
    pub tag: Option<Seq<char>>,
    pub scheme: Option<Seq<char>>,
    pub authority: Option<Seq<char>>,
    pub local_path: Option<Seq<char>>,
    pub path_prefix: Option<Seq<char>>,
    pub bucket: Option<Seq<char>>,
}

impl View for RawStorage {
    type V = RawStorageView;

    open spec fn view(&self) -> RawStorageView {
        RawStorageView {
            tag: self.tag.deep_view(),
            scheme: self.scheme.deep_view(),
            authority: self.authority.deep_view(),
            local_path: self.local_path.deep_view(),
            path_prefix: self.path_prefix.deep_view(),
            bucket: self.bucket.deep_view(),
        }
    }
}

impl Default for RawStorage {
    /// The empty record: no field present.
    fn default() -> (r: Self)
        ensures
            r.tag is None,
            r.scheme is None,
            r.authority is None,
            r.local_path is None,
            r.path_prefix is None,
            r.bucket is None,
    {
        RawStorage {
            tag: None,
            scheme: None,
            authority: None,
            local_path: None,
            path_prefix: None,
            bucket: None,
        }
    }
}

impl RawStorageView {
    /// Some field of the fully specified local variant is present.
    pub open spec fn has_local_field(self) -> bool {
        self.scheme is Some || self.authority is Some || self.local_path is Some
            || self.path_prefix is Some
    }
}

/// Which storage descriptor a raw record denotes, or `None` when the
/// record must be rejected: a tag next to any other field, a bucket next
/// to a local field, an unknown tag, or an unknown scheme name.  Fields
/// absent from a plausible local record take the documented defaults,
/// each independently.
pub open spec fn spec_storage_from_raw(raw: RawStorageView) -> Option<StorageView> {
    match raw.tag {
        Some(tag) => if raw.has_local_field() || raw.bucket is Some {
            None
        } else {
            match spec_tag_of(tag) {
                Some(kind) => Some(StorageView::Tagged(kind)),
                None => None,
            }
        },
        None => match raw.bucket {
            Some(bucket) => if raw.has_local_field() {
                None
            } else {
                Some(StorageView::S3 { bucket })
            },
            None => {
                let scheme = match raw.scheme {
                    Some(s) => spec_scheme_of(s),
                    None => Some(Scheme::Http),
                };
                match scheme {
                    Some(scheme) => Some(
                        StorageView::Local {
                            scheme,
                            authority: raw.authority.unwrap_or(spec_default_authority()),
                            local_path: raw.local_path.unwrap_or(spec_default_local_path()),
                            path_prefix: raw.path_prefix.unwrap_or(spec_default_path_prefix()),
                        },
                    ),
                    None => None,
                }
            },
        },
    }
}

/// Decode a raw record into the storage descriptor it denotes, exactly
/// as [`spec_storage_from_raw`] says; `None` is rejection.
pub fn storage_from_raw(raw: RawStorage) -> (r: Option<Storage>)
    ensures
        (match r {
            Some(s) => spec_storage_from_raw(raw@) == Some(s@),
            None => spec_storage_from_raw(raw@) is None,
        }),
{
    let RawStorage { tag, scheme, authority, local_path, path_prefix, bucket } = raw;
    let has_local_field = scheme.is_some() || authority.is_some() || local_path.is_some()
        || path_prefix.is_some();
    match tag {
        Some(tag) => {
            if has_local_field || bucket.is_some() {
                None
            } else {
                match tag_of(&tag) {
                    Some(kind) => Some(Storage::Tagged(kind)),
                    None => None,
                }
            }
        },
        None => match bucket {
            Some(bucket) => {
                if has_local_field {
                    None
                } else {
                    Some(Storage::S3 { bucket })
                }
            },
            None => {
                let parsed_scheme = match &scheme {
                    Some(s) => scheme_of(s),
                    None => Some(Scheme::Http),
                };
                match parsed_scheme {
                    Some(sch) => Some(
                        Storage::Local {
                            scheme: sch,
                            authority: match authority {
                                Some(a) => a,
                                None => default_authority(),
                            },
                            local_path: match local_path {
                                Some(p) => p,
                                None => default_local_path(),
                            },
                            path_prefix: match path_prefix {
                                Some(p) => p,
                                None => default_path_prefix(),
                            },
                        },
                    ),
                    None => None,
                }
            },
        },
    }
}

/// The canonical raw name of a backend tag.
pub open spec fn spec_tag_name(kind: TaggedStorageTypes) -> Seq<char> {
    match kind {
        TaggedStorageTypes::Local => "Local"@,
        TaggedStorageTypes::S3 => "S3"@,
    }
}

/// The canonical raw name of a scheme.
pub open spec fn spec_scheme_name(scheme: Scheme) -> Seq<char> {
    match scheme {
        Scheme::Http => "HTTP"@,
        Scheme::Https => "HTTPS"@,
    }
}

/// The raw record a storage descriptor writes out as: a bare tag writes
/// the tag field alone, the other variants write every one of their
/// fields under its canonical name.
pub open spec fn spec_storage_to_raw(s: StorageView) -> RawStorageView {
    match s {
        StorageView::Tagged(kind) => RawStorageView {
            tag: Some(spec_tag_name(kind)),
            scheme: None,
            authority: None,
            local_path: None,
            path_prefix: None,
            bucket: None,
        },
        StorageView::Local { scheme, authority, local_path, path_prefix } => RawStorageView {
            tag: None,
            scheme: Some(spec_scheme_name(scheme)),
            authority: Some(authority),
            local_path: Some(local_path),
            path_prefix: Some(path_prefix),
            bucket: None,
        },
        StorageView::S3 { bucket } => RawStorageView {
            tag: None,
            scheme: None,
            authority: None,
            local_path: None,
            path_prefix: None,
            bucket: Some(bucket),
        },
    }
}

/// Write a storage descriptor back out as a raw record, exactly as
/// [`spec_storage_to_raw`] says.
pub fn storage_to_raw(s: &Storage) -> (r: RawStorage)
    ensures
        r@ == spec_storage_to_raw(s@),
{
    match s {
        Storage::Tagged(kind) => {
            let name: String = match kind {
                TaggedStorageTypes::Local => "Local".to_owned(),
                TaggedStorageTypes::S3 => "S3".to_owned(),
            };
            RawStorage {
                tag: Some(name),
                scheme: None,
                authority: None,
                local_path: None,
                path_prefix: None,
                bucket: None,
            }
        },
        Storage::Local { scheme, authority, local_path, path_prefix } => {
            let name: String = match scheme {
                Scheme::Http => "HTTP".to_owned(),
                Scheme::Https => "HTTPS".to_owned(),
            };
            RawStorage {
                tag: None,
                scheme: Some(name),
                authority: Some(authority.clone()),
                local_path: Some(local_path.clone()),
                path_prefix: Some(path_prefix.clone()),
                bucket: None,
            }
        },
        Storage::S3 { bucket } => RawStorage {
            tag: None,
            scheme: None,
            authority: None,
            local_path: None,
            path_prefix: None,
            bucket: Some(bucket.clone()),
        },
    }
}

/// Law: writing any storage descriptor out as a raw record and decoding
/// that record yields the descriptor back — a bare tag stays the same
/// bare tag, and a fully specified variant keeps every field.
pub proof fn lemma_storage_raw_round_trip(s: StorageView)
    ensures
        spec_storage_from_raw(spec_storage_to_raw(s)) == Some(s),
{
    reveal_strlit("Local");
    reveal_strlit("local");
    reveal_strlit("LOCAL");
    reveal_strlit("S3");
    reveal_strlit("s3");
    reveal_strlit("HTTP");
    reveal_strlit("Http");
    reveal_strlit("http");
    reveal_strlit("HTTPS");
    reveal_strlit("Https");
    reveal_strlit("https");
    match s {
        StorageView::Tagged(kind) => {
            match kind {
                TaggedStorageTypes::Local => {
                    assert(spec_tag_of("Local"@) == Some(TaggedStorageTypes::Local));
                },
                TaggedStorageTypes::S3 => {
                    assert("S3"@ != "Local"@ && "S3"@ != "local"@ && "S3"@ != "LOCAL"@) by {
                        assert("S3"@.len() == 2);
                        assert("Local"@.len() == 5);
                        assert("local"@.len() == 5);
                        assert("LOCAL"@.len() == 5);
                    }
                    assert(spec_tag_of("S3"@) == Some(TaggedStorageTypes::S3));
                },
            }
        },
        StorageView::Local { scheme, .. } => {
            match scheme {
                Scheme::Http => {
                    assert(spec_scheme_of("HTTP"@) == Some(Scheme::Http));
                },
                Scheme::Https => {
                    assert("HTTPS"@ != "HTTP"@ && "HTTPS"@ != "Http"@ && "HTTPS"@ != "http"@) by {
                        assert("HTTPS"@.len() == 5);
                        assert("HTTP"@.len() == 4);
                        assert("Http"@.len() == 4);
                        assert("http"@.len() == 4);
                    }
                    assert(spec_scheme_of("HTTPS"@) == Some(Scheme::Https));
                },
            }
        },
        StorageView::S3 { .. } => {},
    }
}

} // verus!
