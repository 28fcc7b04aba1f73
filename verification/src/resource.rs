//! The capability contracts a resource type satisfies and the shared value
//! objects: per-object metadata, terminal status responses, and the wrapper
//! shape a collection endpoint returns.
//!
//! Wire (de)serialization of these shapes is the concern of the
//! serialization layer around this library; here they are plain data with
//! their invariants.

use vstd::prelude::*;
use crate::kind::Kind;

verus! {

/// A UTC instant: whole seconds since the Unix epoch, and the nanosecond
/// within that second. This is the library's representation of a creation
/// timestamp; the calendar (RFC 3339) form is produced by the
/// serialization layer.
#[derive(Clone, Copy, Debug, PartialEq, Eq, Structural)]
pub struct Timestamp {
    pub secs: i64,
    pub nanos: u32,
}

impl Timestamp {
    /// The nanosecond field names a point within one second.
    pub open spec fn well_formed(self) -> bool {
        self.nanos < 1_000_000_000
    }

    /// A timestamp from its two components.
    pub fn new(secs: i64, nanos: u32) -> (t: Self)
        requires
            nanos < 1_000_000_000,
        ensures
            t == (Timestamp { secs, nanos }),
            t.well_formed(),
    {
        Timestamp { secs, nanos }
    }
}

/// No two entries share a key.
pub open spec fn unique_keys(entries: Seq<(String, String)>) -> bool {
    forall|i: int, j: int|
        0 <= i < j < entries.len() ==> #[trigger] entries[i].0@ != #[trigger] entries[j].0@
}

/// Per-object identity and bookkeeping. Every field is optional: the server
/// populates them progressively, and client-constructed objects may omit
/// them. Annotations and labels are key-value entries with unique keys; the
/// entry order is the deterministic order the wire carried or the client
/// chose.
#[derive(Debug)]
pub struct Metadata {
    pub name: Option<String>,
    pub namespace: Option<String>,
    pub uid: Option<String>,
    pub creation_timestamp: Option<Timestamp>,
    pub annotations: Option<Vec<(String, String)>>,
    pub labels: Option<Vec<(String, String)>>,
}

impl Metadata {
    /// The timestamp is well formed and annotation and label keys are
    /// unique.
    pub open spec fn well_formed(self) -> bool {
        &&& match self.creation_timestamp {
            Some(t) => t.well_formed(),
            None => true,
        }
        &&& match self.annotations {
            Some(a) => unique_keys(a@),
            None => true,
        }
        &&& match self.labels {
            Some(l) => unique_keys(l@),
            None => true,
        }
    }
}

impl Default for Metadata {
    /// A metadata value with every field absent.
    fn default() -> (m: Self)
        ensures
            m.name is None,
            m.namespace is None,
            m.uid is None,
            m.creation_timestamp is None,
            m.annotations is None,
            m.labels is None,
            m.well_formed(),
    {
        Metadata {
            name: None,
            namespace: None,
            uid: None,
            creation_timestamp: None,
            annotations: None,
            labels: None,
        }
    }
}

/// A terminal API response: the wire kind tag, the API version, embedded
/// metadata, the outcome, and a human-readable message. Produced only by
/// the API surface; the client constructs one only by deserialization.
#[derive(Debug)]
pub struct Status {
    pub kind: String,
    pub api_version: String,
    pub metadata: Metadata,
    pub status: String,
    pub message: String,
}

impl Status {
    /// The embedded metadata is well formed.
    pub open spec fn well_formed(self) -> bool {
        self.metadata.well_formed()
    }
}

/// The base capability of a resource type: it knows its kind, its default
/// namespace (`None` for cluster-scoped kinds such as nodes), and the API
/// root its collection is served under. All three are constants of the
/// type, stable across instances and calls.
pub trait Resource {
    /// The kind tag of this resource type: one constant of the type. Only an
    /// implementation can name which kind that is, and this trait stays
    /// implementable outside verified code, so the declaration carries no
    /// spec-level name for it.
    fn kind() -> Kind;

    /// The namespace used when a request names none; `None` means the type
    /// is cluster-scoped. A type that does not override this is served in
    /// the namespace `"default"`.
    fn default_namespace() -> (r: Option<&'static str>)
        default_ensures
            r matches Some(s) && s@ == "default"@,
    {
        proof {
            reveal_strlit("default");
        }
        Some("default")
    }

    /// The path prefix of the API group and version serving this type. A
    /// type that does not override this is served under the core root
    /// `"/api/v1"`.
    fn api() -> (r: &'static str)
        default_ensures
            r@ == "/api/v1"@,
    {
        proof {
            reveal_strlit("/api/v1");
        }
        "/api/v1"
    }
}

/// The extension capability of resource types whose collection endpoint
/// returns a wrapper object rather than a bare array: an associated
/// collection-response shape and a pure, total extraction of its members.
pub trait ListableResource: Resource + Sized {
    /// The wrapper shape the collection endpoint returns.
    type ListResponse;

    /// The member objects a collection response carries, in server order.
    spec fn response_items(response: &Self::ListResponse) -> Seq<Self>;

    /// Extracts the members of a collection response: exactly its items, in
    /// server order, with no filtering, deduplication, or reordering; an
    /// empty response yields an empty vector rather than an error.
    fn list_items(response: Self::ListResponse) -> (items: Vec<Self>)
        ensures
            items@ == Self::response_items(&response),
    ;
}

/// The canonical wrapper shape a list endpoint returns: zero or more member
/// objects. The member field may be absent altogether; extraction treats
/// that as the empty collection.
#[derive(Debug)]
pub struct CollectionResponse<T> {
    pub items: Option<Vec<T>>,
}

/// The members a collection response carries: its items in order, or
/// nothing when the member field is absent.
pub open spec fn spec_collection_items<T>(r: CollectionResponse<T>) -> Seq<T> {
    match r.items {
        Some(v) => v@,
        None => Seq::<T>::empty(),
    }
}

impl<T> CollectionResponse<T> {
    /// The member objects: exactly the response's items, in original order;
    /// an empty or absent member field yields an empty vector.
    pub fn into_items(self) -> (items: Vec<T>)
        ensures
            items@ == spec_collection_items(self),
    {
        match self.items {
            Some(v) => v,
            None => Vec::new(),
        }
    }
}

} // verus!
