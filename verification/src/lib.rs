//! Typed resource model and query-construction layer for a cluster-management
//! REST API: the closed registry of resource kinds with their collection
//! routes, the capability traits a resource type satisfies, the shared
//! metadata and status value objects, and a builder for list-query
//! parameters.

pub mod digits;
pub mod kind;
pub mod query;
pub mod resource;

pub use kind::Kind;
pub use query::ListQuery;
pub use resource::CollectionResponse;
pub use resource::ListableResource;
pub use resource::Metadata;
pub use resource::Resource;
pub use resource::Status;
pub use resource::Timestamp;
