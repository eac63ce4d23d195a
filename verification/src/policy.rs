//! How a namespace and a request path address an entry of the cache.
//!
//! The namespace is the storage root, the version tag names this adapter and
//! its release, and the request path is the object key, taken verbatim.

use vstd::prelude::*;
use vstd::string::StringExecFns;

verus! {

/// Name under which the adapter identifies itself to the backend.
pub const PRODUCT: &'static str = "ccache-ghac-adapter";

/// Release of the adapter. Entries written by one release are not read by
/// another.
pub const VERSION: &'static str = "0.1.0";

/// The version tag: the product name, `-v`, and the release.
pub open spec fn version_tag_spec() -> Seq<char> {
    PRODUCT@ + "-v"@ + VERSION@
}

/// The client identifier sent with every backend request: the product name,
/// a slash, and the release.
pub open spec fn user_agent_spec() -> Seq<char> {
    PRODUCT@ + "/"@ + VERSION@
}

/// Computes the version tag handed to the backend.
pub fn version_tag() -> (tag: String)
    ensures
        tag@ == version_tag_spec(),
{
    String::from_str(PRODUCT).concat("-v").concat(VERSION)
}

/// Computes the client identifier of the HTTP transport.
pub fn user_agent() -> (agent: String)
    ensures
        agent@ == user_agent_spec(),
{
    String::from_str(PRODUCT).concat("/").concat(VERSION)
}

/// The part of the backend that one process works in: a storage root and a
/// version tag. It is fixed when the process starts.
#[derive(Debug, PartialEq, Eq)]
pub struct Partition {
    pub root: String,
    pub version: String,
}

/// A partition as a mathematical value.
pub struct PartitionView {
    pub root: Seq<char>,
    pub version: Seq<char>,
}

impl View for Partition {
    type V = PartitionView;

    open spec fn view(&self) -> PartitionView {
        PartitionView { root: self.root@, version: self.version@ }
    }
}

/// Where the backend keeps one entry: the partition and, inside it, the key.
pub struct Address {
    pub partition: PartitionView,
    pub key: Seq<char>,
}

/// The partition of a namespace: the namespace itself is the storage root, and
/// the version tag does not depend on it.
pub open spec fn partition_spec(namespace: Seq<char>) -> PartitionView {
    PartitionView { root: namespace, version: version_tag_spec() }
}

/// The address of a request path under a namespace: the path is the key, taken
/// verbatim, slashes included.
pub open spec fn address(namespace: Seq<char>, path: Seq<char>) -> Address {
    Address { partition: partition_spec(namespace), key: path }
}

/// Computes the partition that a process configured with `namespace` works
/// in. An empty namespace is a namespace like any other.
pub fn partition(namespace: &str) -> (partition: Partition)
    ensures
        partition@ == partition_spec(namespace@),
{
    Partition { root: String::from_str(namespace), version: version_tag() }
}

/// Two addresses are the same only if namespace and path both are: distinct
/// paths never share an entry, and neither do distinct namespaces.
pub proof fn lemma_address_is_injective(
    namespace_a: Seq<char>,
    path_a: Seq<char>,
    namespace_b: Seq<char>,
    path_b: Seq<char>,
)
    ensures
        address(namespace_a, path_a) == address(namespace_b, path_b) <==> namespace_a
            == namespace_b && path_a == path_b,
{
}

/// A non-empty path gives a non-empty key, under every namespace.
pub proof fn lemma_key_of_nonempty_path(namespace: Seq<char>, path: Seq<char>)
    requires
        path.len() > 0,
    ensures
        address(namespace, path).key.len() > 0,
{
}

} // verus!
