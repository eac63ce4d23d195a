use std::collections::HashMap;

use ccache_ghac_adapter::error::ErrorKind;
use ccache_ghac_adapter::policy::{partition, Partition};
use ccache_ghac_adapter::verbs::{
    ccache_delete, ccache_get, ccache_head, ccache_put, root, Reply, Status,
};

/// A backend that stores what it is given, shared by every process that is
/// pointed at it. `outage` makes every call fail with that kind.
struct Backend {
    entries: HashMap<(String, String, String), Vec<u8>>,
    outage: Option<ErrorKind>,
}

impl Backend {
    fn new() -> Self {
        Backend { entries: HashMap::new(), outage: None }
    }

    fn at(partition: &Partition, key: &str) -> (String, String, String) {
        (partition.root.clone(), partition.version.clone(), key.to_string())
    }

    fn contains(&self, partition: &Partition, key: &str) -> Result<bool, ErrorKind> {
        match self.outage {
            Some(kind) => Err(kind),
            None => Ok(self.entries.contains_key(&Self::at(partition, key))),
        }
    }

    fn read(&self, partition: &Partition, key: &str) -> Result<Vec<u8>, ErrorKind> {
        match self.outage {
            Some(kind) => Err(kind),
            None => self.entries.get(&Self::at(partition, key)).cloned().ok_or(ErrorKind::NotFound),
        }
    }

    fn write(&mut self, partition: &Partition, key: &str, body: &[u8]) -> Result<(), ErrorKind> {
        match self.outage {
            Some(kind) => Err(kind),
            None => {
                self.entries.insert(Self::at(partition, key), body.to_vec());
                Ok(())
            }
        }
    }

    fn delete(&mut self, partition: &Partition, key: &str) -> Result<(), ErrorKind> {
        match self.outage {
            Some(kind) => Err(kind),
            None => self.entries.remove(&Self::at(partition, key)).map(|_| ()).ok_or(ErrorKind::NotFound),
        }
    }
}

/// One adapter process: a namespace fixed at startup, in front of a backend.
struct Process {
    partition: Partition,
}

impl Process {
    fn start(namespace: &str) -> Self {
        Process { partition: partition(namespace) }
    }

    fn head(&self, backend: &Backend, path: &str) -> u16 {
        ccache_head(backend.contains(&self.partition, path)).code()
    }

    fn get(&self, backend: &Backend, path: &str) -> (u16, Vec<u8>) {
        let Reply { status, body } = ccache_get(backend.read(&self.partition, path));
        (status.code(), body)
    }

    fn put(&self, backend: &mut Backend, path: &str, body: &[u8]) -> u16 {
        ccache_put(backend.write(&self.partition, path, body)).code()
    }

    fn delete(&self, backend: &mut Backend, path: &str) -> u16 {
        ccache_delete(backend.delete(&self.partition, path)).code()
    }
}

#[test]
fn a_key_never_written_is_not_found() {
    let mut backend = Backend::new();
    let process = Process::start("");
    process.put(&mut backend, "other", b"x");
    for key in ["k", "build/obj1.o", "a/b/c/d", "other/"] {
        assert_eq!(process.head(&backend, key), 404);
        assert_eq!(process.get(&backend, key), (404, Vec::new()));
        assert_eq!(process.delete(&mut backend, key), 404);
    }
}

#[test]
fn get_returns_exactly_what_was_put() {
    let mut backend = Backend::new();
    let process = Process::start("ns");
    let every_byte: Vec<u8> = (0..=255).collect();
    let bodies: [&[u8]; 4] = [b"", b"hello", &[0, 0, 0], &every_byte];
    for (i, body) in bodies.iter().enumerate() {
        let key = format!("dir/{}", i);
        assert_eq!(process.put(&mut backend, &key, body), 200);
        assert_eq!(process.get(&backend, &key), (200, body.to_vec()));
    }
}

#[test]
fn head_follows_put_and_delete() {
    let mut backend = Backend::new();
    let process = Process::start("ns");
    assert_eq!(process.put(&mut backend, "k", b"v"), 200);
    assert_eq!(process.head(&backend, "k"), 200);
    assert_eq!(process.delete(&mut backend, "k"), 200);
    assert_eq!(process.head(&backend, "k"), 404);
    assert_eq!(process.delete(&mut backend, "k"), 404);
    assert_eq!(process.head(&backend, "k"), 404);
}

#[test]
fn a_second_put_overwrites_the_first() {
    let mut backend = Backend::new();
    let process = Process::start("ns");
    assert_eq!(process.put(&mut backend, "k", b"first, and longer"), 200);
    assert_eq!(process.put(&mut backend, "k", b"second"), 200);
    assert_eq!(process.get(&backend, "k"), (200, b"second".to_vec()));
}

#[test]
fn two_namespaces_do_not_see_each_other() {
    let mut backend = Backend::new();
    let left = Process::start("left");
    let right = Process::start("right");
    assert_eq!(left.put(&mut backend, "k", b"from left"), 200);
    assert_eq!(right.head(&backend, "k"), 404);
    assert_eq!(right.get(&backend, "k"), (404, Vec::new()));
    assert_eq!(right.delete(&mut backend, "k"), 404);
    assert_eq!(right.put(&mut backend, "k", b"from right"), 200);
    assert_eq!(left.get(&backend, "k"), (200, b"from left".to_vec()));
    assert_eq!(right.delete(&mut backend, "k"), 200);
    assert_eq!(left.head(&backend, "k"), 200);
}

#[test]
fn the_empty_namespace_is_a_namespace_of_its_own() {
    let mut backend = Backend::new();
    let unnamed = Process::start("");
    let named = Process::start("named");
    assert_eq!(unnamed.put(&mut backend, "k", b"v"), 200);
    assert_eq!(unnamed.get(&backend, "k"), (200, b"v".to_vec()));
    assert_eq!(named.head(&backend, "k"), 404);
}

#[test]
fn put_get_delete_get_of_an_object_file() {
    let mut backend = Backend::new();
    let process = Process::start("");
    let body = [0xde, 0xad, 0xbe, 0xef];
    assert_eq!(process.put(&mut backend, "build/obj1.o", &body), 200);
    assert_eq!(process.get(&backend, "build/obj1.o"), (200, body.to_vec()));
    assert_eq!(process.delete(&mut backend, "build/obj1.o"), 200);
    assert_eq!(process.get(&backend, "build/obj1.o"), (404, Vec::new()));
}

#[test]
fn head_of_a_missing_key_on_an_empty_cache() {
    let backend = Backend::new();
    let process = Process::start("");
    assert_eq!(process.head(&backend, "missing"), 404);
}

#[test]
fn the_banner_does_not_depend_on_the_cache() {
    let mut backend = Backend::new();
    let process = Process::start("");
    let before = root();
    process.put(&mut backend, "k", b"v");
    backend.outage = Some(ErrorKind::Unexpected);
    assert_eq!(root(), before);
    assert!(root().starts_with("ccache GHAC adapter"));
}

#[test]
fn an_outage_is_500_and_the_next_request_is_served() {
    let mut backend = Backend::new();
    let process = Process::start("");
    assert_eq!(process.put(&mut backend, "any", b"v"), 200);
    for kind in [
        ErrorKind::Unexpected,
        ErrorKind::PermissionDenied,
        ErrorKind::RateLimited,
        ErrorKind::Unsupported,
    ] {
        backend.outage = Some(kind);
        assert_eq!(process.get(&backend, "any"), (500, Vec::new()));
        assert_eq!(process.get(&backend, "missing"), (500, Vec::new()));
        assert_eq!(process.head(&backend, "any"), 500);
        assert_eq!(process.put(&mut backend, "any", b"w"), 500);
        assert_eq!(process.delete(&mut backend, "any"), 500);
    }
    backend.outage = None;
    assert_eq!(process.get(&backend, "any"), (200, b"v".to_vec()));
    assert_eq!(process.get(&backend, "missing"), (404, Vec::new()));
}

#[test]
fn keys_keep_their_slashes() {
    let mut backend = Backend::new();
    let process = Process::start("ns");
    assert_eq!(process.put(&mut backend, "a/b", b"nested"), 200);
    assert_eq!(process.head(&backend, "a"), 404);
    assert_eq!(process.head(&backend, "a/b/"), 404);
    assert_eq!(process.head(&backend, "b"), 404);
    assert_eq!(process.get(&backend, "a/b"), (200, b"nested".to_vec()));
    assert_eq!(Status::Success.code(), 200);
}
