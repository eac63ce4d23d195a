//! The adapter in front of a backend that answers faithfully, as a state
//! machine over the entries that the backend holds.
//!
//! The backend itself is not part of this library. What is stated here holds
//! of every backend that stores what it is given, returns what it stores, and
//! reports a missing entry as not found.

use vstd::prelude::*;

use crate::error::ErrorKind;
use crate::policy::{address, Address};
use crate::verbs::{delete_status, get_reply, head_status, put_status, ReplyView, Status};

verus! {

/// A request of a cache client, with its path and, for `PUT`, its body.
pub enum Request {
    Head { path: Seq<char> },
    Get { path: Seq<char> },
    Put { path: Seq<char>, body: Seq<u8> },
    Delete { path: Seq<char> },
}

impl Request {
    /// The path that the request names.
    pub open spec fn path(self) -> Seq<char> {
        match self {
            Request::Head { path } => path,
            Request::Get { path } => path,
            Request::Put { path, .. } => path,
            Request::Delete { path } => path,
        }
    }

    /// Whether the request stores a body under `path`.
    pub open spec fn writes(self, path: Seq<char>) -> bool {
        self is Put && self.path() == path
    }
}

/// What a faithful backend answers when asked whether an entry exists.
pub open spec fn exists_answer(store: Map<Address, Seq<u8>>, at: Address) -> Result<
    bool,
    ErrorKind,
> {
    Ok(store.contains_key(at))
}

/// What a faithful backend answers to a read.
pub open spec fn read_answer(store: Map<Address, Seq<u8>>, at: Address) -> Result<
    Seq<u8>,
    ErrorKind,
> {
    if store.contains_key(at) {
        Ok(store[at])
    } else {
        Err(ErrorKind::NotFound)
    }
}

/// What a faithful backend answers to a delete.
pub open spec fn delete_answer(store: Map<Address, Seq<u8>>, at: Address) -> Result<
    (),
    ErrorKind,
> {
    if store.contains_key(at) {
        Ok(())
    } else {
        Err(ErrorKind::NotFound)
    }
}

/// The entries after a request, and the reply to it.
pub struct Served {
    pub store: Map<Address, Seq<u8>>,
    pub reply: ReplyView,
}

/// One request, served by a process configured with `namespace`: one backend
/// operation at the address of the path, and the reply made from its answer.
pub open spec fn serve(namespace: Seq<char>, store: Map<Address, Seq<u8>>, request: Request)
    -> Served {
    let at = address(namespace, request.path());
    match request {
        Request::Head { .. } => Served {
            store,
            reply: ReplyView { status: head_status(exists_answer(store, at)), body: Seq::empty() },
        },
        Request::Get { .. } => Served { store, reply: get_reply(read_answer(store, at)) },
        Request::Put { body, .. } => Served {
            store: store.insert(at, body),
            reply: ReplyView { status: put_status(Ok(())), body: Seq::empty() },
        },
        Request::Delete { .. } => Served {
            store: store.remove(at),
            reply: ReplyView {
                status: delete_status(delete_answer(store, at)),
                body: Seq::empty(),
            },
        },
    }
}

/// The entries after a sequence of requests, served in order by a process
/// configured with `namespace`.
pub open spec fn run(namespace: Seq<char>, store: Map<Address, Seq<u8>>, requests: Seq<Request>)
    -> Map<Address, Seq<u8>>
    decreases requests.len(),
{
    if requests.len() == 0 {
        store
    } else {
        serve(namespace, run(namespace, store, requests.drop_last()), requests.last()).store
    }
}

/// `HEAD`, `GET` and `DELETE` on a key that holds no entry each answer 404,
/// without a body, and leave the entries as they were.
pub proof fn lemma_absent_key_is_not_found(
    namespace: Seq<char>,
    store: Map<Address, Seq<u8>>,
    path: Seq<char>,
)
    requires
        !store.contains_key(address(namespace, path)),
    ensures
        serve(namespace, store, Request::Head { path }).reply == (ReplyView {
            status: Status::NotFound,
            body: Seq::empty(),
        }),
        serve(namespace, store, Request::Get { path }).reply == (ReplyView {
            status: Status::NotFound,
            body: Seq::empty(),
        }),
        serve(namespace, store, Request::Delete { path }).reply == (ReplyView {
            status: Status::NotFound,
            body: Seq::empty(),
        }),
        serve(namespace, store, Request::Head { path }).store == store,
        serve(namespace, store, Request::Get { path }).store == store,
        serve(namespace, store, Request::Delete { path }).store == store,
{
    let at = address(namespace, path);
    assert(store.remove(at) =~= store);
}

/// A key that no request has written holds no entry: from an empty cache,
/// after any requests of which none is a `PUT` of `path`, the key is absent.
pub proof fn lemma_never_written_key_is_absent(
    namespace: Seq<char>,
    requests: Seq<Request>,
    path: Seq<char>,
)
    requires
        forall|i: int| 0 <= i < requests.len() ==> !(#[trigger] requests[i]).writes(path),
    ensures
        !run(namespace, Map::empty(), requests).contains_key(address(namespace, path)),
    decreases requests.len(),
{
    if requests.len() > 0 {
        let earlier = requests.drop_last();
        assert forall|i: int| 0 <= i < earlier.len() implies !(#[trigger] earlier[i]).writes(
            path,
        ) by {
            assert(earlier[i] == requests[i]);
        }
        lemma_never_written_key_is_absent(namespace, earlier, path);
        assert(!requests.last().writes(path));
    }
}

/// For all keys never written, `HEAD`, `GET` and `DELETE` each answer 404.
pub proof fn lemma_never_written_key_is_not_found(
    namespace: Seq<char>,
    requests: Seq<Request>,
    path: Seq<char>,
)
    requires
        forall|i: int| 0 <= i < requests.len() ==> !(#[trigger] requests[i]).writes(path),
    ensures
        ({
            let store = run(namespace, Map::empty(), requests);
            &&& serve(namespace, store, Request::Head { path }).reply.status is NotFound
            &&& serve(namespace, store, Request::Get { path }).reply.status is NotFound
            &&& serve(namespace, store, Request::Delete { path }).reply.status is NotFound
        }),
{
    lemma_never_written_key_is_absent(namespace, requests, path);
    lemma_absent_key_is_not_found(namespace, run(namespace, Map::empty(), requests), path);
}

/// `PUT` answers 200, and a `GET` of the same key that follows answers 200
/// with exactly the body that was put, whatever the bytes and however many.
pub proof fn lemma_get_returns_what_was_put(
    namespace: Seq<char>,
    store: Map<Address, Seq<u8>>,
    path: Seq<char>,
    body: Seq<u8>,
)
    ensures
        ({
            let put = serve(namespace, store, Request::Put { path, body });
            let get = serve(namespace, put.store, Request::Get { path });
            &&& put.reply.status is Success
            &&& get.reply == (ReplyView { status: Status::Success, body })
            &&& get.store == put.store
        }),
{
}

/// After `PUT`, `HEAD` answers 200. After a `DELETE` that follows, which
/// answers 200, `HEAD` answers 404, and so does a second `DELETE`.
pub proof fn lemma_delete_removes_what_was_put(
    namespace: Seq<char>,
    store: Map<Address, Seq<u8>>,
    path: Seq<char>,
    body: Seq<u8>,
)
    ensures
        ({
            let put = serve(namespace, store, Request::Put { path, body });
            let head = serve(namespace, put.store, Request::Head { path });
            let delete = serve(namespace, head.store, Request::Delete { path });
            let head_again = serve(namespace, delete.store, Request::Head { path });
            let delete_again = serve(namespace, delete.store, Request::Delete { path });
            &&& put.reply.status is Success
            &&& head.reply.status is Success
            &&& delete.reply.status is Success
            &&& head_again.reply.status is NotFound
            &&& delete_again.reply.status is NotFound
            &&& delete_again.store == delete.store
        }),
{
    let at = address(namespace, path);
    let put = serve(namespace, store, Request::Put { path, body });
    let delete = serve(namespace, put.store, Request::Delete { path });
    assert(delete.store.remove(at) =~= delete.store);
}

/// A second `PUT` of the same key replaces the body: `GET` answers with the
/// body that was put last, and nothing of the earlier one remains.
pub proof fn lemma_last_put_wins(
    namespace: Seq<char>,
    store: Map<Address, Seq<u8>>,
    path: Seq<char>,
    first: Seq<u8>,
    second: Seq<u8>,
)
    ensures
        ({
            let once = serve(namespace, store, Request::Put { path, body: first });
            let twice = serve(namespace, once.store, Request::Put { path, body: second });
            let only_second = serve(namespace, store, Request::Put { path, body: second });
            &&& serve(namespace, twice.store, Request::Get { path }).reply == (ReplyView {
                status: Status::Success,
                body: second,
            })
            &&& twice.store == only_second.store
        }),
{
    let at = address(namespace, path);
    assert(store.insert(at, first).insert(at, second) =~= store.insert(at, second));
}

/// The reply to a request whose backend call fails with `kind`.
pub open spec fn failed_reply(request: Request, kind: ErrorKind) -> ReplyView {
    match request {
        Request::Head { .. } => ReplyView { status: head_status(Err(kind)), body: Seq::empty() },
        Request::Get { .. } => get_reply(Err(kind)),
        Request::Put { .. } => ReplyView { status: put_status(Err(kind)), body: Seq::empty() },
        Request::Delete { .. } => ReplyView {
            status: delete_status(Err(kind)),
            body: Seq::empty(),
        },
    }
}

/// A backend call that fails, and not because the entry is missing, is
/// answered with 500 and no body, whatever the verb, the path and the kind of
/// the failure.
pub proof fn lemma_backend_failure_is_a_server_error(request: Request, kind: ErrorKind)
    requires
        !(kind is NotFound),
    ensures
        failed_reply(request, kind) == (ReplyView {
            status: Status::InternalServerError,
            body: Seq::empty(),
        }),
{
}

/// Whether two stores hold the same under every key of one namespace.
pub open spec fn same_within(
    namespace: Seq<char>,
    left: Map<Address, Seq<u8>>,
    right: Map<Address, Seq<u8>>,
) -> bool {
    forall|path: Seq<char>|
        {
            let at = #[trigger] address(namespace, path);
            &&& left.contains_key(at) == right.contains_key(at)
            &&& left.contains_key(at) ==> left[at] == right[at]
        }
}

/// The reply to a request depends only on what the store holds within the
/// namespace of the process that serves it.
pub proof fn lemma_reply_depends_on_own_namespace(
    namespace: Seq<char>,
    left: Map<Address, Seq<u8>>,
    right: Map<Address, Seq<u8>>,
    request: Request,
)
    requires
        same_within(namespace, left, right),
    ensures
        serve(namespace, left, request).reply == serve(namespace, right, request).reply,
        same_within(
            namespace,
            serve(namespace, left, request).store,
            serve(namespace, right, request).store,
        ),
{
    let at = address(namespace, request.path());
    assert(left.contains_key(at) == right.contains_key(at));
    let after_left = serve(namespace, left, request).store;
    let after_right = serve(namespace, right, request).store;
    assert forall|path: Seq<char>|
        {
            let other = #[trigger] address(namespace, path);
            &&& after_left.contains_key(other) == after_right.contains_key(other)
            &&& after_left.contains_key(other) ==> after_left[other] == after_right[other]
        } by {
        let other = address(namespace, path);
        assert(left.contains_key(other) == right.contains_key(other));
    }
}

/// Requests served under one namespace leave every entry of every other
/// namespace as it was.
pub proof fn lemma_run_stays_in_own_namespace(
    namespace: Seq<char>,
    other: Seq<char>,
    store: Map<Address, Seq<u8>>,
    requests: Seq<Request>,
)
    requires
        namespace != other,
    ensures
        same_within(other, run(namespace, store, requests), store),
    decreases requests.len(),
{
    if requests.len() > 0 {
        let before = run(namespace, store, requests.drop_last());
        lemma_run_stays_in_own_namespace(namespace, other, store, requests.drop_last());
        let at = address(namespace, requests.last().path());
        let after = run(namespace, store, requests);
        assert forall|path: Seq<char>|
            {
                let there = #[trigger] address(other, path);
                &&& after.contains_key(there) == store.contains_key(there)
                &&& after.contains_key(there) ==> after[there] == store[there]
            } by {
            let there = address(other, path);
            assert(there != at);
            assert(before.contains_key(there) == store.contains_key(there));
        }
    }
}

/// Two processes configured with distinct namespaces never observe each
/// other's writes: whatever one of them has been asked to do, every reply of
/// the other is the reply it would have given otherwise.
///
/// Isolation rests on the storage root alone, so it holds of a backend that
/// keeps two roots apart whenever they differ as strings. A backend that reads
/// two spellings as one root joins the namespaces so spelled.
pub proof fn lemma_namespaces_are_isolated(
    writer: Seq<char>,
    reader: Seq<char>,
    store: Map<Address, Seq<u8>>,
    written: Seq<Request>,
    request: Request,
)
    requires
        writer != reader,
    ensures
        serve(reader, run(writer, store, written), request).reply == serve(
            reader,
            store,
            request,
        ).reply,
{
    lemma_run_stays_in_own_namespace(writer, reader, store, written);
    lemma_reply_depends_on_own_namespace(reader, run(writer, store, written), store, request);
}

} // verus!
