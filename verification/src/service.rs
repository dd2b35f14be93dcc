//! The server side of the RPC interface: the store and how each call is
//! answered.

use vstd::prelude::*;

use crate::buf::{bytes_from_vec, bytes_to_vec};
use crate::messages::{
    Data, DelRequest, DelResponse, Error, GetRequest, GetResponse, GetResult, MaybeData, PingRequest,
    PingResponse, SetRequest, SetResponse,
};
use crate::Db;

verus! {

/// The RPC service: one store that all calls share.
#[derive(Debug)]
pub struct Service {
    db: Db,
}

/// The reason given for deleting a key that is not bound.
pub open spec fn missing_key_text() -> Seq<char> {
    "Key does not exist"@
}

/// The answer to a get of `key` from `store`: the key and its value when it
/// is bound, no data otherwise.
pub open spec fn get_answer(store: Map<Seq<char>, Seq<u8>>, key: Seq<char>, r: GetResponse) -> bool {
    r.result matches Some(GetResult::MaybeData(m)) && if store.contains_key(key) {
        m.data matches Some(d) && d.key@ == key && d.data@ == store[key]
    } else {
        m.data is None
    }
}

/// The answer to a delete of `key` from `before`, and the store after it.
pub open spec fn del_answer(
    before: Map<Seq<char>, Seq<u8>>,
    key: Seq<char>,
    after: Map<Seq<char>, Seq<u8>>,
    r: DelResponse,
) -> bool {
    &&& after == before.remove(key)
    &&& before.contains_key(key) ==> r.error is None
    &&& !before.contains_key(key) ==> (r.error matches Some(e) && e.reason@ == missing_key_text())
}

impl Service {
    /// The service's store is well formed.
    pub closed spec fn wf(&self) -> bool {
        self.db.wf()
    }

    /// The service's store.
    pub closed spec fn store(&self) -> Map<Seq<char>, Seq<u8>> {
        self.db@
    }

    /// A service with an empty store.
    pub fn new() -> (s: Self)
        ensures
            s.wf(),
            s.store() == Map::<Seq<char>, Seq<u8>>::empty(),
    {
        Service { db: Db::new() }
    }

    /// Answers a ping, with no error.
    pub fn ping(&self, request: PingRequest) -> (r: PingResponse)
        ensures
            r.error is None,
    {
        PingResponse { error: None }
    }

    /// Answers a get with the value bound to the key, if any.
    pub fn get(&self, request: GetRequest) -> (r: GetResponse)
        requires
            self.wf(),
        ensures
            get_answer(self.store(), request.key@, r),
    {
        let data = self.db.get(request.key.as_str());
        let data = match data {
            Some(d) => MaybeData { data: Some(Data { key: request.key, data: bytes_to_vec(&d) }) },
            None => MaybeData { data: None },
        };
        let result = GetResult::MaybeData(data);
        GetResponse { result: Some(result) }
    }

    /// Binds the key to the data, and answers with no error.
    pub fn set(&mut self, request: SetRequest) -> (r: SetResponse)
        requires
            old(self).wf(),
        ensures
            final(self).wf(),
            final(self).store() == old(self).store().insert(request.key@, request.data@),
            r.error is None,
    {
        self.db.set(request.key, bytes_from_vec(request.data));
        SetResponse { error: None }
    }

    /// Unbinds the key; answers with an error when it was not bound.
    pub fn del(&mut self, request: DelRequest) -> (r: DelResponse)
        requires
            old(self).wf(),
        ensures
            final(self).wf(),
            del_answer(old(self).store(), request.key@, final(self).store(), r),
            final(self).store() == old(self).store().remove(request.key@),
            r.error is None <==> old(self).store().contains_key(request.key@),
    {
        if self.db.del(request.key).is_some() {
            DelResponse { error: None }
        } else {
            DelResponse { error: Some(Error { reason: "Key does not exist".to_owned() }) }
        }
    }
}

impl Default for Service {
    fn default() -> (s: Self)
        ensures
            s.wf(),
            s.store() == Map::<Seq<char>, Seq<u8>>::empty(),
    {
        Self::new()
    }
}

/// The first RPC server: it answers pings only.
#[derive(Debug, Default)]
pub struct RS {}

impl RS {
    /// Answers a ping, with no error.
    pub fn ping(&self, request: PingRequest) -> (r: PingResponse)
        ensures
            r.error is None,
    {
        PingResponse { error: None }
    }
}

/// A get after a set of the same key answers with the data set.
pub proof fn law_get_after_set(
    before: Map<Seq<char>, Seq<u8>>,
    key: Seq<char>,
    data: Seq<u8>,
    r: GetResponse,
)
    requires
        get_answer(before.insert(key, data), key, r),
    ensures
        r.result matches Some(GetResult::MaybeData(m)) && m.data matches Some(d) && d.data@ == data,
{
}

/// After a delete, a get of that key answers with no data, and deleting it
/// again is refused.
pub proof fn law_get_after_del(
    before: Map<Seq<char>, Seq<u8>>,
    key: Seq<char>,
    after: Map<Seq<char>, Seq<u8>>,
    r: DelResponse,
    g: GetResponse,
    after2: Map<Seq<char>, Seq<u8>>,
    r2: DelResponse,
)
    requires
        del_answer(before, key, after, r),
        get_answer(after, key, g),
        del_answer(after, key, after2, r2),
    ensures
        g.result matches Some(GetResult::MaybeData(m)) && m.data is None,
        r2.error matches Some(e) && e.reason@ == missing_key_text(),
        after2 == after,
{
    assert(after2 =~= after);
}

/// A delete unbinds its key and only that key: every other key keeps
/// whether it is bound and what it is bound to, and the answer is an error
/// exactly when the key was not bound.
pub proof fn law_del_removes_only_its_key(
    before: Map<Seq<char>, Seq<u8>>,
    key: Seq<char>,
    after: Map<Seq<char>, Seq<u8>>,
    r: DelResponse,
)
    requires
        del_answer(before, key, after, r),
    ensures
        !after.contains_key(key),
        forall|k2: Seq<char>| k2 != key ==> (#[trigger] after.contains_key(k2) <==> before.contains_key(k2)),
        forall|k2: Seq<char>| k2 != key && before.contains_key(k2) ==> #[trigger] after[k2] == before[k2],
        r.error is None <==> before.contains_key(key),
{
}

/// A get of another key answers after a delete as it answered before it.
pub proof fn law_get_unchanged_by_del_of_other_key(
    before: Map<Seq<char>, Seq<u8>>,
    key: Seq<char>,
    after: Map<Seq<char>, Seq<u8>>,
    r: DelResponse,
    k2: Seq<char>,
    g0: GetResponse,
    g1: GetResponse,
)
    requires
        k2 != key,
        del_answer(before, key, after, r),
        get_answer(before, k2, g0),
        get_answer(after, k2, g1),
    ensures
        g0.result matches Some(GetResult::MaybeData(m0)) && g1.result matches Some(
            GetResult::MaybeData(m1),
        ) && (m0.data is Some <==> m1.data is Some),
        g0.result matches Some(GetResult::MaybeData(m0)) && m0.data matches Some(d0) ==> (g1.result matches Some(
            GetResult::MaybeData(m1),
        ) && m1.data matches Some(d1) && d1.data@ == d0.data@ && d1.key@ == k2),
{
}

/// A get answers with data exactly when the store binds the key, and then
/// with that key and the bytes bound to it; it never answers with an error.
pub proof fn law_get_reports_store(store: Map<Seq<char>, Seq<u8>>, key: Seq<char>, r: GetResponse)
    requires
        get_answer(store, key, r),
    ensures
        r.result matches Some(GetResult::MaybeData(m)) && (m.data is Some <==> store.contains_key(key)),
        r.result matches Some(GetResult::MaybeData(m)) && m.data matches Some(d) ==> (d.key@ == key
            && d.data@ == store[key]),
{
}

} // verus!
