//! The transfer registry and service facade.
//!
//! The registry maps each (source kind, destination kind) key to at most one
//! transfer implementation; the last registration for a key wins. Dispatch
//! derives the key from the request's variant tags alone, looks it up, and
//! either hands the request to the registered implementation or fails fast
//! with an `UnsupportedCombination` error naming both kinds — before any
//! data movement is attempted. The registry is built once at startup and is
//! read-only thereafter.

use vstd::prelude::*;
use vstd::string::StringExecFns;
use crate::errors::{AppError, ErrorKind};
use crate::models::{EndpointKind, TransferKey, TransferRequest, TransferResponse, TransferStatus};
use crate::capabilities::{transfer_post, TransferImpl};
use crate::streaming::{ByteStream, ChunkSink};

verus! {

/// The implementation the registry holds for `key`: the last one registered
/// under it, if any.
pub open spec fn registry_lookup(
    s: Seq<(TransferKey, TransferImpl)>,
    key: TransferKey,
) -> Option<TransferImpl>
    decreases s.len(),
{
    if s.len() == 0 {
        None
    } else if s.last().0 == key {
        Some(s.last().1)
    } else {
        registry_lookup(s.drop_last(), key)
    }
}

/// The message of an `UnsupportedCombination` failure: it names both
/// requested kinds by their wire tags.
pub open spec fn unsupported_message(source: EndpointKind, destination: EndpointKind) -> Seq<char> {
    "Unsupported transfer combination "@ + source.name_spec() + " -> "@ + destination.name_spec()
}

/// The message of a `NotImplemented` status answer for the named source.
pub open spec fn status_not_implemented_message(source: Seq<char>) -> Seq<char> {
    "Status check not implemented for source "@ + source
}

/// Replacing the entry that holds `key` rebinds `key` and leaves every other
/// key's binding as it was.
proof fn lemma_lookup_update(
    s: Seq<(TransferKey, TransferImpl)>,
    i: int,
    key: TransferKey,
    t: TransferImpl,
)
    requires
        0 <= i < s.len(),
        s[i].0 == key,
        forall|j: int| 0 <= j < s.len() && j != i ==> s[j].0 != key,
    ensures
        registry_lookup(s.update(i, (key, t)), key) == Some(t),
        forall|k2: TransferKey| k2 != key ==> registry_lookup(s.update(i, (key, t)), k2)
            == registry_lookup(s, k2),
    decreases s.len(),
{
    let u = s.update(i, (key, t));
    if i == s.len() - 1 {
        assert(u.last() == (key, t));
        assert(u.drop_last() =~= s.drop_last());
        assert forall|k2: TransferKey| k2 != key implies registry_lookup(u, k2)
            == registry_lookup(s, k2) by {
            assert(s.last().0 == key);
        }
    } else {
        assert(u.last() == s.last());
        assert(s.last().0 != key);
        assert(u.drop_last() =~= s.drop_last().update(i, (key, t)));
        lemma_lookup_update(s.drop_last(), i, key, t);
        assert forall|k2: TransferKey| k2 != key implies registry_lookup(u, k2)
            == registry_lookup(s, k2) by {
            if u.last().0 != k2 {
                assert(registry_lookup(u, k2) == registry_lookup(u.drop_last(), k2));
                assert(registry_lookup(s, k2) == registry_lookup(s.drop_last(), k2));
            }
        }
    }
}

/// The transfer service facade: the registry of pairings plus the one entry
/// point callers use. It owns a table of (key, implementation) entries with
/// pairwise-distinct keys; every registered implementation is immutable and
/// shared read-only across concurrent requests.
#[derive(Debug, Clone)]
pub struct FileTransferService {
    pub transfer_impls: Vec<(TransferKey, TransferImpl)>,
}

impl FileTransferService {
    /// The table is well formed: no key occurs twice.
    pub open spec fn wf(&self) -> bool {
        forall|i: int, j: int|
            #![trigger self.transfer_impls@[i], self.transfer_impls@[j]]
            0 <= i < j < self.transfer_impls@.len()
                ==> self.transfer_impls@[i].0 != self.transfer_impls@[j].0
    }

    /// A fresh service with no registered pairings: every request is
    /// unsupported until a pairing is registered.
    pub fn new() -> (s: Self)
        ensures
            s.wf(),
            s.transfer_impls@.len() == 0,
    {
        FileTransferService { transfer_impls: Vec::new() }
    }

    /// Registers `transfer_impl` under `key`, overwriting any earlier
    /// registration for the same key: the last writer for a key wins.
    /// Bindings of every other key are untouched.
    pub fn add_transfer_impl(&mut self, key: TransferKey, transfer_impl: TransferImpl)
        requires
            old(self).wf(),
        ensures
            final(self).wf(),
            registry_lookup(final(self).transfer_impls@, key) == Some(transfer_impl),
            forall|k2: TransferKey| k2 != key ==> registry_lookup(final(self).transfer_impls@, k2)
                == registry_lookup(old(self).transfer_impls@, k2),
    {
        let ghost s0 = old(self).transfer_impls@;
        let n = self.transfer_impls.len();
        let mut i: usize = 0;
        while i < n
            invariant
                old(self).wf(),
                s0 == old(self).transfer_impls@,
                self.transfer_impls@ == s0,
                n == s0.len(),
                i <= n,
                forall|j: int| 0 <= j < i ==> s0[j].0 != key,
            decreases n - i,
        {
            if self.transfer_impls[i].0 == key {
                proof {
                    assert(s0[i as int].0 == key);
                }
                self.transfer_impls[i] = (key, transfer_impl);
                proof {
                    let u = self.transfer_impls@;
                    assert(u == s0.update(i as int, (key, transfer_impl)));
                    assert forall|j: int| 0 <= j < s0.len() && j != i
                        implies s0[j].0 != key by {
                        if j > i {
                            assert(s0[i as int].0 != s0[j].0);
                        }
                    }
                    lemma_lookup_update(s0, i as int, key, transfer_impl);
                    assert forall|a: int, b: int| 0 <= a < b < u.len()
                        implies u[a].0 != u[b].0 by {
                        assert(s0[a].0 != s0[b].0);
                        assert(u[a].0 == s0[a].0);
                        assert(u[b].0 == s0[b].0);
                    }
                }
                return;
            }
            i += 1;
        }
        self.transfer_impls.push((key, transfer_impl));
        proof {
            let s = self.transfer_impls@;
            assert(s.drop_last() =~= s0);
            assert(s.last() == (key, transfer_impl));
            assert forall|k2: TransferKey| k2 != key implies registry_lookup(s, k2)
                == registry_lookup(s0, k2) by {
                assert(s.last().0 == key);
            }
            assert forall|a: int, b: int| 0 <= a < b < s.len()
                implies s[a].0 != s[b].0 by {
                if b == s.len() - 1 {
                    assert(s0[a].0 != key);
                } else {
                    assert(s0[a].0 != s0[b].0);
                }
            }
        }
    }

    /// Pure read: the implementation last registered under `key`, or `None`
    /// if the key is absent.
    pub fn get_transfer_impl(&self, key: &TransferKey) -> (r: Option<&TransferImpl>)
        ensures
            match r {
                Some(t) => registry_lookup(self.transfer_impls@, *key) == Some(*t),
                None => registry_lookup(self.transfer_impls@, *key) is None,
            },
    {
        let ghost s = self.transfer_impls@;
        proof {
            assert(s.take(s.len() as int) =~= s);
        }
        let mut i = self.transfer_impls.len();
        while i > 0
            invariant
                i <= self.transfer_impls@.len(),
                s == self.transfer_impls@,
                registry_lookup(s, *key) == registry_lookup(s.take(i as int), *key),
            decreases i,
        {
            let idx = i - 1;
            if self.transfer_impls[idx].0 == *key {
                proof {
                    assert(s.take(i as int).last() == s[idx as int]);
                }
                return Some(&self.transfer_impls[idx].1);
            }
            proof {
                assert(s.take(i as int).last() == s[idx as int]);
                assert(s.take(i as int).drop_last() =~= s.take(idx as int));
            }
            i = idx;
        }
        proof {
            assert(s.take(0) =~= Seq::<(TransferKey, TransferImpl)>::empty());
        }
        None
    }

    /// Enumerates the registered keys, for introspection and diagnostics;
    /// the order carries no meaning.
    pub fn list_transfer_impls(&self) -> (r: Vec<TransferKey>)
        ensures
            r@.len() == self.transfer_impls@.len(),
            forall|i: int| 0 <= i < r@.len() ==> r@[i] == self.transfer_impls@[i].0,
    {
        let mut keys: Vec<TransferKey> = Vec::new();
        let n = self.transfer_impls.len();
        let mut i: usize = 0;
        while i < n
            invariant
                n == self.transfer_impls@.len(),
                i <= n,
                keys@.len() == i,
                forall|j: int| 0 <= j < i ==> keys@[j] == self.transfer_impls@[j].0,
            decreases n - i,
        {
            keys.push(self.transfer_impls[i].0);
            i += 1;
        }
        keys
    }

    /// Routes a request: derives the key from the variant tags of its source
    /// and destination — never from their contents — and looks it up.
    /// An absent key fails immediately with `UnsupportedCombination` naming
    /// both kinds; no I/O is attempted for such a request.
    pub fn route(&self, req: &TransferRequest) -> (r: Result<&TransferImpl, AppError>)
        ensures
            match r {
                Ok(t) => registry_lookup(self.transfer_impls@, req.key_spec()) == Some(*t),
                Err(e) => registry_lookup(self.transfer_impls@, req.key_spec()) is None
                    && e.kind == ErrorKind::UnsupportedCombination
                    && e.details@ == unsupported_message(
                        req.source.kind_spec(),
                        req.destination.kind_spec(),
                    ),
            },
    {
        let source_type = req.source.kind();
        let destination_type = req.destination.kind();
        let key = TransferKey::new(source_type, destination_type);
        match self.get_transfer_impl(&key) {
            Some(t) => Ok(t),
            None => {
                let mut details = "Unsupported transfer combination ".to_owned();
                details.append(source_type.name());
                details.append(" -> ");
                details.append(destination_type.name());
                proof {
                    assert(details@ =~= unsupported_message(
                        req.source.kind_spec(),
                        req.destination.kind_spec(),
                    ));
                }
                Err(AppError { kind: ErrorKind::UnsupportedCombination, details })
            },
        }
    }

    /// The facade entry point: routes the request by its key and, when a
    /// pairing is registered, has it drive the source's byte stream into the
    /// destination sink and propagates its result verbatim.
    ///
    /// When no pairing is registered the call fails with
    /// `UnsupportedCombination` naming both kinds, and the sink is untouched:
    /// the failure comes before any data movement. No retry happens at this
    /// layer.
    pub fn transfer(
        &self,
        req: &TransferRequest,
        stream: ByteStream,
        sink: &mut ChunkSink,
    ) -> (r: Result<TransferResponse, AppError>)
        requires
            !old(sink).closed,
        ensures
            registry_lookup(self.transfer_impls@, req.key_spec()) is None ==> (
                r matches Err(e)
                    && e.kind == ErrorKind::UnsupportedCombination
                    && e.details@ == unsupported_message(
                        req.source.kind_spec(),
                        req.destination.kind_spec(),
                    )
                    && *final(sink) == *old(sink)
            ),
            (registry_lookup(self.transfer_impls@, req.key_spec()) matches Some(t)
                ==> transfer_post(
                    t,
                    req.source,
                    req.destination,
                    stream.items@,
                    *old(sink),
                    *final(sink),
                    r,
                )),
    {
        match self.route(req) {
            Ok(t) => t.execute_transfer(&req.source, &req.destination, stream, sink),
            Err(e) => Err(e),
        }
    }

    /// An independent, read-only status query. No status capability is built
    /// yet for any endpoint kind, so the answer is a clear `NotImplemented`
    /// failure — never a fabricated availability result — and no download or
    /// upload is triggered.
    pub fn status(&self, req: &TransferStatus) -> (r: Result<TransferResponse, AppError>)
        ensures
            r matches Err(e) && e.kind == ErrorKind::NotImplemented
                && e.details@ == status_not_implemented_message(req.source@),
    {
        let mut details = "Status check not implemented for source ".to_owned();
        details.append(req.source.as_str());
        Err(AppError { kind: ErrorKind::NotImplemented, details })
    }
}

} // verus!
