//! The extraction orchestrator.
//!
//! One call drives a whole batch: resolve the requested indices, announce
//! the summed declared sizes, and for each addressed item request an
//! output stream, announce the operation, run the format's extraction,
//! hand the stream back, signal the per-item result, and advance the
//! cumulative completed count. A failure inside one item's extraction is
//! signaled as that item's data-error result and the batch goes on; only
//! a host refusal — of a stream or of a result signal — aborts the call.
//! The per-item result is tied to the reader's model: in test mode, or
//! without a stream, an item is trivially successful; an item the model
//! says cannot extract is signaled a data error; and a success means the
//! item's stream received exactly its modeled bytes.

use vstd::prelude::*;
use crate::com::{
    ExtractCbEvent, IArchiveExtractCallback, IInStream, NASK_EXTRACT, NRESULT_DATA_ERROR,
    NRESULT_OK,
};
use crate::error::Error;
use crate::handler::PluginHandler;
use crate::streams::SeqOutStreamWriter;
use crate::traits::ArchiveReader;
use crate::types::{ArchiveItem, PasswordRequester};

verus! {

/// Which items an extraction call addresses: the sentinel meaning every
/// item, or an explicit index list.
#[derive(Debug, Clone)]
pub enum ExtractIndices {
    /// Every item of the archive, in order.
    All,
    /// The given indices, in the given order.
    Listed(Vec<u32>),
}

/// The index list a request resolves to: the full range for the all-items
/// sentinel, the given list otherwise.
pub open spec fn resolved_indices(count: int, which: ExtractIndices) -> Seq<u32> {
    match which {
        ExtractIndices::All => Seq::new(count as nat, |i: int| i as u32),
        ExtractIndices::Listed(v) => v@,
    }
}

/// Of a resolved index list, the indices that address an existing item,
/// in order; the others are skipped.
pub open spec fn processed_list(count: int, idxs: Seq<u32>) -> Seq<u32>
    decreases idxs.len(),
{
    if idxs.len() == 0 {
        Seq::empty()
    } else {
        let rest = processed_list(count, idxs.drop_last());
        if (idxs.last() as int) < count {
            rest.push(idxs.last())
        } else {
            rest
        }
    }
}

/// The summed declared sizes of the items addressed by `idxs`.
pub open spec fn sizes_total(items: Seq<ArchiveItem>, idxs: Seq<u32>) -> int
    decreases idxs.len(),
{
    if idxs.len() == 0 {
        0
    } else {
        let rest = sizes_total(items, idxs.drop_last());
        if (idxs.last() as int) < items.len() {
            rest + items[idxs.last() as int].size
        } else {
            rest
        }
    }
}

/// Saturation of a mathematical value into the unsigned 64-bit range.
pub open spec fn sat64(v: int) -> u64 {
    if v > u64::MAX {
        u64::MAX
    } else if v < 0 {
        0
    } else {
        v as u64
    }
}

/// A summed size is never negative.
pub proof fn lemma_sizes_total_nonneg(items: Seq<ArchiveItem>, idxs: Seq<u32>)
    ensures
        sizes_total(items, idxs) >= 0,
    decreases idxs.len(),
{
    if idxs.len() > 0 {
        lemma_sizes_total_nonneg(items, idxs.drop_last());
    }
}

/// The five events one addressed item contributes, in order: its stream
/// request (telling whether the host supplied a stream), the operation
/// announcement, the stream handed back with the byte count it accepted,
/// the per-item result, and the cumulative completed count. The result
/// is success or data-error, and is pinned wherever the model decides:
/// success in test mode or without a stream; data-error whenever the
/// reader's model refuses the item; and a successful item's stream holds
/// exactly the item's modeled byte count.
pub open spec fn extract_group_ok<F: ArchiveReader>(
    inner: F,
    idxs: Seq<u32>,
    test_mode: bool,
    evs: Seq<ExtractCbEvent>,
    base: int,
    k: int,
) -> bool {
    &&& evs[base + 2 + 5 * k] == ExtractCbEvent::Prepared(NASK_EXTRACT)
    &&& evs[base + 5 + 5 * k] == ExtractCbEvent::Completed(
        sat64(sizes_total(inner.items(), idxs.take(k + 1))),
    )
    &&& match (evs[base + 1 + 5 * k], evs[base + 3 + 5 * k], evs[base + 4 + 5 * k]) {
        (
            ExtractCbEvent::StreamRequest(item, ask, provided),
            ExtractCbEvent::StreamReleased(rel),
            ExtractCbEvent::ResultSig(res),
        ) => {
            &&& item == idxs[k]
            &&& ask == NASK_EXTRACT
            &&& (rel is Some <==> provided)
            &&& (res == NRESULT_OK || res == NRESULT_DATA_ERROR)
            &&& ((test_mode || !provided) ==> res == NRESULT_OK)
            &&& ((!test_mode && provided && !inner.extract_ok(idxs[k] as int)) ==> res
                == NRESULT_DATA_ERROR)
            &&& ((!test_mode && provided && res == NRESULT_OK) ==> rel == Some(
                inner.extracted(idxs[k] as int).len() as u64,
            ))
            &&& ((!test_mode && provided && inner.extract_ok(idxs[k] as int) && res
                == NRESULT_DATA_ERROR) ==> (rel matches Some(got) && (got as int)
                < inner.extracted(idxs[k] as int).len()))
        },
        _ => false,
    }
}

/// What a successful extraction call does to the callback's event log:
/// the log keeps its history and gains, first, the batch total — the
/// summed declared sizes of the addressed items — and then exactly five
/// events for each addressed item in request order, so the per-item
/// result is signaled once per item and the final completed count equals
/// the announced total.
pub open spec fn extract_events_ok<F: ArchiveReader>(
    inner: F,
    which: ExtractIndices,
    test_mode: bool,
    old_evs: Seq<ExtractCbEvent>,
    evs: Seq<ExtractCbEvent>,
) -> bool {
    let items = inner.items();
    let idxs = processed_list(items.len() as int, resolved_indices(items.len() as int, which));
    let base = old_evs.len() as int;
    &&& evs.len() == base + 1 + 5 * idxs.len()
    &&& evs.take(base) == old_evs
    &&& evs[base] == ExtractCbEvent::Total(sat64(sizes_total(items, idxs)))
    &&& forall|k: int|
        0 <= k < idxs.len() ==> extract_group_ok(inner, idxs, test_mode, evs, base, k)
}

impl<F: ArchiveReader, S: IInStream> PluginHandler<F, S> {
    /// Resolve a request to the list of indices that address existing
    /// items, in request order.
    fn resolve_valid(&self, which: &ExtractIndices) -> (v: Vec<u32>)
        requires
            self.spec_items().len() <= u32::MAX,
        ensures
            v@ == processed_list(
                self.spec_items().len() as int,
                resolved_indices(self.spec_items().len() as int, *which),
            ),
            forall|k: int| 0 <= k < v@.len() ==> (v@[k] as int) < self.spec_items().len(),
    {
        let count = self.inner.item_count();
        let mut v: Vec<u32> = Vec::new();
        match which {
            ExtractIndices::All => {
                let mut i: usize = 0;
                while i < count
                    invariant
                        i <= count,
                        count == self.spec_items().len(),
                        count <= u32::MAX,
                        v@ == processed_list(
                            count as int,
                            Seq::new(i as nat, |j: int| j as u32),
                        ),
                        forall|k: int| 0 <= k < v@.len() ==> (v@[k] as int) < count,
                    decreases count - i,
                {
                    let ghost s_old = Seq::new(i as nat, |j: int| j as u32);
                    v.push(i as u32);
                    i = i + 1;
                    proof {
                        let s_new = Seq::new(i as nat, |j: int| j as u32);
                        assert(s_new.drop_last() =~= s_old);
                        assert(s_new.last() == (i - 1) as u32);
                        assert(v@ == processed_list(count as int, s_new));
                    }
                }
                v
            },
            ExtractIndices::Listed(list) => {
                let mut j: usize = 0;
                while j < list.len()
                    invariant
                        j <= list@.len(),
                        count == self.spec_items().len(),
                        v@ == processed_list(count as int, list@.take(j as int)),
                        forall|k: int| 0 <= k < v@.len() ==> (v@[k] as int) < count,
                    decreases list@.len() - j,
                {
                    let idx = list[j];
                    let ghost t_old = list@.take(j as int);
                    if (idx as usize) < count {
                        v.push(idx);
                    }
                    j = j + 1;
                    proof {
                        let t_new = list@.take(j as int);
                        assert(t_new.drop_last() =~= t_old);
                        assert(t_new.last() == idx);
                        assert(v@ == processed_list(count as int, t_new));
                    }
                }
                proof {
                    assert(list@.take(list@.len() as int) =~= list@);
                }
                v
            },
        }
    }

    /// Drive the extraction protocol over the addressed items.
    ///
    /// The summed declared sizes go to the callback as the total; each
    /// addressed item is then processed in order — missing indices are
    /// skipped — and signaled individually, a data error inside one
    /// item's extraction never aborting the rest. In test mode, or when
    /// the host hands out no stream, an item counts as trivially
    /// successful. A host refusal of a stream or of a result signal
    /// aborts the whole call with the host's failure; the per-item
    /// result codes, not the overall return, tell which files succeeded.
    /// A batch that addresses nothing always succeeds, and whatever
    /// happens, the callback's log only ever grows.
    pub fn extract<C: IArchiveExtractCallback, P: PasswordRequester>(
        &mut self,
        which: &ExtractIndices,
        test_mode: bool,
        callback: &mut C,
        password_requester: Option<&P>,
    ) -> (r: Result<(), Error>)
        requires
            old(self).spec_items().len() <= u32::MAX,
        ensures
            final(self).spec_items() == old(self).spec_items(),
            final(self).spec_ref_count() == old(self).spec_ref_count(),
            final(self).spec_is_open() == old(self).spec_is_open(),
            final(self).spec_has_stream() == old(self).spec_has_stream(),
            final(self).spec_archive_size() == old(self).spec_archive_size(),
            old(callback).events().is_prefix_of(final(callback).events()),
            processed_list(
                old(self).spec_items().len() as int,
                resolved_indices(old(self).spec_items().len() as int, *which),
            ).len() == 0 ==> r is Ok,
            r is Ok ==> extract_events_ok(
                old(self).spec_inner(),
                *which,
                test_mode,
                old(callback).events(),
                final(callback).events(),
            ),
    {
        let ghost items = old(self).spec_items();
        let ghost inner0 = old(self).spec_inner();
        let ghost base = old(callback).events().len() as int;
        let valid = self.resolve_valid(which);
        let ghost idxs = valid@;

        let mut total: u64 = 0;
        let mut t: usize = 0;
        while t < valid.len()
            invariant
                t <= valid@.len(),
                valid@ == idxs,
                items == old(self).spec_items(),
                forall|q: int| 0 <= q < idxs.len() ==> (idxs[q] as int) < items.len(),
                self.spec_items() == items,
                total == sat64(sizes_total(items, idxs.take(t as int))),
            decreases valid@.len() - t,
        {
            let idx = valid[t];
            let item_size = match self.inner.get_item(idx as usize) {
                Some(item) => item.size,
                None => {
                    proof {
                        assert(false);
                    }
                    0
                },
            };
            total = total.saturating_add(item_size);
            t = t + 1;
            proof {
                let t_new = idxs.take(t as int);
                let t_old = idxs.take(t as int - 1);
                assert(t_new.drop_last() =~= t_old);
                assert(t_new.last() == idx);
                lemma_sizes_total_nonneg(items, t_old);
            }
        }
        proof {
            assert(idxs.take(idxs.len() as int) =~= idxs);
        }

        let _ = callback.set_total(total);
        proof {
            assert(callback.events().take(base) =~= old(callback).events());
        }

        let mut completed: u64 = 0;
        let mut k: usize = 0;
        while k < valid.len()
            invariant
                k <= valid@.len(),
                valid@ == idxs,
                items == old(self).spec_items(),
                inner0 == old(self).spec_inner(),
                idxs == processed_list(
                    items.len() as int,
                    resolved_indices(items.len() as int, *which),
                ),
                forall|q: int| 0 <= q < idxs.len() ==> (idxs[q] as int) < items.len(),
                self.spec_items() == items,
                forall|j: int| self.spec_inner().extract_ok(j) == inner0.extract_ok(j),
                forall|j: int| self.spec_inner().extracted(j) == inner0.extracted(j),
                self.spec_ref_count() == old(self).spec_ref_count(),
                self.spec_is_open() == old(self).spec_is_open(),
                self.spec_has_stream() == old(self).spec_has_stream(),
                self.spec_archive_size() == old(self).spec_archive_size(),
                total == sat64(sizes_total(items, idxs)),
                completed == sat64(sizes_total(items, idxs.take(k as int))),
                base == old(callback).events().len(),
                callback.events().len() == base + 1 + 5 * (k as int),
                callback.events().take(base) == old(callback).events(),
                callback.events()[base] == ExtractCbEvent::Total(total),
                forall|q: int|
                    0 <= q < k ==> extract_group_ok(
                        inner0,
                        idxs,
                        test_mode,
                        callback.events(),
                        base,
                        q,
                    ),
            decreases valid@.len() - k,
        {
            let ghost evs_before = callback.events();
            let idx = valid[k];
            let item_size = match self.inner.get_item(idx as usize) {
                Some(item) => item.size,
                None => {
                    proof {
                        assert(false);
                    }
                    0
                },
            };

            let stream_opt = match callback.get_stream(idx, NASK_EXTRACT) {
                Ok(s) => s,
                Err(e) => {
                    proof {
                        assert(callback.events().take(base) =~= old(callback).events());
                        assert(old(callback).events().is_prefix_of(callback.events()));
                    }
                    return Err(e);
                },
            };
            let ghost provided = stream_opt is Some;
            let _ = callback.prepare_operation(NASK_EXTRACT);

            let result: i32;
            let used_stream: Option<C::OutStream>;
            match stream_opt {
                Some(stream) => {
                    if test_mode {
                        result = NRESULT_OK;
                        used_stream = Some(stream);
                    } else {
                        let mut writer = SeqOutStreamWriter::new(stream);
                        match self.inner.extract_to_with_password(
                            idx as usize,
                            &mut writer,
                            password_requester,
                        ) {
                            Ok(_) => {
                                result = NRESULT_OK;
                            },
                            Err(_) => {
                                result = NRESULT_DATA_ERROR;
                            },
                        }
                        used_stream = Some(writer.into_inner());
                    }
                },
                None => {
                    result = NRESULT_OK;
                    used_stream = None;
                },
            }
            callback.release_stream(used_stream);

            match callback.set_operation_result(result) {
                Ok(_) => {},
                Err(e) => {
                    proof {
                        assert(callback.events().take(base) =~= old(callback).events());
                        assert(old(callback).events().is_prefix_of(callback.events()));
                    }
                    return Err(e);
                },
            }
            completed = completed.saturating_add(item_size);
            let _ = callback.set_completed(completed);
            k = k + 1;
            proof {
                let t_new = idxs.take(k as int);
                let t_old = idxs.take(k as int - 1);
                assert(t_new.drop_last() =~= t_old);
                assert(t_new.last() == idx);
                lemma_sizes_total_nonneg(items, t_old);
                let evs = callback.events();
                assert(evs.take(base) =~= evs_before.take(base));
                assert(extract_group_ok(inner0, idxs, test_mode, evs, base, k as int - 1));
                assert forall|q: int| 0 <= q < k as int - 1 implies extract_group_ok(
                    inner0,
                    idxs,
                    test_mode,
                    evs,
                    base,
                    q,
                ) by {
                    assert(extract_group_ok(inner0, idxs, test_mode, evs_before, base, q));
                }
            }
        }
        proof {
            assert(idxs.take(idxs.len() as int) =~= idxs);
            assert(old(callback).events().is_prefix_of(callback.events()));
        }
        Ok(())
    }
}

} // verus!
