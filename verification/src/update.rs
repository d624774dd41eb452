//! The update orchestrator.
//!
//! An update runs in two passes over the host's slot table — sizing, then
//! collection — and a write phase. The sizing pass sums the declared
//! sizes of new data and of copied existing items and announces the
//! total. The collection pass turns the slots into descriptors: new data
//! becomes AddNew (directories are skipped when the format says so), a
//! copy becomes CopyExisting, and a slot with neither flag is a deletion
//! and appends nothing — but every slot is signaled a per-item result.
//! The write phase hands the descriptors to the format's streaming
//! update; progress reaches the host only through the rescaling channel,
//! so the protocol's earlier announcements survive it. Whatever the write
//! phase does, the object ends the call closed.

use vstd::prelude::*;
use crate::com::{
    IArchiveUpdateCallback, IInStream, ISequentialOutStream, NRESULT_OK, UpdateCbEvent,
    UpdateSlot,
};
use crate::error::Error;
use crate::extract::sat64;
use crate::handler::PluginHandler;
use crate::streams::{MemReader, read_sequential_stream, SeqOutStreamWriter};
use crate::traits::{ArchiveFormat, ArchiveReader, ArchiveUpdater};
use crate::types::{ArchiveItem, PasswordProvider, UpdateItem};

verus! {

/// The byte total an update batch declares: for each of the first `n`
/// slots, a new item counts its declared size and a copy counts the
/// existing item's size; deletions and out-of-range copies count nothing.
pub open spec fn update_total(items: Seq<ArchiveItem>, slots: Seq<UpdateSlot>, n: int) -> int
    decreases n,
{
    if n <= 0 {
        0
    } else {
        let rest = update_total(items, slots, n - 1);
        let s = slots[n - 1];
        rest + (if s.new_data {
            match s.size {
                Some(sz) => sz as int,
                None => 0,
            }
        } else {
            match s.index_in_archive {
                Some(idx) => if (idx as int) < items.len() {
                    items[idx as int].size as int
                } else {
                    0
                },
                None => 0,
            }
        })
    }
}

/// A declared total is never negative.
pub proof fn lemma_update_total_nonneg(items: Seq<ArchiveItem>, slots: Seq<UpdateSlot>, n: int)
    ensures
        update_total(items, slots, n) >= 0,
    decreases n,
{
    if n > 0 {
        lemma_update_total_nonneg(items, slots, n - 1);
    }
}

/// Does slot `s` append a descriptor: new data — unless it is a directory
/// and the format skips directory entries — or a copy of an existing
/// item? A slot with neither flag is a deletion and appends nothing.
pub open spec fn spec_slot_emits(s: UpdateSlot, skip_directories: bool) -> bool {
    if s.new_data {
        !(skip_directories && s.is_dir)
    } else {
        s.index_in_archive is Some
    }
}

/// The positions among the first `n` slots that append a descriptor, in
/// order.
pub open spec fn emitted_slots(slots: Seq<UpdateSlot>, n: int, skip_directories: bool) -> Seq<
    int,
>
    decreases n,
{
    if n <= 0 {
        Seq::empty()
    } else {
        let rest = emitted_slots(slots, n - 1, skip_directories);
        if spec_slot_emits(slots[n - 1], skip_directories) {
            rest.push(n - 1)
        } else {
            rest
        }
    }
}

/// The emitted positions among the first `n` slots are positions below
/// `n`, and there are at most `n` of them.
pub proof fn lemma_emitted_slots_bounds(slots: Seq<UpdateSlot>, n: int, skip_directories: bool)
    ensures
        emitted_slots(slots, n, skip_directories).len() <= (if n >= 0 {
            n
        } else {
            0
        }),
        forall|q: int|
            0 <= q < emitted_slots(slots, n, skip_directories).len() ==> 0 <= #[trigger]
            emitted_slots(slots, n, skip_directories)[q] < n,
    decreases n,
{
    if n > 0 {
        lemma_emitted_slots_bounds(slots, n - 1, skip_directories);
    }
}

/// Does descriptor `u` carry what slot `s` declares: a new item's name
/// and bytes, or the copied source index with no rename?
pub open spec fn update_matches_slot(u: UpdateItem, s: UpdateSlot) -> bool {
    if s.new_data {
        u matches UpdateItem::AddNew { name, data } && name@ == s.name@ && data@ == s.content@
    } else {
        u matches UpdateItem::CopyExisting { index, new_name } && (match s.index_in_archive {
            Some(idx) => index as int == idx as int,
            None => false,
        }) && new_name is None
    }
}

/// The collection pass: walk the first `num_items` slots and build the
/// descriptor list. A new item's declared name is read and its input
/// stream drained to memory (the host does not keep the stream valid
/// beyond this call); directories are skipped when `skip_directories`
/// says so; copies reference their source index; deletions append
/// nothing. Every slot — deletions included — is signaled success. A
/// host refusal of a descriptor query or a stream, or a stream fault,
/// aborts the call; an empty batch always succeeds.
pub fn collect_updates<U: IArchiveUpdateCallback>(
    callback: &mut U,
    num_items: u32,
    skip_directories: bool,
) -> (r: Result<Vec<UpdateItem>, Error>)
    ensures
        final(callback).slots() == old(callback).slots(),
        old(callback).events().is_prefix_of(final(callback).events()),
        num_items == 0 ==> r is Ok,
        r matches Ok(updates) ==> {
            let slots = old(callback).slots();
            let em = emitted_slots(slots, num_items as int, skip_directories);
            &&& (num_items as int) <= slots.len()
            &&& updates@.len() == em.len()
            &&& (forall|q: int|
                0 <= q < em.len() ==> update_matches_slot(updates@[q], slots[em[q]]))
            &&& final(callback).events().len() == old(callback).events().len()
                + num_items as int
            &&& (forall|q: int|
                old(callback).events().len() <= q < final(callback).events().len()
                    ==> final(callback).events()[q] == UpdateCbEvent::ResultSig(NRESULT_OK))
        },
{
    let ghost slots = old(callback).slots();
    let ghost base = old(callback).events().len() as int;
    let mut updates: Vec<UpdateItem> = Vec::new();
    let mut i: u32 = 0;
    while i < num_items
        invariant
            i <= num_items,
            slots == old(callback).slots(),
            base == old(callback).events().len(),
            callback.slots() == slots,
            (i as int) <= slots.len(),
            updates@.len() == emitted_slots(slots, i as int, skip_directories).len(),
            forall|q: int|
                0 <= q < emitted_slots(slots, i as int, skip_directories).len()
                    ==> update_matches_slot(
                    updates@[q],
                    slots[emitted_slots(slots, i as int, skip_directories)[q]],
                ),
            callback.events().len() == base + i as int,
            callback.events().take(base) == old(callback).events(),
            forall|q: int|
                base <= q < callback.events().len() ==> callback.events()[q]
                    == UpdateCbEvent::ResultSig(NRESULT_OK),
        decreases num_items - i,
    {
        let info = match callback.get_update_item_info(i) {
            Ok(x) => x,
            Err(e) => {
                proof {
                    assert(old(callback).events().is_prefix_of(callback.events()));
                }
                return Err(e);
            },
        };
        let ghost em_old = emitted_slots(slots, i as int, skip_directories);
        let ghost evs_before = callback.events();
        if info.0 {
            let dir_prop = callback.get_property(i, 6);
            let is_dir = match dir_prop.get_bool() {
                Some(b) => b,
                None => false,
            };
            if is_dir && skip_directories {
                let _ = callback.set_operation_result(NRESULT_OK);
            } else {
                let name_prop = callback.get_property(i, 3);
                let name = match name_prop.get_bstr() {
                    Some(s) => s,
                    None => String::new(),
                };
                let data: Vec<u8>;
                match callback.get_stream(i) {
                    Ok(Some(mut s)) => {
                        match read_sequential_stream(&mut s) {
                            Ok(d) => {
                                data = d;
                            },
                            Err(e) => {
                                proof {
                                    assert(old(callback).events().is_prefix_of(
                                        callback.events(),
                                    ));
                                }
                                return Err(e);
                            },
                        }
                    },
                    Ok(None) => {
                        data = Vec::new();
                    },
                    Err(e) => {
                        proof {
                            assert(old(callback).events().is_prefix_of(callback.events()));
                        }
                        return Err(e);
                    },
                }
                proof {
                    assert(data@ =~= slots[i as int].content@);
                }
                updates.push(UpdateItem::AddNew { name, data });
                proof {
                    assert(update_matches_slot(updates@.last(), slots[i as int]));
                }
                let _ = callback.set_operation_result(NRESULT_OK);
            }
        } else {
            match info.2 {
                Some(idx) => {
                    updates.push(UpdateItem::CopyExisting { index: idx as usize, new_name: None });
                    proof {
                        assert(update_matches_slot(updates@.last(), slots[i as int]));
                    }
                    let _ = callback.set_operation_result(NRESULT_OK);
                },
                None => {
                    // a deletion appends nothing, but is still signaled
                    let _ = callback.set_operation_result(NRESULT_OK);
                },
            }
        }
        i = i + 1;
        proof {
            lemma_emitted_slots_bounds(slots, i as int, skip_directories);
            let em_new = emitted_slots(slots, i as int, skip_directories);
            assert(evs_before.len() >= base);
            assert(callback.events().take(base) =~= evs_before.take(base));
            assert forall|q: int| 0 <= q < em_new.len() implies update_matches_slot(
                updates@[q],
                slots[em_new[q]],
            ) by {
                if q < em_old.len() {
                    assert(update_matches_slot(updates@[q], slots[em_old[q]]));
                    assert(em_new[q] == em_old[q]);
                } else {
                    assert(em_new == em_old.push(i as int - 1));
                    assert(em_new[q] == i as int - 1);
                }
            }
        }
    }
    proof {
        assert(old(callback).events().is_prefix_of(callback.events()));
    }
    Ok(updates)
}

/// The declared-total value a format's (completed, total) report maps to:
/// scaled by the ratio completed/total and clamped to the declared total,
/// so the host's progress only moves toward the announced end value. A
/// report against a zero total maps to zero.
pub open spec fn spec_rescale(completed: u64, total: u64, declared_total: u64) -> u64 {
    if total == 0 {
        0
    } else {
        let scaled = completed as int * declared_total as int / total as int;
        if scaled > declared_total as int {
            declared_total
        } else {
            scaled as u64
        }
    }
}

/// Map a format's self-reported progress onto the declared total.
pub fn rescale_progress(completed: u64, total: u64, declared_total: u64) -> (r: u64)
    ensures
        r == spec_rescale(completed, total, declared_total),
{
    if total == 0 {
        0
    } else {
        proof {
            assert((completed as int) * (declared_total as int) <= (u64::MAX as int) * (
            u64::MAX as int)) by (nonlinear_arith)
                requires
                    completed <= u64::MAX,
                    declared_total <= u64::MAX,
            ;
        }
        let scaled: u128 = (completed as u128) * (declared_total as u128) / (total as u128);
        if scaled > declared_total as u128 {
            declared_total
        } else {
            scaled as u64
        }
    }
}

/// The write phase's progress channel: report a format's (completed,
/// total) pair on the update callback, rescaled onto the declared total.
/// The continue signal is always given: cancellation is not wired
/// through this path.
pub fn report_scaled<U: IArchiveUpdateCallback>(
    progress: &mut U,
    completed: u64,
    total: u64,
    declared_total: u64,
) -> (go: bool)
    ensures
        go == true,
        final(progress).slots() == old(progress).slots(),
        final(progress).events() == old(progress).events().push(
            UpdateCbEvent::Completed(spec_rescale(completed, total, declared_total)),
        ),
{
    let scaled = rescale_progress(completed, total, declared_total);
    let _ = progress.set_completed(scaled);
    true
}

/// What a successful update call does to the callback's event log: the
/// log keeps its history and gains the declared total, one success
/// signal per slot, then only (rescaled) completion announcements from
/// the write phase, and ends with completion pinned to exactly the
/// declared total.
pub open spec fn update_events_ok(
    items: Seq<ArchiveItem>,
    slots: Seq<UpdateSlot>,
    n: int,
    old_evs: Seq<UpdateCbEvent>,
    evs: Seq<UpdateCbEvent>,
) -> bool {
    let base = old_evs.len() as int;
    let total = sat64(update_total(items, slots, n));
    &&& evs.len() >= base + 2 + n
    &&& evs[base] == UpdateCbEvent::Total(total)
    &&& (forall|q: int|
        0 <= q < n ==> #[trigger] evs[base + 1 + q] == UpdateCbEvent::ResultSig(NRESULT_OK))
    &&& (forall|q: int| base + 1 + n <= q < evs.len() ==> #[trigger] evs[q] is Completed)
    &&& evs.last() == UpdateCbEvent::Completed(total)
}

impl<F: ArchiveUpdater, S: IInStream> PluginHandler<F, S> {
    /// The sizing pass: sum what the first `num_items` slots declare —
    /// a new item's declared size, a copied item's existing size — into
    /// the total the host will be told, saturated to the 64-bit range.
    /// An empty batch always sizes successfully.
    pub fn update_sizing_pass<U: IArchiveUpdateCallback>(
        &self,
        callback: &mut U,
        num_items: u32,
    ) -> (r: Result<u64, Error>)
        ensures
            final(callback).slots() == old(callback).slots(),
            final(callback).events() == old(callback).events(),
            num_items == 0 ==> r is Ok,
            r matches Ok(total) ==> (num_items as int) <= old(callback).slots().len() && total
                == sat64(update_total(self.spec_items(), old(callback).slots(), num_items as int)),
    {
        let ghost items = self.spec_items();
        let ghost slots = old(callback).slots();
        let mut total: u64 = 0;
        let mut i: u32 = 0;
        while i < num_items
            invariant
                i <= num_items,
                items == self.spec_items(),
                slots == old(callback).slots(),
                callback.slots() == slots,
                callback.events() == old(callback).events(),
                (i as int) <= slots.len(),
                total == sat64(update_total(items, slots, i as int)),
            decreases num_items - i,
        {
            let info = match callback.get_update_item_info(i) {
                Ok(x) => x,
                Err(e) => {
                    return Err(e);
                },
            };
            let add: u64;
            if info.0 {
                let size_prop = callback.get_property(i, 7);
                add = match size_prop.get_u64() {
                    Some(s) => s,
                    None => 0,
                };
            } else {
                match info.2 {
                    Some(idx) => {
                        add = match self.inner.get_item(idx as usize) {
                            Some(item) => item.size,
                            None => 0,
                        };
                    },
                    None => {
                        add = 0;
                    },
                }
            }
            total = total.saturating_add(add);
            i = i + 1;
            proof {
                lemma_update_total_nonneg(items, slots, i as int - 1);
            }
        }
        Ok(total)
    }

    /// The update protocol proper: size, announce the total, collect the
    /// descriptors, and run the format's streaming update — against the
    /// attached archive stream, rewound and measured afresh, or against
    /// no bytes when none is attached — with progress rescaled onto the
    /// announced total. After a successful write phase, completion is set
    /// to exactly the announced total, protecting against rounding
    /// short-falls in the rescaling.
    pub fn update_items_inner<
        U: IArchiveUpdateCallback,
        O: ISequentialOutStream,
        Q: PasswordProvider,
    >(
        &mut self,
        out_stream: O,
        num_items: u32,
        callback: &mut U,
        password_provider: Option<&Q>,
    ) -> (r: Result<(), Error>)
        ensures
            final(self).spec_ref_count() == old(self).spec_ref_count(),
            final(callback).slots() == old(callback).slots(),
            old(callback).events().is_prefix_of(final(callback).events()),
            r is Ok ==> update_events_ok(
                old(self).spec_items(),
                old(callback).slots(),
                num_items as int,
                old(callback).events(),
                final(callback).events(),
            ),
    {
        let ghost base = old(callback).events().len() as int;
        let total = match self.update_sizing_pass(callback, num_items) {
            Ok(t) => t,
            Err(e) => {
                proof {
                    assert(old(callback).events().is_prefix_of(callback.events()));
                }
                return Err(e);
            },
        };
        let _ = callback.set_total(total);
        let ghost e1 = callback.events();
        proof {
            assert(callback.events().take(base) =~= old(callback).events());
        }
        let updates = match collect_updates(callback, num_items, F::skips_directory_entries()) {
            Ok(u) => u,
            Err(e) => {
                return Err(e);
            },
        };
        let ghost pre_write_evs = callback.events();
        let mut writer = SeqOutStreamWriter::new(out_stream);
        let write_result: Result<u64, Error>;
        match &mut self.in_stream {
            Some(rd) => {
                match rd.reset() {
                    Ok(()) => {},
                    Err(e) => {
                        return Err(e);
                    },
                }
                let size = rd.size();
                write_result = self.inner.update_streaming_with_password(
                    rd,
                    size,
                    updates,
                    &mut writer,
                    &mut *callback,
                    total,
                    password_provider,
                );
            },
            None => {
                let mut empty = MemReader::empty();
                write_result = self.inner.update_streaming_with_password(
                    &mut empty,
                    0,
                    updates,
                    &mut writer,
                    &mut *callback,
                    total,
                    password_provider,
                );
            },
        }
        proof {
            assert(pre_write_evs.is_prefix_of(callback.events()));
            assert(callback.events().take(base) =~= old(callback).events());
        }
        match write_result {
            Ok(_) => {
                let ghost e3 = callback.events();
                let _ = callback.set_completed(total);
                proof {
                    let n = num_items as int;
                    let e4 = callback.events();
                    assert(e4 == e3.push(UpdateCbEvent::Completed(total)));
                    assert(e3.subrange(0, pre_write_evs.len() as int) =~= pre_write_evs);
                    assert forall|q: int| 0 <= q < pre_write_evs.len() implies e4[q]
                        == pre_write_evs[q] by {
                        assert(e3.subrange(0, pre_write_evs.len() as int)[q]
                            == pre_write_evs[q]);
                    }
                    assert(pre_write_evs.len() == base + 1 + n);
                    assert(pre_write_evs.take(base + 1) =~= e1);
                    assert(pre_write_evs[base] == e1[base]);
                    assert(e4[base] == UpdateCbEvent::Total(total));
                    assert forall|q: int| 0 <= q < n implies #[trigger] e4[base + 1 + q]
                        == UpdateCbEvent::ResultSig(NRESULT_OK) by {
                        assert(pre_write_evs[base + 1 + q] == UpdateCbEvent::ResultSig(
                            NRESULT_OK,
                        ));
                    }
                    assert forall|q: int| base + 1 + n <= q < e4.len() implies #[trigger]
                    e4[q] is Completed by {
                        if q < e3.len() {
                            assert(e3[q] is Completed);
                        } else {
                            assert(e4[q] == UpdateCbEvent::Completed(total));
                        }
                    }
                    assert(e4.last() == UpdateCbEvent::Completed(total));
                    assert(callback.events().take(base) =~= old(callback).events());
                    assert(old(callback).events().is_prefix_of(callback.events()));
                }
                Ok(())
            },
            Err(e) => Err(e),
        }
    }

    /// Drive a whole update call, and leave the object closed whatever
    /// happens: the format is closed and the attached stream released
    /// whether the write phase succeeds or fails.
    pub fn update_items<
        U: IArchiveUpdateCallback,
        O: ISequentialOutStream,
        Q: PasswordProvider,
    >(
        &mut self,
        out_stream: O,
        num_items: u32,
        callback: &mut U,
        password_provider: Option<&Q>,
    ) -> (r: Result<(), Error>)
        ensures
            final(self).spec_ref_count() == old(self).spec_ref_count(),
            !final(self).spec_is_open(),
            !final(self).spec_has_stream(),
            final(callback).slots() == old(callback).slots(),
            old(callback).events().is_prefix_of(final(callback).events()),
            r is Ok ==> update_events_ok(
                old(self).spec_items(),
                old(callback).slots(),
                num_items as int,
                old(callback).events(),
                final(callback).events(),
            ),
    {
        let result = self.update_items_inner(out_stream, num_items, callback, password_provider);
        self.inner.close();
        self.is_open = false;
        self.in_stream = None;
        result
    }
}

} // verus!
