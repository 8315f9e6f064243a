//! The shared, growable collection of audio resources, and the mixing
//! algorithm that runs over one atomic snapshot of it per pass.

use std::sync::Arc;

use vstd::prelude::*;
use vstd::rwlock::{RwLock, RwLockPredicate};

use crate::resource::{AudioResource, ConstantSource};
use crate::sample::{div_sum, div_trunc};
use crate::stream::{StreamBuffer, StreamInfo};

verus! {

/// The owned collection of registered resources, in registration order.
/// All access during streaming goes through the exclusive lock of
/// [`SharedRegistry`]; these methods state exactly what each operation does
/// to the collection.
pub struct Registry<R> {
    /// The registered resources, in registration order.
    pub items: Vec<R>,
}

impl<R> View for Registry<R> {
    type V = Seq<R>;

    open spec fn view(&self) -> Seq<R> {
        self.items@
    }
}

impl<R: AudioResource> Registry<R> {
    /// An empty registry.
    pub fn new() -> (r: Registry<R>)
        ensures
            r@ == Seq::<R>::empty(),
    {
        Registry { items: Vec::new() }
    }

    /// Transfer ownership of one resource into the registry. The collection
    /// grows by exactly that resource: there is no state in which it is
    /// partially added.
    pub fn add(&mut self, resource: R)
        ensures
            final(self)@ == old(self)@.push(resource),
    {
        self.items.push(resource);
    }

    /// How many resources are registered.
    pub fn len(&self) -> (n: usize)
        ensures
            n == self@.len(),
    {
        self.items.len()
    }
}

/// Every resource advanced by one produced sample.
pub open spec fn advance_one<R: AudioResource>(rs: Seq<R>, info: StreamInfo) -> Seq<R> {
    rs.map_values(|r: R| r.next_state(info))
}

/// The resource states after `k` output slots of one pass.
pub open spec fn advance_n<R: AudioResource>(rs: Seq<R>, info: StreamInfo, k: nat) -> Seq<R>
    decreases k,
{
    if k == 0 {
        rs
    } else {
        advance_one(advance_n(rs, info, (k - 1) as nat), info)
    }
}

/// The sum of the contributions of all resources at their current states.
pub open spec fn slot_sum<R: AudioResource>(rs: Seq<R>, info: StreamInfo) -> int
    decreases rs.len(),
{
    if rs.len() == 0 {
        0
    } else {
        slot_sum(rs.drop_last(), info) + rs.last().sample(info)
    }
}

/// The mixed value of one output slot: the truncated arithmetic mean of all
/// contributions, and exact silence when no resource is registered (never a
/// division by zero).
pub open spec fn mixed_slot<R: AudioResource>(rs: Seq<R>, info: StreamInfo) -> int {
    if rs.len() == 0 {
        0
    } else {
        div_trunc(slot_sum(rs, info), rs.len() as int)
    }
}

/// `out` is what one whole mix pass of `len` slots produces from the single
/// registry snapshot `rs`: slot `k` is the mean of the contributions of all
/// of `rs` after `k` ticks, and of nothing else.
pub open spec fn is_mix_of<R: AudioResource>(
    out: Seq<i32>,
    rs: Seq<R>,
    info: StreamInfo,
    len: nat,
) -> bool {
    &&& out.len() == len
    &&& forall|k: int|
        0 <= k < len ==> #[trigger] (out[k] as int) == mixed_slot(
            advance_n(rs, info, k as nat),
            info,
        )
}

/// Mix one output slot: every resource contributes one sample and advances
/// by one; the slot is the truncated mean of the contributions, and silence
/// when the registry is empty.
pub fn mix_slot<R: AudioResource>(registry: &mut Registry<R>, info: &StreamInfo) -> (m: i32)
    ensures
        m as int == mixed_slot(old(registry)@, *info),
        final(registry)@ == advance_one(old(registry)@, *info),
        -32768 <= m as int <= 32768,
{
    let ghost orig = registry@;
    let n = registry.items.len();
    let mut acc: i128 = 0;
    let mut i: usize = 0;
    while i < n
        invariant
            n == registry.items@.len(),
            n == orig.len(),
            i <= n,
            forall|k: int| i <= k < n ==> #[trigger] registry.items@[k] == orig[k],
            forall|k: int|
                0 <= k < i ==> #[trigger] registry.items@[k] == orig[k].next_state(*info),
            acc as int == slot_sum(orig.subrange(0, i as int), *info),
            -(i as int) * 32768 <= acc as int <= (i as int) * 32768,
        decreases n - i,
    {
        let r = &mut registry.items[i];
        let s = r.tick(info);
        proof {
            assert(orig.subrange(0, i + 1).drop_last() =~= orig.subrange(0, i as int));
            assert(orig.subrange(0, i + 1).last() == orig[i as int]);
        }
        acc = acc + (s as i128);
        i = i + 1;
    }
    proof {
        assert(orig.subrange(0, n as int) =~= orig);
        assert(registry.items@ =~= advance_one(orig, *info));
    }
    if n == 0 {
        0
    } else {
        div_sum(acc, n)
    }
}

/// One whole mix pass: size and zero the working buffer, then fill every
/// slot with the mean of all resources' contributions for that slot. The
/// output is a function of the single registry snapshot at entry, and the
/// registry leaves advanced by `len` produced samples.
pub fn mix_into<R: AudioResource>(registry: &mut Registry<R>, buf: &mut StreamBuffer, len: usize)
    ensures
        final(buf).info == old(buf).info,
        is_mix_of(final(buf).data@, old(registry)@, old(buf).info, len as nat),
        final(registry)@ == advance_n(old(registry)@, old(buf).info, len as nat),
{
    let ghost orig = registry@;
    let ghost info0 = buf.info;
    buf.resize_and_zero(len);
    let info = buf.info;
    let mut j: usize = 0;
    while j < len
        invariant
            buf.info == info0,
            info == info0,
            buf.data@.len() == len,
            j <= len,
            registry@ == advance_n(orig, info0, j as nat),
            forall|k: int|
                0 <= k < j ==> #[trigger] (buf.data@[k] as int) == mixed_slot(
                    advance_n(orig, info0, k as nat),
                    info0,
                ),
        decreases len - j,
    {
        let m = mix_slot(registry, &info);
        buf.set_sample(j, m);
        j = j + 1;
    }
}

/// Registration is all-or-nothing for mixing: a pass over the snapshot
/// extended by one resource observes exactly that — the new contribution
/// joins the slot sum and the normalization divisor grows by exactly one —
/// while a pass over the prior snapshot observes none of it.
pub proof fn lemma_add_all_or_nothing<R: AudioResource>(rs: Seq<R>, resource: R, info: StreamInfo)
    ensures
        rs.push(resource).len() == rs.len() + 1,
        slot_sum(rs.push(resource), info) == slot_sum(rs, info) + resource.sample(info),
        mixed_slot(rs.push(resource), info) == div_trunc(
            slot_sum(rs, info) + resource.sample(info),
            rs.len() as int + 1,
        ),
{
    assert(rs.push(resource).drop_last() =~= rs);
    assert(rs.push(resource).last() == resource);
}

/// Mixing resources of known constant contributions: constant sources never
/// change state, so every slot of a pass mixes the same values, and each
/// mixed slot is their truncated arithmetic mean — exact silence when no
/// resource is registered.
pub proof fn lemma_constant_mix(rs: Seq<ConstantSource>, info: StreamInfo, k: nat)
    ensures
        advance_n(rs, info, k) == rs,
        rs.len() == 0 ==> mixed_slot(rs, info) == 0,
        rs.len() > 0 ==> mixed_slot(rs, info) == div_trunc(slot_sum(rs, info), rs.len() as int),
    decreases k,
{
    assert(advance_one(rs, info) =~= rs);
    if k > 0 {
        lemma_constant_mix(rs, info, (k - 1) as nat);
    }
}

/// With no resource registered, every slot of every pass is exact silence,
/// whatever buffer size the hardware requests — never a division by zero.
pub proof fn lemma_empty_registry_silence<R: AudioResource>(info: StreamInfo, k: nat)
    ensures
        advance_n(Seq::<R>::empty(), info, k).len() == 0,
        mixed_slot(advance_n(Seq::<R>::empty(), info, k), info) == 0,
    decreases k,
{
    if k > 0 {
        lemma_empty_registry_silence::<R>(info, (k - 1) as nat);
    }
}

/// The lock predicate for the shared registry: any well-typed collection of
/// resources may be stored.
pub struct RegistryInv;

impl<R> RwLockPredicate<Registry<R>> for RegistryInv {
    open spec fn inv(self, v: Registry<R>) -> bool {
        true
    }
}

/// Relies on std's `Arc::clone`: the returned handle shares the original's
/// allocation, so it refers to the very same lock and contents.
#[verifier::external_body]
fn arc_clone_lock<R>(lock: &Arc<RwLock<Registry<R>, RegistryInv>>) -> (r: Arc<
    RwLock<Registry<R>, RegistryInv>,
>)
    ensures
        r == *lock,
{
    Arc::clone(lock)
}

/// The registry as both execution contexts see it: one owning collection
/// behind a single mutual-exclusion boundary. The control thread adds
/// resources through it while the audio thread runs mix passes; every
/// operation holds the lock for its whole duration, so a pass observes one
/// atomic snapshot, and a registration becomes visible between passes, all
/// or nothing.
pub struct SharedRegistry<R> {
    /// The lock around the owned collection.
    pub lock: Arc<RwLock<Registry<R>, RegistryInv>>,
}

impl<R: AudioResource> SharedRegistry<R> {
    /// An empty shared registry.
    pub fn new() -> (h: SharedRegistry<R>) {
        SharedRegistry { lock: Arc::new(RwLock::new(Registry::new(), Ghost(RegistryInv))) }
    }

    /// A second handle to the same registry, for the other execution context.
    pub fn clone_handle(&self) -> (h: SharedRegistry<R>)
        ensures
            h.lock == self.lock,
    {
        SharedRegistry { lock: arc_clone_lock(&self.lock) }
    }

    /// Transfer one resource into the registry. Takes the exclusive lock, so
    /// it never interleaves with a mix pass: the resource is visible to the
    /// next pass and never to one already in flight.
    pub fn add(&self, resource: R) {
        let (mut reg, handle) = self.lock.acquire_write();
        reg.add(resource);
        handle.release_write(reg);
    }

    /// Run one mix pass over one atomic snapshot of the registry. The lock
    /// is held from before the first slot to after the last, so the whole
    /// output is a function of a single resource sequence — never of a
    /// partially registered one.
    pub fn mix_pass(&self, buf: &mut StreamBuffer, len: usize)
        ensures
            final(buf).info == old(buf).info,
            final(buf).data@.len() == len,
            exists|rs: Seq<R>| is_mix_of(final(buf).data@, rs, old(buf).info, len as nat),
    {
        let (mut reg, handle) = self.lock.acquire_write();
        let ghost snapshot = reg@;
        mix_into(&mut reg, buf, len);
        handle.release_write(reg);
        proof {
            assert(is_mix_of(buf.data@, snapshot, old(buf).info, len as nat));
        }
    }
}

} // verus!
