use vstd::prelude::*;

use crate::handle::{downcast_model, Handle, TypeKey};
use crate::registry::{claim_model, inv, register_model, resolve_model, RegistryView};

verus! {

/// The registry state after a sequence of resolve steps, each for the key
/// at its position.
///
/// For the shared store, any interleaving of concurrent callers is such a
/// sequence, because every step happens while its caller holds the store's
/// lock. For a confined store, each complete acquisition of its one owning
/// context — check, and when absent mint, start, register — composes into
/// one such step ([`lemma_two_phase_is_resolve`]), so its call order is
/// such a sequence too.
pub open spec fn run(v: RegistryView, ops: Seq<TypeKey>) -> RegistryView
    decreases ops.len(),
{
    if ops.len() == 0 {
        v
    } else {
        run(resolve_model(v, ops[0]).0, ops.subrange(1, ops.len() as int))
    }
}

/// The handle the caller of step `i` receives.
pub open spec fn step_handle(v: RegistryView, ops: Seq<TypeKey>, i: int) -> Handle {
    resolve_model(run(v, ops.take(i)), ops[i]).1
}

/// Whether step `i` is the one that creates a new instance.
pub open spec fn step_created(v: RegistryView, ops: Seq<TypeKey>, i: int) -> bool {
    resolve_model(run(v, ops.take(i)), ops[i]).2
}

/// The confined scope's two-phase creation composes into one resolve step.
///
/// A complete confined acquisition is: look the key up, mint when absent,
/// start the instance, register the minted handle — with no other step
/// touching the same store in between, since only the owning context can.
/// For a present key the check half alone is a resolve step that creates
/// nothing; for an absent key, registering the minted handle reaches
/// exactly the state one atomic resolve step reaches, and yields the same
/// handle. Every law below over runs of resolve steps therefore covers the
/// confined two-phase path as well.
pub proof fn lemma_two_phase_is_resolve(v: RegistryView, key: TypeKey)
    ensures
        ({
            let c = claim_model(v, key);
            let r = resolve_model(v, key);
            &&& c.1 == r.1
            &&& c.2 == r.2
            &&& c.2 ==> register_model(c.0, c.1) == r.0
            &&& !c.2 ==> c.0 == r.0
        }),
{
    let c = claim_model(v, key);
    let r = resolve_model(v, key);
    if c.2 {
        assert(register_model(c.0, c.1) =~= r.0);
    }
}

/// A run from a well-formed state reaches only well-formed states, as long
/// as enough serials remain for its steps: the keying invariant is kept by
/// every interleaving, so the isolation guarantees below apply to any state
/// a registry can reach.
pub proof fn lemma_run_preserves_inv(v: RegistryView, ops: Seq<TypeKey>)
    requires
        inv(v),
        v.next_serial + ops.len() <= u64::MAX,
    ensures
        inv(run(v, ops)),
    decreases ops.len(),
{
    if ops.len() > 0 {
        crate::registry::lemma_resolve_preserves_inv(v, ops[0]);
        let next = resolve_model(v, ops[0]).0;
        assert(next.next_serial <= v.next_serial + 1);
        lemma_run_preserves_inv(next, ops.subrange(1, ops.len() as int));
    }
}

/// An entry, once stored, is never changed or removed: whatever later
/// resolve steps happen, the handle stored under `code` stays what it was.
pub proof fn lemma_entry_stable(v: RegistryView, ops: Seq<TypeKey>, code: u64)
    requires
        v.entries.dom().contains(code),
    ensures
        run(v, ops).entries.dom().contains(code),
        run(v, ops).entries[code] == v.entries[code],
    decreases ops.len(),
{
    if ops.len() > 0 {
        lemma_entry_stable(resolve_model(v, ops[0]).0, ops.subrange(1, ops.len() as int), code);
    }
}

/// Running one more step at the end is one resolve step on the state the
/// earlier steps reach.
pub proof fn lemma_run_snoc(v: RegistryView, ops: Seq<TypeKey>, key: TypeKey)
    ensures
        run(v, ops.push(key)) == resolve_model(run(v, ops), key).0,
    decreases ops.len(),
{
    let whole = ops.push(key);
    if ops.len() == 0 {
        let tail = whole.subrange(1, whole.len() as int);
        assert(tail =~= Seq::<TypeKey>::empty());
        assert(run(v, whole) == run(resolve_model(v, whole[0]).0, tail));
        assert(run(resolve_model(v, whole[0]).0, tail) == resolve_model(v, whole[0]).0);
    } else {
        let rest = ops.subrange(1, ops.len() as int);
        assert(whole.subrange(1, whole.len() as int) =~= rest.push(key));
        lemma_run_snoc(resolve_model(v, ops[0]).0, rest, key);
    }
}

/// The state before step `i + 1` is the state before step `i` with step `i`
/// performed on it.
pub proof fn lemma_run_take_succ(v: RegistryView, ops: Seq<TypeKey>, i: int)
    requires
        0 <= i < ops.len(),
    ensures
        run(v, ops.take(i + 1)) == resolve_model(run(v, ops.take(i)), ops[i]).0,
{
    assert(ops.take(i + 1) =~= ops.take(i).push(ops[i]));
    lemma_run_snoc(v, ops.take(i), ops[i]);
}

/// A run splits at any position: the steps up to `j` reach the same state
/// as the steps up to `i` followed by the steps from `i` to `j`.
pub proof fn lemma_run_decompose(v: RegistryView, ops: Seq<TypeKey>, i: int, j: int)
    requires
        0 <= i <= j <= ops.len(),
    ensures
        run(v, ops.take(j)) == run(run(v, ops.take(i)), ops.subrange(i, j)),
    decreases j - i,
{
    if i == j {
        assert(ops.subrange(i, j) =~= Seq::<TypeKey>::empty());
    } else {
        lemma_run_decompose(v, ops, i, j - 1);
        lemma_run_take_succ(v, ops, j - 1);
        assert(ops.subrange(i, j) =~= ops.subrange(i, j - 1).push(ops[j - 1]));
        lemma_run_snoc(run(v, ops.take(i)), ops.subrange(i, j - 1), ops[j - 1]);
    }
}

/// A key no step asks for stays absent: resolve steps for other keys never
/// register anything under `code`.
pub proof fn lemma_absent_stable(v: RegistryView, ops: Seq<TypeKey>, code: u64)
    requires
        !v.entries.dom().contains(code),
        forall|m: int| 0 <= m < ops.len() ==> (#[trigger] ops[m]).code != code,
    ensures
        !run(v, ops).entries.dom().contains(code),
    decreases ops.len(),
{
    if ops.len() > 0 {
        let rest = ops.subrange(1, ops.len() as int);
        assert(forall|m: int| 0 <= m < rest.len() ==> (#[trigger] rest[m]).code != code);
        lemma_absent_stable(resolve_model(v, ops[0]).0, rest, code);
    }
}

/// The first step that asks for a key the registry never held is the one
/// that creates its instance, and the handle it receives is fresh: minted
/// for that key, in the registry's own scope.
pub proof fn lemma_first_resolution_creates(v: RegistryView, ops: Seq<TypeKey>, i: int)
    requires
        0 <= i < ops.len(),
        !v.entries.dom().contains(ops[i].code),
        forall|m: int| 0 <= m < i ==> ops[m] != ops[i],
    ensures
        step_created(v, ops, i),
        step_handle(v, ops, i).type_key == ops[i],
        step_handle(v, ops, i).scope == v.scope,
{
    let key = ops[i];
    let before = ops.take(i);
    assert(forall|m: int| 0 <= m < before.len() ==> (#[trigger] before[m]).code != key.code) by {
        assert forall|m: int| 0 <= m < before.len() implies (#[trigger] before[m]).code
            != key.code by {
            assert(before[m] == ops[m]);
            if before[m].code == key.code {
                assert(before[m] == key);
            }
        }
    }
    lemma_absent_stable(v, before, key.code);
    lemma_run_scope_constant(v, before);
}

/// A run never changes which scope a registry mints for.
pub proof fn lemma_run_scope_constant(v: RegistryView, ops: Seq<TypeKey>)
    ensures
        run(v, ops).scope == v.scope,
    decreases ops.len(),
{
    if ops.len() > 0 {
        lemma_run_scope_constant(resolve_model(v, ops[0]).0, ops.subrange(1, ops.len() as int));
    }
}

/// Single-instance guarantee of either scope. In any sequence of resolve
/// steps — for the shared store, any lock-serialized interleaving of
/// concurrent callers; for a confined store, the calls of its one context —
/// every step that asks for a key some earlier step asked for receives the
/// very handle that earlier step received, and creates nothing. So all
/// callers of one key converge on one handle, and only the first of them
/// can have created the instance: it is created exactly once.
pub proof fn lemma_single_instance(v: RegistryView, ops: Seq<TypeKey>, i: int, j: int)
    requires
        0 <= i < j < ops.len(),
        ops[j] == ops[i],
    ensures
        step_handle(v, ops, j) == step_handle(v, ops, i),
        !step_created(v, ops, j),
{
    let key = ops[i];
    let h = step_handle(v, ops, i);
    let vi1 = run(v, ops.take(i + 1));
    lemma_run_take_succ(v, ops, i);
    assert(vi1.entries.dom().contains(key.code) && vi1.entries[key.code].handle == h);
    lemma_run_decompose(v, ops, i + 1, j);
    lemma_entry_stable(vi1, ops.subrange(i + 1, j), key.code);
}

/// Idempotent re-resolution: once a key has been resolved, resolving it
/// again returns the same handle, changes nothing, and does not re-run
/// instance creation.
pub proof fn lemma_resolve_idempotent(v: RegistryView, key: TypeKey)
    ensures
        ({
            let first = resolve_model(v, key);
            let second = resolve_model(first.0, key);
            &&& second.1 == first.1
            &&& !second.2
            &&& second.0 == first.0
        }),
{
}

/// Scope isolation: the same key resolved in two stores of distinct scopes
/// yields two handles that never compare equal — each carries its own
/// store's scope — so the two contexts hold two distinct instances.
pub proof fn lemma_scope_isolation(v1: RegistryView, v2: RegistryView, key: TypeKey)
    requires
        inv(v1),
        inv(v2),
        v1.scope != v2.scope,
    ensures
        resolve_model(v1, key).1.scope == v1.scope,
        resolve_model(v2, key).1.scope == v2.scope,
        resolve_model(v1, key).1 != resolve_model(v2, key).1,
{
}

/// Type isolation: two distinct keys never collide, alias or downcast into
/// each other. Resolving the second key touches nothing stored under the
/// first; each returned handle carries its own key; and the entry stored
/// under the first key is recoverable under that key alone.
pub proof fn lemma_type_isolation(v: RegistryView, k1: TypeKey, k2: TypeKey)
    requires
        inv(v),
        k1 != k2,
    ensures
        ({
            let r1 = resolve_model(v, k1);
            let r2 = resolve_model(r1.0, k2);
            &&& r1.1.type_key == k1
            &&& r2.1.type_key == k2
            &&& r1.1 != r2.1
            &&& r2.0.entries.dom().contains(k1.code)
            &&& r2.0.entries[k1.code] == r1.0.entries[k1.code]
            &&& downcast_model(r2.0.entries[k1.code], k1) == Some(r1.1)
            &&& downcast_model(r2.0.entries[k1.code], k2) is None
        }),
{
}

} // verus!
