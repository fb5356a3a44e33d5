//! Laws that relate several operations of the host and of typed signals.
use crate::host::{
    base_of, bind_error, bind_mut_error, cloned, cycled, dropped, freed, fresh_record,
    instantiated, live, rebased, AccessError, ObjectRecord,
};
use crate::signal::{emitted, outcome, registered, CallableAdapter, Connection, Invocation, Variant};
use vstd::prelude::*;

verus! {

/// An auto-counted object that the host instantiates and whose only handle is
/// dropped at once is torn down, with a count of zero, once the host's next
/// cycle has released the reference its construction path held.
pub proof fn instantiated_then_dropped_is_destroyed(objs: Seq<ObjectRecord>)
    ensures
        ({
            let id = objs.len() as int;
            let after = cycled(dropped(instantiated(objs, true), id));
            !live(after, id) && after[id].refcount == 0
        }),
{
}

/// The same holds of an object built by user code: begun, completed with its
/// back-reference embedded, its handle dropped, then settled by the next cycle.
pub proof fn constructed_then_dropped_is_destroyed(objs: Seq<ObjectRecord>)
    ensures
        ({
            let id = objs.len() as int;
            let begun = objs.push(fresh_record(true, false, 1));
            let done = cloned(
                begun.update(id, ObjectRecord { constructed: true, base: Some(id as usize), ..begun[id] }),
                id,
            );
            let after = cycled(dropped(done, id));
            !live(after, id) && after[id].refcount == 0
        }),
{
}

/// Cloning a handle to a live auto-counted object adds exactly one to its
/// count, and dropping that clone takes exactly one away. The count is kept
/// per identity, so every handle that shares the identity reads the same one.
pub proof fn clone_and_drop_count_one(objs: Seq<ObjectRecord>, id: int)
    requires
        live(objs, id),
        objs[id].refcounted,
        objs[id].refcount < u64::MAX,
    ensures
        cloned(objs, id)[id].refcount == objs[id].refcount + 1,
        live(cloned(objs, id), id),
        dropped(cloned(objs, id), id)[id].refcount == objs[id].refcount,
        objs[id].refcount > 0 ==> dropped(cloned(objs, id), id) == objs,
{
    if objs[id].refcount > 0 {
        assert(dropped(cloned(objs, id), id) =~= objs);
    }
}

/// Once an object is torn down through any handle, every access through a
/// handle or field sharing its identity fails alike: guards, the identity
/// query, the base field's referent, and a clone takes no reference.
pub proof fn destroyed_fails_for_every_handle(objs: Seq<ObjectRecord>, id: int)
    requires
        0 <= id < objs.len(),
    ensures
        !live(freed(objs, id), id),
        bind_error(freed(objs, id), id) == Some(AccessError::Destroyed),
        bind_mut_error(freed(objs, id), id) == Some(AccessError::Destroyed),
        base_of(freed(objs, id), id) == Err::<usize, AccessError>(AccessError::Destroyed),
        cloned(freed(objs, id), id) == freed(objs, id),
        dropped(freed(objs, id), id) == freed(objs, id),
{
}

/// Swapping an extracted back-reference field, which refers to `one`, with
/// the one inside the live instance `two`, which refers to `two` itself:
/// the instance's field then refers to `one`, the extracted field to `two`,
/// and both objects stay live under their own identities, so the handles that
/// cache those identities are unaffected.
pub proof fn swap_exchanges_referents(objs: Seq<ObjectRecord>, one: usize, two: usize)
    requires
        live(objs, one as int),
        base_of(objs, two as int) == Ok::<usize, AccessError>(two),
    ensures
        base_of(rebased(objs, two as int, one), two as int) == Ok::<usize, AccessError>(one),
        live(rebased(objs, two as int, one), one as int),
        live(rebased(objs, two as int, one), two as int),
        rebased(objs, two as int, one)[one as int].alive == objs[one as int].alive,
{
}

/// Emission reaches the same connections over any two tables that agree on
/// their first `n` entries.
proof fn emitted_prefix(
    objs: Seq<ObjectRecord>,
    a: Seq<Connection>,
    b: Seq<Connection>,
    object: usize,
    name: Seq<char>,
    args: Seq<Variant>,
    n: int,
)
    requires
        0 <= n <= a.len(),
        n <= b.len(),
        forall|i: int| 0 <= i < n ==> a[i] == b[i],
    ensures
        emitted(objs, a, object, name, args, n) == emitted(objs, b, object, name, args, n),
    decreases n,
{
    if n > 0 {
        emitted_prefix(objs, a, b, object, name, args, n - 1);
    }
}

/// Emission over the first `n` entries reaches nothing when none of them is
/// registered for the event.
proof fn emitted_none(
    objs: Seq<ObjectRecord>,
    conns: Seq<Connection>,
    object: usize,
    name: Seq<char>,
    args: Seq<Variant>,
    n: int,
)
    requires
        n <= conns.len(),
        forall|i: int| 0 <= i < conns.len() ==> !(conns[i].object == object && conns[i].signal@ == name),
    ensures
        emitted(objs, conns, object, name, args, n) == Seq::<Invocation>::empty(),
    decreases n,
{
    if n > 0 {
        emitted_none(objs, conns, object, name, args, n - 1);
    }
}

/// Emitting an event that no connection is registered for reaches nothing.
pub proof fn emit_without_receivers_is_empty(
    objs: Seq<ObjectRecord>,
    conns: Seq<Connection>,
    object: usize,
    name: Seq<char>,
    args: Seq<Variant>,
)
    requires
        forall|i: int| 0 <= i < conns.len() ==> !(conns[i].object == object && conns[i].signal@ == name),
    ensures
        emitted(objs, conns, object, name, args, conns.len() as int) == Seq::<Invocation>::empty(),
{
    emitted_none(objs, conns, object, name, args, conns.len() as int);
}

/// Connecting the same adapter twice under one event and emitting once
/// reaches it twice, after what the earlier connections reach, in connection
/// order and with the same outcome.
pub proof fn connected_twice_invoked_twice(
    objs: Seq<ObjectRecord>,
    conns: Seq<Connection>,
    mid: Seq<Connection>,
    after: Seq<Connection>,
    object: usize,
    name: Seq<char>,
    adapter: CallableAdapter,
    flags: u32,
    args: Seq<Variant>,
)
    requires
        registered(conns, mid, object, name, adapter, flags),
        registered(mid, after, object, name, adapter, flags),
    ensures
        ({
            let n = conns.len() as int;
            let o = outcome(objs, after[n], args);
            &&& o == outcome(objs, after[n + 1], args)
            &&& emitted(objs, after, object, name, args, after.len() as int) == emitted(
                objs,
                conns,
                object,
                name,
                args,
                n,
            ).push(Invocation { connection: n as usize, outcome: o }).push(
                Invocation { connection: (n + 1) as usize, outcome: o },
            )
        }),
{
    let n = conns.len() as int;
    assert forall|i: int| 0 <= i < n implies after[i] == conns[i] by {
        assert(mid.take(n)[i] == conns[i]);
        assert(after.take(mid.len() as int)[i] == mid[i]);
    }
    emitted_prefix(objs, after, conns, object, name, args, n);
    assert(after.take(mid.len() as int)[n] == mid[n]);
    assert(after[n] == mid[n]);
    assert(after[n].object == object && after[n].signal@ == name);
    assert(after[n + 1] == after.last());
    assert(emitted(objs, after, object, name, args, n + 1) == emitted(
        objs,
        after,
        object,
        name,
        args,
        n,
    ).push(Invocation { connection: n as usize, outcome: outcome(objs, after[n], args) }));
}

/// After a host-side instantiation of an auto-counted class, the count reads
/// two at once (the host's construction path still holds its reference) and
/// exactly one after the host's next cycle, with the object alive.
pub proof fn instantiation_settles_to_one(objs: Seq<ObjectRecord>)
    ensures
        ({
            let id = objs.len() as int;
            &&& instantiated(objs, true)[id].refcount == 2
            &&& cycled(instantiated(objs, true))[id].refcount == 1
            &&& live(cycled(instantiated(objs, true)), id)
        }),
{
}

} // verus!
