//! The host runtime: its object table, reference counts, guards and the
//! construction phases of the back-reference a user object holds to itself.
use crate::signal::Connection;
use vstd::prelude::*;

verus! {

/// Why an access to a host object was refused.
#[derive(PartialEq, Eq, Structural, Clone, Copy, Debug)]
pub enum AccessError {
    /// The object was torn down (or the identity never named one).
    Destroyed,
    /// A post-construction accessor was used while the object is still being built.
    UnderConstruction,
    /// A construction-time accessor was used after construction completed.
    Constructed,
    /// A guard conflicts with one that is outstanding.
    Bound,
    /// `free` was called on an automatically reference-counted object.
    NotManual,
    /// The user instance holds no back-reference field.
    NoBase,
}

/// A two-component integer vector.
#[derive(PartialEq, Eq, Structural, Clone, Copy, Debug)]
pub struct Vector2 {
    pub x: i64,
    pub y: i64,
}

/// What the host keeps for one object, indexed by its stable identity.
#[derive(PartialEq, Eq, Structural, Clone, Copy, Debug)]
pub struct ObjectRecord {
    pub alive: bool,
    /// Automatically reference-counted (true) or manually managed (false).
    pub refcounted: bool,
    /// Outstanding references; always zero for manually managed objects.
    pub refcount: u64,
    /// References held by the host's construction path, released next cycle.
    pub surplus: u64,
    /// The constructing callback has returned.
    pub constructed: bool,
    /// Identity that the user instance's back-reference field refers to.
    pub base: Option<usize>,
    /// Outstanding read-only guards.
    pub shared: u64,
    /// A mutable guard is outstanding.
    pub exclusive: bool,
    /// A host-side property, readable and writable through any handle.
    pub position: Vector2,
}

/// A typed reference to a host object: it caches the object's stable identity.
pub struct Handle {
    pub id: usize,
}

/// Back-reference a user object holds to its own host-level identity.
pub struct BaseField {
    pub id: usize,
}

/// A scoped access to a user object's state.
pub struct Guard {
    pub id: usize,
    pub exclusive: bool,
}

/// The host runtime: its object table, indexed by stable identity, and its
/// dispatch table of signal connections, in connection order.
pub struct Host {
    pub objects: Vec<ObjectRecord>,
    pub connections: Vec<Connection>,
}

pub open spec fn live(objs: Seq<ObjectRecord>, id: int) -> bool {
    0 <= id < objs.len() && objs[id].alive
}

/// A reference can be added without the counter overflowing.
pub open spec fn countable(objs: Seq<ObjectRecord>, id: int) -> bool {
    0 <= id < objs.len() ==> objs[id].refcount < u64::MAX
}

pub open spec fn fresh_record(refcounted: bool, constructed: bool, refs: u64) -> ObjectRecord {
    ObjectRecord {
        alive: true,
        refcounted,
        refcount: if refcounted { refs } else { 0 },
        surplus: if refcounted { 1 } else { 0 },
        constructed,
        base: None,
        shared: 0,
        exclusive: false,
        position: Vector2 { x: 0, y: 0 },
    }
}

/// The table after the host instantiates an object of a registered class:
/// for an auto-counted class, the handle given out plus the host's own
/// temporary reference.
pub open spec fn instantiated(objs: Seq<ObjectRecord>, refcounted: bool) -> Seq<ObjectRecord> {
    objs.push(ObjectRecord { base: Some(objs.len() as usize), ..fresh_record(refcounted, true, 2) })
}

/// The table after one more reference to `id` is taken.
pub open spec fn cloned(objs: Seq<ObjectRecord>, id: int) -> Seq<ObjectRecord> {
    if live(objs, id) && objs[id].refcounted {
        objs.update(id, ObjectRecord { refcount: (objs[id].refcount + 1) as u64, ..objs[id] })
    } else {
        objs
    }
}

/// The table after one reference to `id` is released; the object is torn
/// down when its count reaches zero.
pub open spec fn dropped(objs: Seq<ObjectRecord>, id: int) -> Seq<ObjectRecord> {
    if live(objs, id) && objs[id].refcounted {
        let r = objs[id];
        let n: u64 = if r.refcount > 0 { (r.refcount - 1) as u64 } else { 0 };
        objs.update(id, ObjectRecord { refcount: n, alive: n > 0, ..r })
    } else {
        objs
    }
}

/// One record after the host releases the references its construction path held.
pub open spec fn settled(r: ObjectRecord) -> ObjectRecord {
    if r.alive && r.surplus > 0 {
        let n: u64 = if r.refcount > r.surplus { (r.refcount - r.surplus) as u64 } else { 0 };
        ObjectRecord { refcount: n, surplus: 0, alive: n > 0, ..r }
    } else {
        r
    }
}

/// The table after the host's next execution cycle.
pub open spec fn cycled(objs: Seq<ObjectRecord>) -> Seq<ObjectRecord> {
    Seq::new(objs.len(), |i: int| settled(objs[i]))
}

/// Why a read-only guard on `id` would be refused, if it would.
pub open spec fn bind_error(objs: Seq<ObjectRecord>, id: int) -> Option<AccessError> {
    if !live(objs, id) {
        Some(AccessError::Destroyed)
    } else if !objs[id].constructed {
        Some(AccessError::UnderConstruction)
    } else if objs[id].exclusive {
        Some(AccessError::Bound)
    } else {
        None
    }
}

/// Why a mutable guard on `id` would be refused, if it would.
pub open spec fn bind_mut_error(objs: Seq<ObjectRecord>, id: int) -> Option<AccessError> {
    if !live(objs, id) {
        Some(AccessError::Destroyed)
    } else if !objs[id].constructed {
        Some(AccessError::UnderConstruction)
    } else if objs[id].exclusive || objs[id].shared > 0 {
        Some(AccessError::Bound)
    } else {
        None
    }
}

/// The table after the object `id` is torn down.
pub open spec fn freed(objs: Seq<ObjectRecord>, id: int) -> Seq<ObjectRecord> {
    objs.update(id, ObjectRecord { alive: false, ..objs[id] })
}

/// The identity that the back-reference field inside the user instance of
/// `id` refers to, or why it cannot be read.
pub open spec fn base_of(objs: Seq<ObjectRecord>, id: int) -> Result<usize, AccessError> {
    if !live(objs, id) {
        Err(AccessError::Destroyed)
    } else if !objs[id].constructed {
        Err(AccessError::UnderConstruction)
    } else {
        match objs[id].base {
            Some(t) => Ok(t),
            None => Err(AccessError::NoBase),
        }
    }
}

/// The table after the instance of `id` takes `field` as its back-reference.
pub open spec fn rebased(objs: Seq<ObjectRecord>, id: int, field: usize) -> Seq<ObjectRecord> {
    objs.update(id, ObjectRecord { base: Some(field), ..objs[id] })
}

impl Host {
    /// A host with no objects and no connections.
    pub fn new() -> (h: Host)
        ensures
            h.objects@.len() == 0,
            h.connections@.len() == 0,
    {
        Host { objects: Vec::new(), connections: Vec::new() }
    }

    /// Host-side instantiation of a registered class.
    pub fn instantiate(&mut self, refcounted: bool) -> (h: Handle)
        ensures
            final(self).connections@ == old(self).connections@,
            h.id == old(self).objects@.len(),
            final(self).objects@ == instantiated(old(self).objects@, refcounted),
    {
        let id = self.objects.len();
        let rec = ObjectRecord {
            alive: true,
            refcounted,
            refcount: if refcounted { 2 } else { 0 },
            surplus: if refcounted { 1 } else { 0 },
            constructed: true,
            base: Some(id),
            shared: 0,
            exclusive: false,
            position: Vector2 { x: 0, y: 0 },
        };
        self.objects.push(rec);
        Handle { id }
    }

    /// Takes one more reference to `id`, if it is a live auto-counted object.
    fn add_ref(&mut self, id: usize)
        requires
            countable(old(self).objects@, id as int),
        ensures
            final(self).connections@ == old(self).connections@,
            final(self).objects@ == cloned(old(self).objects@, id as int),
    {
        if id < self.objects.len() {
            let r = self.objects[id];
            if r.alive && r.refcounted {
                self.objects.set(id, ObjectRecord { refcount: r.refcount + 1, ..r });
            }
        }
    }

    /// Whether the object a handle names is still alive.
    pub fn is_instance_valid(&self, h: &Handle) -> (r: bool)
        ensures
            r == live(self.objects@, h.id as int),
    {
        h.id < self.objects.len() && self.objects[h.id].alive
    }

    /// The stable identity of a live object.
    pub fn instance_id(&self, h: &Handle) -> (r: Result<usize, AccessError>)
        ensures
            r == (if live(self.objects@, h.id as int) {
                Ok::<usize, AccessError>(h.id)
            } else {
                Err(AccessError::Destroyed)
            }),
    {
        if self.is_instance_valid(h) {
            Ok(h.id)
        } else {
            Err(AccessError::Destroyed)
        }
    }

    /// A second handle to the same object; counted for auto-counted classes.
    pub fn clone_handle(&mut self, h: &Handle) -> (r: Result<Handle, AccessError>)
        requires
            countable(old(self).objects@, h.id as int),
        ensures
            final(self).connections@ == old(self).connections@,
            live(old(self).objects@, h.id as int) ==> (r matches Ok(c) && c.id == h.id),
            !live(old(self).objects@, h.id as int) ==> r == Err::<Handle, AccessError>(
                AccessError::Destroyed,
            ),
            final(self).objects@ == cloned(old(self).objects@, h.id as int),
    {
        if !self.is_instance_valid(h) {
            return Err(AccessError::Destroyed);
        }
        self.add_ref(h.id);
        Ok(Handle { id: h.id })
    }

    /// The same handle, seen as one to the root object class.
    pub fn upcast(&self, h: Handle) -> (r: Result<Handle, AccessError>)
        ensures
            live(self.objects@, h.id as int) ==> (r matches Ok(c) && c.id == h.id),
            !live(self.objects@, h.id as int) ==> r == Err::<Handle, AccessError>(
                AccessError::Destroyed,
            ),
    {
        if self.is_instance_valid(&h) {
            Ok(h)
        } else {
            Err(AccessError::Destroyed)
        }
    }

    /// Releases a handle: an auto-counted object is torn down with its last reference.
    pub fn drop_handle(&mut self, h: Handle)
        ensures
            final(self).connections@ == old(self).connections@,
            final(self).objects@ == dropped(old(self).objects@, h.id as int),
    {
        if h.id < self.objects.len() {
            let r = self.objects[h.id];
            if r.alive && r.refcounted {
                let n: u64 = if r.refcount > 0 { r.refcount - 1 } else { 0 };
                self.objects.set(h.id, ObjectRecord { refcount: n, alive: n > 0, ..r });
            }
        }
    }

    /// Tears down a manually managed object.
    pub fn free(&mut self, h: Handle) -> (r: Result<(), AccessError>)
        ensures
            final(self).connections@ == old(self).connections@,
            !live(old(self).objects@, h.id as int) ==> r == Err::<(), AccessError>(
                AccessError::Destroyed,
            ) && final(self).objects@ == old(self).objects@,
            live(old(self).objects@, h.id as int) && old(self).objects@[h.id as int].refcounted
                ==> r == Err::<(), AccessError>(AccessError::NotManual) && final(self).objects@
                == old(self).objects@,
            live(old(self).objects@, h.id as int) && !old(self).objects@[h.id as int].refcounted
                ==> r == Ok::<(), AccessError>(()) && final(self).objects@ == freed(
                old(self).objects@,
                h.id as int,
            ),
    {
        if !self.is_instance_valid(&h) {
            return Err(AccessError::Destroyed);
        }
        let r = self.objects[h.id];
        if r.refcounted {
            return Err(AccessError::NotManual);
        }
        self.objects.set(h.id, ObjectRecord { alive: false, ..r });
        Ok(())
    }

    /// The host's current reference count of a live object.
    pub fn get_reference_count(&self, h: &Handle) -> (r: Result<u64, AccessError>)
        ensures
            r == (if live(self.objects@, h.id as int) {
                Ok::<u64, AccessError>(self.objects@[h.id as int].refcount)
            } else {
                Err(AccessError::Destroyed)
            }),
    {
        if self.is_instance_valid(h) {
            Ok(self.objects[h.id].refcount)
        } else {
            Err(AccessError::Destroyed)
        }
    }

    pub fn get_position(&self, h: &Handle) -> (r: Result<Vector2, AccessError>)
        ensures
            r == (if live(self.objects@, h.id as int) {
                Ok::<Vector2, AccessError>(self.objects@[h.id as int].position)
            } else {
                Err(AccessError::Destroyed)
            }),
    {
        if self.is_instance_valid(h) {
            Ok(self.objects[h.id].position)
        } else {
            Err(AccessError::Destroyed)
        }
    }

    pub fn set_position(&mut self, h: &Handle, p: Vector2) -> (r: Result<(), AccessError>)
        ensures
            final(self).connections@ == old(self).connections@,
            live(old(self).objects@, h.id as int) ==> r == Ok::<(), AccessError>(())
                && final(self).objects@ == old(self).objects@.update(
                h.id as int,
                ObjectRecord { position: p, ..old(self).objects@[h.id as int] },
            ),
            !live(old(self).objects@, h.id as int) ==> r == Err::<(), AccessError>(
                AccessError::Destroyed,
            ) && final(self).objects@ == old(self).objects@,
    {
        if !self.is_instance_valid(h) {
            return Err(AccessError::Destroyed);
        }
        let r = self.objects[h.id];
        self.objects.set(h.id, ObjectRecord { position: p, ..r });
        Ok(())
    }

    /// The host's next execution cycle: references held by construction paths are released.
    pub fn next_cycle(&mut self)
        ensures
            final(self).connections@ == old(self).connections@,
            final(self).objects@ == cycled(old(self).objects@),
    {
        let len = self.objects.len();
        let mut i: usize = 0;
        while i < len
            invariant
                0 <= i <= len,
                len == old(self).objects@.len(),
                self.objects@.len() == len,
                self.connections@ == old(self).connections@,
                forall|j: int| 0 <= j < i ==> self.objects@[j] == settled(old(self).objects@[j]),
                forall|j: int| i <= j < len ==> self.objects@[j] == old(self).objects@[j],
            decreases len - i,
        {
            let r = self.objects[i];
            if r.alive && r.surplus > 0 {
                let n: u64 = if r.refcount > r.surplus { r.refcount - r.surplus } else { 0 };
                self.objects.set(i, ObjectRecord { refcount: n, surplus: 0, alive: n > 0, ..r });
            }
            i += 1;
        }
        assert(self.objects@ =~= cycled(old(self).objects@));
    }

    /// A read-only guard on a constructed, live object; many may be outstanding.
    pub fn bind(&mut self, h: &Handle) -> (r: Result<Guard, AccessError>)
        requires
            0 <= h.id < old(self).objects@.len() ==> old(self).objects@[h.id as int].shared
                < u64::MAX,
        ensures
            final(self).connections@ == old(self).connections@,
            bind_error(old(self).objects@, h.id as int) matches Some(e) ==> r == Err::<
                Guard,
                AccessError,
            >(e) && final(self).objects@ == old(self).objects@,
            bind_error(old(self).objects@, h.id as int) is None ==> (r matches Ok(g) && g.id
                == h.id && !g.exclusive) && final(self).objects@ == old(self).objects@.update(
                h.id as int,
                ObjectRecord {
                    shared: (old(self).objects@[h.id as int].shared + 1) as u64,
                    ..old(self).objects@[h.id as int]
                },
            ),
    {
        if !self.is_instance_valid(h) {
            return Err(AccessError::Destroyed);
        }
        let r = self.objects[h.id];
        if !r.constructed {
            return Err(AccessError::UnderConstruction);
        }
        if r.exclusive {
            return Err(AccessError::Bound);
        }
        self.objects.set(h.id, ObjectRecord { shared: r.shared + 1, ..r });
        Ok(Guard { id: h.id, exclusive: false })
    }

    /// The one mutable guard on a constructed, live object.
    pub fn bind_mut(&mut self, h: &Handle) -> (r: Result<Guard, AccessError>)
        ensures
            final(self).connections@ == old(self).connections@,
            bind_mut_error(old(self).objects@, h.id as int) matches Some(e) ==> r == Err::<
                Guard,
                AccessError,
            >(e) && final(self).objects@ == old(self).objects@,
            bind_mut_error(old(self).objects@, h.id as int) is None ==> (r matches Ok(g) && g.id
                == h.id && g.exclusive) && final(self).objects@ == old(self).objects@.update(
                h.id as int,
                ObjectRecord { exclusive: true, ..old(self).objects@[h.id as int] },
            ),
    {
        if !self.is_instance_valid(h) {
            return Err(AccessError::Destroyed);
        }
        let r = self.objects[h.id];
        if !r.constructed {
            return Err(AccessError::UnderConstruction);
        }
        if r.exclusive || r.shared > 0 {
            return Err(AccessError::Bound);
        }
        self.objects.set(h.id, ObjectRecord { exclusive: true, ..r });
        Ok(Guard { id: h.id, exclusive: true })
    }

    /// Ends a guard.
    pub fn release(&mut self, g: Guard)
        ensures
            final(self).connections@ == old(self).connections@,
            0 <= g.id < old(self).objects@.len() ==> final(self).objects@ == old(self).objects@.update(
                g.id as int,
                if g.exclusive {
                    ObjectRecord { exclusive: false, ..old(self).objects@[g.id as int] }
                } else {
                    let n = old(self).objects@[g.id as int].shared;
                    ObjectRecord {
                        shared: if n > 0 { (n - 1) as u64 } else { 0 },
                        ..old(self).objects@[g.id as int]
                    }
                },
            ),
            !(0 <= g.id < old(self).objects@.len()) ==> final(self).objects@ == old(self).objects@,
    {
        if g.id < self.objects.len() {
            let r = self.objects[g.id];
            if g.exclusive {
                self.objects.set(g.id, ObjectRecord { exclusive: false, ..r });
            } else {
                let n: u64 = if r.shared > 0 { r.shared - 1 } else { 0 };
                self.objects.set(g.id, ObjectRecord { shared: n, ..r });
            }
        }
    }

    /// Starts building a user object: the host allocates it and hands the
    /// constructing code its back-reference field.
    pub fn begin_init(&mut self, refcounted: bool) -> (b: BaseField)
        ensures
            final(self).connections@ == old(self).connections@,
            b.id == old(self).objects@.len(),
            final(self).objects@ == old(self).objects@.push(fresh_record(refcounted, false, 1)),
    {
        let id = self.objects.len();
        let rec = ObjectRecord {
            alive: true,
            refcounted,
            refcount: if refcounted { 1 } else { 0 },
            surplus: if refcounted { 1 } else { 0 },
            constructed: false,
            base: None,
            shared: 0,
            exclusive: false,
            position: Vector2 { x: 0, y: 0 },
        };
        self.objects.push(rec);
        BaseField { id }
    }

    /// Construction-time accessor: a counted handle to the object being built.
    pub fn to_init_gd(&mut self, b: &BaseField) -> (r: Result<Handle, AccessError>)
        requires
            countable(old(self).objects@, b.id as int),
        ensures
            final(self).connections@ == old(self).connections@,
            !live(old(self).objects@, b.id as int) ==> r == Err::<Handle, AccessError>(
                AccessError::Destroyed,
            ) && final(self).objects@ == old(self).objects@,
            live(old(self).objects@, b.id as int) && old(self).objects@[b.id as int].constructed
                ==> r == Err::<Handle, AccessError>(AccessError::Constructed) && final(self).objects@ == old(self).objects@,
            live(old(self).objects@, b.id as int) && !old(self).objects@[b.id as int].constructed
                ==> (r matches Ok(h) && h.id == b.id) && final(self).objects@ == cloned(
                old(self).objects@,
                b.id as int,
            ),
    {
        if b.id >= self.objects.len() || !self.objects[b.id].alive {
            return Err(AccessError::Destroyed);
        }
        if self.objects[b.id].constructed {
            return Err(AccessError::Constructed);
        }
        self.add_ref(b.id);
        Ok(Handle { id: b.id })
    }

    /// Completes construction: the field goes live, and is kept in the user
    /// instance when `embed` holds. Returns the handle to the new object.
    pub fn finish_init(&mut self, b: &BaseField, embed: bool) -> (r: Result<Handle, AccessError>)
        requires
            countable(old(self).objects@, b.id as int),
        ensures
            final(self).connections@ == old(self).connections@,
            !live(old(self).objects@, b.id as int) ==> r == Err::<Handle, AccessError>(
                AccessError::Destroyed,
            ) && final(self).objects@ == old(self).objects@,
            live(old(self).objects@, b.id as int) && old(self).objects@[b.id as int].constructed
                ==> r == Err::<Handle, AccessError>(AccessError::Constructed) && final(self).objects@ == old(self).objects@,
            live(old(self).objects@, b.id as int) && !old(self).objects@[b.id as int].constructed
                ==> (r matches Ok(h) && h.id == b.id) && final(self).objects@ == cloned(
                old(self).objects@.update(
                    b.id as int,
                    ObjectRecord {
                        constructed: true,
                        base: if embed {
                            Some(b.id)
                        } else {
                            None
                        },
                        ..old(self).objects@[b.id as int]
                    },
                ),
                b.id as int,
            ),
    {
        if b.id >= self.objects.len() || !self.objects[b.id].alive {
            return Err(AccessError::Destroyed);
        }
        let r = self.objects[b.id];
        if r.constructed {
            return Err(AccessError::Constructed);
        }
        let base = if embed {
            Some(b.id)
        } else {
            None
        };
        self.objects.set(b.id, ObjectRecord { constructed: true, base, ..r });
        self.add_ref(b.id);
        Ok(Handle { id: b.id })
    }

    /// Post-construction accessor of a field: a counted handle to the object it refers to.
    pub fn constructed_gd(&mut self, b: &BaseField) -> (r: Result<Handle, AccessError>)
        requires
            countable(old(self).objects@, b.id as int),
        ensures
            final(self).connections@ == old(self).connections@,
            !live(old(self).objects@, b.id as int) ==> r == Err::<Handle, AccessError>(
                AccessError::Destroyed,
            ) && final(self).objects@ == old(self).objects@,
            live(old(self).objects@, b.id as int) && !old(self).objects@[b.id as int].constructed
                ==> r == Err::<Handle, AccessError>(AccessError::UnderConstruction) && final(self).objects@ == old(self).objects@,
            live(old(self).objects@, b.id as int) && old(self).objects@[b.id as int].constructed
                ==> (r matches Ok(h) && h.id == b.id) && final(self).objects@ == cloned(
                old(self).objects@,
                b.id as int,
            ),
    {
        if b.id >= self.objects.len() || !self.objects[b.id].alive {
            return Err(AccessError::Destroyed);
        }
        if !self.objects[b.id].constructed {
            return Err(AccessError::UnderConstruction);
        }
        self.add_ref(b.id);
        Ok(Handle { id: b.id })
    }

    /// The identity that the back-reference field inside a live, constructed
    /// user instance refers to.
    pub fn base_identity(&self, h: &Handle) -> (r: Result<usize, AccessError>)
        ensures
            r == (if !live(self.objects@, h.id as int) {
                Err(AccessError::Destroyed)
            } else if !self.objects@[h.id as int].constructed {
                Err(AccessError::UnderConstruction)
            } else {
                match self.objects@[h.id as int].base {
                    Some(t) => Ok::<usize, AccessError>(t),
                    None => Err(AccessError::NoBase),
                }
            }),
    {
        if !self.is_instance_valid(h) {
            return Err(AccessError::Destroyed);
        }
        let r = self.objects[h.id];
        if !r.constructed {
            return Err(AccessError::UnderConstruction);
        }
        match r.base {
            Some(t) => Ok(t),
            None => Err(AccessError::NoBase),
        }
    }

    /// Post-construction accessor through the user instance: a counted handle
    /// to the object its back-reference field refers to.
    pub fn to_gd(&mut self, h: &Handle) -> (r: Result<Handle, AccessError>)
        requires
            base_of(old(self).objects@, h.id as int) matches Ok(t) ==> countable(
                old(self).objects@,
                t as int,
            ),
        ensures
            final(self).connections@ == old(self).connections@,
            match base_of(old(self).objects@, h.id as int) {
                Err(e) => r == Err::<Handle, AccessError>(e) && final(self).objects@ == old(self).objects@,
                Ok(t) => if live(old(self).objects@, t as int) {
                    (r matches Ok(g) && g.id == t) && final(self).objects@ == cloned(
                        old(self).objects@,
                        t as int,
                    )
                } else {
                    r == Err::<Handle, AccessError>(AccessError::Destroyed) && final(self).objects@ == old(self).objects@
                },
            },
    {
        let t = match self.base_identity(h) {
            Ok(t) => t,
            Err(e) => return Err(e),
        };
        if t >= self.objects.len() || !self.objects[t].alive {
            return Err(AccessError::Destroyed);
        }
        self.add_ref(t);
        Ok(Handle { id: t })
    }

    /// Exchanges the object that a user instance's back-reference field refers
    /// to with the one an extracted field refers to. Handles keep their identity.
    pub fn swap_base(&mut self, h: &Handle, b: &mut BaseField) -> (r: Result<(), AccessError>)
        ensures
            final(self).connections@ == old(self).connections@,
            match base_of(old(self).objects@, h.id as int) {
                Err(e) => r == Err::<(), AccessError>(e) && final(self).objects@ == old(self).objects@ && final(b).id == old(b).id,
                Ok(t) => r == Ok::<(), AccessError>(()) && final(b).id == t && final(self).objects@ == rebased(old(self).objects@, h.id as int, old(b).id),
            },
    {
        let t = match self.base_identity(h) {
            Ok(t) => t,
            Err(e) => return Err(e),
        };
        let r = self.objects[h.id];
        self.objects.set(h.id, ObjectRecord { base: Some(b.id), ..r });
        b.id = t;
        Ok(())
    }
}

} // verus!
