//! Typed signals: connecting receivers to an event of a host object, and
//! emitting it to every receiver connected under its name.
use crate::host::{
    bind_mut_error, cloned, countable, live, AccessError, Handle, Host, ObjectRecord,
};
use vstd::prelude::*;

verus! {

/// Connection flag: the host queues the call for the owning thread's next
/// cycle instead of making it inline.
pub const DEFERRED: u32 = 1;

/// The type tag of a host value.
#[derive(PartialEq, Eq, Structural, Clone, Copy, Debug)]
pub enum VariantType {
    Nil,
    Bool,
    Int,
    Str,
    Object,
}

/// A value in the host's generic representation.
pub enum Variant {
    Nil,
    Bool(bool),
    Int(i64),
    Str(String),
    Object(usize),
}

impl Variant {
    pub open spec fn spec_type(&self) -> VariantType {
        match self {
            Variant::Nil => VariantType::Nil,
            Variant::Bool(_) => VariantType::Bool,
            Variant::Int(_) => VariantType::Int,
            Variant::Str(_) => VariantType::Str,
            Variant::Object(_) => VariantType::Object,
        }
    }

    pub fn get_type(&self) -> (r: VariantType)
        ensures
            r == self.spec_type(),
    {
        match self {
            Variant::Nil => VariantType::Nil,
            Variant::Bool(_) => VariantType::Bool,
            Variant::Int(_) => VariantType::Int,
            Variant::Str(_) => VariantType::Str,
            Variant::Object(_) => VariantType::Object,
        }
    }
}

/// Why the untyped arguments of a call could not be converted to the
/// receiver's parameter types.
#[derive(PartialEq, Eq, Structural, Clone, Copy, Debug)]
pub enum ConversionError {
    ArgumentCount { expected: usize, given: usize },
    ArgumentType { index: usize, expected_type: VariantType, given_type: VariantType },
}

/// The first argument from `i` on whose type differs from its parameter's.
pub open spec fn convert_from(params: Seq<VariantType>, args: Seq<Variant>, i: int) -> Result<
    (),
    ConversionError,
>
    decreases params.len() - i,
{
    if i < 0 || i >= params.len() || i >= args.len() {
        Ok(())
    } else if args[i].spec_type() != params[i] {
        Err(
            ConversionError::ArgumentType {
                index: i as usize,
                expected_type: params[i],
                given_type: args[i].spec_type(),
            },
        )
    } else {
        convert_from(params, args, i + 1)
    }
}

/// Converting `args` for a receiver with parameter types `params`.
pub open spec fn conversion(params: Seq<VariantType>, args: Seq<Variant>) -> Result<
    (),
    ConversionError,
> {
    if params.len() != args.len() {
        Err(
            ConversionError::ArgumentCount {
                expected: params.len() as usize,
                given: args.len() as usize,
            },
        )
    } else {
        convert_from(params, args, 0)
    }
}

/// A user receiver function, by the name derived from its type and its
/// parameter types.
pub struct Receiver {
    pub name: String,
    pub params: Vec<VariantType>,
}

/// A receiver made invocable by the host: it converts the untyped
/// arguments, and first takes a mutable guard on the object it is bound to,
/// if any.
pub struct CallableAdapter {
    pub name: String,
    pub params: Vec<VariantType>,
    pub bound: Option<usize>,
}

impl CallableAdapter {
    /// Converts an untyped argument list to the receiver's parameter types.
    pub fn convert_args(&self, args: &Vec<Variant>) -> (r: Result<(), ConversionError>)
        ensures
            r == conversion(self.params@, args@),
    {
        if self.params.len() != args.len() {
            return Err(
                ConversionError::ArgumentCount { expected: self.params.len(), given: args.len() },
            );
        }
        let mut i: usize = 0;
        while i < args.len()
            invariant
                self.params@.len() == args@.len(),
                0 <= i <= args@.len(),
                convert_from(self.params@, args@, 0) == convert_from(self.params@, args@, i as int),
            decreases args@.len() - i,
        {
            let t = args[i].get_type();
            if t != self.params[i] {
                return Err(
                    ConversionError::ArgumentType {
                        index: i,
                        expected_type: self.params[i],
                        given_type: t,
                    },
                );
            }
            i += 1;
        }
        Ok(())
    }
}

/// A registered association of an object's event name with an adapter.
pub struct Connection {
    pub object: usize,
    pub signal: String,
    pub adapter: CallableAdapter,
    pub flags: u32,
}

/// What the host did with one connection on an emission.
#[derive(PartialEq, Eq, Structural, Clone, Copy, Debug)]
pub enum Dispatch {
    Called,
    Queued,
    ConversionFailed(ConversionError),
    ReceiverUnavailable(AccessError),
}

/// One connection reached by an emission, by its index in the dispatch table.
#[derive(PartialEq, Eq, Structural, Clone, Copy, Debug)]
pub struct Invocation {
    pub connection: usize,
    pub outcome: Dispatch,
}

/// The outcome of emitting `args` to one connection.
pub open spec fn outcome(objs: Seq<ObjectRecord>, c: Connection, args: Seq<Variant>) -> Dispatch {
    if c.flags & DEFERRED != 0 {
        Dispatch::Queued
    } else {
        match conversion(c.adapter.params@, args) {
            Err(e) => Dispatch::ConversionFailed(e),
            Ok(_) => match c.adapter.bound {
                None => Dispatch::Called,
                Some(b) => match bind_mut_error(objs, b as int) {
                    Some(e) => Dispatch::ReceiverUnavailable(e),
                    None => Dispatch::Called,
                },
            },
        }
    }
}

/// The invocations that emitting `name` on `object` makes among the first
/// `n` connections, in connection order.
pub open spec fn emitted(
    objs: Seq<ObjectRecord>,
    conns: Seq<Connection>,
    object: usize,
    name: Seq<char>,
    args: Seq<Variant>,
    n: int,
) -> Seq<Invocation>
    decreases n,
{
    if n <= 0 {
        Seq::empty()
    } else {
        let prev = emitted(objs, conns, object, name, args, n - 1);
        let c = conns[n - 1];
        if c.object == object && c.signal@ == name {
            prev.push(Invocation { connection: (n - 1) as usize, outcome: outcome(objs, c, args) })
        } else {
            prev
        }
    }
}

/// The dispatch table after one connection is appended.
pub open spec fn registered(
    before: Seq<Connection>,
    after: Seq<Connection>,
    object: usize,
    name: Seq<char>,
    adapter: CallableAdapter,
    flags: u32,
) -> bool {
    &&& after.len() == before.len() + 1
    &&& after.take(before.len() as int) == before
    &&& after.last().object == object
    &&& after.last().signal@ == name
    &&& after.last().adapter == adapter
    &&& after.last().flags == flags
}

/// The receiver object of a connection, handed over as a counted handle.
pub trait IntoSignalObj {
    /// Identity of the object handed over.
    spec fn target(&self) -> usize;

    fn into_signal_obj(self, host: &mut Host) -> (r: Result<Handle, AccessError>)
        requires
            countable(old(host).objects@, self.target() as int),
        ensures
            final(host).connections@ == old(host).connections@,
            final(host).objects@ == cloned(old(host).objects@, self.target() as int),
            live(old(host).objects@, self.target() as int) ==> (r matches Ok(h) && h.id
                == self.target()),
            !live(old(host).objects@, self.target() as int) ==> r == Err::<Handle, AccessError>(
                AccessError::Destroyed,
            ),
    ;
}

impl<'a> IntoSignalObj for &'a Handle {
    open spec fn target(&self) -> usize {
        self.id
    }

    fn into_signal_obj(self, host: &mut Host) -> (r: Result<Handle, AccessError>) {
        host.clone_handle(self)
    }
}

/// Type-checked view of one event of one object.
pub struct TypedSignal {
    /// Identity of the object that declares the event.
    pub object: usize,
    pub name: String,
}

/// An event of an object, without its parameter types.
pub struct Signal {
    pub object: usize,
    pub name: String,
}

/// Configuration of a connection, finalized by `done`.
pub struct ConnectBuilder {
    pub object: usize,
    pub name: String,
    pub flags: Option<u32>,
}

/// The adapter made for an unbound receiver function.
pub open spec fn unbound_adapter(function: Receiver) -> CallableAdapter {
    CallableAdapter { name: function.name, params: function.params, bound: None }
}

/// The adapter made for a receiver method on the object `object`.
pub open spec fn bound_adapter(function: Receiver, object: usize) -> CallableAdapter {
    CallableAdapter { name: function.name, params: function.params, bound: Some(object) }
}

pub open spec fn flag_bits(flags: Option<u32>) -> u32 {
    match flags {
        Some(f) => f,
        None => 0,
    }
}

impl TypedSignal {
    pub fn __from_erased(object: &Handle, name: &str) -> (s: TypedSignal)
        ensures
            s.object == object.id,
            s.name@ == name@,
    {
        TypedSignal { object: object.id, name: name.to_owned() }
    }

    /// A counted handle to the object that declares the event.
    pub(crate) fn receiver_object(&self, host: &mut Host) -> (r: Result<Handle, AccessError>)
        requires
            countable(old(host).objects@, self.object as int),
        ensures
            final(host).connections@ == old(host).connections@,
            final(host).objects@ == cloned(old(host).objects@, self.object as int),
            live(old(host).objects@, self.object as int) ==> (r matches Ok(h) && h.id
                == self.object),
            !live(old(host).objects@, self.object as int) ==> r == Err::<Handle, AccessError>(
                AccessError::Destroyed,
            ),
    {
        host.clone_handle(&Handle { id: self.object })
    }

    /// Emits the event with `args`: every adapter connected under its name is
    /// reached, in connection order. The declaring object must be able to take
    /// a mutable guard.
    pub fn emit_tuple(&mut self, host: &Host, args: Vec<Variant>) -> (r: Result<
        Vec<Invocation>,
        AccessError,
    >)
        ensures
            *final(self) == *old(self),
            bind_mut_error(host.objects@, old(self).object as int) matches Some(e) ==> r == Err::<
                Vec<Invocation>,
                AccessError,
            >(e),
            bind_mut_error(host.objects@, old(self).object as int) is None ==> (r matches Ok(v)
                && v@ == emitted(
                host.objects@,
                host.connections@,
                old(self).object,
                old(self).name@,
                args@,
                host.connections@.len() as int,
            )),
    {
        match host.mut_guard_error(self.object) {
            Some(e) => Err(e),
            None => Ok(host.emit_signal(self.object, &self.name, &args)),
        }
    }

    /// Connects a function that takes no receiver object.
    pub fn connect_g(&mut self, host: &mut Host, function: Receiver) -> (r: Result<
        (),
        AccessError,
    >)
        ensures
            *final(self) == *old(self),
            final(host).objects@ == old(host).objects@,
            bind_mut_error(old(host).objects@, old(self).object as int) matches Some(e) ==> r
                == Err::<(), AccessError>(e) && final(host).connections@ == old(host).connections@,
            bind_mut_error(old(host).objects@, old(self).object as int) is None ==> r == Ok::<
                (),
                AccessError,
            >(()) && registered(
                old(host).connections@,
                final(host).connections@,
                old(self).object,
                old(self).name@,
                unbound_adapter(function),
                0,
            ),
    {
        let adapter = CallableAdapter { name: function.name, params: function.params, bound: None };
        self.inner_connect_godot_fn(host, adapter)
    }

    /// Connects a method whose receiver is the object `object`; the
    /// connection holds a counted handle to it.
    pub fn connect<O: IntoSignalObj>(&mut self, host: &mut Host, object: O, method: Receiver) -> (r: Result<
        (),
        AccessError,
    >)
        requires
            countable(old(host).objects@, object.target() as int),
        ensures
            *final(self) == *old(self),
            bind_mut_error(old(host).objects@, old(self).object as int) matches Some(e) ==> r
                == Err::<(), AccessError>(e) && final(host).connections@ == old(host).connections@ && final(host).objects@ == old(host).objects@,
            bind_mut_error(old(host).objects@, old(self).object as int) is None && !live(
                old(host).objects@,
                object.target() as int,
            ) ==> r == Err::<(), AccessError>(AccessError::Destroyed) && final(host).connections@ == old(host).connections@ && final(host).objects@ == old(host).objects@,
            bind_mut_error(old(host).objects@, old(self).object as int) is None && live(
                old(host).objects@,
                object.target() as int,
            ) ==> r == Ok::<(), AccessError>(()) && final(host).objects@ == cloned(
                old(host).objects@,
                object.target() as int,
            ) && registered(
                old(host).connections@,
                final(host).connections@,
                old(self).object,
                old(self).name@,
                bound_adapter(method, object.target()),
                0,
            ),
    {
        if let Some(e) = host.mut_guard_error(self.object) {
            return Err(e);
        }
        let gd = match object.into_signal_obj(host) {
            Ok(gd) => gd,
            Err(e) => return Err(e),
        };
        let adapter = CallableAdapter { name: method.name, params: method.params, bound: Some(gd.id) };
        self.inner_connect_godot_fn(host, adapter)
    }

    /// Connects a method whose receiver is the object that declares the
    /// event; the connection holds a counted handle to it.
    pub fn connect_self(&mut self, host: &mut Host, function: Receiver) -> (r: Result<
        (),
        AccessError,
    >)
        requires
            countable(old(host).objects@, old(self).object as int),
        ensures
            *final(self) == *old(self),
            bind_mut_error(old(host).objects@, old(self).object as int) matches Some(e) ==> r
                == Err::<(), AccessError>(e) && final(host).connections@ == old(host).connections@ && final(host).objects@ == old(host).objects@,
            bind_mut_error(old(host).objects@, old(self).object as int) is None ==> r == Ok::<
                (),
                AccessError,
            >(()) && final(host).objects@ == cloned(old(host).objects@, old(self).object as int)
                && registered(
                old(host).connections@,
                final(host).connections@,
                old(self).object,
                old(self).name@,
                bound_adapter(function, old(self).object),
                0,
            ),
    {
        if let Some(e) = host.mut_guard_error(self.object) {
            return Err(e);
        }
        let gd = match self.receiver_object(host) {
            Ok(gd) => gd,
            Err(e) => return Err(e),
        };
        let adapter = CallableAdapter {
            name: function.name,
            params: function.params,
            bound: Some(gd.id),
        };
        self.inner_connect_godot_fn(host, adapter)
    }

    /// A builder for a connection with explicit flags.
    pub fn connect_builder(&mut self) -> (b: ConnectBuilder)
        ensures
            *final(self) == *old(self),
            b.object == old(self).object,
            b.name@ == old(self).name@,
            b.flags is None,
    {
        ConnectBuilder { object: self.object, name: self.name.clone(), flags: None }
    }

    /// Registers an adapter with default flags.
    fn inner_connect_godot_fn(&mut self, host: &mut Host, adapter: CallableAdapter) -> (r: Result<
        (),
        AccessError,
    >)
        ensures
            *final(self) == *old(self),
            final(host).objects@ == old(host).objects@,
            bind_mut_error(old(host).objects@, old(self).object as int) matches Some(e) ==> r
                == Err::<(), AccessError>(e) && final(host).connections@ == old(host).connections@,
            bind_mut_error(old(host).objects@, old(self).object as int) is None ==> r == Ok::<
                (),
                AccessError,
            >(()) && registered(
                old(host).connections@,
                final(host).connections@,
                old(self).object,
                old(self).name@,
                adapter,
                0,
            ),
    {
        self.inner_connect_untyped(host, adapter, None)
    }

    /// Registers an adapter, with flags when given.
    pub(crate) fn inner_connect_untyped(
        &mut self,
        host: &mut Host,
        callable: CallableAdapter,
        flags: Option<u32>,
    ) -> (r: Result<(), AccessError>)
        ensures
            *final(self) == *old(self),
            final(host).objects@ == old(host).objects@,
            bind_mut_error(old(host).objects@, old(self).object as int) matches Some(e) ==> r
                == Err::<(), AccessError>(e) && final(host).connections@ == old(host).connections@,
            bind_mut_error(old(host).objects@, old(self).object as int) is None ==> r == Ok::<
                (),
                AccessError,
            >(()) && registered(
                old(host).connections@,
                final(host).connections@,
                old(self).object,
                old(self).name@,
                callable,
                flag_bits(flags),
            ),
    {
        let bits: u32 = match flags {
            Some(f) => f,
            None => 0,
        };
        host.connect_signal(self.object, &self.name, callable, bits)
    }

    /// The same event without its parameter types.
    pub(crate) fn to_untyped(&self) -> (s: Signal)
        ensures
            s.object == self.object,
            s.name@ == self.name@,
    {
        Signal { object: self.object, name: self.name.clone() }
    }
}

impl ConnectBuilder {
    /// Sets the connection flags.
    pub fn flags(self, flags: u32) -> (b: ConnectBuilder)
        ensures
            b.object == self.object,
            b.name@ == self.name@,
            b.flags == Some(flags),
    {
        ConnectBuilder { object: self.object, name: self.name, flags: Some(flags) }
    }

    /// Registers a function that takes no receiver object, with the flags set.
    pub fn done(self, host: &mut Host, function: Receiver) -> (r: Result<(), AccessError>)
        ensures
            final(host).objects@ == old(host).objects@,
            bind_mut_error(old(host).objects@, self.object as int) matches Some(e) ==> r == Err::<
                (),
                AccessError,
            >(e) && final(host).connections@ == old(host).connections@,
            bind_mut_error(old(host).objects@, self.object as int) is None ==> r == Ok::<
                (),
                AccessError,
            >(()) && registered(
                old(host).connections@,
                final(host).connections@,
                self.object,
                self.name@,
                unbound_adapter(function),
                flag_bits(self.flags),
            ),
    {
        let adapter = CallableAdapter { name: function.name, params: function.params, bound: None };
        let bits: u32 = match self.flags {
            Some(f) => f,
            None => 0,
        };
        host.connect_signal(self.object, &self.name, adapter, bits)
    }
}

impl Host {
    /// Why a mutable guard on `object` would be refused, if it would.
    pub fn mut_guard_error(&self, object: usize) -> (r: Option<AccessError>)
        ensures
            r == bind_mut_error(self.objects@, object as int),
    {
        if object >= self.objects.len() || !self.objects[object].alive {
            Some(AccessError::Destroyed)
        } else if !self.objects[object].constructed {
            Some(AccessError::UnderConstruction)
        } else if self.objects[object].exclusive || self.objects[object].shared > 0 {
            Some(AccessError::Bound)
        } else {
            None
        }
    }

    /// The outcome of emitting `args` to one connection.
    fn dispatch(&self, c: &Connection, args: &Vec<Variant>) -> (r: Dispatch)
        ensures
            r == outcome(self.objects@, *c, args@),
    {
        if c.flags & DEFERRED != 0 {
            return Dispatch::Queued;
        }
        match c.adapter.convert_args(args) {
            Err(e) => Dispatch::ConversionFailed(e),
            Ok(_) => match c.adapter.bound {
                None => Dispatch::Called,
                Some(b) => {
                    if b >= self.objects.len() || !self.objects[b].alive {
                        Dispatch::ReceiverUnavailable(AccessError::Destroyed)
                    } else if !self.objects[b].constructed {
                        Dispatch::ReceiverUnavailable(AccessError::UnderConstruction)
                    } else if self.objects[b].exclusive || self.objects[b].shared > 0 {
                        Dispatch::ReceiverUnavailable(AccessError::Bound)
                    } else {
                        Dispatch::Called
                    }
                },
            },
        }
    }

    /// Calls every adapter connected under `name` on `object`, in connection order.
    fn emit_signal(&self, object: usize, name: &String, args: &Vec<Variant>) -> (r: Vec<
        Invocation,
    >)
        ensures
            r@ == emitted(
                self.objects@,
                self.connections@,
                object,
                name@,
                args@,
                self.connections@.len() as int,
            ),
    {
        let mut out: Vec<Invocation> = Vec::new();
        let mut i: usize = 0;
        while i < self.connections.len()
            invariant
                0 <= i <= self.connections@.len(),
                out@ == emitted(self.objects@, self.connections@, object, name@, args@, i as int),
            decreases self.connections@.len() - i,
        {
            let c = &self.connections[i];
            if c.object == object && c.signal == *name {
                let d = self.dispatch(c, args);
                out.push(Invocation { connection: i, outcome: d });
            }
            i += 1;
        }
        out
    }

    /// Registers an adapter under `name` on a live, constructed object that
    /// can take a mutable guard.
    fn connect_signal(&mut self, object: usize, name: &String, adapter: CallableAdapter, flags: u32)
        -> (r: Result<(), AccessError>)
        ensures
            final(self).objects@ == old(self).objects@,
            bind_mut_error(old(self).objects@, object as int) matches Some(e) ==> r == Err::<
                (),
                AccessError,
            >(e) && final(self).connections@ == old(self).connections@,
            bind_mut_error(old(self).objects@, object as int) is None ==> r == Ok::<
                (),
                AccessError,
            >(()) && registered(
                old(self).connections@,
                final(self).connections@,
                object,
                name@,
                adapter,
                flags,
            ),
    {
        if let Some(e) = self.mut_guard_error(object) {
            return Err(e);
        }
        let c = Connection { object, signal: name.clone(), adapter, flags };
        self.connections.push(c);
        assert(self.connections@.take(old(self).connections@.len() as int) =~= old(self).connections@);
        Ok(())
    }
}

} // verus!
