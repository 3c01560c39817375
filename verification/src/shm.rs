//! Shared memory zones.
//!
//! Shared memory zones are declared during configuration parsing and
//! initialized once the configuration is applied.  nginx owns the memory; this
//! module holds the decisions taken around it: when a declaration succeeds or
//! fails and why, whether a zone is mapped yet, and whether initialization
//! creates the zone's value or keeps the one already there.
//!
//! See <https://nginx.org/en/docs/dev/development_guide.html#shared_memory>.
use vstd::prelude::*;

use core::marker::PhantomData;

use crate::ffi::{ngx_int_t, NGX_ERROR, NGX_OK};
use crate::status::Status;

verus! {

/// Error returned when an allocation from a pool fails.
#[derive(Clone, Copy, Debug, PartialEq, Eq, Structural)]
pub struct AllocError;

/// The slab pool at the start of a mapped shared memory zone, by address.
///
/// A zone has a slab pool only once nginx has mapped it, so a `SlabPool`
/// always refers to a non-null address.
#[derive(Clone, Copy, Debug)]
pub struct SlabPool {
    addr: usize,
}

impl SlabPool {
    #[verifier::type_invariant]
    spec fn mapped(self) -> bool {
        self.addr != 0
    }

    /// The address of the pool.
    pub closed spec fn addr(self) -> usize {
        self.addr
    }

    /// The slab pool of a zone whose mapping starts at `shm_addr`, or `None`
    /// while the zone is not mapped yet (a null address).
    pub fn from_shm_addr(shm_addr: usize) -> (pool: Option<SlabPool>)
        ensures
            pool is Some <==> shm_addr != 0,
            pool matches Some(p) ==> p.addr() == shm_addr,
    {
        if shm_addr == 0 {
            None
        } else {
            Some(SlabPool { addr: shm_addr })
        }
    }

    /// The address of the pool, for the code that reads and writes it.
    pub fn as_addr(&self) -> (addr: usize)
        ensures
            addr == self.addr(),
            addr != 0,
    {
        proof {
            use_type_invariant(self);
        }
        self.addr
    }
}

/// A value stored in the slab pool of a shared memory zone.
///
/// The value is created once, on the first initialization of the zone, and
/// then reused for as long as the zone keeps the same mapping, notably across
/// configuration reloads and across a binary upgrade.  It is never dropped:
/// shared memory outlives the process that created it, so implementers should
/// not rely on `Drop` for cleanup.
pub trait SharedZoneData: Sized {
    /// Creates the initial value in the zone's slab pool.
    ///
    /// Everything reachable from the returned value must itself be allocated
    /// from `alloc`, or it will not be visible to the other worker processes.
    fn new_in(alloc: SlabPool) -> Result<Self, AllocError>;

    /// Accepts or rejects a value left in the zone by a previous
    /// configuration.
    ///
    /// Called instead of [`SharedZoneData::new_in`] when the zone already
    /// holds a value.  Returning an error aborts the reload, leaving the
    /// running configuration in place.
    ///
    /// The default implementation accepts the existing value unchanged.
    fn reuse(&self) -> (accepted: Result<(), Status>)
        default_ensures
            accepted == Ok::<(), Status>(()),
    {
        Ok(())
    }
}

/// Error returned when a shared memory zone cannot be declared.
#[derive(Clone, Copy, Debug, PartialEq, Eq, Structural)]
#[non_exhaustive]
pub enum ShmError {
    /// nginx refused the zone: the name is already declared for a different
    /// module, or with a conflicting size.  A message describing which of the
    /// two it was has already been written to the configuration log.
    Rejected,
    /// Allocation from the configuration pool failed.
    Alloc,
}

impl ShmError {
    /// The text that describes the error.
    pub fn message(&self) -> (text: &'static str)
        ensures
            *self == ShmError::Rejected ==> text@ == "shared memory zone rejected"@,
            *self == ShmError::Alloc ==> text@ == "configuration pool allocation failed"@,
    {
        match self {
            ShmError::Rejected => "shared memory zone rejected",
            ShmError::Alloc => "configuration pool allocation failed",
        }
    }
}

impl From<ShmError> for Status {
    fn from(err: ShmError) -> (status: Status) {
        Status(NGX_ERROR)
    }
}

impl vstd::std_specs::convert::FromSpecImpl<ShmError> for Status {
    open spec fn obeys_from_spec() -> bool {
        true
    }

    open spec fn from_spec(err: ShmError) -> Status {
        Status(NGX_ERROR)
    }
}

/// A shared memory zone holding a value of type `T`, by the address of its
/// `ngx_shm_zone_t`.
///
/// Obtained from [`SharedZone::from_declaration`] while parsing a
/// configuration directive, and normally kept in the module's configuration.
/// The zone is not usable until nginx has applied the configuration.
pub struct SharedZone<T> {
    zone: usize,
    data: PhantomData<T>,
}

impl<T> SharedZone<T> {
    #[verifier::type_invariant]
    spec fn non_null(self) -> bool {
        self.zone != 0
    }

    /// The address of the zone.
    pub closed spec fn addr(self) -> usize {
        self.zone
    }

    /// The result of declaring a zone.
    ///
    /// `name_copied` says whether the zone's name could be copied into the
    /// configuration pool; `zone` is what `ngx_shared_memory_add` returned for
    /// the declaration (0 for null), and is only looked at when the name was
    /// copied, since nothing is declared otherwise.
    pub fn from_declaration(name_copied: bool, zone: usize) -> (declared: Result<Self, ShmError>)
        ensures
            !name_copied ==> declared == Err::<Self, ShmError>(ShmError::Alloc),
            name_copied && zone == 0 ==> declared == Err::<Self, ShmError>(ShmError::Rejected),
            name_copied && zone != 0 ==> (declared matches Ok(z) && z.addr() == zone),
    {
        if !name_copied {
            Err(ShmError::Alloc)
        } else if zone == 0 {
            Err(ShmError::Rejected)
        } else {
            Ok(SharedZone { zone, data: PhantomData })
        }
    }

    /// Returns the address of the underlying `ngx_shm_zone_t`, for
    /// interoperation with the raw API.
    pub fn as_ptr(&self) -> (zone: usize)
        ensures
            zone == self.addr(),
            zone != 0,
    {
        proof {
            use_type_invariant(self);
        }
        self.zone
    }
}

impl<T> Clone for SharedZone<T> {
    fn clone(&self) -> (copy: Self)
        ensures
            copy.addr() == self.addr(),
    {
        proof {
            use_type_invariant(self);
        }
        SharedZone { zone: self.zone, data: PhantomData }
    }
}

impl<T> Copy for SharedZone<T> {
}

/// What the initialization of a zone leaves to do.
pub enum InitStep<T> {
    /// Initialization is over, with this result.
    Done(Result<(), Status>),
    /// A new value was created and must now be stored in the zone's pool.
    Store(T),
}

/// Initialization of a mapped zone: `pool` is the zone's slab pool (`None`
/// when the zone has none), and `existing` the value that the pool already
/// holds, if any.
///
/// A zone without a pool fails with `NGX_ERROR`.  A zone that already holds a
/// value keeps it: initialization ends with what [`SharedZoneData::reuse`]
/// returned for that value, a refusal included, and no new value is created.
/// Otherwise a value is created with [`SharedZoneData::new_in`], given the
/// zone's pool: the value it returns is to be stored, and a failure there
/// gives `NGX_ERROR`.
pub fn init_step<T: SharedZoneData>(pool: Option<SlabPool>, existing: Option<&T>) -> (step: InitStep<T>)
    ensures
        pool is None ==> step == InitStep::<T>::Done(Err(Status(NGX_ERROR))),
        pool is Some && existing is Some ==> step is Done,
        pool is Some && existing is None ==> (step is Store || step == InitStep::<T>::Done(
            Err(Status(NGX_ERROR)),
        )),
        pool is Some ==> (existing matches Some(value) ==> (step matches InitStep::Done(result)
            && call_ensures(T::reuse, (value,), result))),
        pool matches Some(p) ==> (existing is None ==> (step matches InitStep::Store(created)
            ==> call_ensures(T::new_in, (p,), Ok::<T, AllocError>(created)))),
        pool matches Some(p) ==> (existing is None ==> (step is Done ==> exists|e: AllocError|
            #[trigger] call_ensures(T::new_in, (p,), Err::<T, AllocError>(e)))),
{
    match pool {
        None => InitStep::Done(Err(Status::error())),
        Some(pool) => match existing {
            Some(value) => InitStep::Done(value.reuse()),
            None => {
                let created = T::new_in(pool);
                match created {
                    Ok(value) => InitStep::Store(value),
                    Err(e) => {
                        assert(call_ensures(T::new_in, (pool,), Err::<T, AllocError>(e)));
                        InitStep::Done(Err(Status::error()))
                    },
                }
            },
        },
    }
}

/// The result of storing a newly created value in the zone's pool:
/// `allocated` says whether the pool had room for it.
pub fn store_result(allocated: bool) -> (result: Result<(), Status>)
    ensures
        allocated ==> result == Ok::<(), Status>(()),
        !allocated ==> result == Err::<(), Status>(Status(NGX_ERROR)),
{
    if allocated {
        Ok(())
    } else {
        Err(Status::error())
    }
}

/// The code that the zone's initialization callback returns to nginx.
pub fn init_code(result: Result<(), Status>) -> (code: ngx_int_t)
    ensures
        result is Ok ==> code == NGX_OK,
        result matches Err(status) ==> code == status.0,
{
    match result {
        Ok(()) => Status::ok().into(),
        Err(status) => status.into(),
    }
}

} // verus!
