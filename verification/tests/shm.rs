use ngx::ffi::{ngx_int_t, NGX_ERROR, NGX_OK};
use ngx::shm::{
    init_code, init_step, store_result, AllocError, InitStep, SharedZone, SharedZoneData, ShmError,
    SlabPool,
};
use ngx::status::Status;

#[derive(Debug, PartialEq)]
struct Counter(u64);

impl SharedZoneData for Counter {
    fn new_in(_alloc: SlabPool) -> Result<Self, AllocError> {
        Ok(Counter(41))
    }
}

#[derive(Debug)]
struct Picky;

impl SharedZoneData for Picky {
    fn new_in(_alloc: SlabPool) -> Result<Self, AllocError> {
        Err(AllocError)
    }

    fn reuse(&self) -> Result<(), Status> {
        Err(Status(-5))
    }
}

#[test]
fn shm_error_converts_to_ngx_error() {
    assert_eq!(Status::from(ShmError::Rejected), Status(NGX_ERROR));
    assert_eq!(Status::from(ShmError::Alloc), Status(NGX_ERROR));
}

#[test]
fn shm_error_messages() {
    assert_eq!(ShmError::Rejected.message(), "shared memory zone rejected");
    assert_eq!(ShmError::Alloc.message(), "configuration pool allocation failed");
}

#[test]
fn declaration_fails_with_alloc_when_the_name_was_not_copied() {
    let declared = SharedZone::<Counter>::from_declaration(false, 0x1000);
    assert!(matches!(declared, Err(ShmError::Alloc)));
}

#[test]
fn declaration_rejected_when_nginx_returns_null() {
    let declared = SharedZone::<Counter>::from_declaration(true, 0);
    assert!(matches!(declared, Err(ShmError::Rejected)));
}

#[test]
fn declaration_keeps_the_zone_address() {
    let zone = SharedZone::<Counter>::from_declaration(true, 0x1000).ok().unwrap();
    assert_eq!(zone.as_ptr(), 0x1000);
    let copy = zone;
    assert_eq!(copy.as_ptr(), zone.as_ptr());
}

#[test]
fn unmapped_zone_has_no_slab_pool() {
    assert!(SlabPool::from_shm_addr(0).is_none());
    assert_eq!(SlabPool::from_shm_addr(0x2000).unwrap().as_addr(), 0x2000);
}

#[test]
fn init_without_pool_fails() {
    let step = init_step::<Counter>(None, None);
    assert!(matches!(step, InitStep::Done(Err(s)) if s == Status(NGX_ERROR)));
}

#[test]
fn init_creates_value_in_empty_zone() {
    let pool = SlabPool::from_shm_addr(0x2000);
    let step = init_step::<Counter>(pool, None);
    assert!(matches!(step, InitStep::Store(Counter(41))));
}

#[test]
fn init_keeps_existing_value() {
    let pool = SlabPool::from_shm_addr(0x2000);
    let existing = Counter(7);
    let step = init_step::<Counter>(pool, Some(&existing));
    assert!(matches!(step, InitStep::Done(Ok(()))));
}

#[test]
fn init_passes_on_the_reuse_refusal() {
    let pool = SlabPool::from_shm_addr(0x2000);
    let existing = Picky;
    let step = init_step::<Picky>(pool, Some(&existing));
    assert!(matches!(step, InitStep::Done(Err(s)) if s == Status(-5)));
}

#[test]
fn init_fails_when_creation_fails() {
    let pool = SlabPool::from_shm_addr(0x2000);
    let step = init_step::<Picky>(pool, None);
    assert!(matches!(step, InitStep::Done(Err(s)) if s == Status(NGX_ERROR)));
}

#[test]
fn store_result_maps_allocation_failure() {
    assert_eq!(store_result(true), Ok(()));
    assert_eq!(store_result(false), Err(Status(NGX_ERROR)));
}

#[test]
fn init_code_is_what_nginx_expects() {
    assert_eq!(init_code(Ok(())), NGX_OK);
    assert_eq!(init_code(Err(Status(NGX_ERROR))), NGX_ERROR);
    assert_eq!(init_code(Err(Status(-5))), -5);
}

#[test]
fn status_constructors_and_code() {
    assert_eq!(Status::ok(), Status(0));
    assert_eq!(Status::error(), Status(-1));
    let code: ngx_int_t = Status::error().into();
    assert_eq!(code, -1);
}
