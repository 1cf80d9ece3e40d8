use std::collections::BTreeMap;

use actor_runtime::actor::{CoolActor, NewParams};
use actor_runtime::cache::ManagedMemory;
use actor_runtime::convert::{from_u32, from_u64};
use actor_runtime::frame::read_arguments;
use actor_runtime::memory::checked_region;
use actor_runtime::runtime::{place_args, CallError, PlaceError, Runtime};

fn write(memory: &mut [u8], ptr: u64, bytes: &[u8]) {
    let (a, b) = checked_region(ptr, bytes.len() as u64, memory.len()).unwrap();
    memory[a..b].copy_from_slice(bytes);
}

fn empty_record() -> Vec<u8> {
    serde_cbor::to_vec(&BTreeMap::<String, u32>::new()).unwrap()
}

fn actor_state(actor: &CoolActor) -> Vec<u8> {
    let mut m: BTreeMap<String, u32> = BTreeMap::new();
    m.insert("value".to_string(), actor.value());
    serde_cbor::to_vec(&m).unwrap()
}

/// Plays the guest's constructor: reads the argument frame, builds the actor,
/// records its state and hands back an empty record.
fn guest_constructor(rt: &mut Runtime, memory: &mut [u8], ptr: u64, len: u32) {
    let payload = read_arguments(memory, from_u64(ptr), from_u32(len)).unwrap();
    let _args: BTreeMap<String, u32> = serde_cbor::from_slice(&payload).unwrap();
    let actor = CoolActor::new(NewParams {});
    let state = actor_state(&actor);
    write(memory, 512, &state);
    rt.record_actor(memory, from_u64(512), from_u32(state.len() as u32)).unwrap();
    let ret = empty_record();
    write(memory, 768, &ret);
    assert_eq!(rt.set_return(memory, from_u64(768), from_u32(ret.len() as u32)), Ok(false));
}

fn invoke(rt: &mut Runtime, mm: &mut ManagedMemory, memory: &mut [u8]) -> Result<Vec<u8>, CallError> {
    rt.begin_call()?;
    let args = empty_record();
    let placed = place_args(mm, &args, |_size: u32| -> Result<u64, ()> { Ok(64) }).unwrap();
    write(memory, placed.ptr, &placed.frame);
    guest_constructor(rt, memory, placed.ptr, placed.len);
    rt.finish_call(true)
}

#[test]
fn constructor_end_to_end() {
    let mut rt = Runtime::new();
    let mut mm = ManagedMemory::new();
    let mut memory = vec![0u8; 1024];
    let ret = invoke(&mut rt, &mut mm, &mut memory).unwrap();
    let decoded: BTreeMap<String, u32> = serde_cbor::from_slice(&ret).unwrap();
    assert!(decoded.is_empty());
    assert_eq!(rt.actor_count(), 1);
    let blob = rt.actor(0).unwrap();
    let state: BTreeMap<String, u32> = serde_cbor::from_slice(blob).unwrap();
    assert_eq!(state.get("value"), Some(&0));
    assert_eq!(state.len(), 1);
    assert_eq!(rt.pop_return(), None);
}

#[test]
fn store_holds_one_blob_per_constructor_call() {
    let mut rt = Runtime::new();
    let mut mm = ManagedMemory::new();
    let mut memory = vec![0u8; 1024];
    for k in 1..=3usize {
        invoke(&mut rt, &mut mm, &mut memory).unwrap();
        assert_eq!(rt.actor_count(), k);
    }
    for i in 0..3 {
        assert_eq!(rt.actor(i).unwrap(), &actor_state(&CoolActor::new(NewParams {})));
    }
    assert_eq!(rt.actor(3), None);
}

#[test]
fn blobs_are_kept_in_call_order() {
    let mut rt = Runtime::new();
    let memory: Vec<u8> = (0..64u8).collect();
    rt.record_actor(&memory, 0, 3).unwrap();
    rt.record_actor(&memory, 10, 2).unwrap();
    rt.record_actor(&memory, 60, 4).unwrap();
    assert_eq!(rt.actor(0).unwrap(), &vec![0, 1, 2]);
    assert_eq!(rt.actor(1).unwrap(), &vec![10, 11]);
    assert_eq!(rt.actor(2).unwrap(), &vec![60, 61, 62, 63]);
}

#[test]
fn missing_return_is_a_protocol_error() {
    let mut rt = Runtime::new();
    rt.begin_call().unwrap();
    assert_eq!(rt.finish_call(true), Err(CallError::MissingReturn));
    assert!(rt.begin_call().is_ok());
}

#[test]
fn second_call_in_flight_is_refused() {
    let mut rt = Runtime::new();
    rt.begin_call().unwrap();
    assert_eq!(rt.begin_call(), Err(CallError::Busy));
    let memory = vec![0xa0u8; 4];
    rt.set_return(&memory, 0, 1).unwrap();
    assert_eq!(rt.finish_call(true), Ok(vec![0xa0]));
    assert!(rt.begin_call().is_ok());
}

#[test]
fn undrained_return_blocks_next_call() {
    let mut rt = Runtime::new();
    let memory = vec![1u8, 2, 3];
    assert_eq!(rt.set_return(&memory, 0, 1), Ok(false));
    assert_eq!(rt.begin_call(), Err(CallError::Busy));
    assert_eq!(rt.set_return(&memory, 1, 2), Ok(true));
    assert_eq!(rt.pop_return(), Some(vec![2, 3]));
    assert_eq!(rt.pop_return(), None);
    assert!(rt.begin_call().is_ok());
}

#[test]
fn failed_call_drains_and_reports() {
    let mut rt = Runtime::new();
    rt.begin_call().unwrap();
    let memory = vec![0u8; 4];
    rt.set_return(&memory, 0, 4).unwrap();
    assert_eq!(rt.finish_call(false), Err(CallError::CallFailed));
    assert_eq!(rt.pop_return(), None);
    assert_eq!(rt.finish_call(true), Err(CallError::NoCall));
}

#[test]
fn guest_regions_outside_memory_are_refused() {
    let mut rt = Runtime::new();
    let memory = vec![0u8; 16];
    assert_eq!(rt.record_actor(&memory, 10, 7), Err(CallError::OutOfBounds));
    assert_eq!(rt.record_actor(&memory, -1, 1), Err(CallError::OutOfBounds));
    assert_eq!(rt.set_return(&memory, 0, -1), Err(CallError::OutOfBounds));
    assert_eq!(rt.actor_count(), 0);
    assert_eq!(rt.pop_return(), None);
    assert_eq!(rt.read_slice(&memory, 14, 2), Some(vec![0, 0]));
    assert_eq!(rt.read_slice(&memory, 15, 2), None);
}

#[test]
fn placing_arguments_frames_and_caches() {
    let mut mm = ManagedMemory::new();
    let p = place_args(&mut mm, &[0xa0], |size: u32| -> Result<u64, ()> {
        assert_eq!(size, 9);
        Ok(128)
    })
    .unwrap();
    assert_eq!(p.ptr, 128);
    assert_eq!(p.len, 1);
    assert_eq!(p.frame, vec![1, 0, 0, 0, 0, 0, 0, 0, 0xa0]);
    let q = place_args(&mut mm, &[7], |_size: u32| -> Result<u64, ()> { Ok(999) }).unwrap();
    assert_eq!(q.ptr, 128);
    let e = place_args(&mut mm, &[0u8; 20], |_size: u32| -> Result<u64, u8> { Err(3) });
    assert!(matches!(e, Err(PlaceError::Alloc(3))));
    assert_eq!(mm.cached(), (128, 9));
}

#[test]
fn new_actor_starts_at_zero() {
    assert_eq!(CoolActor::new(NewParams {}).value(), 0);
    assert_eq!(CoolActor::with_value(7).value(), 7);
}
