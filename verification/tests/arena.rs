use gfx_runtime::arena::Arena;
use gfx_runtime::command::{AccessInfo, SubmissionError};
use gfx_runtime::buffer::{Info, Role};
use gfx_runtime::gl::device::MappingGate;
use gfx_runtime::gl::Backend;
use gfx_runtime::handle::{Heap, Manager, Producer};
use gfx_runtime::mapping::{Raw, Status};
use gfx_runtime::memory::Usage;

#[test]
fn counts_go_up_and_down() {
    let mut arena: Arena<u32> = Arena::new();
    assert_eq!(arena.len(), 0);
    let id = arena.store(40);
    assert_eq!(id, 0);
    assert_eq!(arena.count(id), 1);
    assert_eq!(arena.get(id), Some(&40));
    assert!(arena.retain(id));
    assert!(arena.retain(id));
    assert_eq!(arena.count(id), 3);
    assert_eq!(arena.release(id), None);
    assert_eq!(arena.release(id), None);
    assert_eq!(arena.count(id), 1);
    assert_eq!(arena.release(id), Some(40));
    assert_eq!(arena.count(id), 0);
    assert_eq!(arena.get(id), None);
    // what is gone stays gone
    assert!(!arena.retain(id));
    assert_eq!(arena.release(id), None);
    assert_eq!(arena.len(), 1);
    assert_eq!(arena.store(41), 1);
}

#[test]
fn slots_beyond_the_end_are_dead() {
    let mut arena: Arena<u32> = Arena::new();
    assert_eq!(arena.count(3), 0);
    assert_eq!(arena.get(3), None);
    assert!(arena.get_mut(3).is_none());
    assert!(!arena.retain(3));
    assert_eq!(arena.release(3), None);
    assert_eq!(arena.take_unique(3), None);
    assert_eq!(arena.len(), 0);
}

#[test]
fn a_value_is_taken_only_when_one_reference_is_left() {
    let mut arena: Arena<u32> = Arena::new();
    let mut list = Vec::new();
    let id = arena.create(&mut list, 7);
    assert_eq!(list, vec![0]);
    assert_eq!(arena.count(id), 2);
    assert_eq!(arena.take_unique(id), None);
    arena.release(id);
    assert_eq!(arena.take_unique(id), Some(7));
    assert_eq!(arena.take_unique(id), None);
}

#[test]
fn values_are_changed_in_place() {
    let mut arena: Arena<u32> = Arena::new();
    let id = arena.store(1);
    arena.retain(id);
    *arena.get_mut(id).unwrap() = 9;
    assert_eq!(arena.get(id), Some(&9));
    assert_eq!(arena.count(id), 2);
}

#[test]
fn references_are_noted_where_they_can_be_counted() {
    let mut arena: Arena<u32> = Arena::new();
    let a = arena.store(1);
    let b = arena.store(2);
    arena.release(b);
    let mut list = Vec::new();
    assert!(arena.note(&mut list, a));
    assert!(!arena.note(&mut list, b));
    assert!(!arena.note(&mut list, 17));
    assert_eq!(list, vec![a]);
    let mut other = vec![5];
    arena.retain_all(&mut other, &vec![a, b, a]);
    assert_eq!(other, vec![5, a, a]);
    assert_eq!(arena.count(a), 4);
    arena.release_all(&mut other);
    assert_eq!(other, vec![]);
    // the entry that was never counted is given back as well, and is dead
    assert_eq!(arena.count(a), 2);
}

#[test]
fn a_sweep_spares_what_is_referred_to_twice_from_one_list() {
    let mut arena: Arena<u32> = Arena::new();
    let mut list = Vec::new();
    let a = arena.store(1);
    list.push(a);
    arena.note(&mut list, a);
    let b = arena.store(2);
    list.push(b);
    assert_eq!(list, vec![a, a, b]);
    let freed = arena.sweep(&mut list);
    assert_eq!(freed, vec![(b, 2)]);
    assert_eq!(list, vec![a, a]);
    assert_eq!(arena.sweep(&mut list), vec![]);
}

#[test]
fn the_status_of_a_mapping_follows_writes_and_fences() {
    let mut status = Status::clean();
    assert!(!status.cpu_wrote);
    assert_eq!(status.gpu_access, None);
    assert!(!status.ensure_flushed());
    assert_eq!(status.cpu_write_access(), None);
    assert!(status.cpu_wrote);
    assert!(status.ensure_flushed());
    assert!(!status.ensure_flushed());
    assert_eq!(status.gpu_access(4), None);
    assert_eq!(status.gpu_access(5), Some(4));
    assert_eq!(status.cpu_access(), Some(5));
    assert_eq!(status.cpu_access(), None);
    assert!(!status.cpu_wrote);
}

#[test]
fn a_mapping_is_taken_once() {
    let mut raw: Raw<Backend> = Raw::new(MappingGate::temporary());
    assert!(raw.accessible);
    assert!(raw.take_access());
    assert!(!raw.take_access());
    raw.release_access();
    assert!(raw.take_access());
}

#[test]
fn accesses_are_taken_together_or_not_at_all() {
    let mut heap: Heap<Backend> = Heap::new();
    let mut pool: Manager<Backend> = Manager::new();
    let info = Info { role: Role::Index, usage: Usage::Upload, bind: 0, size: 16, stride: 2 };
    let a = pool.make_buffer(&mut heap, 1, info, Some(MappingGate::persistent(0x10)));
    let b = pool.make_buffer(&mut heap, 2, info, Some(MappingGate::persistent(0x20)));
    let mut touched: AccessInfo<Backend> = AccessInfo::new();
    touched.buffer_read(&heap.buffers, &a);
    touched.buffer_read(&heap.buffers, &a);
    touched.buffer_write(&heap.buffers, &a);
    touched.buffer_write(&heap.buffers, &b);
    assert_eq!(touched.mapped_reads, vec![0]);
    assert_eq!(touched.mapped_writes, vec![0, 1]);
    assert!(!touched.is_busy(&heap.buffers));

    heap.buffers.get_mut(1).unwrap().mapping.as_mut().unwrap().take_access();
    assert!(touched.is_busy(&heap.buffers));
    match touched.take_accesses(&mut heap.buffers) {
        Err(e) => assert_eq!(e, SubmissionError::AccessOverlap),
        Ok(_) => panic!("one mapping is taken"),
    }
    assert!(heap.buffers.get(0).unwrap().mapping.as_ref().unwrap().accessible);

    heap.buffers.get_mut(1).unwrap().mapping.as_mut().unwrap().release_access();
    let guard = touched.take_accesses(&mut heap.buffers).ok().unwrap();
    assert!(guard.has_mapped_reads());
    assert!(guard.has_mapped_writes());
    assert!(!heap.buffers.get(0).unwrap().mapping.as_ref().unwrap().accessible);
    assert!(!heap.buffers.get(1).unwrap().mapping.as_ref().unwrap().accessible);
    assert!(touched.is_busy(&heap.buffers));
    guard.release(&mut heap.buffers);
    assert!(heap.buffers.get(0).unwrap().mapping.as_ref().unwrap().accessible);
    assert!(heap.buffers.get(1).unwrap().mapping.as_ref().unwrap().accessible);
    touched.clear();
    assert!(!touched.has_mapped_reads());
    assert!(!touched.has_mapped_writes());
}

#[test]
fn a_sparing_sweep_leaves_the_spared_slots_alone() {
    let mut arena: Arena<u32> = Arena::new();
    let mut list = Vec::new();
    let a = arena.store(1);
    let b = arena.store(2);
    let c = arena.store(3);
    list.push(a);
    list.push(b);
    list.push(c);
    let freed = arena.sweep_sparing(&mut list, &vec![b, 9]);
    assert_eq!(freed, vec![(a, 1), (c, 3)]);
    assert_eq!(list, vec![b]);
    assert_eq!(arena.get(b), Some(&2));
    assert_eq!(arena.count(b), 1);
    // sparing the same again hands out nothing
    assert_eq!(arena.sweep_sparing(&mut list, &vec![b]), vec![]);
    // once it is spared no more, it goes
    assert_eq!(arena.sweep_sparing(&mut list, &vec![]), vec![(b, 2)]);
    assert_eq!(list, vec![]);
}
