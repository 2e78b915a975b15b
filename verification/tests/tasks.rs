use bark_core::sync::isr::IsrResult;
use bark_core::sync::mutex::TaskMutex;
use bark_core::sync::queue::{channel, sent_from_isr, AllocQueueError};
use bark_core::system::task::execute::{Execution, Polled, Step};
use bark_core::system::task::registry::{Registry, TaskId, TaskRegistration, MAX_TASKS};
use bark_core::system::task::waker::{woken_from_isr, TaskWaker, TaskWakerSet};
use bark_core::system::task::waker_impl::{self, RawWaker, VTable};
use bark_core::system::task::{new, spawn_result, SpawnError, TaskPtr};

#[test]
fn builder_defaults_and_setters() {
    let task = new("worker");
    assert_eq!((task.name, task.stack_bytes, task.priority, task.core), ("worker", 8192, 0, 0));
    let task = task.stack_size(4096).priority(7).use_alternate_core();
    assert_eq!((task.stack_bytes, task.priority, task.core), (4096, 7, 1));
}

#[test]
fn spawn_request_cuts_the_name_and_adds_the_stack() {
    let request = new("bark::app").stack_size(1000).spawn_request(24);
    assert_eq!(request.name_with_nul(), b"bark::app\0");
    assert_eq!(request.stack_size, 1024);
    let long = "0123456789012345678901234567890123456789";
    let request = new(long).spawn_request(usize::MAX);
    assert_eq!(request.name_with_nul(), b"01234567890123456789012345678901\0");
    assert_eq!(request.stack_size, u32::MAX);
    let request = new("").spawn_request(0);
    assert_eq!(request.name_with_nul(), b"\0");
    assert_eq!(request.stack_size, 8192);
}

#[test]
fn spawn_result_follows_the_return_code() {
    assert_eq!(spawn_result(1), Ok(()));
    assert_eq!(spawn_result(0), Err(SpawnError::TaskCreateError));
    assert_eq!(spawn_result(-1), Err(SpawnError::TaskCreateError));
}

#[test]
fn registry_hands_out_lowest_free_slot() {
    let mut registry = Registry::new();
    let a = TaskRegistration::new_for_current_task(&mut registry, TaskPtr(0x100)).unwrap();
    let b = TaskRegistration::new_for_current_task(&mut registry, TaskPtr(0x200)).unwrap();
    assert_eq!(a.id().as_opaque_ptr(), 0);
    assert_eq!(b.id().as_opaque_ptr(), 1);
    assert_eq!(TaskId::current(&registry, TaskPtr(0x200)), Some(b.id()));
    assert_eq!(TaskId::current(&registry, TaskPtr(0x300)), None);
    a.release(&mut registry);
    let c = TaskRegistration::new_for_current_task(&mut registry, TaskPtr(0x300)).unwrap();
    assert_eq!(c.id().as_opaque_ptr(), 0);
}

#[test]
fn full_registry_refuses() {
    let mut registry = Registry::new();
    for i in 0..MAX_TASKS {
        assert!(TaskRegistration::new_for_current_task(&mut registry, TaskPtr(i + 1)).is_some());
    }
    assert!(TaskRegistration::new_for_current_task(&mut registry, TaskPtr(99)).is_none());
    assert_eq!(TaskId::current(&registry, TaskPtr(32)).map(|id| id.as_opaque_ptr()), Some(31));
}

#[test]
fn task_ids() {
    let ids = TaskId::iter();
    assert_eq!(ids.len(), MAX_TASKS);
    assert_eq!(ids[5], TaskId::new(5));
    assert_eq!(TaskId::new(0).as_bit(), 1);
    assert_eq!(TaskId::new(31).as_bit(), 0x8000_0000);
    assert_eq!(TaskId::from_opaque_ptr(17).as_opaque_ptr(), 17);
}

#[test]
fn raw_waker_carries_the_id() {
    let id = TaskId::new(9);
    let raw = waker_impl::new(id);
    assert_eq!(raw, RawWaker { data: 9, vtable: VTable::Task });
    assert_eq!(waker_impl::task_id(&raw), Some(id));
    assert_eq!(TaskWaker::new(id).to_waker(), raw);
    let foreign = RawWaker { data: 1234, vtable: VTable::Foreign };
    assert_eq!(waker_impl::task_id(&foreign), None);

    let mut registry = Registry::new();
    assert_eq!(TaskWaker::from_context(&foreign, &registry, TaskPtr(7)), None);
    let reg = TaskRegistration::new_for_current_task(&mut registry, TaskPtr(7)).unwrap();
    assert_eq!(TaskWaker::from_context(&foreign, &registry, TaskPtr(7)).map(|w| w.id), Some(reg.id()));
    assert_eq!(TaskWaker::from_context(&raw, &registry, TaskPtr(7)).map(|w| w.id), Some(id));
}

#[test]
fn waker_set_wakes_live_tasks_once() {
    let mut registry = Registry::new();
    let a = TaskRegistration::new_for_current_task(&mut registry, TaskPtr(0xa)).unwrap();
    let b = TaskRegistration::new_for_current_task(&mut registry, TaskPtr(0xb)).unwrap();
    let c = TaskRegistration::new_for_current_task(&mut registry, TaskPtr(0xc)).unwrap();
    let mut set = TaskWakerSet::new();
    set.add_task(&TaskWaker::new(c.id()));
    set.add_task(&TaskWaker::new(a.id()));
    set.add_task(&TaskWaker::new(a.id()));
    set.add_task(&TaskWaker::new(b.id()));
    b.release(&mut registry);
    assert_eq!(set.wake_all(&registry), vec![TaskPtr(0xa), TaskPtr(0xc)]);
    assert_eq!(set.wake_all(&registry), vec![]);
    set.add_task(&TaskWaker::new(c.id()));
    assert_eq!(set.wake_from_isr(&registry), vec![TaskPtr(0xc)]);
}

#[test]
fn isr_results_chain() {
    let woken: IsrResult<(), ()> = woken_from_isr(&[false, true, false]);
    assert!(woken.need_wake);
    let woken: IsrResult<(), ()> = woken_from_isr(&[false, false]);
    assert!(!woken.need_wake);
    let woken: IsrResult<(), ()> = woken_from_isr(&[]);
    assert!(!woken.need_wake);
    let a: IsrResult<u8, ()> = IsrResult::ok(1, true);
    let b: IsrResult<u8, ()> = IsrResult::err((), false);
    let chained = a.chain(b);
    assert_eq!((chained.result, chained.need_wake), (Err(()), true));
    let mapped = IsrResult::<u8, ()>::ok(20, false).map(|x| x as u32 + 1);
    assert_eq!((mapped.result, mapped.need_wake), (Ok(21), false));
    let mapped = IsrResult::<u8, u8>::err(3, true).map(|x| x as u32 + 1);
    assert_eq!((mapped.result, mapped.need_wake), (Err(3), true));
    let d: IsrResult<(), u8> = IsrResult::default();
    assert_eq!((d.result, d.need_wake), (Ok(()), false));
    let sent = sent_from_isr::<u8>(Ok(()), &[true]);
    assert_eq!((sent.result, sent.need_wake), (Ok(()), true));
    let sent = sent_from_isr::<u8>(Err(4), &[true]);
    assert_eq!((sent.result, sent.need_wake), (Err(4), false));
}

#[test]
fn driver_parks_on_pending_and_finishes_on_ready() {
    let mut registry = Registry::new();
    let execution = Execution::execute(&mut registry, TaskPtr(0x10)).unwrap();
    assert_eq!(execution.waker().id.as_opaque_ptr(), 0);
    assert!(matches!(execution.after_poll::<u8>(Polled::Pending), Step::Park));
    assert!(matches!(execution.after_poll(Polled::Ready(5u8)), Step::Finish(5)));
    execution.finish(&mut registry);
    assert_eq!(TaskId::current(&registry, TaskPtr(0x10)), None);
}

#[test]
fn channel_is_fifo_and_bounded() {
    let registry = Registry::new();
    assert!(matches!(channel::<u8>(0), Err(AllocQueueError::QueueCreate)));
    let mut shared = channel::<u8>(2).unwrap();
    assert_eq!(shared.available(), 2);
    assert_eq!(shared.try_send(1, &registry).result, Ok(()));
    assert_eq!(shared.try_send(2, &registry).result, Ok(()));
    assert_eq!(shared.try_send(3, &registry).result, Err(3));
    assert_eq!(shared.available(), 0);
    assert_eq!(shared.try_receive(&registry).map(|r| r.item), Some(1));
    assert_eq!(shared.send_from_isr(4, &registry).result, Ok(()));
    assert_eq!(shared.send_overwriting_from_isr(5, &registry).dropped, Some(2));
    assert_eq!(shared.try_receive(&registry).map(|r| r.item), Some(4));
    assert_eq!(shared.send_overwriting_from_isr(6, &registry).dropped, None);
    assert_eq!(shared.try_receive(&registry).map(|r| r.item), Some(5));
    assert_eq!(shared.try_receive(&registry).map(|r| r.item), Some(6));
    assert!(shared.try_receive(&registry).is_none());
}

#[test]
fn channel_wakes_the_other_side() {
    let mut registry = Registry::new();
    let rx = TaskRegistration::new_for_current_task(&mut registry, TaskPtr(0x1)).unwrap();
    let tx = TaskRegistration::new_for_current_task(&mut registry, TaskPtr(0x2)).unwrap();
    let mut shared = channel::<u8>(1).unwrap();
    assert!(matches!(shared.poll_receive(&TaskWaker::new(rx.id()), &registry), Polled::Pending));
    assert!(matches!(shared.poll_reserve(&TaskWaker::new(tx.id())), Polled::Ready(())));
    assert_eq!(shared.try_send(9, &registry).wake, vec![TaskPtr(0x1)]);
    assert!(matches!(shared.poll_reserve(&TaskWaker::new(tx.id())), Polled::Pending));
    match shared.poll_receive(&TaskWaker::new(rx.id()), &registry) {
        Polled::Ready(received) => {
            assert_eq!(received.item, 9);
            assert_eq!(received.wake, vec![TaskPtr(0x2)]);
        }
        Polled::Pending => panic!("an item was queued"),
    }
}

#[test]
fn channel_block_is_freed_after_sender_then_receiver() {
    let mut shared = channel::<u8>(1).unwrap();
    assert!(!shared.drop_tx());
    assert!(shared.drop_rx());
}

#[test]
fn channel_block_is_freed_after_receiver_then_sender() {
    let mut shared = channel::<u8>(1).unwrap();
    assert!(!shared.drop_rx());
    assert!(shared.drop_tx());
}

#[test]
fn task_mutex_has_one_owner() {
    let mut registry = Registry::new();
    let a = TaskRegistration::new_for_current_task(&mut registry, TaskPtr(0x1)).unwrap();
    let b = TaskRegistration::new_for_current_task(&mut registry, TaskPtr(0x2)).unwrap();
    let mut mutex = TaskMutex::new(5u8);
    let guard = match mutex.poll_lock(&TaskWaker::new(a.id())) {
        Polled::Ready(guard) => guard,
        Polled::Pending => panic!("the mutex was free"),
    };
    assert!(matches!(mutex.poll_lock(&TaskWaker::new(b.id())), Polled::Pending));
    assert_eq!(*mutex.get(&guard), 5);
    mutex.set(&guard, 6);
    assert_eq!(mutex.unlock(guard, &registry), vec![TaskPtr(0x2)]);
    assert!(matches!(mutex.poll_lock(&TaskWaker::new(b.id())), Polled::Ready(_)));
}
