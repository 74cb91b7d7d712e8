use xgameruntime::results::{E_FAIL, S_OK};
use xgameruntime::xasync::{
    run_begin, schedule_on_begin, work_callback_finish, XAsyncBlock, XAsyncProviderContext, XAsyncResultStep, XAsyncStatus, XAsyncWorkOutcome,
};
use xgameruntime::threading::{
    wait_fired,
    port_dispatches, xasync_singleton, ThreadTimeSensitivity, XAsync,
    current_process_task_queue, missing_queue_answer, port_kind, x_task_queue_create, x_task_queue_create_composite,
    ManualTaskQueuePort, PortAction, PortKind, PortRef, QueueEntry, TaskQueue, XTaskQueueCall,
    XTaskQueueDispatchMode, XTaskQueuePort,
};

#[test]
fn test_x_async2() {
    let q = x_task_queue_create(7, XTaskQueueDispatchMode::ThreadPool, XTaskQueueDispatchMode::ThreadPool, 11, 12);
    let port = q.get_port(XTaskQueuePort::Work);
    assert_ne!(port.handle, 0);
    assert_eq!(port.kind, PortKind::ThreadPool { single_worker: false });
}

#[test]
fn test_x_async() {
    let mut q = x_task_queue_create(
        1,
        XTaskQueueDispatchMode::SerializedThreadPool,
        XTaskQueueDispatchMode::Immediate,
        2,
        3,
    );
    let (hr, plan) = q.submit_delayed_callback(XTaskQueuePort::Work, 0, Some(100), 0);
    assert_eq!(hr, S_OK);
    assert_eq!(plan.action, PortAction::Spawn);
    let (hr, plan) = q.submit_delayed_callback(XTaskQueuePort::Work, 0, Some(100), 0);
    assert_eq!(hr, S_OK);
    assert_eq!(plan.action, PortAction::Spawn);
    let port = q.get_port(XTaskQueuePort::Work);
    let mut q2 = match x_task_queue_create_composite(4, Some(port), Some(port)) {
        Ok(q2) => q2,
        Err(_) => panic!("composite queue over existing ports"),
    };
    let t = q.terminate(true, None, 0);
    assert!(t.wait);
    assert!(q.is_closed());
    let (hr, plan) = q2.submit_delayed_callback(XTaskQueuePort::Work, 0, Some(100), 0);
    assert_eq!(hr, S_OK);
    assert_eq!(plan.action, PortAction::Spawn);
    let (hr, plan) = q2.submit_delayed_callback(XTaskQueuePort::Work, 1000, Some(100), 0);
    assert_eq!(hr, S_OK);
    assert_eq!(plan.action, PortAction::Timer { delay_ms: 1000 });
    assert_eq!(plan.monitors.len(), 0);
    q2.terminate(true, None, 0);
    assert!(q2.is_closed());
}

#[test]
fn dispatch_modes_make_ports() {
    assert_eq!(port_kind(XTaskQueueDispatchMode::Manual), PortKind::Manual);
    assert_eq!(port_kind(XTaskQueueDispatchMode::ThreadPool), PortKind::ThreadPool { single_worker: false });
    assert_eq!(port_kind(XTaskQueueDispatchMode::SerializedThreadPool), PortKind::ThreadPool { single_worker: true });
    assert_eq!(port_kind(XTaskQueueDispatchMode::Immediate), PortKind::Immediate);
    assert_eq!(XTaskQueueDispatchMode::from_value(3), Some(XTaskQueueDispatchMode::Immediate));
    assert_eq!(XTaskQueueDispatchMode::from_value(5), None);
    assert_eq!(XTaskQueuePort::Completion.value(), 1);
}

#[test]
fn manual_port_is_fifo() {
    let mut p = ManualTaskQueuePort::new(9);
    let a = QueueEntry { callback: Some(1), context: 10, queue: 5 };
    let b = QueueEntry { callback: None, context: 20, queue: 5 };
    assert_eq!(p.submit_callback(a), S_OK);
    assert_eq!(p.submit_callback(b), S_OK);
    assert_eq!(p.pending_count(), 2);
    assert_eq!(p.dispatch(), Some(a));
    assert_eq!(p.dispatch(), Some(b));
    assert_eq!(p.dispatch(), None);
}

#[test]
fn manual_queue_enqueues_and_immediate_runs() {
    let work = PortRef { handle: 2, kind: PortKind::Manual };
    let completion = PortRef { handle: 3, kind: PortKind::Immediate };
    let mut q = TaskQueue::new(1, work, completion);
    let (_, plan) = q.submit_delayed_callback(XTaskQueuePort::Work, 0, Some(7), 8);
    assert_eq!(plan.action, PortAction::Enqueue(QueueEntry { callback: Some(7), context: 8, queue: 1 }));
    let (_, plan) = q.submit_delayed_callback(XTaskQueuePort::Completion, 0, Some(7), 8);
    assert_eq!(plan.action, PortAction::RunNow { cancelled: false });
    q.terminate(false, Some(4), 5);
    let (_, plan) = q.submit_delayed_callback(XTaskQueuePort::Completion, 0, Some(7), 8);
    assert_eq!(plan.action, PortAction::RunNow { cancelled: true });
}

#[test]
fn monitors_are_told_in_order() {
    let work = PortRef { handle: 2, kind: PortKind::Manual };
    let mut q = TaskQueue::new(1, work, work);
    assert_eq!(q.register_monitor(None, 0), None);
    let t1 = q.register_monitor(Some(50), 1);
    let t2 = q.register_monitor(Some(60), 2);
    assert_eq!(t1, Some(0));
    assert_eq!(t2, Some(1));
    let (_, plan) = q.submit_delayed_callback(XTaskQueuePort::Work, 0, None, 0);
    assert_eq!(plan.monitors.len(), 2);
    assert_eq!(plan.monitors[0].callback, 50);
    assert_eq!(plan.monitors[1].callback, 60);
    q.unregister_monitor(0);
    let (_, plan) = q.submit_delayed_callback(XTaskQueuePort::Work, 0, None, 0);
    assert_eq!(plan.monitors.len(), 1);
    assert_eq!(plan.monitors[0].token, 1);
    q.unregister_monitor(0);
    assert_eq!(q.monitors.len(), 1);
}

#[test]
fn waiters_register_signal_unregister() {
    let work = PortRef { handle: 2, kind: PortKind::Manual };
    let mut q = TaskQueue::new(1, work, work);
    let t = q.register_waiter(XTaskQueuePort::Work, 77, Some(5), 6);
    assert_eq!(t, 0);
    assert_eq!(
        q.waiter_signalled(t),
        Some(PortAction::Enqueue(QueueEntry { callback: Some(5), context: 6, queue: 1 }))
    );
    let removed = q.unregister_waiter(t);
    assert_eq!(removed.map(|w| w.wait_handle), Some(77));
    assert_eq!(q.waiter_signalled(t), None);
    assert_eq!(q.unregister_waiter(t), None);
    let t2 = q.register_waiter(XTaskQueuePort::Work, 78, None, 0);
    assert_eq!(t2, 1);
}

#[test]
fn composite_needs_both_ports() {
    let p = PortRef { handle: 2, kind: PortKind::Manual };
    assert!(matches!(x_task_queue_create_composite(1, None, Some(p)), Err(E_FAIL)));
    assert!(matches!(x_task_queue_create_composite(1, Some(p), None), Err(E_FAIL)));
}

#[test]
fn missing_queue_answers() {
    assert_eq!(missing_queue_answer(XTaskQueueCall::GetPort), E_FAIL);
    assert_eq!(missing_queue_answer(XTaskQueueCall::DuplicateHandle), E_FAIL);
    assert_eq!(missing_queue_answer(XTaskQueueCall::Terminate), S_OK);
    assert_eq!(current_process_task_queue(Some(3)), (true, Some(3)));
    assert_eq!(current_process_task_queue(None), (true, None));
}

#[test]
fn process_queue_and_time_sensitivity() {
    let (x, q) = xasync_singleton(10, 11, 12);
    assert_eq!(x.process_queue, Some(10));
    assert_eq!(q.get_port(XTaskQueuePort::Completion).kind, PortKind::ThreadPool { single_worker: false });
    let mut x = XAsync { process_queue: None };
    assert_eq!(x.x_task_queue_get_current_process_task_queue(), (true, None));
    assert_eq!(x.x_task_queue_set_current_process_task_queue(Some(3)), S_OK);
    assert_eq!(x.x_task_queue_get_current_process_task_queue(), (true, Some(3)));
    let mut t = ThreadTimeSensitivity::new();
    assert!(!t.x_thread_is_time_sensitive());
    t.x_thread_assert_not_time_sensitive();
    assert_eq!(t.x_thread_set_time_sensitive(true), S_OK);
    assert!(t.x_thread_is_time_sensitive());
    assert!(port_dispatches(PortKind::Manual));
    assert!(!port_dispatches(PortKind::Immediate));
    assert!(!port_dispatches(PortKind::ThreadPool { single_worker: true }));
}

#[test]
fn waits_fire_only_when_signalled() {
    assert!(wait_fired(0, true));
    assert!(!wait_fired(0x102, true));
    assert!(!wait_fired(0, false));
}

fn run_failing_on_queue(mode: XTaskQueueDispatchMode) {
    let queue = x_task_queue_create(1, mode, mode, 2, 3);
    assert!(!queue.is_closed());
    let failure = E_FAIL;
    let mut block = XAsyncBlock::zeroed();
    assert_eq!(run_begin(true, &mut block), S_OK);
    assert_eq!(schedule_on_begin(&block).0, S_OK);
    let mut ctx = XAsyncProviderContext::<()>::new();
    let (hr, _) = ctx.run_do_work(&mut block, XAsyncWorkOutcome::Ready(Err(failure)), 0);
    assert!(!work_callback_finish(&mut block, hr));
    assert_eq!(block.x_async_get_status(true), XAsyncStatus::Done(failure));
    assert_eq!(block.x_async_get_result(), XAsyncResultStep::Fail(failure));
}

#[test]
fn test_x_async6() {
    run_failing_on_queue(XTaskQueueDispatchMode::Immediate);
}

#[test]
fn test_x_async7() {
    run_failing_on_queue(XTaskQueueDispatchMode::SerializedThreadPool);
}

#[test]
fn test_x_async8() {
    let mut q = x_task_queue_create(
        1,
        XTaskQueueDispatchMode::SerializedThreadPool,
        XTaskQueueDispatchMode::SerializedThreadPool,
        2,
        3,
    );
    let token = q.register_waiter(XTaskQueuePort::Work, 40, Some(9), 0);
    assert!(wait_fired(0, true));
    assert_eq!(q.waiter_signalled(token), Some(PortAction::Spawn));
    assert!(q.unregister_waiter(token).is_some());
    assert_eq!(q.waiter_signalled(token), None);
    let plan = q.terminate(true, None, 0);
    assert!(plan.wait);
}
