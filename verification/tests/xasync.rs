use xgameruntime::results::{E_ABORT, E_FAIL, E_PENDING, S_OK};
use xgameruntime::xasync::{
    get_result, make_word, on_wake, run_begin, schedule_on_begin, word_hr, word_magic, work_callback_finish, work_callback_op, x_async_run_outcome,
    XAsyncBlock, XAsyncCallback, XAsyncOp, XAsyncProviderAnswer, XAsyncProviderCall, XAsyncProviderContext,
    XAsyncProviderData, XAsyncResultStep, XAsyncStatus, XAsyncSubmission, XAsyncWorkOutcome,
    XASYNC_INITIALIZE_MAGIC, XASYNC_INT_MAGIC,
};
use xgameruntime::results::E_POINTER;
use xgameruntime::threading::XTaskQueuePort;

fn run_to_completion(block: &mut XAsyncBlock, outcome: Result<(), i32>, size: usize) -> i32 {
    let hr = run_begin(true, block);
    if hr != S_OK {
        return hr;
    }
    assert_eq!(schedule_on_begin(block).0, S_OK);
    let mut ctx = XAsyncProviderContext::<()>::new();
    let (answer, _) = ctx.run_do_work(block, XAsyncWorkOutcome::Ready(outcome), size);
    assert_eq!(answer, S_OK);
    hr
}

#[test]
fn test_x_async3() {
    let mut block = XAsyncBlock::zeroed();
    let hr = run_to_completion(&mut block, Ok(()), 0);
    assert_eq!(hr, S_OK);
    assert_eq!(block.x_async_get_status(true), XAsyncStatus::Done(S_OK));
}

#[test]
fn test_x_async4() {
    let mut block = XAsyncBlock::zeroed();
    let hr = run_to_completion(&mut block, Ok(()), 0);
    assert_eq!(hr, S_OK);
    assert_eq!(block.x_async_get_status(true), XAsyncStatus::Done(S_OK));
    let hr = run_to_completion(&mut block, Ok(()), 0);
    assert_eq!(hr, E_FAIL);
    assert_eq!(block.x_async_get_status(true), XAsyncStatus::Done(S_OK));
}

#[test]
fn test_x_async5() {
    let mut block = XAsyncBlock::zeroed();
    let hr = run_to_completion(&mut block, Err(E_FAIL), 0);
    assert_eq!(hr, S_OK);
    assert_eq!(block.x_async_get_status(true), XAsyncStatus::Done(E_FAIL));
    assert_eq!(block.x_async_get_result(), XAsyncResultStep::Fail(E_FAIL));
}

#[test]
fn word_packs_magic_and_result() {
    let w = make_word(XASYNC_INT_MAGIC, E_PENDING);
    assert_eq!(w, 0x5853594e_8000000a);
    assert_eq!(word_magic(w), XASYNC_INT_MAGIC);
    assert_eq!(word_hr(w), E_PENDING);
    let w = make_word(XASYNC_INITIALIZE_MAGIC, S_OK);
    assert_eq!(word_magic(w), 0x5853394e);
    assert_eq!(word_hr(w), 0);
}

#[test]
fn op_values_round_trip() {
    assert_eq!(XAsyncOp::Begin.value(), 0);
    assert_eq!(XAsyncOp::Cleanup.value(), 4);
    assert_eq!(XAsyncOp::from_value(2), Some(XAsyncOp::GetResult));
    assert_eq!(XAsyncOp::from_value(5), None);
}

#[test]
fn begun_block_is_pending() {
    let mut block = XAsyncBlock::zeroed();
    assert_eq!(block.x_async_begin(true, 7).0, S_OK);
    assert_eq!(block.x_async_get_status(false), XAsyncStatus::Done(E_PENDING));
    assert_eq!(block.x_async_get_status(true), XAsyncStatus::MustWait);
}

#[test]
fn begin_without_provider_fails() {
    let mut block = XAsyncBlock::zeroed();
    assert_eq!(block.x_async_begin(false, 7).0, E_FAIL);
    assert_eq!(block.x_async_get_status(false), XAsyncStatus::Done(E_FAIL));
}

#[test]
fn block_in_use_refuses_begin() {
    let mut block = XAsyncBlock::zeroed();
    assert_eq!(block.x_async_begin(true, 7).0, S_OK);
    assert_eq!(block.x_async_begin(true, 7).0, E_FAIL);
}

#[test]
fn first_completion_wins() {
    let mut block = XAsyncBlock::zeroed();
    assert_eq!(block.x_async_begin(true, 7).0, S_OK);
    assert!(block.x_async_complete(S_OK, 8).is_some());
    assert!(block.x_async_complete(E_FAIL, 8).is_none());
    assert_eq!(block.x_async_get_status(false), XAsyncStatus::Done(S_OK));
}

#[test]
fn result_size_read_back_then_result_read_once() {
    let mut block = XAsyncBlock::zeroed();
    assert_eq!(block.x_async_begin(true, 7).0, S_OK);
    assert!(block.x_async_complete(S_OK, 24).is_some());
    assert_eq!(block.x_async_get_result_size(true), Ok(24));
    assert_eq!(block.x_async_get_result_size(false), Err(E_FAIL));
    assert_eq!(block.x_async_get_result(), XAsyncResultStep::ReadFromProvider);
    assert_eq!(block.x_async_get_result(), XAsyncResultStep::Fail(E_FAIL));
    assert_eq!(block.x_async_get_result_size(true), Err(E_FAIL));
}

#[test]
fn completion_with_no_payload_detaches_state() {
    let mut block = XAsyncBlock::zeroed();
    assert_eq!(block.x_async_begin(true, 7).0, S_OK);
    assert!(block.x_async_complete(S_OK, 0).is_some());
    assert_eq!(block.x_async_get_result(), XAsyncResultStep::Fail(E_FAIL));
}

#[test]
fn canceled_provider_completes_with_abort() {
    let mut block = XAsyncBlock::zeroed();
    assert_eq!(run_begin(true, &mut block), S_OK);
    let mut ctx = XAsyncProviderContext::<()>::new();
    assert_eq!(ctx.cancel(), S_OK);
    let (hr, posted) = ctx.run_do_work(&mut block, XAsyncWorkOutcome::Pending, 0);
    assert_eq!(hr, S_OK);
    assert!(posted);
    assert_eq!(block.x_async_get_status(false), XAsyncStatus::Done(E_ABORT));
}

#[test]
fn pending_work_answers_pending() {
    let mut block = XAsyncBlock::zeroed();
    assert_eq!(run_begin(true, &mut block), S_OK);
    let mut ctx = XAsyncProviderContext::<()>::new();
    let (hr, posted) = ctx.run_do_work(&mut block, XAsyncWorkOutcome::Pending, 0);
    assert_eq!(hr, E_PENDING);
    assert!(!posted);
    assert!(!work_callback_finish(&mut block, E_PENDING));
    assert!(work_callback_finish(&mut block, E_FAIL));
    assert_eq!(block.x_async_get_status(false), XAsyncStatus::Done(E_FAIL));
}

#[test]
fn payload_copied_only_on_success() {
    let mut ctx = XAsyncProviderContext::<u64>::new();
    assert_eq!(ctx.result, E_ABORT);
    assert_eq!(ctx.result_payload(), None);
    ctx.record(Ok(323));
    assert_eq!(ctx.result_payload(), Some(323));
    let mut ctx = XAsyncProviderContext::<u64>::new();
    ctx.record(Err(E_FAIL));
    assert_eq!(ctx.result_payload(), None);
    assert_eq!(ctx.result, E_FAIL);
}

#[test]
fn produced_payload_is_read_back() {
    let mut block = XAsyncBlock::zeroed();
    assert_eq!(run_begin(true, &mut block), S_OK);
    let mut ctx = XAsyncProviderContext::<u64>::new();
    let (hr, posted) = ctx.run_do_work(&mut block, XAsyncWorkOutcome::Ready(Ok(323)), 8);
    assert_eq!((hr, posted), (S_OK, true));
    let mut out: u64 = 7;
    assert_eq!(get_result(&mut block, &ctx, &mut out), Ok(()));
    assert_eq!(out, 323);
    let mut again: u64 = 7;
    assert_eq!(get_result(&mut block, &ctx, &mut again), Err(E_FAIL));
    assert_eq!(again, 7);
    let mut failed_block = XAsyncBlock::zeroed();
    assert_eq!(run_begin(true, &mut failed_block), S_OK);
    let mut failed = XAsyncProviderContext::<u64>::new();
    let (hr, _) = failed.run_do_work(&mut failed_block, XAsyncWorkOutcome::Ready(Err(E_ABORT)), 8);
    assert_eq!(hr, S_OK);
    let mut out: u64 = 7;
    assert_eq!(get_result(&mut failed_block, &failed, &mut out), Err(E_ABORT));
    assert_eq!(out, 7);
}

#[test]
fn completion_goes_to_completion_port() {
    let mut block = XAsyncBlock::zeroed();
    assert_eq!(block.x_async_begin(true, 1).0, S_OK);
    let post = XAsyncSubmission { port: XTaskQueuePort::Completion, delay_ms: 0, callback: XAsyncCallback::Completion };
    assert_eq!(block.x_async_complete(E_PENDING, 8), None);
    assert_eq!(block.x_async_complete(S_OK, 8), Some(post));
    assert_eq!(block.x_async_complete(S_OK, 8), None);
}

#[test]
fn missing_block_is_accepted() {
    let mut block = XAsyncBlock::zeroed();
    assert_eq!(run_begin(false, &mut block), S_OK);
    assert_eq!(block.magic_result, 0);
}

#[test]
fn run_outcome_of_work() {
    assert_eq!(x_async_run_outcome(None), Ok(()));
    assert_eq!(x_async_run_outcome(Some(S_OK)), Ok(()));
    assert_eq!(x_async_run_outcome(Some(1)), Ok(()));
    assert_eq!(x_async_run_outcome(Some(E_FAIL)), Err(E_FAIL));
    assert_eq!(work_callback_op(true), XAsyncOp::Cancel);
    assert_eq!(work_callback_op(false), XAsyncOp::DoWork);
}

#[test]
fn schedule_needs_state() {
    let block = XAsyncBlock::zeroed();
    assert_eq!(block.x_async_schedule(0), (E_FAIL, None));
    let mut block = XAsyncBlock::zeroed();
    assert_eq!(block.x_async_begin(true, 7).0, S_OK);
    let work = XAsyncSubmission { port: XTaskQueuePort::Work, delay_ms: 250, callback: XAsyncCallback::Work };
    assert_eq!(block.x_async_schedule(250), (S_OK, Some(work)));
    let now = XAsyncSubmission { delay_ms: 0, ..work };
    assert_eq!(on_wake(&block), (S_OK, Some(now)));
    assert!(block.x_async_complete(S_OK, 0).is_some());
    assert_eq!(block.x_async_schedule(250), (E_FAIL, None));
    assert_eq!(on_wake(&block), (E_FAIL, None));
}

#[test]
fn work_payload_survives_work_callback() {
    let mut block = XAsyncBlock::zeroed();
    assert_eq!(run_begin(true, &mut block), S_OK);
    let mut ctx = XAsyncProviderContext::<()>::new();
    let (hr, posted) = ctx.run_do_work(&mut block, XAsyncWorkOutcome::Ready(Ok(())), 16);
    assert_eq!(hr, S_OK);
    assert!(posted);
    assert!(!work_callback_finish(&mut block, hr));
    assert_eq!(block.x_async_get_result_size(true), Ok(16));
    assert_eq!(block.x_async_get_result(), XAsyncResultStep::ReadFromProvider);
}

#[test]
fn pending_read_keeps_operation() {
    let mut block = XAsyncBlock::zeroed();
    assert_eq!(block.x_async_begin(true, 7).0, S_OK);
    assert_eq!(block.x_async_get_result(), XAsyncResultStep::Fail(E_FAIL));
    assert!(block.state_attached);
    assert_eq!(block.x_async_get_status(false), XAsyncStatus::Done(E_PENDING));
    assert!(block.x_async_complete(E_ABORT, 8).is_some());
    assert_eq!(block.x_async_get_status(true), XAsyncStatus::Done(E_ABORT));
    assert_eq!(block.x_async_get_result(), XAsyncResultStep::Fail(E_ABORT));
    assert!(!block.state_attached);
}

#[test]
fn begin_hands_provider_its_data() {
    let mut block = XAsyncBlock::zeroed();
    let (hr, call) = block.x_async_begin(true, 0x1234);
    assert_eq!(hr, S_OK);
    let data = XAsyncProviderData { context: 0x1234, buffer: None, buffer_size: 0, local_block: true };
    assert_eq!(call, Some(XAsyncProviderCall { op: XAsyncOp::Begin, data }));
    assert_eq!(block.x_async_begin(true, 0x1234), (E_FAIL, None));
    let mut fresh = XAsyncBlock::zeroed();
    assert_eq!(fresh.x_async_begin(false, 0x1234), (E_FAIL, None));
    assert_eq!(fresh.create_state(9), Some(XAsyncProviderData { context: 9, ..data }));
    assert_eq!(fresh.x_async_get_status(false), XAsyncStatus::Done(E_PENDING));
    assert_eq!(fresh.create_state(9), None);
}

fn answer(hr: i32) -> XAsyncProviderAnswer<()> {
    XAsyncProviderAnswer { hr, submission: None, posted: false, payload: None, released: false }
}

#[test]
fn provider_helpers_need_data_and_context() {
    let mut block = XAsyncBlock::zeroed();
    assert_eq!(block.x_async_begin(true, 1).0, S_OK);
    let mut ctx = XAsyncProviderContext::<()>::new();
    for op in [XAsyncOp::Begin, XAsyncOp::DoWork, XAsyncOp::GetResult, XAsyncOp::Cancel, XAsyncOp::Cleanup] {
        assert_eq!(ctx.run_sync_helper(op, false, true, &mut block, Ok(()), 8), answer(E_POINTER));
        assert_eq!(ctx.run_async_helper(op, true, false, &mut block, XAsyncWorkOutcome::Ready(Ok(())), 8), answer(E_POINTER));
    }
    assert!(!ctx.canceled);
    assert_eq!(block.x_async_get_status(false), XAsyncStatus::Done(E_PENDING));
}

#[test]
fn sync_helper_runs_each_op() {
    let mut block = XAsyncBlock::zeroed();
    assert_eq!(block.x_async_begin(true, 1).0, S_OK);
    let mut ctx = XAsyncProviderContext::<()>::new();
    let work = XAsyncSubmission { port: XTaskQueuePort::Work, delay_ms: 0, callback: XAsyncCallback::Work };
    let a = ctx.run_sync_helper(XAsyncOp::Begin, true, true, &mut block, Ok(()), 8);
    assert_eq!(a, XAsyncProviderAnswer { submission: Some(work), ..answer(S_OK) });
    let a = ctx.run_sync_helper(XAsyncOp::GetResult, true, true, &mut block, Ok(()), 8);
    assert_eq!(a, answer(S_OK));
    let a = ctx.run_sync_helper(XAsyncOp::DoWork, true, true, &mut block, Ok(()), 8);
    assert_eq!(a, XAsyncProviderAnswer { posted: true, ..answer(S_OK) });
    assert_eq!(block.x_async_get_status(false), XAsyncStatus::Done(S_OK));
    let a = ctx.run_sync_helper(XAsyncOp::GetResult, true, true, &mut block, Ok(()), 8);
    assert_eq!(a, XAsyncProviderAnswer { payload: Some(()), ..answer(S_OK) });
    let a = ctx.run_sync_helper(XAsyncOp::Cancel, true, true, &mut block, Ok(()), 8);
    assert_eq!(a, answer(S_OK));
    assert!(ctx.canceled);
    let a = ctx.run_sync_helper(XAsyncOp::Cleanup, true, true, &mut block, Ok(()), 8);
    assert_eq!(a, XAsyncProviderAnswer { released: true, ..answer(S_OK) });
}

#[test]
fn async_helper_polls_and_reschedules() {
    let mut block = XAsyncBlock::zeroed();
    assert_eq!(block.x_async_begin(true, 1).0, S_OK);
    let mut ctx = XAsyncProviderContext::<()>::new();
    let work = XAsyncSubmission { port: XTaskQueuePort::Work, delay_ms: 0, callback: XAsyncCallback::Work };
    let a = ctx.run_async_helper(XAsyncOp::Begin, true, true, &mut block, XAsyncWorkOutcome::Pending, 8);
    assert_eq!(a, XAsyncProviderAnswer { submission: Some(work), ..answer(S_OK) });
    let a = ctx.run_async_helper(XAsyncOp::DoWork, true, true, &mut block, XAsyncWorkOutcome::Pending, 8);
    assert_eq!(a, answer(E_PENDING));
    assert_eq!(on_wake(&block), (S_OK, Some(work)));
    let a = ctx.run_async_helper(XAsyncOp::DoWork, true, true, &mut block, XAsyncWorkOutcome::Ready(Err(E_FAIL)), 8);
    assert_eq!(a, XAsyncProviderAnswer { posted: true, ..answer(S_OK) });
    assert_eq!(block.x_async_get_status(false), XAsyncStatus::Done(E_FAIL));
    let a = ctx.run_async_helper(XAsyncOp::GetResult, true, true, &mut block, XAsyncWorkOutcome::Pending, 8);
    assert_eq!(a, answer(S_OK));
    let mut detached = XAsyncBlock::zeroed();
    let a = ctx.run_async_helper(XAsyncOp::Begin, true, true, &mut detached, XAsyncWorkOutcome::Pending, 8);
    assert_eq!(a, answer(E_FAIL));
}
