//! The asynchronous block protocol (`XAsyncBegin`, `XAsyncComplete`,
//! `XAsyncGetStatus`, ...), modelled on plain values.
//!
//! An async block carries one 64-bit word: a magic number in its upper half
//! and the operation's HRESULT in its lower half. While an operation runs the
//! block also holds a state object; `state_attached` records whether it does.
//! The functions here decide every transition and what the caller must do
//! next (call the provider, post a callback, wait); the caller performs it.
use vstd::prelude::*;
use crate::threading::XTaskQueuePort;
use crate::results::{S_OK, E_FAIL, E_PENDING, E_ABORT, E_POINTER, failed, spec_failed, hr_bits, hr_of_bits, hresult_bits, hresult_from_bits, lemma_hr_bits_roundtrip};

verus! {

/// Marks a block whose word holds a result ("XSYN").
pub const XASYNC_INT_MAGIC: u32 = 0x5853594e;

/// Marks a block that is being initialized ("XSIN").
pub const XASYNC_INITIALIZE_MAGIC: u32 = 0x5853394e;

/// The word that holds `magic` and `hr`.
pub open spec fn spec_word(magic: u32, hr: i32) -> u64 {
    (magic as int * 0x1_0000_0000 + hr_bits(hr) as int) as u64
}

/// The magic half of a word.
pub open spec fn spec_word_magic(word: u64) -> u32 {
    (word / 0x1_0000_0000) as u32
}

/// The HRESULT half of a word.
pub open spec fn spec_word_hr(word: u64) -> i32 {
    hr_of_bits((word % 0x1_0000_0000) as u32)
}

/// Builds the word `(magic << 32) | bits(hr)`.
pub fn make_word(magic: u32, hr: i32) -> (w: u64)
    ensures
        w == spec_word(magic, hr),
{
    let bits = hresult_bits(hr);
    let m = magic as u64;
    let b = bits as u64;
    let w = (m << 32u64) | b;
    assert(w == m * 0x1_0000_0000 + b) by (bit_vector)
        requires
            w == (m << 32u64) | b,
            m < 0x1_0000_0000,
            b < 0x1_0000_0000,
    ;
    w
}

/// Reads the magic half of a word, `word >> 32`.
pub fn word_magic(word: u64) -> (m: u32)
    ensures
        m == spec_word_magic(word),
{
    let hi = word >> 32u64;
    assert(hi == word / 0x1_0000_0000) by (bit_vector)
        requires
            hi == word >> 32u64,
    ;
    hi as u32
}

/// Reads the HRESULT half of a word, `word & 0xFFFFFFFF`.
pub fn word_hr(word: u64) -> (hr: i32)
    ensures
        hr == spec_word_hr(word),
{
    let lo = word & 0xFFFF_FFFFu64;
    assert(lo == word % 0x1_0000_0000) by (bit_vector)
        requires
            lo == word & 0xFFFF_FFFFu64,
    ;
    hresult_from_bits(lo as u32)
}

/// Reading the halves of a built word gives back what it was built from.
pub proof fn lemma_word_roundtrip(magic: u32, hr: i32)
    ensures
        spec_word_magic(spec_word(magic, hr)) == magic,
        spec_word_hr(spec_word(magic, hr)) == hr,
{
    let b = hr_bits(hr) as int;
    let w = magic as int * 0x1_0000_0000 + b;
    assert(0 <= w < 0x1_0000_0000 * 0x1_0000_0000) by (nonlinear_arith)
        requires
            0 <= magic < 0x1_0000_0000,
            0 <= b < 0x1_0000_0000,
            w == magic as int * 0x1_0000_0000 + b,
    ;
    assert(w / 0x1_0000_0000 == magic as int && w % 0x1_0000_0000 == b) by (nonlinear_arith)
        requires
            0 <= magic < 0x1_0000_0000,
            0 <= b < 0x1_0000_0000,
            w == magic as int * 0x1_0000_0000 + b,
    ;
    lemma_hr_bits_roundtrip(hr, 0);
}

} // verus!

verus! {

/// The operation a provider is asked to perform.
#[derive(Clone, Copy, Debug, PartialEq, Eq, Structural)]
pub enum XAsyncOp {
    Begin,
    DoWork,
    GetResult,
    Cancel,
    Cleanup,
}

/// The numeric values of `XAsyncOp` that the ABI fixes: `Begin` is 0,
/// `DoWork` is 1, `GetResult` is 2, `Cancel` is 3, `Cleanup` is 4.
/// Each value belongs to one variant only.
pub proof fn law_x_async_op_abi_values(m: XAsyncOp)
    ensures
        (m.spec_value() == 0u32) <==> (m == XAsyncOp::Begin),
        (m.spec_value() == 1u32) <==> (m == XAsyncOp::DoWork),
        (m.spec_value() == 2u32) <==> (m == XAsyncOp::GetResult),
        (m.spec_value() == 3u32) <==> (m == XAsyncOp::Cancel),
        (m.spec_value() == 4u32) <==> (m == XAsyncOp::Cleanup),
{
}

impl XAsyncOp {
    /// The numeric value of the operation.
    pub open spec fn spec_value(self) -> u32 {
        match self {
            XAsyncOp::Begin => 0,
            XAsyncOp::DoWork => 1,
            XAsyncOp::GetResult => 2,
            XAsyncOp::Cancel => 3,
            XAsyncOp::Cleanup => 4,
        }
    }

    /// Returns the numeric value of the operation.
    pub fn value(&self) -> (v: u32)
        ensures
            v == self.spec_value(),
    {
        match self {
            XAsyncOp::Begin => 0,
            XAsyncOp::DoWork => 1,
            XAsyncOp::GetResult => 2,
            XAsyncOp::Cancel => 3,
            XAsyncOp::Cleanup => 4,
        }
    }

    /// Returns the operation with the numeric value `v`, if there is one.
    pub fn from_value(v: u32) -> (r: Option<XAsyncOp>)
        ensures
            r matches Some(op) ==> op.spec_value() == v,
            r is None <==> v > 4,
    {
        match v {
            0 => Some(XAsyncOp::Begin),
            1 => Some(XAsyncOp::DoWork),
            2 => Some(XAsyncOp::GetResult),
            3 => Some(XAsyncOp::Cancel),
            4 => Some(XAsyncOp::Cleanup),
            _ => None,
        }
    }
}

/// What `XAsyncGetStatus` answers.
#[derive(Clone, Copy, Debug, PartialEq, Eq, Structural)]
pub enum XAsyncStatus {
    /// The call returns this HRESULT.
    Done(i32),
    /// The call blocks until the operation completes, then asks again.
    MustWait,
}

/// What `XAsyncGetResult` does.
#[derive(Clone, Copy, Debug, PartialEq, Eq, Structural)]
pub enum XAsyncResultStep {
    /// The call returns this HRESULT.
    Fail(i32),
    /// The provider is asked for the payload (`XAsyncOp::GetResult`) and its
    /// HRESULT is returned.
    ReadFromProvider,
}

/// A callback that the block's state submits to its queue.
#[derive(Clone, Copy, Debug, PartialEq, Eq, Structural)]
pub enum XAsyncCallback {
    /// Calls the provider with `XAsyncOp::DoWork` (`XAsyncOp::Cancel` when the
    /// queue was terminated) and completes the block with any answer other
    /// than `E_PENDING`.
    Work,
    /// Calls the caller's completion routine and wakes the waiters.
    Completion,
}

/// A submission to the block's task queue: the port, the delay and the
/// callback.
#[derive(Clone, Copy, Debug, PartialEq, Eq, Structural)]
pub struct XAsyncSubmission {
    pub port: XTaskQueuePort,
    pub delay_ms: u32,
    pub callback: XAsyncCallback,
}

/// What the provider is handed with each call: the caller's context, the
/// output buffer (absent until the result is read) and its size, and which
/// block the provider completes. `local_block` is true when that block is
/// the state's own copy of the caller's block, distinct from the caller's
/// block.
#[derive(Clone, Copy, Debug, PartialEq, Eq, Structural)]
pub struct XAsyncProviderData {
    pub context: u64,
    pub buffer: Option<u64>,
    pub buffer_size: usize,
    pub local_block: bool,
}

/// A call that the caller makes of the provider.
#[derive(Clone, Copy, Debug, PartialEq, Eq, Structural)]
pub struct XAsyncProviderCall {
    pub op: XAsyncOp,
    pub data: XAsyncProviderData,
}

/// The provider data of a new state: the caller's context, no buffer, a
/// size of zero, and the state's own copy of the block.
pub open spec fn spec_new_provider_data(context: u64) -> XAsyncProviderData {
    XAsyncProviderData { context, buffer: None, buffer_size: 0, local_block: true }
}

/// What `XAsyncSchedule` answers for `b`, with the submission it makes: the
/// work callback to the work port after `delay_ms`, while the block holds
/// its state.
pub open spec fn spec_schedule(b: XAsyncBlock, delay_ms: u32) -> (i32, Option<XAsyncSubmission>) {
    if b.state_attached {
        (
            S_OK,
            Some(XAsyncSubmission { port: XTaskQueuePort::Work, delay_ms, callback: XAsyncCallback::Work }),
        )
    } else {
        (E_FAIL, None)
    }
}

/// The submission that a completion makes when it posts: the completion
/// callback to the completion port, with no delay.
pub open spec fn spec_completion_post(posted: bool) -> Option<XAsyncSubmission> {
    if posted {
        Some(XAsyncSubmission { port: XTaskQueuePort::Completion, delay_ms: 0, callback: XAsyncCallback::Completion })
    } else {
        None
    }
}

/// An async block: its word and whether it holds a state object, with the
/// result size that the state records.
#[derive(Clone, Copy, Debug)]
pub struct XAsyncBlock {
    /// Magic in the upper 32 bits, HRESULT in the lower 32 bits.
    pub magic_result: u64,
    /// The block holds a state object.
    pub state_attached: bool,
    /// The buffer size announced by `XAsyncComplete`.
    pub result_size: usize,
}

/// The word marks the block as carrying a result.
pub open spec fn spec_in_use(word: u64) -> bool {
    spec_word_magic(word) == XASYNC_INT_MAGIC
}

/// The block's word still reports the operation as pending.
pub open spec fn spec_pending(word: u64) -> bool {
    spec_word_hr(word) == E_PENDING
}

/// The block's result: `Some(hr)` once the operation completed.
pub open spec fn spec_block_result(word: u64) -> Option<i32> {
    if spec_in_use(word) && !spec_pending(word) {
        Some(spec_word_hr(word))
    } else {
        None
    }
}

/// What `XAsyncGetStatus` answers for `b`.
pub open spec fn spec_status(b: XAsyncBlock, wait: bool) -> XAsyncStatus {
    if !spec_in_use(b.magic_result) {
        XAsyncStatus::Done(E_FAIL)
    } else if b.state_attached {
        if wait && spec_pending(b.magic_result) {
            XAsyncStatus::MustWait
        } else {
            XAsyncStatus::Done(spec_word_hr(b.magic_result))
        }
    } else if spec_pending(b.magic_result) {
        XAsyncStatus::Done(E_FAIL)
    } else {
        XAsyncStatus::Done(spec_word_hr(b.magic_result))
    }
}

/// The block after `XAsyncBegin`, and its HRESULT.
pub open spec fn spec_begin(b: XAsyncBlock, has_provider: bool) -> (XAsyncBlock, i32) {
    if has_provider && !spec_in_use(b.magic_result) {
        (
            XAsyncBlock {
                magic_result: spec_word(XASYNC_INT_MAGIC, E_PENDING),
                state_attached: true,
                result_size: 0,
            },
            S_OK,
        )
    } else {
        (b, E_FAIL)
    }
}

/// The block after `XAsyncComplete`, and whether the completion callback is
/// posted. Only a block that holds its state and is still pending is
/// affected: a size of zero detaches the state (no payload will be read),
/// and a result other than `E_PENDING` is stored with the size, which posts
/// the completion callback. A block that already completed keeps its result,
/// size and state, so its payload stays readable.
pub open spec fn spec_complete(b: XAsyncBlock, result: i32, size: usize) -> (XAsyncBlock, bool) {
    if !b.state_attached || !spec_pending(b.magic_result) {
        (b, false)
    } else {
        let attached = size != 0;
        if result != E_PENDING {
            (
                XAsyncBlock {
                    magic_result: spec_word(XASYNC_INT_MAGIC, result),
                    state_attached: attached,
                    result_size: size,
                },
                true,
            )
        } else {
            (XAsyncBlock { state_attached: attached, ..b }, false)
        }
    }
}

/// What `XAsyncGetResult` does for `b`.
pub open spec fn spec_result_step(b: XAsyncBlock) -> XAsyncResultStep {
    if !b.state_attached || spec_pending(b.magic_result) {
        XAsyncResultStep::Fail(E_FAIL)
    } else if spec_word_hr(b.magic_result) != S_OK {
        XAsyncResultStep::Fail(spec_word_hr(b.magic_result))
    } else {
        XAsyncResultStep::ReadFromProvider
    }
}

/// The block after `XAsyncGetResult`: a pending operation keeps its state,
/// so that it can still complete; otherwise the state is detached.
pub open spec fn spec_get_result(b: XAsyncBlock) -> XAsyncBlock {
    if b.state_attached && spec_pending(b.magic_result) {
        b
    } else {
        XAsyncBlock { state_attached: false, ..b }
    }
}

/// What `XAsyncGetResultSize` answers for `b`.
pub open spec fn spec_result_size(b: XAsyncBlock, out_present: bool) -> Result<usize, i32> {
    if b.state_attached && out_present {
        Ok(b.result_size)
    } else {
        Err(E_FAIL)
    }
}

impl XAsyncBlock {
    /// A block holds a state object only while its word is in use.
    pub open spec fn wf(self) -> bool {
        self.state_attached ==> spec_in_use(self.magic_result)
    }

    /// A block as a caller allocates it: all zero.
    pub fn zeroed() -> (b: XAsyncBlock)
        ensures
            b.wf(),
            b.magic_result == 0,
            !b.state_attached,
            b.result_size == 0,
    {
        XAsyncBlock { magic_result: 0, state_attached: false, result_size: 0 }
    }

    /// A block whose word was written by the caller.
    pub fn from_word(magic_result: u64) -> (b: XAsyncBlock)
        ensures
            b.wf(),
            b.magic_result == magic_result,
            !b.state_attached,
            b.result_size == 0,
    {
        XAsyncBlock { magic_result, state_attached: false, result_size: 0 }
    }

    /// Attaches a new state to a block whose word is not in use and marks
    /// it pending; answers whether it did.
    fn attach_state(&mut self) -> (attached: bool)
        requires
            old(self).wf(),
            spec_word_magic(old(self).magic_result) != XASYNC_INITIALIZE_MAGIC,
        ensures
            attached == !spec_in_use(old(self).magic_result),
            (*final(self), if attached { S_OK } else { E_FAIL }) == spec_begin(*old(self), true),
    {
        let magic = word_magic(self.magic_result);
        if magic == XASYNC_INT_MAGIC {
            return false;
        }
        let w = make_word(XASYNC_INT_MAGIC, E_PENDING);
        proof {
            lemma_word_roundtrip(XASYNC_INT_MAGIC, E_PENDING);
        }
        self.magic_result = w;
        self.state_attached = true;
        self.result_size = 0;
        true
    }

    /// Creates the state of an operation: a block whose word is already in
    /// use gets none (`None`, the block unchanged). Otherwise the block is
    /// begun and pending, and the state's provider data is returned: the
    /// caller's `context`, no buffer, a size of zero and the state's own
    /// copy of the block. The provider is not called.
    pub fn create_state(&mut self, context: u64) -> (d: Option<XAsyncProviderData>)
        requires
            old(self).wf(),
            spec_word_magic(old(self).magic_result) != XASYNC_INITIALIZE_MAGIC,
        ensures
            final(self).wf(),
            d == (if spec_in_use(old(self).magic_result) {
                None::<XAsyncProviderData>
            } else {
                Some(spec_new_provider_data(context))
            }),
            (*final(self), if d is Some { S_OK } else { E_FAIL }) == spec_begin(*old(self), true),
    {
        if self.attach_state() {
            Some(XAsyncProviderData { context, buffer: None, buffer_size: 0, local_block: true })
        } else {
            None
        }
    }

    /// `XAsyncBegin`: creates the block's state (see `create_state`), which
    /// leaves the block pending, and returns `S_OK` with the call that the
    /// caller then makes of the provider, at once: `XAsyncOp::Begin` with the
    /// new state's provider data. The provider's HRESULT is not returned. A
    /// block whose word is already in use, or a call without a provider,
    /// fails with `E_FAIL` and no call.
    pub fn x_async_begin(&mut self, has_provider: bool, context: u64) -> (r: (i32, Option<XAsyncProviderCall>))
        requires
            old(self).wf(),
            has_provider ==> spec_word_magic(old(self).magic_result) != XASYNC_INITIALIZE_MAGIC,
        ensures
            final(self).wf(),
            r.0 == S_OK || r.0 == E_FAIL,
            r.0 == S_OK <==> has_provider && !spec_in_use(old(self).magic_result),
            r.0 == S_OK ==> final(self).magic_result == spec_word(XASYNC_INT_MAGIC, E_PENDING)
                && final(self).state_attached && final(self).result_size == 0,
            r.0 == E_FAIL ==> *final(self) == *old(self),
            (*final(self), r.0) == spec_begin(*old(self), has_provider),
            r.1 == (if r.0 == S_OK {
                Some(XAsyncProviderCall { op: XAsyncOp::Begin, data: spec_new_provider_data(context) })
            } else {
                None::<XAsyncProviderCall>
            }),
    {
        if !has_provider {
            return (E_FAIL, None);
        }
        match self.create_state(context) {
            Some(data) => (S_OK, Some(XAsyncProviderCall { op: XAsyncOp::Begin, data })),
            None => (E_FAIL, None),
        }
    }

    /// `XAsyncComplete`: the first completion with a result other than
    /// `E_PENDING` stores its result and size, and the completion callback
    /// is submitted to the completion port with no delay (the returned
    /// submission). While the operation is pending, a completion with a size
    /// of zero detaches the state. A completion of an operation that already
    /// completed changes nothing and submits nothing.
    pub fn x_async_complete(&mut self, result: i32, required_buffer_size: usize) -> (post: Option<XAsyncSubmission>)
        requires
            old(self).wf(),
        ensures
            final(self).wf(),
            post == spec_completion_post(spec_complete(*old(self), result, required_buffer_size).1),
            (!old(self).state_attached || !spec_pending(old(self).magic_result)) ==> *final(self) == *old(self) && post is None,
            (old(self).state_attached && spec_pending(old(self).magic_result)) ==> {
                &&& final(self).state_attached == (required_buffer_size != 0)
                &&& (post is Some) == (result != E_PENDING)
                &&& post is Some ==> final(self).magic_result == spec_word(XASYNC_INT_MAGIC, result)
                    && final(self).result_size == required_buffer_size
                &&& post is None ==> final(self).magic_result == old(self).magic_result
                    && final(self).result_size == old(self).result_size
            },
            (*final(self), post is Some) == spec_complete(*old(self), result, required_buffer_size),
    {
        if !self.state_attached {
            return None;
        }
        let current = word_hr(self.magic_result);
        if current != E_PENDING {
            return None;
        }
        if required_buffer_size == 0 {
            self.state_attached = false;
        }
        if result == E_PENDING {
            return None;
        }
        let w = make_word(XASYNC_INT_MAGIC, result);
        proof {
            lemma_word_roundtrip(XASYNC_INT_MAGIC, result);
        }
        self.magic_result = w;
        self.result_size = required_buffer_size;
        Some(XAsyncSubmission { port: XTaskQueuePort::Completion, delay_ms: 0, callback: XAsyncCallback::Completion })
    }

    /// `XAsyncGetStatus`.
    pub fn x_async_get_status(&self, wait: bool) -> (s: XAsyncStatus)
        requires
            self.wf(),
        ensures
            s == spec_status(*self, wait),
    {
        if word_magic(self.magic_result) != XASYNC_INT_MAGIC {
            return XAsyncStatus::Done(E_FAIL);
        }
        let hr = word_hr(self.magic_result);
        if self.state_attached {
            if wait && hr == E_PENDING {
                XAsyncStatus::MustWait
            } else {
                XAsyncStatus::Done(hr)
            }
        } else if hr == E_PENDING {
            XAsyncStatus::Done(E_FAIL)
        } else {
            XAsyncStatus::Done(hr)
        }
    }

    /// `XAsyncGetResultSize`: the recorded size while the block holds its
    /// state and the out pointer is present, `E_FAIL` otherwise.
    pub fn x_async_get_result_size(&self, out_present: bool) -> (r: Result<usize, i32>)
        requires
            self.wf(),
        ensures
            r == spec_result_size(*self, out_present),
    {
        if self.state_attached && out_present {
            Ok(self.result_size)
        } else {
            Err(E_FAIL)
        }
    }

    /// `XAsyncGetResult`: reading a pending operation answers `E_FAIL` and
    /// leaves the block as it is, so that the operation still completes.
    /// Once the operation completed, the read detaches the state and answers
    /// with the stored failure, or asks the provider for the payload when the
    /// operation succeeded.
    pub fn x_async_get_result(&mut self) -> (step: XAsyncResultStep)
        requires
            old(self).wf(),
        ensures
            final(self).wf(),
            final(self).magic_result == old(self).magic_result,
            final(self).result_size == old(self).result_size,
            final(self).state_attached == (old(self).state_attached && spec_pending(old(self).magic_result)),
            *final(self) == spec_get_result(*old(self)),
            step == spec_result_step(*old(self)),
    {
        if !self.state_attached {
            return XAsyncResultStep::Fail(E_FAIL);
        }
        let hr = word_hr(self.magic_result);
        if hr == E_PENDING {
            return XAsyncResultStep::Fail(E_FAIL);
        }
        self.state_attached = false;
        if hr != S_OK {
            XAsyncResultStep::Fail(hr)
        } else {
            XAsyncResultStep::ReadFromProvider
        }
    }

    /// `XAsyncCancel`: while the block holds its state the provider is asked
    /// to cancel (`Ok`, its HRESULT is returned), otherwise `E_FAIL`.
    pub fn x_async_cancel(&self) -> (r: Result<(), i32>)
        requires
            self.wf(),
        ensures
            r == (if self.state_attached { Ok::<(), i32>(()) } else { Err::<(), i32>(E_FAIL) }),
    {
        if self.state_attached {
            Ok(())
        } else {
            Err(E_FAIL)
        }
    }

    /// `XAsyncSchedule`: while the block holds its state the work callback
    /// is submitted to the work port of the block's queue after the delay,
    /// and `S_OK` is answered with that submission; otherwise `E_FAIL` and
    /// nothing is submitted.
    pub fn x_async_schedule(&self, delay_in_ms: u32) -> (r: (i32, Option<XAsyncSubmission>))
        requires
            self.wf(),
        ensures
            r == spec_schedule(*self, delay_in_ms),
            self.state_attached ==> r.0 == S_OK && r.1 == Some(
                XAsyncSubmission { port: XTaskQueuePort::Work, delay_ms: delay_in_ms, callback: XAsyncCallback::Work },
            ),
            !self.state_attached ==> r.0 == E_FAIL && r.1 is None,
    {
        if self.state_attached {
            (S_OK, Some(XAsyncSubmission { port: XTaskQueuePort::Work, delay_ms: delay_in_ms, callback: XAsyncCallback::Work }))
        } else {
            (E_FAIL, None)
        }
    }
}

} // verus!

verus! {

/// What one poll of an operation's body gave.
#[derive(Debug)]
pub enum XAsyncWorkOutcome<T> {
    /// The body is not finished; it asks to be scheduled again when woken.
    Pending,
    /// The body finished with a payload (`Ok`) or a failure HRESULT.
    Ready(Result<T, i32>),
}

/// The bookkeeping of the providers that `run`, `run_sync` and `XAsyncRun`
/// install: the stored result, whether a cancel was requested and the
/// payload that the body produced, if any.
#[derive(Clone, Copy, Debug)]
pub struct XAsyncProviderContext<T> {
    pub result: i32,
    pub canceled: bool,
    pub payload: Option<T>,
}

/// What one call of the library's providers did: its HRESULT, the
/// submission it made, whether the completion callback is posted, the
/// payload copied into the caller's buffer (if one was), and whether the
/// context was released (its owner then drops it).
#[derive(Clone, Copy, Debug, PartialEq, Eq)]
pub struct XAsyncProviderAnswer<T> {
    pub hr: i32,
    pub submission: Option<XAsyncSubmission>,
    pub posted: bool,
    pub payload: Option<T>,
    pub released: bool,
}

/// An answer of `hr` with nothing else done.
pub open spec fn spec_answer<T>(hr: i32) -> XAsyncProviderAnswer<T> {
    XAsyncProviderAnswer { hr, submission: None, posted: false, payload: None, released: false }
}

/// A fresh context: result `E_ABORT`, not canceled, no payload.
pub open spec fn spec_new_context<T>() -> XAsyncProviderContext<T> {
    XAsyncProviderContext { result: E_ABORT, canceled: false, payload: None }
}

/// The payload that `XAsyncOp::GetResult` copies out of the context: the
/// stored payload when the stored result is `S_OK`, nothing otherwise.
pub open spec fn spec_result_payload<T>(c: XAsyncProviderContext<T>) -> Option<T> {
    if c.result == S_OK {
        c.payload
    } else {
        None
    }
}

/// What reading the result of `b`, whose provider keeps the context `c`,
/// gives into a buffer that holds `out`: the failure (the buffer as it
/// was), or success with the payload copied into the buffer when there is
/// one to copy.
pub open spec fn spec_read_result<T>(b: XAsyncBlock, c: XAsyncProviderContext<T>, out: T) -> (Result<(), i32>, T) {
    match spec_result_step(b) {
        XAsyncResultStep::Fail(hr) => (Err(hr), out),
        XAsyncResultStep::ReadFromProvider => (
            Ok(()),
            match spec_result_payload(c) {
                Some(v) => v,
                None => out,
            },
        ),
    }
}

/// What the providers behind `run`, `run_sync` and `XAsyncRun` answer to
/// `XAsyncOp::GetResult`, `XAsyncOp::Cancel` and `XAsyncOp::Cleanup`, with
/// the context after the call: the payload is copied only when the stored
/// result is `S_OK` and a payload is held; a cancel marks the context; a
/// cleanup releases it. Each answers `S_OK`.
pub open spec fn spec_common_answer<T>(c: XAsyncProviderContext<T>, op: XAsyncOp) -> (XAsyncProviderContext<T>, XAsyncProviderAnswer<T>) {
    match op {
        XAsyncOp::Cancel => (XAsyncProviderContext { canceled: true, ..c }, spec_answer(S_OK)),
        XAsyncOp::Cleanup => (c, XAsyncProviderAnswer { released: true, ..spec_answer(S_OK) }),
        _ => (c, XAsyncProviderAnswer { payload: spec_result_payload(c), ..spec_answer(S_OK) }),
    }
}

/// The context after the body finished with `outcome`.
pub open spec fn spec_record<T>(c: XAsyncProviderContext<T>, outcome: Result<T, i32>) -> XAsyncProviderContext<T> {
    match outcome {
        Ok(v) => XAsyncProviderContext { result: S_OK, payload: Some(v), ..c },
        Err(hr) => XAsyncProviderContext { result: hr, ..c },
    }
}

impl<T: Copy> XAsyncProviderContext<T> {
    /// A fresh context: result `E_ABORT`, not canceled, no payload.
    pub fn new() -> (c: XAsyncProviderContext<T>)
        ensures
            c == spec_new_context::<T>(),
    {
        XAsyncProviderContext { result: E_ABORT, canceled: false, payload: None }
    }

    /// Stores the body's outcome: a payload with `S_OK`, or a failure.
    pub fn record(&mut self, outcome: Result<T, i32>)
        ensures
            *final(self) == spec_record(*old(self), outcome),
    {
        match outcome {
            Ok(v) => {
                self.result = S_OK;
                self.payload = Some(v);
            },
            Err(hr) => {
                self.result = hr;
            },
        }
    }

    /// `XAsyncOp::Cancel`: marks the context canceled; answers `S_OK`.
    pub fn cancel(&mut self) -> (hr: i32)
        ensures
            hr == S_OK,
            final(self).canceled,
            final(self).result == old(self).result,
            final(self).payload == old(self).payload,
    {
        self.canceled = true;
        S_OK
    }

    /// `XAsyncOp::GetResult`: the payload copied out, which is the stored
    /// payload when the stored result is `S_OK` and none otherwise. The
    /// answer is `S_OK` either way.
    pub fn result_payload(&self) -> (r: Option<T>)
        ensures
            r == spec_result_payload(*self),
    {
        if self.result == S_OK {
            self.payload
        } else {
            None
        }
    }

    /// `XAsyncOp::DoWork` of the provider behind `run` (a polled body): a
    /// canceled context completes with `E_ABORT` without polling; a pending
    /// poll answers `E_PENDING`; a finished poll stores its outcome and
    /// completes the block with `payload_size`. Answers `S_OK` once completed,
    /// with whether the completion callback is posted.
    pub fn run_do_work(
        &mut self,
        block: &mut XAsyncBlock,
        outcome: XAsyncWorkOutcome<T>,
        payload_size: usize,
    ) -> (r: (i32, bool))
        requires
            old(block).wf(),
        ensures
            final(block).wf(),
            old(self).canceled ==> {
                &&& *final(self) == XAsyncProviderContext { result: E_ABORT, ..*old(self) }
                &&& (*final(block), r.1) == spec_complete(*old(block), E_ABORT, payload_size)
                &&& r.0 == S_OK
            },
            !old(self).canceled ==> match outcome {
                XAsyncWorkOutcome::Pending => {
                    &&& *final(self) == *old(self)
                    &&& *final(block) == *old(block)
                    &&& r == (E_PENDING, false)
                },
                XAsyncWorkOutcome::Ready(o) => {
                    &&& *final(self) == spec_record(*old(self), o)
                    &&& (*final(block), r.1) == spec_complete(
                        *old(block),
                        final(self).result,
                        payload_size,
                    )
                    &&& r.0 == S_OK
                },
            },
    {
        if self.canceled {
            self.result = E_ABORT;
        } else {
            match outcome {
                XAsyncWorkOutcome::Pending => {
                    return (E_PENDING, false);
                },
                XAsyncWorkOutcome::Ready(o) => {
                    self.record(o);
                },
            }
        }
        let posted = block.x_async_complete(self.result, payload_size).is_some();
        (S_OK, posted)
    }

    /// The body of `run_sync` (on `XAsyncOp::Begin`) and of `XAsyncRun` (on
    /// `XAsyncOp::DoWork`): stores the body's outcome and completes the block
    /// with `payload_size`. Answers `S_OK`, with whether the completion
    /// callback is posted.
    pub fn run_sync_finish(
        &mut self,
        block: &mut XAsyncBlock,
        outcome: Result<T, i32>,
        payload_size: usize,
    ) -> (r: (i32, bool))
        requires
            old(block).wf(),
        ensures
            final(block).wf(),
            *final(self) == spec_record(*old(self), outcome),
            (*final(block), r.1) == spec_complete(*old(block), final(self).result, payload_size),
            r.0 == S_OK,
    {
        self.record(outcome);
        let posted = block.x_async_complete(self.result, payload_size).is_some();
        (S_OK, posted)
    }

    /// `XAsyncOp::GetResult`, `XAsyncOp::Cancel` and `XAsyncOp::Cleanup`.
    fn common_answer(&mut self, op: XAsyncOp) -> (a: XAsyncProviderAnswer<T>)
        requires
            op == XAsyncOp::GetResult || op == XAsyncOp::Cancel || op == XAsyncOp::Cleanup,
        ensures
            (*final(self), a) == spec_common_answer(*old(self), op),
    {
        match op {
            XAsyncOp::Cancel => {
                let hr = self.cancel();
                XAsyncProviderAnswer { hr, submission: None, posted: false, payload: None, released: false }
            },
            XAsyncOp::Cleanup => {
                XAsyncProviderAnswer { hr: S_OK, submission: None, posted: false, payload: None, released: true }
            },
            _ => {
                let payload = self.result_payload();
                XAsyncProviderAnswer { hr: S_OK, submission: None, posted: false, payload, released: false }
            },
        }
    }

    /// The provider behind `run_sync` and `XAsyncRun`, whose body runs to
    /// its end when called (`outcome`). A missing provider data or context
    /// answers `E_POINTER` and does nothing else. `XAsyncOp::Begin`
    /// schedules the work callback with no delay and answers `S_OK`
    /// whatever the schedule answered; `XAsyncOp::DoWork` runs the body,
    /// stores its outcome and completes the block with `payload_size`
    /// (`S_OK`); the other operations are those of `spec_common_answer`.
    pub fn run_sync_helper(
        &mut self,
        op: XAsyncOp,
        data_present: bool,
        context_present: bool,
        block: &mut XAsyncBlock,
        outcome: Result<T, i32>,
        payload_size: usize,
    ) -> (a: XAsyncProviderAnswer<T>)
        requires
            old(block).wf(),
        ensures
            final(block).wf(),
            (!data_present || !context_present) ==> a == spec_answer::<T>(E_POINTER)
                && *final(self) == *old(self) && *final(block) == *old(block),
            (data_present && context_present) ==> match op {
                XAsyncOp::Begin => {
                    &&& a == (XAsyncProviderAnswer { submission: spec_schedule(*old(block), 0).1, ..spec_answer::<T>(S_OK) })
                    &&& *final(self) == *old(self)
                    &&& *final(block) == *old(block)
                },
                XAsyncOp::DoWork => {
                    &&& *final(self) == spec_record(*old(self), outcome)
                    &&& (*final(block), a.posted) == spec_complete(*old(block), final(self).result, payload_size)
                    &&& a == (XAsyncProviderAnswer { posted: a.posted, ..spec_answer::<T>(S_OK) })
                },
                _ => {
                    &&& (*final(self), a) == spec_common_answer(*old(self), op)
                    &&& *final(block) == *old(block)
                },
            },
    {
        if !data_present || !context_present {
            return XAsyncProviderAnswer { hr: E_POINTER, submission: None, posted: false, payload: None, released: false };
        }
        match op {
            XAsyncOp::Begin => {
                let (_, submission) = schedule_on_begin(block);
                XAsyncProviderAnswer { hr: S_OK, submission, posted: false, payload: None, released: false }
            },
            XAsyncOp::DoWork => {
                let (hr, posted) = self.run_sync_finish(block, outcome, payload_size);
                XAsyncProviderAnswer { hr, submission: None, posted, payload: None, released: false }
            },
            _ => self.common_answer(op),
        }
    }

    /// The provider behind `run`, whose body is polled (`outcome`). A
    /// missing provider data or context answers `E_POINTER` and does nothing
    /// else. `XAsyncOp::Begin` schedules the work callback with no delay and
    /// answers what the schedule answered; `XAsyncOp::DoWork` is
    /// `run_do_work`; the other operations are those of
    /// `spec_common_answer`.
    pub fn run_async_helper(
        &mut self,
        op: XAsyncOp,
        data_present: bool,
        context_present: bool,
        block: &mut XAsyncBlock,
        outcome: XAsyncWorkOutcome<T>,
        payload_size: usize,
    ) -> (a: XAsyncProviderAnswer<T>)
        requires
            old(block).wf(),
        ensures
            final(block).wf(),
            (!data_present || !context_present) ==> a == spec_answer::<T>(E_POINTER)
                && *final(self) == *old(self) && *final(block) == *old(block),
            (data_present && context_present) ==> match op {
                XAsyncOp::Begin => {
                    &&& a == (XAsyncProviderAnswer {
                        hr: spec_schedule(*old(block), 0).0,
                        submission: spec_schedule(*old(block), 0).1,
                        ..spec_answer::<T>(S_OK)
                    })
                    &&& *final(self) == *old(self)
                    &&& *final(block) == *old(block)
                },
                XAsyncOp::DoWork => {
                    &&& old(self).canceled ==> {
                        &&& *final(self) == XAsyncProviderContext { result: E_ABORT, ..*old(self) }
                        &&& (*final(block), a.posted) == spec_complete(*old(block), E_ABORT, payload_size)
                        &&& a.hr == S_OK
                    }
                    &&& !old(self).canceled ==> match outcome {
                        XAsyncWorkOutcome::Pending => {
                            &&& *final(self) == *old(self)
                            &&& *final(block) == *old(block)
                            &&& a.hr == E_PENDING
                            &&& !a.posted
                        },
                        XAsyncWorkOutcome::Ready(o) => {
                            &&& *final(self) == spec_record(*old(self), o)
                            &&& (*final(block), a.posted) == spec_complete(*old(block), final(self).result, payload_size)
                            &&& a.hr == S_OK
                        },
                    }
                    &&& a == (XAsyncProviderAnswer { hr: a.hr, posted: a.posted, ..spec_answer::<T>(S_OK) })
                },
                _ => {
                    &&& (*final(self), a) == spec_common_answer(*old(self), op)
                    &&& *final(block) == *old(block)
                },
            },
    {
        if !data_present || !context_present {
            return XAsyncProviderAnswer { hr: E_POINTER, submission: None, posted: false, payload: None, released: false };
        }
        match op {
            XAsyncOp::Begin => {
                let (hr, submission) = schedule_on_begin(block);
                XAsyncProviderAnswer { hr, submission, posted: false, payload: None, released: false }
            },
            XAsyncOp::DoWork => {
                let (hr, posted) = self.run_do_work(block, outcome, payload_size);
                XAsyncProviderAnswer { hr, submission: None, posted, payload: None, released: false }
            },
            _ => self.common_answer(op),
        }
    }
}

/// `XAsyncOp::Begin` of the providers behind `run` and `XAsyncRun`:
/// schedules the work callback with no delay (`XAsyncSchedule`), and returns
/// what that answers and submits.
pub fn schedule_on_begin(block: &XAsyncBlock) -> (r: (i32, Option<XAsyncSubmission>))
    requires
        block.wf(),
    ensures
        r == spec_schedule(*block, 0),
{
    block.x_async_schedule(0)
}

/// The waker handed to a polled body: waking it schedules the work callback
/// again with no delay, so that the body is polled once more.
pub fn on_wake(block: &XAsyncBlock) -> (r: (i32, Option<XAsyncSubmission>))
    requires
        block.wf(),
    ensures
        r == spec_schedule(*block, 0),
{
    block.x_async_schedule(0)
}

/// Reads the result of `block`, whose provider keeps the context `ctx`, into
/// `out` (`XAsyncGetResult`, then the provider's `XAsyncOp::GetResult`): a
/// failure leaves `out` as it is; on success the payload that the body
/// produced is copied into `out` when the stored result is `S_OK`.
pub fn get_result<T: Copy>(block: &mut XAsyncBlock, ctx: &XAsyncProviderContext<T>, out: &mut T) -> (r: Result<(), i32>)
    requires
        old(block).wf(),
    ensures
        final(block).wf(),
        *final(block) == spec_get_result(*old(block)),
        (r, *final(out)) == spec_read_result(*old(block), *ctx, *old(out)),
{
    match block.x_async_get_result() {
        XAsyncResultStep::Fail(hr) => Err(hr),
        XAsyncResultStep::ReadFromProvider => {
            match ctx.result_payload() {
                Some(v) => {
                    *out = v;
                },
                None => {},
            }
            Ok(())
        },
    }
}

/// The operation that the work callback asks of the provider.
pub fn work_callback_op(cancel: bool) -> (op: XAsyncOp)
    ensures
        op == (if cancel { XAsyncOp::Cancel } else { XAsyncOp::DoWork }),
{
    if cancel {
        XAsyncOp::Cancel
    } else {
        XAsyncOp::DoWork
    }
}

/// The work callback after the provider answered `provider_hr`: any answer
/// other than `E_PENDING` completes the block with that HRESULT and a size of
/// zero. Returns whether the completion callback is posted.
pub fn work_callback_finish(block: &mut XAsyncBlock, provider_hr: i32) -> (posted: bool)
    requires
        old(block).wf(),
    ensures
        final(block).wf(),
        provider_hr == E_PENDING ==> *final(block) == *old(block) && !posted,
        provider_hr != E_PENDING ==> (*final(block), posted) == spec_complete(*old(block), provider_hr, 0),
{
    if provider_hr != E_PENDING {
        block.x_async_complete(provider_hr, 0).is_some()
    } else {
        false
    }
}

/// The body of `XAsyncRun`: no work succeeds; work that answers a failing
/// HRESULT fails with it.
pub fn x_async_run_outcome(work_hr: Option<i32>) -> (o: Result<(), i32>)
    ensures
        o == (match work_hr {
            Some(hr) => if spec_failed(hr) { Err::<(), i32>(hr) } else { Ok::<(), i32>(()) },
            None => Ok::<(), i32>(()),
        }),
{
    match work_hr {
        Some(hr) => if failed(hr) {
            Err(hr)
        } else {
            Ok(())
        },
        None => Ok(()),
    }
}

/// `run` and `run_sync`: a missing block (`block_present` false) is
/// accepted with `S_OK` and nothing happens; otherwise the block is begun
/// (`XAsyncBegin`) with the library's own provider, whose context the caller
/// keeps as an `XAsyncProviderContext`, and that HRESULT is returned.
pub fn run_begin(block_present: bool, block: &mut XAsyncBlock) -> (hr: i32)
    requires
        old(block).wf(),
        block_present ==> spec_word_magic(old(block).magic_result) != XASYNC_INITIALIZE_MAGIC,
    ensures
        final(block).wf(),
        !block_present ==> hr == S_OK && *final(block) == *old(block),
        block_present ==> (*final(block), hr) == spec_begin(*old(block), true),
{
    if !block_present {
        return S_OK;
    }
    if block.attach_state() {
        S_OK
    } else {
        E_FAIL
    }
}

} // verus!

verus! {

/// A begun block reports its operation as pending: without waiting the
/// status is `E_PENDING`, and a waiting caller blocks.
pub proof fn law_begun_block_is_pending(b: XAsyncBlock)
    requires
        b.wf(),
        !spec_in_use(b.magic_result),
    ensures
        spec_begin(b, true).1 == S_OK,
        spec_status(spec_begin(b, true).0, false) == XAsyncStatus::Done(E_PENDING),
        spec_status(spec_begin(b, true).0, true) == XAsyncStatus::MustWait,
{
    lemma_word_roundtrip(XASYNC_INT_MAGIC, E_PENDING);
}

/// A block in use cannot be begun again: the second begin fails with
/// `E_FAIL` and leaves the block as it was, whatever happened in between.
pub proof fn law_block_in_use_refuses_begin(b: XAsyncBlock, has_provider: bool)
    requires
        b.wf(),
        spec_in_use(b.magic_result),
    ensures
        spec_begin(b, has_provider) == (b, E_FAIL),
{
}

/// After a block is begun and completed with a result other than
/// `E_PENDING`, its status is that result, with or without waiting.
pub proof fn law_status_after_completion(b: XAsyncBlock, result: i32, size: usize, wait: bool)
    requires
        b.wf(),
        !spec_in_use(b.magic_result),
        result != E_PENDING,
    ensures
        spec_complete(spec_begin(b, true).0, result, size).1,
        spec_status(spec_complete(spec_begin(b, true).0, result, size).0, wait)
            == XAsyncStatus::Done(result),
{
    lemma_word_roundtrip(XASYNC_INT_MAGIC, E_PENDING);
    lemma_word_roundtrip(XASYNC_INT_MAGIC, result);
}

/// The first completion wins: a later completion posts no callback and
/// leaves the block (result, size and state) unchanged.
pub proof fn law_first_completion_wins(
    b: XAsyncBlock,
    first: i32,
    first_size: usize,
    second: i32,
    second_size: usize,
)
    requires
        b.wf(),
        !spec_in_use(b.magic_result),
        first != E_PENDING,
    ensures
        ({
            let done = spec_complete(spec_begin(b, true).0, first, first_size).0;
            let again = spec_complete(done, second, second_size);
            &&& !again.1
            &&& again.0 == done
            &&& spec_block_result(again.0.magic_result) == Some(first)
        }),
{
    lemma_word_roundtrip(XASYNC_INT_MAGIC, E_PENDING);
    lemma_word_roundtrip(XASYNC_INT_MAGIC, first);
}

/// A completion that announces a result size keeps the state, so the size
/// can be read back.
pub proof fn law_result_size_read_back(b: XAsyncBlock, result: i32, size: usize)
    requires
        b.wf(),
        !spec_in_use(b.magic_result),
        result != E_PENDING,
        size != 0,
    ensures
        spec_result_size(spec_complete(spec_begin(b, true).0, result, size).0, true) == Ok::<usize, i32>(size),
{
    lemma_word_roundtrip(XASYNC_INT_MAGIC, E_PENDING);
}

/// A successful result is read from the provider once: reading it detaches
/// the state, and a second read fails with `E_FAIL`.
pub proof fn law_result_read_once(b: XAsyncBlock, size: usize)
    requires
        b.wf(),
        !spec_in_use(b.magic_result),
        size != 0,
    ensures
        ({
            let done = spec_complete(spec_begin(b, true).0, S_OK, size).0;
            &&& spec_result_step(done) == XAsyncResultStep::ReadFromProvider
            &&& spec_result_step(spec_get_result(done)) == XAsyncResultStep::Fail(E_FAIL)
        }),
{
    lemma_word_roundtrip(XASYNC_INT_MAGIC, E_PENDING);
    lemma_word_roundtrip(XASYNC_INT_MAGIC, S_OK);
}

/// Reading the result of a pending operation answers `E_FAIL` and leaves
/// the block as it is: a later completion still completes the operation,
/// posts the completion callback and sets the status to its result.
pub proof fn law_pending_read_keeps_operation(b: XAsyncBlock, result: i32, size: usize, wait: bool)
    requires
        b.wf(),
        !spec_in_use(b.magic_result),
        result != E_PENDING,
    ensures
        ({
            let begun = spec_begin(b, true).0;
            let read = spec_get_result(begun);
            let done = spec_complete(read, result, size);
            &&& spec_result_step(begun) == XAsyncResultStep::Fail(E_FAIL)
            &&& read == begun
            &&& done.1
            &&& spec_status(done.0, wait) == XAsyncStatus::Done(result)
        }),
{
    lemma_word_roundtrip(XASYNC_INT_MAGIC, E_PENDING);
    lemma_word_roundtrip(XASYNC_INT_MAGIC, result);
}

/// The value that an operation's body produces is the one its result hands
/// out: after a block is begun, a fresh provider context records the body's
/// payload `v` and the block is completed with that context's result and a
/// size other than zero, reading the result succeeds and copies `v` into the
/// caller's buffer, whatever it held before. The completion posts the
/// completion callback to the completion port.
pub proof fn law_payload_delivered<T>(b: XAsyncBlock, v: T, size: usize, out: T)
    requires
        b.wf(),
        !spec_in_use(b.magic_result),
        size != 0,
    ensures
        ({
            let c = spec_record(spec_new_context::<T>(), Ok(v));
            let done = spec_complete(spec_begin(b, true).0, c.result, size);
            &&& spec_completion_post(done.1) == Some(
                XAsyncSubmission { port: XTaskQueuePort::Completion, delay_ms: 0, callback: XAsyncCallback::Completion },
            )
            &&& spec_read_result(done.0, c, out) == (Ok::<(), i32>(()), v)
        }),
{
    lemma_word_roundtrip(XASYNC_INT_MAGIC, E_PENDING);
    lemma_word_roundtrip(XASYNC_INT_MAGIC, S_OK);
}

/// Scheduling submits the work callback to the work port with the delay
/// asked for exactly while the block holds its state: a begun block can be
/// scheduled, a block whose state was detached cannot.
pub proof fn law_schedule_needs_state(b: XAsyncBlock, delay_ms: u32)
    requires
        b.wf(),
        !spec_in_use(b.magic_result),
    ensures
        spec_schedule(spec_begin(b, true).0, delay_ms) == (
            S_OK,
            Some(XAsyncSubmission { port: XTaskQueuePort::Work, delay_ms, callback: XAsyncCallback::Work }),
        ),
        spec_schedule(spec_complete(spec_begin(b, true).0, S_OK, 0).0, delay_ms) == (E_FAIL, None::<XAsyncSubmission>),
{
    lemma_word_roundtrip(XASYNC_INT_MAGIC, E_PENDING);
}

/// A failed operation reports its failure: its status is the failure, and
/// reading its result answers the failure while the state is held (a size
/// was announced) and `E_FAIL` once it was detached (no size).
pub proof fn law_failure_reported(b: XAsyncBlock, failure: i32, size: usize)
    requires
        b.wf(),
        !spec_in_use(b.magic_result),
        failure != E_PENDING,
        failure != S_OK,
    ensures
        ({
            let done = spec_complete(spec_begin(b, true).0, failure, size).0;
            &&& spec_status(done, true) == XAsyncStatus::Done(failure)
            &&& spec_result_step(done) == (if size != 0 {
                XAsyncResultStep::Fail(failure)
            } else {
                XAsyncResultStep::Fail(E_FAIL)
            })
        }),
{
    lemma_word_roundtrip(XASYNC_INT_MAGIC, E_PENDING);
    lemma_word_roundtrip(XASYNC_INT_MAGIC, failure);
}

/// Every transition keeps the block well formed.
pub proof fn law_transitions_keep_wf(b: XAsyncBlock, has_provider: bool, result: i32, size: usize)
    requires
        b.wf(),
    ensures
        spec_begin(b, has_provider).0.wf(),
        spec_complete(b, result, size).0.wf(),
        spec_get_result(b).wf(),
{
    lemma_word_roundtrip(XASYNC_INT_MAGIC, E_PENDING);
    lemma_word_roundtrip(XASYNC_INT_MAGIC, result);
}

/// The payload of work run through the block survives the work callback:
/// when the provider's work completes the block with a payload and answers
/// `S_OK`, the callback's own completion (with no size) changes nothing, and
/// the payload is then read from the provider.
pub proof fn law_work_payload_readable(b: XAsyncBlock, size: usize)
    requires
        b.wf(),
        !spec_in_use(b.magic_result),
        size != 0,
    ensures
        ({
            let done = spec_complete(spec_begin(b, true).0, S_OK, size).0;
            let after_callback = spec_complete(done, S_OK, 0).0;
            &&& after_callback == done
            &&& spec_result_step(after_callback) == XAsyncResultStep::ReadFromProvider
        }),
{
    lemma_word_roundtrip(XASYNC_INT_MAGIC, E_PENDING);
    lemma_word_roundtrip(XASYNC_INT_MAGIC, S_OK);
}

} // verus!
