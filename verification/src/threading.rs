//! Task queues: their ports, the callbacks submitted to them, monitor and
//! waiter registrations, and termination, modelled on plain values.
//!
//! A callback, its context and a wait handle are carried as opaque numbers;
//! the functions here decide what happens to them and return the plan that
//! the caller carries out (run a callback now, hand it to a thread pool,
//! start a timer, ...).
use vstd::prelude::*;
use crate::results::{S_OK, E_FAIL};

verus! {

/// How the callbacks of a port are run.
#[derive(Clone, Copy, Debug, PartialEq, Eq, Structural)]
pub enum XTaskQueueDispatchMode {
    Manual,
    ThreadPool,
    SerializedThreadPool,
    Immediate,
    Invalid,
}

/// The numeric values of `XTaskQueueDispatchMode` that the ABI fixes:
/// `Manual` is 0, `ThreadPool` is 1, `SerializedThreadPool` is 2, `Immediate`
/// is 3, `Invalid` is 4.
/// Each value belongs to one variant only.
pub proof fn law_x_task_queue_dispatch_mode_abi_values(m: XTaskQueueDispatchMode)
    ensures
        (m.spec_value() == 0u32) <==> (m == XTaskQueueDispatchMode::Manual),
        (m.spec_value() == 1u32) <==> (m == XTaskQueueDispatchMode::ThreadPool),
        (m.spec_value() == 2u32) <==> (m == XTaskQueueDispatchMode::SerializedThreadPool),
        (m.spec_value() == 3u32) <==> (m == XTaskQueueDispatchMode::Immediate),
        (m.spec_value() == 4u32) <==> (m == XTaskQueueDispatchMode::Invalid),
{
}

impl XTaskQueueDispatchMode {
    /// The numeric value of the mode.
    pub open spec fn spec_value(self) -> u32 {
        match self {
            XTaskQueueDispatchMode::Manual => 0,
            XTaskQueueDispatchMode::ThreadPool => 1,
            XTaskQueueDispatchMode::SerializedThreadPool => 2,
            XTaskQueueDispatchMode::Immediate => 3,
            XTaskQueueDispatchMode::Invalid => 4,
        }
    }

    /// Returns the numeric value of the mode.
    pub fn value(&self) -> (v: u32)
        ensures
            v == self.spec_value(),
    {
        match self {
            XTaskQueueDispatchMode::Manual => 0,
            XTaskQueueDispatchMode::ThreadPool => 1,
            XTaskQueueDispatchMode::SerializedThreadPool => 2,
            XTaskQueueDispatchMode::Immediate => 3,
            XTaskQueueDispatchMode::Invalid => 4,
        }
    }

    /// Returns the mode with the numeric value `v`, if there is one.
    pub fn from_value(v: u32) -> (r: Option<XTaskQueueDispatchMode>)
        ensures
            r matches Some(m) ==> m.spec_value() == v,
            r is None <==> v > 4,
    {
        match v {
            0 => Some(XTaskQueueDispatchMode::Manual),
            1 => Some(XTaskQueueDispatchMode::ThreadPool),
            2 => Some(XTaskQueueDispatchMode::SerializedThreadPool),
            3 => Some(XTaskQueueDispatchMode::Immediate),
            4 => Some(XTaskQueueDispatchMode::Invalid),
            _ => None,
        }
    }
}

/// The two ports of a task queue.
#[derive(Clone, Copy, Debug, PartialEq, Eq, Structural)]
pub enum XTaskQueuePort {
    Work,
    Completion,
}

/// The numeric values of `XTaskQueuePort` that the ABI fixes: `Work` is 0,
/// `Completion` is 1.
/// Each value belongs to one variant only.
pub proof fn law_x_task_queue_port_abi_values(m: XTaskQueuePort)
    ensures
        (m.spec_value() == 0u32) <==> (m == XTaskQueuePort::Work),
        (m.spec_value() == 1u32) <==> (m == XTaskQueuePort::Completion),
{
}

impl XTaskQueuePort {
    /// The numeric value of the port.
    pub open spec fn spec_value(self) -> u32 {
        match self {
            XTaskQueuePort::Work => 0,
            XTaskQueuePort::Completion => 1,
        }
    }

    /// Returns the numeric value of the port.
    pub fn value(&self) -> (v: u32)
        ensures
            v == self.spec_value(),
    {
        match self {
            XTaskQueuePort::Work => 0,
            XTaskQueuePort::Completion => 1,
        }
    }

    /// Returns the port with the numeric value `v`, if there is one.
    pub fn from_value(v: u32) -> (r: Option<XTaskQueuePort>)
        ensures
            r matches Some(p) ==> p.spec_value() == v,
            r is None <==> v > 1,
    {
        match v {
            0 => Some(XTaskQueuePort::Work),
            1 => Some(XTaskQueuePort::Completion),
            _ => None,
        }
    }
}

/// The kind of port object that a dispatch mode creates.
#[derive(Clone, Copy, Debug, PartialEq, Eq, Structural)]
pub enum PortKind {
    /// Callbacks wait in a queue until the port is dispatched.
    Manual,
    /// Callbacks run on a pool of worker threads; `single_worker` limits the
    /// pool to one thread.
    ThreadPool { single_worker: bool },
    /// Callbacks run at once, on the submitting thread.
    Immediate,
}

/// The port kind for a dispatch mode; `Invalid` has none.
pub open spec fn spec_port_kind(mode: XTaskQueueDispatchMode) -> Option<PortKind> {
    match mode {
        XTaskQueueDispatchMode::Manual => Some(PortKind::Manual),
        XTaskQueueDispatchMode::ThreadPool => Some(PortKind::ThreadPool { single_worker: false }),
        XTaskQueueDispatchMode::SerializedThreadPool => Some(PortKind::ThreadPool { single_worker: true }),
        XTaskQueueDispatchMode::Immediate => Some(PortKind::Immediate),
        XTaskQueueDispatchMode::Invalid => None,
    }
}

/// The port that each dispatch mode makes: a manual mode a manual port, a
/// thread pool mode a pool of worker threads (a serialized thread pool one
/// of a single worker, a thread pool one of many), an immediate mode a port
/// that runs callbacks at once; the invalid mode none.
pub proof fn law_dispatch_mode_ports(m: XTaskQueueDispatchMode)
    ensures
        (spec_port_kind(m) == Some(PortKind::Manual)) <==> m == XTaskQueueDispatchMode::Manual,
        (spec_port_kind(m) == Some(PortKind::ThreadPool { single_worker: false })) <==> m == XTaskQueueDispatchMode::ThreadPool,
        (spec_port_kind(m) == Some(PortKind::ThreadPool { single_worker: true })) <==> m
            == XTaskQueueDispatchMode::SerializedThreadPool,
        (spec_port_kind(m) == Some(PortKind::Immediate)) <==> m == XTaskQueueDispatchMode::Immediate,
        spec_port_kind(m) is None <==> m == XTaskQueueDispatchMode::Invalid,
{
}

/// Returns the port kind that `XTaskQueueCreate` makes for a mode.
pub fn port_kind(mode: XTaskQueueDispatchMode) -> (k: PortKind)
    requires
        mode != XTaskQueueDispatchMode::Invalid,
    ensures
        spec_port_kind(mode) == Some(k),
{
    match mode {
        XTaskQueueDispatchMode::Manual => PortKind::Manual,
        XTaskQueueDispatchMode::ThreadPool => PortKind::ThreadPool { single_worker: false },
        XTaskQueueDispatchMode::SerializedThreadPool => PortKind::ThreadPool { single_worker: true },
        XTaskQueueDispatchMode::Immediate => PortKind::Immediate,
        XTaskQueueDispatchMode::Invalid => PortKind::Immediate,
    }
}

/// A port as a queue refers to it: its handle and its kind.
#[derive(Clone, Copy, Debug, PartialEq, Eq, Structural)]
pub struct PortRef {
    pub handle: u64,
    pub kind: PortKind,
}

/// A callback waiting in a manual port: the callback (absent for a null
/// callback), its context, and the handle of the queue that submitted it.
#[derive(Clone, Copy, Debug, PartialEq, Eq, Structural)]
pub struct QueueEntry {
    pub callback: Option<u64>,
    pub context: u64,
    pub queue: u64,
}

/// A registered monitor: it is told of each submission to the queue.
#[derive(Clone, Copy, Debug, PartialEq, Eq, Structural)]
pub struct MonitorRegistration {
    pub token: u64,
    pub callback: u64,
    pub context: u64,
}

/// A registered waiter: when its wait handle is signalled its callback is
/// submitted to its port.
#[derive(Clone, Copy, Debug, PartialEq, Eq, Structural)]
pub struct WaiterRegistration {
    pub token: u64,
    pub port: XTaskQueuePort,
    pub wait_handle: u64,
    pub callback: Option<u64>,
    pub context: u64,
}

/// What a port does with a submitted callback.
#[derive(Clone, Copy, Debug, PartialEq, Eq, Structural)]
pub enum PortAction {
    /// The entry is appended to the manual port's queue.
    Enqueue(QueueEntry),
    /// The callback is handed to the port's thread pool; it runs there with
    /// `cancelled` telling whether the queue was terminated by then.
    Spawn,
    /// The callback runs now with this `cancelled` flag.
    RunNow { cancelled: bool },
    /// A timer is started; when it ends, or the queue is terminated, the
    /// submission is made as if with no delay.
    Timer { delay_ms: u32 },
}

/// A submission's plan: the monitors to notify, in order, then what the port
/// does.
#[derive(Clone, Debug)]
pub struct SubmitPlan {
    pub monitors: Vec<MonitorRegistration>,
    pub action: PortAction,
}

/// What termination asks of the caller: wait (or not) for every submitted
/// callback to finish, then call the terminated callback if there is one.
#[derive(Clone, Copy, Debug, PartialEq, Eq, Structural)]
pub struct TerminatePlan {
    pub wait: bool,
    pub callback: Option<u64>,
    pub context: u64,
}

/// The monitor tokens are strictly increasing and all below the next token.
pub open spec fn spec_monitor_tokens_ok(m: Seq<MonitorRegistration>, next: u64) -> bool {
    &&& forall|i: int, j: int| 0 <= i < j < m.len() ==> m[i].token < m[j].token
    &&& forall|i: int| 0 <= i < m.len() ==> m[i].token < next
}

/// The waiter tokens are strictly increasing and all below the next token.
pub open spec fn spec_waiter_tokens_ok(w: Seq<WaiterRegistration>, next: u64) -> bool {
    &&& forall|i: int, j: int| 0 <= i < j < w.len() ==> w[i].token < w[j].token
    &&& forall|i: int| 0 <= i < w.len() ==> w[i].token < next
}

/// The sequence without its first element whose token is `token` (unchanged
/// when there is none).
pub open spec fn spec_remove_token_monitor(m: Seq<MonitorRegistration>, token: u64) -> Seq<MonitorRegistration>
    decreases m.len(),
{
    if m.len() == 0 {
        m
    } else if m[0].token == token {
        m.drop_first()
    } else {
        seq![m[0]] + spec_remove_token_monitor(m.drop_first(), token)
    }
}

/// The sequence without its first element whose token is `token` (unchanged
/// when there is none).
pub open spec fn spec_remove_token_waiter(w: Seq<WaiterRegistration>, token: u64) -> Seq<WaiterRegistration>
    decreases w.len(),
{
    if w.len() == 0 {
        w
    } else if w[0].token == token {
        w.drop_first()
    } else {
        seq![w[0]] + spec_remove_token_waiter(w.drop_first(), token)
    }
}

/// What a port of `kind` does with a callback submitted now by the queue
/// `queue`, terminated or not.
pub open spec fn spec_port_action(kind: PortKind, queue: u64, closed: bool, callback: Option<u64>, context: u64) -> PortAction {
    match kind {
        PortKind::Manual => PortAction::Enqueue(QueueEntry { callback, context, queue }),
        PortKind::ThreadPool { .. } => PortAction::Spawn,
        PortKind::Immediate => PortAction::RunNow { cancelled: closed },
    }
}

} // verus!

verus! {

/// A manual port: submitted callbacks wait, first in first out, until the
/// port is dispatched.
#[derive(Debug)]
pub struct ManualTaskQueuePort {
    pub handle: u64,
    pub pending: Vec<QueueEntry>,
}

impl ManualTaskQueuePort {
    /// An empty manual port.
    pub fn new(handle: u64) -> (p: ManualTaskQueuePort)
        ensures
            p.handle == handle,
            p.pending@ == Seq::<QueueEntry>::empty(),
    {
        ManualTaskQueuePort { handle, pending: Vec::new() }
    }

    /// Appends an entry; answers `S_OK`.
    pub fn submit_callback(&mut self, entry: QueueEntry) -> (hr: i32)
        ensures
            hr == S_OK,
            final(self).handle == old(self).handle,
            final(self).pending@ == old(self).pending@.push(entry),
    {
        self.pending.push(entry);
        S_OK
    }

    /// Takes the oldest waiting entry, if any. The caller runs its callback
    /// (when it has one) with `cancelled` set to whether the submitting queue
    /// was terminated; `XTaskQueueDispatch` answers whether an entry was
    /// taken. With nothing waiting, the caller waits up to its timeout for a
    /// submission before answering `false`.
    pub fn dispatch(&mut self) -> (e: Option<QueueEntry>)
        ensures
            final(self).handle == old(self).handle,
            old(self).pending@.len() == 0 ==> e is None && final(self).pending@ == old(self).pending@,
            old(self).pending@.len() > 0 ==> e == Some(old(self).pending@[0])
                && final(self).pending@ == old(self).pending@.drop_first(),
    {
        if self.pending.len() == 0 {
            None
        } else {
            let e = self.pending.remove(0);
            assert(self.pending@ =~= old(self).pending@.drop_first());
            Some(e)
        }
    }

    /// The number of waiting entries.
    pub fn pending_count(&self) -> (n: usize)
        ensures
            n == self.pending@.len(),
    {
        self.pending.len()
    }
}

/// A task queue: a work port and a completion port, the monitors and waiters
/// registered on it, the next token of each kind, and whether it was
/// terminated.
#[derive(Debug)]
pub struct TaskQueue {
    pub handle: u64,
    pub work: PortRef,
    pub completion: PortRef,
    pub monitors: Vec<MonitorRegistration>,
    pub next_handle: u64,
    pub waiters: Vec<WaiterRegistration>,
    pub next_waiter_handle: u64,
    pub closed: bool,
}

fn copy_monitors(v: &Vec<MonitorRegistration>) -> (r: Vec<MonitorRegistration>)
    ensures
        r@ == v@,
{
    let mut r: Vec<MonitorRegistration> = Vec::new();
    let mut i: usize = 0;
    while i < v.len()
        invariant
            i <= v@.len(),
            r@ == v@.subrange(0, i as int),
        decreases v@.len() - i,
    {
        r.push(v[i]);
        i = i + 1;
        assert(r@ =~= v@.subrange(0, i as int));
    }
    assert(v@.subrange(0, v@.len() as int) =~= v@);
    r
}

impl TaskQueue {
    /// Tokens are unique and below the next token of their kind.
    pub open spec fn wf(&self) -> bool {
        &&& spec_monitor_tokens_ok(self.monitors@, self.next_handle)
        &&& spec_waiter_tokens_ok(self.waiters@, self.next_waiter_handle)
    }

    /// The port that `port` names.
    pub open spec fn spec_get_port(&self, port: XTaskQueuePort) -> PortRef {
        match port {
            XTaskQueuePort::Work => self.work,
            XTaskQueuePort::Completion => self.completion,
        }
    }

    /// What a submission with no delay to `port` makes the port do.
    pub open spec fn spec_submit_action(&self, port: XTaskQueuePort, callback: Option<u64>, context: u64) -> PortAction {
        spec_port_action(self.spec_get_port(port).kind, self.handle, self.closed, callback, context)
    }

    /// A queue over two ports, with no registrations, not terminated.
    pub fn new(handle: u64, work: PortRef, completion: PortRef) -> (q: TaskQueue)
        ensures
            q.wf(),
            q.handle == handle,
            q.work == work,
            q.completion == completion,
            q.monitors@ == Seq::<MonitorRegistration>::empty(),
            q.waiters@ == Seq::<WaiterRegistration>::empty(),
            q.next_handle == 0,
            q.next_waiter_handle == 0,
            !q.closed,
    {
        TaskQueue {
            handle,
            work,
            completion,
            monitors: Vec::new(),
            next_handle: 0,
            waiters: Vec::new(),
            next_waiter_handle: 0,
            closed: false,
        }
    }

    /// The port that `port` names.
    pub fn get_port(&self, port: XTaskQueuePort) -> (p: PortRef)
        ensures
            p == self.spec_get_port(port),
    {
        match port {
            XTaskQueuePort::Work => self.work,
            XTaskQueuePort::Completion => self.completion,
        }
    }

    /// `XTaskQueueSubmitDelayedCallback` (and `XTaskQueueSubmitCallback`,
    /// which submits with no delay): with no delay every registered monitor
    /// is notified, in registration order, and the port takes the callback;
    /// with a delay a timer is started, and when it ends the submission is
    /// made again with no delay. Answers `S_OK`.
    pub fn submit_delayed_callback(
        &self,
        port: XTaskQueuePort,
        delay_ms: u32,
        callback: Option<u64>,
        context: u64,
    ) -> (r: (i32, SubmitPlan))
        ensures
            r.0 == S_OK,
            delay_ms == 0 ==> r.1.monitors@ == self.monitors@
                && r.1.action == self.spec_submit_action(port, callback, context),
            delay_ms != 0 ==> r.1.monitors@ == Seq::<MonitorRegistration>::empty()
                && r.1.action == (PortAction::Timer { delay_ms }),
    {
        if delay_ms == 0 {
            let monitors = copy_monitors(&self.monitors);
            let p = self.get_port(port);
            let action = match p.kind {
                PortKind::Manual => PortAction::Enqueue(QueueEntry { callback, context, queue: self.handle }),
                PortKind::ThreadPool { .. } => PortAction::Spawn,
                PortKind::Immediate => PortAction::RunNow { cancelled: self.closed },
            };
            (S_OK, SubmitPlan { monitors, action })
        } else {
            (S_OK, SubmitPlan { monitors: Vec::new(), action: PortAction::Timer { delay_ms } })
        }
    }

    /// `XTaskQueueTerminate`: marks the queue terminated (pending timers end
    /// at once, and every callback that runs from now on is told it is
    /// cancelled) and asks the caller to wait, or not, for the submitted
    /// callbacks before calling the terminated callback. Answers the plan.
    pub fn terminate(&mut self, wait: bool, callback: Option<u64>, context: u64) -> (t: TerminatePlan)
        requires
            old(self).wf(),
        ensures
            final(self).wf(),
            final(self).closed,
            final(self).handle == old(self).handle,
            final(self).work == old(self).work,
            final(self).completion == old(self).completion,
            final(self).monitors@ == old(self).monitors@,
            final(self).waiters@ == old(self).waiters@,
            final(self).next_handle == old(self).next_handle,
            final(self).next_waiter_handle == old(self).next_waiter_handle,
            t == (TerminatePlan { wait, callback, context }),
    {
        self.closed = true;
        TerminatePlan { wait, callback, context }
    }

    /// Whether the queue was terminated.
    pub fn is_closed(&self) -> (c: bool)
        ensures
            c == self.closed,
    {
        self.closed
    }

    /// `XTaskQueueRegisterMonitor`: a present callback is registered under
    /// the next token, which is returned; a missing callback registers
    /// nothing and no token is written.
    pub fn register_monitor(&mut self, callback: Option<u64>, context: u64) -> (token: Option<u64>)
        requires
            old(self).wf(),
            old(self).next_handle < u64::MAX,
        ensures
            final(self).wf(),
            final(self).handle == old(self).handle,
            final(self).work == old(self).work,
            final(self).completion == old(self).completion,
            final(self).waiters@ == old(self).waiters@,
            final(self).next_waiter_handle == old(self).next_waiter_handle,
            final(self).closed == old(self).closed,
            callback is None ==> token is None && final(self).monitors@ == old(self).monitors@
                && final(self).next_handle == old(self).next_handle,
            callback matches Some(cb) ==> {
                &&& token == Some(old(self).next_handle)
                &&& final(self).next_handle == old(self).next_handle + 1
                &&& final(self).monitors@ == old(self).monitors@.push(
                    MonitorRegistration { token: old(self).next_handle, callback: cb, context },
                )
            },
    {
        match callback {
            None => None,
            Some(cb) => {
                let t = self.next_handle;
                self.monitors.push(MonitorRegistration { token: t, callback: cb, context });
                self.next_handle = t + 1;
                Some(t)
            },
        }
    }

    /// `XTaskQueueUnregisterMonitor`: removes the monitor registered under
    /// `token`, if there is one.
    #[verifier::loop_isolation(false)]
    pub fn unregister_monitor(&mut self, token: u64)
        requires
            old(self).wf(),
        ensures
            final(self).wf(),
            final(self).handle == old(self).handle,
            final(self).work == old(self).work,
            final(self).completion == old(self).completion,
            final(self).waiters@ == old(self).waiters@,
            final(self).next_handle == old(self).next_handle,
            final(self).next_waiter_handle == old(self).next_waiter_handle,
            final(self).closed == old(self).closed,
            final(self).monitors@ == spec_remove_token_monitor(old(self).monitors@, token),
    {
        let mut i: usize = 0;
        while i < self.monitors.len()
            invariant
                *self == *old(self),
                self.wf(),
                self.monitors@ == old(self).monitors@,
                i <= self.monitors@.len(),
                forall|k: int| 0 <= k < i ==> self.monitors@[k].token != token,
            decreases self.monitors@.len() - i,
        {
            if self.monitors[i].token == token {
                proof {
                    lemma_remove_monitor_at(self.monitors@, token, i as int);
                }
                proof {
                    lemma_monitor_tokens_remove_at(self.monitors@, i as int, self.next_handle);
                }
                self.monitors.remove(i);
                return;
            }
            i = i + 1;
        }
        proof {
            lemma_remove_monitor_absent(self.monitors@, token);
        }
    }

    /// `XTaskQueueRegisterWaiter`: registers the waiter under the next token,
    /// which is returned, whether or not a callback is present.
    pub fn register_waiter(
        &mut self,
        port: XTaskQueuePort,
        wait_handle: u64,
        callback: Option<u64>,
        context: u64,
    ) -> (token: u64)
        requires
            old(self).wf(),
            old(self).next_waiter_handle < u64::MAX,
        ensures
            final(self).wf(),
            final(self).handle == old(self).handle,
            final(self).work == old(self).work,
            final(self).completion == old(self).completion,
            final(self).monitors@ == old(self).monitors@,
            final(self).next_handle == old(self).next_handle,
            final(self).closed == old(self).closed,
            token == old(self).next_waiter_handle,
            final(self).next_waiter_handle == old(self).next_waiter_handle + 1,
            final(self).waiters@ == old(self).waiters@.push(
                WaiterRegistration { token, port, wait_handle, callback, context },
            ),
    {
        let t = self.next_waiter_handle;
        self.waiters.push(WaiterRegistration { token: t, port, wait_handle, callback, context });
        self.next_waiter_handle = t + 1;
        t
    }

    /// `XTaskQueueUnregisterWaiter`: removes the waiter registered under
    /// `token` and returns it (the caller stops its wait), if there is one.
    #[verifier::loop_isolation(false)]
    pub fn unregister_waiter(&mut self, token: u64) -> (removed: Option<WaiterRegistration>)
        requires
            old(self).wf(),
        ensures
            final(self).wf(),
            final(self).handle == old(self).handle,
            final(self).work == old(self).work,
            final(self).completion == old(self).completion,
            final(self).monitors@ == old(self).monitors@,
            final(self).next_handle == old(self).next_handle,
            final(self).next_waiter_handle == old(self).next_waiter_handle,
            final(self).closed == old(self).closed,
            final(self).waiters@ == spec_remove_token_waiter(old(self).waiters@, token),
            removed is None <==> (forall|k: int| 0 <= k < old(self).waiters@.len() ==> old(self).waiters@[k].token != token),
            removed matches Some(w) ==> w.token == token && old(self).waiters@.contains(w),
    {
        let mut i: usize = 0;
        while i < self.waiters.len()
            invariant
                *self == *old(self),
                self.wf(),
                self.waiters@ == old(self).waiters@,
                i <= self.waiters@.len(),
                forall|k: int| 0 <= k < i ==> self.waiters@[k].token != token,
            decreases self.waiters@.len() - i,
        {
            if self.waiters[i].token == token {
                proof {
                    lemma_remove_waiter_at(self.waiters@, token, i as int);
                }
                proof {
                    lemma_waiter_tokens_remove_at(self.waiters@, i as int, self.next_waiter_handle);
                }
                let w = self.waiters.remove(i);
                assert(old(self).waiters@[i as int] == w);
                return Some(w);
            }
            i = i + 1;
        }
        proof {
            lemma_remove_waiter_absent(self.waiters@, token);
        }
        None
    }

    /// The wait handle of the waiter under `token` was signalled: its
    /// callback is submitted straight to its port (monitors are not told).
    /// Nothing happens for a token that is not registered.
    #[verifier::loop_isolation(false)]
    pub fn waiter_signalled(&self, token: u64) -> (a: Option<PortAction>)
        ensures
            a is None <==> (forall|k: int| 0 <= k < self.waiters@.len() ==> self.waiters@[k].token != token),
            a matches Some(act) ==> exists|k: int| 0 <= k < self.waiters@.len()
                && self.waiters@[k].token == token
                && act == self.spec_submit_action(self.waiters@[k].port, self.waiters@[k].callback, self.waiters@[k].context),
    {
        let mut i: usize = 0;
        while i < self.waiters.len()
            invariant
                i <= self.waiters@.len(),
                forall|k: int| 0 <= k < i ==> self.waiters@[k].token != token,
            decreases self.waiters@.len() - i,
        {
            let w = self.waiters[i];
            if w.token == token {
                let p = self.get_port(w.port);
                let act = match p.kind {
                    PortKind::Manual => PortAction::Enqueue(QueueEntry { callback: w.callback, context: w.context, queue: self.handle }),
                    PortKind::ThreadPool { .. } => PortAction::Spawn,
                    PortKind::Immediate => PortAction::RunNow { cancelled: self.closed },
                };
                return Some(act);
            }
            i = i + 1;
        }
        None
    }
}

proof fn lemma_remove_monitor_at(m: Seq<MonitorRegistration>, token: u64, i: int)
    requires
        0 <= i < m.len(),
        m[i].token == token,
        forall|k: int| 0 <= k < i ==> m[k].token != token,
    ensures
        spec_remove_token_monitor(m, token) == m.remove(i),
    decreases i,
{
    if i == 0 {
        assert(m.remove(0) =~= m.drop_first());
    } else {
        lemma_remove_monitor_at(m.drop_first(), token, i - 1);
        assert(m.remove(i) =~= seq![m[0]] + m.drop_first().remove(i - 1));
    }
}

proof fn lemma_remove_monitor_absent(m: Seq<MonitorRegistration>, token: u64)
    requires
        forall|k: int| 0 <= k < m.len() ==> m[k].token != token,
    ensures
        spec_remove_token_monitor(m, token) == m,
    decreases m.len(),
{
    if m.len() > 0 {
        lemma_remove_monitor_absent(m.drop_first(), token);
        assert(seq![m[0]] + m.drop_first() =~= m);
    }
}

proof fn lemma_remove_waiter_at(w: Seq<WaiterRegistration>, token: u64, i: int)
    requires
        0 <= i < w.len(),
        w[i].token == token,
        forall|k: int| 0 <= k < i ==> w[k].token != token,
    ensures
        spec_remove_token_waiter(w, token) == w.remove(i),
    decreases i,
{
    if i == 0 {
        assert(w.remove(0) =~= w.drop_first());
    } else {
        lemma_remove_waiter_at(w.drop_first(), token, i - 1);
        assert(w.remove(i) =~= seq![w[0]] + w.drop_first().remove(i - 1));
    }
}

proof fn lemma_remove_waiter_absent(w: Seq<WaiterRegistration>, token: u64)
    requires
        forall|k: int| 0 <= k < w.len() ==> w[k].token != token,
    ensures
        spec_remove_token_waiter(w, token) == w,
    decreases w.len(),
{
    if w.len() > 0 {
        lemma_remove_waiter_absent(w.drop_first(), token);
        assert(seq![w[0]] + w.drop_first() =~= w);
    }
}

proof fn lemma_monitor_tokens_remove_at(m: Seq<MonitorRegistration>, i: int, next: u64)
    requires
        spec_monitor_tokens_ok(m, next),
        0 <= i < m.len(),
    ensures
        spec_monitor_tokens_ok(m.remove(i), next),
{
    let r = m.remove(i);
    assert forall|a: int| 0 <= a < r.len() implies r[a] == (if a < i { m[a] } else { m[a + 1] }) by {}
    assert forall|a: int, b: int| 0 <= a < b < r.len() implies r[a].token < r[b].token by {
        let ia = if a < i { a } else { a + 1 };
        let ib = if b < i { b } else { b + 1 };
        assert(r[a] == m[ia] && r[b] == m[ib]);
    }
    assert forall|a: int| 0 <= a < r.len() implies r[a].token < next by {
        let ia = if a < i { a } else { a + 1 };
        assert(r[a] == m[ia]);
    }
}

proof fn lemma_waiter_tokens_remove_at(w: Seq<WaiterRegistration>, i: int, next: u64)
    requires
        spec_waiter_tokens_ok(w, next),
        0 <= i < w.len(),
    ensures
        spec_waiter_tokens_ok(w.remove(i), next),
{
    let r = w.remove(i);
    assert forall|a: int| 0 <= a < r.len() implies r[a] == (if a < i { w[a] } else { w[a + 1] }) by {}
    assert forall|a: int, b: int| 0 <= a < b < r.len() implies r[a].token < r[b].token by {
        let ia = if a < i { a } else { a + 1 };
        let ib = if b < i { b } else { b + 1 };
        assert(r[a] == w[ia] && r[b] == w[ib]);
    }
    assert forall|a: int| 0 <= a < r.len() implies r[a].token < next by {
        let ia = if a < i { a } else { a + 1 };
        assert(r[a] == w[ia]);
    }
}

} // verus!

verus! {

/// `q` is the queue that `XTaskQueueCreate` makes under `handle` from the
/// two dispatch modes, over the new ports `work_port_handle` and
/// `completion_port_handle`: no registrations, not terminated.
pub open spec fn spec_created_queue(
    q: TaskQueue,
    handle: u64,
    work_dispatch_mode: XTaskQueueDispatchMode,
    completion_dispatch_mode: XTaskQueueDispatchMode,
    work_port_handle: u64,
    completion_port_handle: u64,
) -> bool {
    &&& q.wf()
    &&& q.handle == handle
    &&& spec_port_kind(work_dispatch_mode) == Some(q.work.kind)
    &&& spec_port_kind(completion_dispatch_mode) == Some(q.completion.kind)
    &&& q.work.handle == work_port_handle
    &&& q.completion.handle == completion_port_handle
    &&& q.monitors@.len() == 0
    &&& q.waiters@.len() == 0
    &&& !q.closed
}

/// `XTaskQueueCreate`: a queue whose ports are made from the two dispatch
/// modes (`Invalid` is not a mode that a port can be made from).
pub fn x_task_queue_create(
    handle: u64,
    work_dispatch_mode: XTaskQueueDispatchMode,
    completion_dispatch_mode: XTaskQueueDispatchMode,
    work_port_handle: u64,
    completion_port_handle: u64,
) -> (q: TaskQueue)
    requires
        work_dispatch_mode != XTaskQueueDispatchMode::Invalid,
        completion_dispatch_mode != XTaskQueueDispatchMode::Invalid,
    ensures
        q.wf(),
        q.handle == handle,
        spec_port_kind(work_dispatch_mode) == Some(q.work.kind),
        spec_port_kind(completion_dispatch_mode) == Some(q.completion.kind),
        q.work.handle == work_port_handle,
        q.completion.handle == completion_port_handle,
        q.monitors@.len() == 0,
        q.waiters@.len() == 0,
        !q.closed,
        spec_created_queue(q, handle, work_dispatch_mode, completion_dispatch_mode, work_port_handle, completion_port_handle),
{
    let work = PortRef { handle: work_port_handle, kind: port_kind(work_dispatch_mode) };
    let completion = PortRef { handle: completion_port_handle, kind: port_kind(completion_dispatch_mode) };
    TaskQueue::new(handle, work, completion)
}

/// `XTaskQueueCreateComposite`: a queue over two existing ports; a missing
/// port fails with `E_FAIL` (the out handle is set to null).
pub fn x_task_queue_create_composite(
    handle: u64,
    work_port: Option<PortRef>,
    completion_port: Option<PortRef>,
) -> (r: Result<TaskQueue, i32>)
    ensures
        (work_port is None || completion_port is None) <==> r is Err,
        r matches Err(hr) ==> hr == E_FAIL,
        r matches Ok(q) ==> {
            &&& q.wf()
            &&& q.handle == handle
            &&& Some(q.work) == work_port
            &&& Some(q.completion) == completion_port
            &&& q.monitors@.len() == 0
            &&& q.waiters@.len() == 0
            &&& !q.closed
        },
{
    match (work_port, completion_port) {
        (Some(w), Some(c)) => Ok(TaskQueue::new(handle, w, c)),
        _ => Err(E_FAIL),
    }
}

/// The task queue calls that name a queue by handle.
#[derive(Clone, Copy, Debug, PartialEq, Eq, Structural)]
pub enum XTaskQueueCall {
    GetPort,
    DuplicateHandle,
    SubmitCallback,
    SubmitDelayedCallback,
    RegisterWaiter,
    UnregisterWaiter,
    Terminate,
    RegisterMonitor,
    UnregisterMonitor,
}

/// What a call answers when its queue handle does not name a queue: the
/// calls that hand a handle back fail with `E_FAIL`, the others do nothing
/// and answer `S_OK`.
pub fn missing_queue_answer(call: XTaskQueueCall) -> (hr: i32)
    ensures
        hr == (match call {
            XTaskQueueCall::GetPort | XTaskQueueCall::DuplicateHandle => E_FAIL,
            _ => S_OK,
        }),
{
    match call {
        XTaskQueueCall::GetPort | XTaskQueueCall::DuplicateHandle => E_FAIL,
        _ => S_OK,
    }
}

/// `XTaskQueueGetCurrentProcessTaskQueue`: answers `true`; the out handle is
/// a duplicate of the process queue when one is set, and left untouched when
/// none is.
pub fn current_process_task_queue(process_queue: Option<u64>) -> (r: (bool, Option<u64>))
    ensures
        r == (true, process_queue),
{
    (true, process_queue)
}

/// Whether dispatching a port can run a waiting callback: only a manual
/// port holds callbacks; the other ports answer `false` at once.
pub fn port_dispatches(kind: PortKind) -> (r: bool)
    ensures
        r == (kind == PortKind::Manual),
{
    match kind {
        PortKind::Manual => true,
        _ => false,
    }
}

/// The wait result that means the wait handle was signalled.
pub const WAIT_OBJECT_0: u32 = 0;

/// Whether a finished thread-pool wait submits the waiter's callback: only
/// when its handle was signalled and the wait carries its registration.
pub fn wait_fired(result: u32, context_present: bool) -> (r: bool)
    ensures
        r == (result == WAIT_OBJECT_0 && context_present),
{
    result == WAIT_OBJECT_0 && context_present
}

/// The async object: the process task queue, if one is set.
#[derive(Clone, Copy, Debug)]
pub struct XAsync {
    pub process_queue: Option<u64>,
}

impl XAsync {
    /// `XTaskQueueSetCurrentProcessTaskQueue`: the queue becomes the process
    /// queue (`None` clears it); answers `S_OK`.
    pub fn x_task_queue_set_current_process_task_queue(&mut self, queue: Option<u64>) -> (hr: i32)
        ensures
            hr == S_OK,
            final(self).process_queue == queue,
    {
        self.process_queue = queue;
        S_OK
    }

    /// `XTaskQueueGetCurrentProcessTaskQueue` (see `current_process_task_queue`).
    pub fn x_task_queue_get_current_process_task_queue(&self) -> (r: (bool, Option<u64>))
        ensures
            r == (true, self.process_queue),
    {
        current_process_task_queue(self.process_queue)
    }
}

/// The one async object of the process: a queue whose work and completion
/// ports both run on the thread pool is created and made the process queue.
pub fn xasync_singleton(queue_handle: u64, work_port_handle: u64, completion_port_handle: u64) -> (r: (XAsync, TaskQueue))
    ensures
        r.0.process_queue == Some(queue_handle),
        r.1.wf(),
        r.1.handle == queue_handle,
        r.1.work == (PortRef { handle: work_port_handle, kind: PortKind::ThreadPool { single_worker: false } }),
        r.1.completion == (PortRef { handle: completion_port_handle, kind: PortKind::ThreadPool { single_worker: false } }),
        r.1.monitors@.len() == 0,
        r.1.waiters@.len() == 0,
        !r.1.closed,
{
    let q = x_task_queue_create(
        queue_handle,
        XTaskQueueDispatchMode::ThreadPool,
        XTaskQueueDispatchMode::ThreadPool,
        work_port_handle,
        completion_port_handle,
    );
    let mut x = XAsync { process_queue: None };
    x.x_task_queue_set_current_process_task_queue(Some(q.handle));
    (x, q)
}

/// Whether the calling thread was marked time sensitive.
#[derive(Clone, Copy, Debug, PartialEq, Eq, Structural)]
pub struct ThreadTimeSensitivity {
    pub is_time_sensitive: bool,
}

impl ThreadTimeSensitivity {
    /// A thread starts out not time sensitive.
    pub fn new() -> (t: ThreadTimeSensitivity)
        ensures
            !t.is_time_sensitive,
    {
        ThreadTimeSensitivity { is_time_sensitive: false }
    }

    /// `XThreadSetTimeSensitive`: answers `S_OK`.
    pub fn x_thread_set_time_sensitive(&mut self, is_time_sensitive_thread: bool) -> (hr: i32)
        ensures
            hr == S_OK,
            final(self).is_time_sensitive == is_time_sensitive_thread,
    {
        self.is_time_sensitive = is_time_sensitive_thread;
        S_OK
    }

    /// `XThreadIsTimeSensitive`.
    pub fn x_thread_is_time_sensitive(&self) -> (r: bool)
        ensures
            r == self.is_time_sensitive,
    {
        self.is_time_sensitive
    }

    /// `XThreadAssertNotTimeSensitive`: the runtime aborts on a time
    /// sensitive thread, so the call is only made on other threads.
    pub fn x_thread_assert_not_time_sensitive(&self)
        requires
            !self.is_time_sensitive,
    {
    }
}

/// Registering a monitor and then unregistering its token leaves the
/// monitors as they were.
pub proof fn law_monitor_register_unregister(monitors: Seq<MonitorRegistration>, next: u64, callback: u64, context: u64)
    requires
        spec_monitor_tokens_ok(monitors, next),
    ensures
        spec_remove_token_monitor(
            monitors.push(MonitorRegistration { token: next, callback, context }),
            next,
        ) == monitors,
    decreases monitors.len(),
{
    let reg = MonitorRegistration { token: next, callback, context };
    if monitors.len() == 0 {
        assert(seq![reg].drop_first() =~= Seq::<MonitorRegistration>::empty());
    } else {
        let t = monitors.drop_first();
        assert(spec_monitor_tokens_ok(t, next)) by {
            assert forall|i: int, j: int| 0 <= i < j < t.len() implies t[i].token < t[j].token by {
                assert(t[i] == monitors[i + 1] && t[j] == monitors[j + 1]);
            }
        }
        law_monitor_register_unregister(t, next, callback, context);
        assert(monitors.push(reg).drop_first() =~= t.push(reg));
        assert(monitors.push(reg)[0] == monitors[0]);
        assert(seq![monitors[0]] + t =~= monitors);
    }
}

/// Registering a waiter and then unregistering its token leaves the waiters
/// as they were.
pub proof fn law_waiter_register_unregister(
    waiters: Seq<WaiterRegistration>,
    next: u64,
    port: XTaskQueuePort,
    wait_handle: u64,
    callback: Option<u64>,
    context: u64,
)
    requires
        spec_waiter_tokens_ok(waiters, next),
    ensures
        spec_remove_token_waiter(
            waiters.push(WaiterRegistration { token: next, port, wait_handle, callback, context }),
            next,
        ) == waiters,
    decreases waiters.len(),
{
    let reg = WaiterRegistration { token: next, port, wait_handle, callback, context };
    if waiters.len() == 0 {
        assert(seq![reg].drop_first() =~= Seq::<WaiterRegistration>::empty());
    } else {
        let t = waiters.drop_first();
        assert(spec_waiter_tokens_ok(t, next)) by {
            assert forall|i: int, j: int| 0 <= i < j < t.len() implies t[i].token < t[j].token by {
                assert(t[i] == waiters[i + 1] && t[j] == waiters[j + 1]);
            }
        }
        law_waiter_register_unregister(t, next, port, wait_handle, callback, context);
        assert(waiters.push(reg).drop_first() =~= t.push(reg));
        assert(waiters.push(reg)[0] == waiters[0]);
        assert(seq![waiters[0]] + t =~= waiters);
    }
}

/// A new registration's token differs from every token already registered.
pub proof fn law_fresh_tokens(monitors: Seq<MonitorRegistration>, next: u64, waiters: Seq<WaiterRegistration>, next_waiter: u64)
    requires
        spec_monitor_tokens_ok(monitors, next),
        spec_waiter_tokens_ok(waiters, next_waiter),
    ensures
        forall|k: int| 0 <= k < monitors.len() ==> monitors[k].token != next,
        forall|k: int| 0 <= k < waiters.len() ==> waiters[k].token != next_waiter,
{
}

/// A manual port is first in, first out: dispatching after a submission
/// takes the oldest waiting entry, and the new entry waits behind the rest.
pub proof fn law_manual_port_fifo(pending: Seq<QueueEntry>, entry: QueueEntry)
    ensures
        pending.len() == 0 ==> pending.push(entry)[0] == entry
            && pending.push(entry).drop_first() == Seq::<QueueEntry>::empty(),
        pending.len() > 0 ==> pending.push(entry)[0] == pending[0]
            && pending.push(entry).drop_first() == pending.drop_first().push(entry),
{
    assert(pending.len() == 0 ==> pending.push(entry).drop_first() =~= Seq::<QueueEntry>::empty());
    assert(pending.len() > 0 ==> pending.push(entry).drop_first() =~= pending.drop_first().push(entry));
}

/// A created queue owns two ports of the kinds that its modes ask for; when
/// the two new ports have distinct, non-null handles, the queue's work and
/// completion ports are distinct and neither is null.
pub proof fn law_created_ports_distinct(
    q: TaskQueue,
    handle: u64,
    work_dispatch_mode: XTaskQueueDispatchMode,
    completion_dispatch_mode: XTaskQueueDispatchMode,
    work_port_handle: u64,
    completion_port_handle: u64,
)
    requires
        spec_created_queue(q, handle, work_dispatch_mode, completion_dispatch_mode, work_port_handle, completion_port_handle),
        work_port_handle != completion_port_handle,
        work_port_handle != 0,
        completion_port_handle != 0,
    ensures
        q.spec_get_port(XTaskQueuePort::Work) != q.spec_get_port(XTaskQueuePort::Completion),
        q.spec_get_port(XTaskQueuePort::Work).handle != 0,
        q.spec_get_port(XTaskQueuePort::Completion).handle != 0,
        spec_port_kind(work_dispatch_mode) == Some(q.spec_get_port(XTaskQueuePort::Work).kind),
        spec_port_kind(completion_dispatch_mode) == Some(q.spec_get_port(XTaskQueuePort::Completion).kind),
{
}

/// Once a queue is terminated, a callback that its immediate ports run is
/// told it is cancelled, and an entry that it leaves in a manual port names
/// it, so that dispatching the entry reports it cancelled too.
pub proof fn law_terminated_queue_cancels(q: TaskQueue, port: XTaskQueuePort, callback: Option<u64>, context: u64)
    requires
        q.closed,
    ensures
        q.spec_submit_action(port, callback, context) matches PortAction::RunNow { cancelled } ==> cancelled,
        q.spec_submit_action(port, callback, context) matches PortAction::Enqueue(e) ==> e.queue == q.handle,
{
}

} // verus!
