use vstd::prelude::*;

use crate::ordered_map::{MapKey, OrderedMap};

verus! {

/// A process id.
#[derive(Debug, Clone, Copy, PartialEq, Eq, Structural)]
pub struct Pid(i32);

impl View for Pid {
    type V = i32;

    closed spec fn view(&self) -> i32 {
        self.0
    }
}

impl Pid {
    pub fn from_raw(raw: i32) -> (r: Pid)
        ensures
            r@ == raw,
    {
        Pid(raw)
    }

    pub fn as_raw(&self) -> (r: i32)
        ensures
            r == self@,
    {
        self.0
    }

    /// The id of a spawned child, which the operating system reports unsigned,
    /// reinterpreted as a process id.
    pub fn from_child_id(id: u32) -> (r: Pid)
        ensures
            r@ == id as i32,
    {
        Pid(id as i32)
    }
}

/// Two process ids are equal exactly when their raw values are.
pub proof fn lemma_pid_view_injective(a: Pid, b: Pid)
    ensures
        (a@ == b@) == (a == b),
{
}

impl MapKey for Pid {
    fn same_key(&self, other: &Self) -> (r: bool) {
        self.0 == other.0
    }
}

/// What waiting on a child reported: signals are given by number.
#[derive(Debug, Clone, Copy, PartialEq, Eq, Structural)]
pub enum WaitOutcome {
    Exited(Pid, i32),
    Signaled(Pid, i32, bool),
    Stopped(Pid, i32),
    PtraceEvent(Pid, i32, i32),
    PtraceSyscall(Pid),
    Continued(Pid),
    StillAlive,
}

/// What the child-reaping loop does with one result of waiting.
#[derive(Debug, Clone, Copy, PartialEq, Eq, Structural)]
pub enum ReapStep {
    /// The child has ended: pass the outcome on to the event loop, and report it.
    Forward,
    /// The child was stopped: report it and wait again.
    Report,
    /// Nothing more to reap.
    Stop,
}

/// The step for one result of waiting (`None` when waiting failed).
pub open spec fn reap_step_of(r: Option<WaitOutcome>) -> ReapStep {
    match r {
        Some(WaitOutcome::Exited(_, _)) => ReapStep::Forward,
        Some(WaitOutcome::Signaled(_, _, _)) => ReapStep::Forward,
        Some(WaitOutcome::Stopped(_, _)) => ReapStep::Report,
        _ => ReapStep::Stop,
    }
}

/// Decides what the reaping loop does with one result of waiting.
pub fn reap_step(r: &Option<WaitOutcome>) -> (s: ReapStep)
    ensures
        s == reap_step_of(*r),
{
    match r {
        Some(WaitOutcome::Exited(_, _)) => ReapStep::Forward,
        Some(WaitOutcome::Signaled(_, _, _)) => ReapStep::Forward,
        Some(WaitOutcome::Stopped(_, _)) => ReapStep::Report,
        _ => ReapStep::Stop,
    }
}

/// Whether an outcome is one that the event loop is sent: the child has ended.
pub open spec fn has_ended(s: WaitOutcome) -> bool {
    s is Exited || s is Signaled
}

/// The process an ended child had, and the two arguments its exit callback gets:
/// the exit code and the signal number, the one that does not apply being zero.
pub open spec fn exit_args_of(s: WaitOutcome) -> (Pid, Seq<i64>) {
    match s {
        WaitOutcome::Exited(pid, code) => (pid, seq![code as i64, 0i64]),
        WaitOutcome::Signaled(pid, signal, _) => (pid, seq![0i64, signal as i64]),
        _ => arbitrary(),
    }
}

/// An exited child's callback gets its exit code and zero; a killed child's
/// gets zero and the signal's number; both for the child's own process.
pub proof fn lemma_exit_args(pid: Pid, code: i32, signal: i32, core: bool)
    ensures
        exit_args_of(WaitOutcome::Exited(pid, code)).0 == pid,
        exit_args_of(WaitOutcome::Exited(pid, code)).1 =~= seq![code as i64, 0i64],
        exit_args_of(WaitOutcome::Signaled(pid, signal, core)).0 == pid,
        exit_args_of(WaitOutcome::Signaled(pid, signal, core)).1 =~= seq![0i64, signal as i64],
{
}

/// Ended children are passed on, stopped ones reported, and anything else,
/// a failed wait included, ends the reaping.
pub proof fn lemma_reap_steps(r: Option<WaitOutcome>)
    ensures
        reap_step_of(r) == ReapStep::Forward <==> (r matches Some(s) && (s is Exited || s is Signaled)),
        reap_step_of(r) == ReapStep::Report <==> (r matches Some(s) && s is Stopped),
{
}

/// The process and callback arguments for an ended child.
pub fn exit_callback_args(s: &WaitOutcome) -> (r: (Pid, [i64; 2]))
    requires
        has_ended(*s),
    ensures
        r.0 == exit_args_of(*s).0,
        r.1@ == exit_args_of(*s).1,
{
    match s {
        WaitOutcome::Exited(pid, code) => {
            let a = [*code as i64, 0];
            assert(a@ =~= seq![*code as i64, 0i64]);
            (*pid, a)
        },
        WaitOutcome::Signaled(pid, signal, _) => {
            let a = [0, *signal as i64];
            assert(a@ =~= seq![0i64, *signal as i64]);
            (*pid, a)
        },
        _ => (Pid(0), [0, 0]),
    }
}

/// The callbacks that scripts registered to run when a child ends, by process id.
pub struct ProcessState<F> {
    pub on_exit_cbs: OrderedMap<Pid, F>,
}

impl<F> ProcessState<F> {
    /// No callback registered.
    pub fn new() -> (r: Self)
        ensures
            r.on_exit_cbs@ == Map::<Pid, F>::empty(),
    {
        ProcessState { on_exit_cbs: OrderedMap::new() }
    }

    /// Registers the callback to run when process `pid` ends, replacing any
    /// earlier one; a process registered again keeps its position, a new one goes last.
    pub fn on_exit(&mut self, pid: Pid, cb: F)
        ensures
            final(self).on_exit_cbs@ == old(self).on_exit_cbs@.insert(pid, cb),
            final(self).on_exit_cbs.key_order() == if old(self).on_exit_cbs@.contains_key(pid) {
                old(self).on_exit_cbs.key_order()
            } else {
                old(self).on_exit_cbs.key_order().push(pid)
            },
    {
        self.on_exit_cbs.insert(pid, cb);
    }

    /// For a child that has ended, the callback registered for its process, with
    /// the arguments to call it with; `None` when no callback is registered.
    pub fn exit_callback(&self, s: &WaitOutcome) -> (r: Option<(&F, [i64; 2])>)
        requires
            has_ended(*s),
        ensures
            ({
                let (pid, args) = exit_args_of(*s);
                match r {
                    Some((cb, a)) => self.on_exit_cbs@.contains_key(pid) && *cb
                        == self.on_exit_cbs@[pid] && a@ == args,
                    None => !self.on_exit_cbs@.contains_key(pid),
                }
            }),
    {
        let (pid, args) = exit_callback_args(s);
        match self.on_exit_cbs.get(&pid) {
            Some(cb) => Some((cb, args)),
            None => None,
        }
    }
}

} // verus!
