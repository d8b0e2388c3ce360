use vstd::prelude::*;
use crate::bridge::{dispatch_action_and_wait, ActionMessage, Entry, Observer, Outbox};
use crate::error::{RibosomeError, Stage};
use crate::host::{spec_table, HostFunction};
use std::sync::mpsc::Sender;

verus! {

/// The decimal form of a natural number.
pub open spec fn digits_of(n: nat) -> Seq<char>
    decreases n,
{
    let digits = seq!['0', '1', '2', '3', '4', '5', '6', '7', '8', '9'];
    if n < 10 {
        seq![digits[n as int]]
    } else {
        digits_of(n / 10).push(digits[(n % 10) as int])
    }
}

/// The decimal form of an integer, with a leading `-` when it is negative.
pub open spec fn decimal_of(v: int) -> Seq<char> {
    if v < 0 {
        seq!['-'] + digits_of((-v) as nat)
    } else {
        digits_of(v as nat)
    }
}

/// The identifier `commit` hands back for the entry that is the `n`-th one
/// committed in a call (counting from zero). Content identifiers are not
/// settled yet: this is the entry's position, kept within `i32`.
pub open spec fn commit_id(n: nat) -> i32 {
    (n % 0x8000_0000) as i32
}

/// Relies on `i32`'s `to_string` (std's `Display` for integers): the decimal
/// digits, with a leading `-` for a negative value.
#[verifier::external_body]
fn decimal(v: i32) -> (r: String)
    ensures
        r@ == decimal_of(v as int),
{
    v.to_string()
}

/// The immutable outcome of a completed call: what the guest printed, in
/// order, the entries it committed, and the decimal form of what the export
/// returned.
#[derive(Clone)]
pub struct Runtime {
    pub print_output: Vec<u32>,
    pub committed: Vec<Entry>,
    pub result: String,
}

/// The mutable, per-call state that host calls act on. It is made fresh for
/// each call and consumed once into a `Runtime`.
pub struct ExecutionContext {
    print_output: Vec<u32>,
    committed: Vec<Entry>,
    fault: FaultSlot,
    actions: Outbox<ActionMessage>,
    observers: Outbox<Observer>,
}

/// A context as `ExecutionContext::new` makes it: nothing printed, nothing
/// committed, no failure recorded.
pub open spec fn is_fresh(c: &ExecutionContext) -> bool {
    &&& c.output() == Seq::<u32>::empty()
    &&& c.commits() == Seq::<Entry>::empty()
    &&& c.fault() is None
    &&& c.sent_actions() == Seq::<ActionMessage>::empty()
    &&& c.sent_observers() == Seq::<Observer>::empty()
}

/// `after` is `before` with `print(v)` performed: `v` appended to the output,
/// nothing committed and nothing sent to the state store.
pub open spec fn print_recorded(before: &ExecutionContext, after: &ExecutionContext, v: i32) -> bool {
    &&& after.output() == before.output().push(v as u32)
    &&& after.commits() == before.commits()
    &&& after.fault() == before.fault()
    &&& after.sent_actions() == before.sent_actions()
    &&& after.sent_observers() == before.sent_observers()
}

/// `after` is `before` with nothing changed but what `commit` may change.
pub open spec fn output_kept(before: &ExecutionContext, after: &ExecutionContext) -> bool {
    &&& after.output() == before.output()
    &&& after.fault() == before.fault()
}

/// `after` is `before` unchanged, as far as its record goes.
pub open spec fn unchanged(before: &ExecutionContext, after: &ExecutionContext) -> bool {
    &&& output_kept(before, after)
    &&& after.commits() == before.commits()
    &&& after.sent_actions() == before.sent_actions()
    &&& after.sent_observers() == before.sent_observers()
}

/// A call that performs `print(v)` once on a fresh context has `[v]` as its
/// whole output, has committed nothing and has sent nothing on either
/// channel.
pub proof fn lemma_single_print(fresh: &ExecutionContext, after: &ExecutionContext, v: i32)
    requires
        is_fresh(fresh),
        print_recorded(fresh, after, v),
    ensures
        after.output() == seq![v as u32],
        after.commits().len() == 0,
        after.fault() is None,
        after.sent_actions().len() == 0,
        after.sent_observers().len() == 0,
{
    assert(after.output() =~= seq![v as u32]);
}

/// The output of a context that started fresh and then performed
/// `print(vs[0])`, `print(vs[1])`, ... in turn is exactly those values, in
/// that order: it holds nothing printed by any other call.
pub proof fn lemma_output_is_own_prints(steps: Seq<ExecutionContext>, vs: Seq<i32>)
    requires
        steps.len() == vs.len() + 1,
        is_fresh(&steps[0]),
        forall|i: int| 0 <= i < vs.len() ==> print_recorded(&steps[i], &#[trigger] steps[i + 1], vs[i]),
    ensures
        steps.last().output() == vs.map_values(|v: i32| v as u32),
        steps.last().commits().len() == 0,
        steps.last().sent_actions().len() == 0,
        steps.last().sent_observers().len() == 0,
    decreases vs.len(),
{
    if vs.len() == 0 {
        assert(vs.map_values(|v: i32| v as u32) =~= Seq::<u32>::empty());
    } else {
        let n = vs.len() - 1;
        let head = steps.subrange(0, vs.len() as int);
        let prefix = vs.subrange(0, n as int);
        assert forall|i: int| 0 <= i < prefix.len() implies print_recorded(&head[i], &#[trigger] head[i + 1], prefix[i]) by {
            assert(print_recorded(&steps[i], &steps[i + 1], vs[i]));
        }
        lemma_output_is_own_prints(head, prefix);
        assert(print_recorded(&steps[n as int], &steps[n + 1], vs[n as int]));
        assert(vs.map_values(|v: i32| v as u32) =~= prefix.map_values(|v: i32| v as u32).push(vs[n as int] as u32));
    }
}

/// The failure of a host call, kept until the guest has unwound. Only a
/// failure that arises while the guest runs is ever kept.
pub struct FaultSlot {
    fault: Option<RibosomeError>,
}

impl FaultSlot {
    #[verifier::type_invariant]
    spec fn arises_in_guest(&self) -> bool {
        self.fault matches Some(e) ==> e.spec_stage() == Stage::Execute
    }

    pub closed spec fn view(&self) -> Option<RibosomeError> {
        self.fault.view()
    }

    pub fn empty() -> (r: Self)
        ensures
            r.view() is None,
    {
        FaultSlot { fault: None }
    }

    pub fn set(&mut self, e: RibosomeError)
        requires
            e.spec_stage() == Stage::Execute,
        ensures
            final(self).view() == Some(e),
    {
        *self = FaultSlot { fault: Some(e) };
    }

    pub fn take(&mut self) -> (r: Option<RibosomeError>)
        ensures
            r == old(self).view(),
            r matches Some(e) ==> e.spec_stage() == Stage::Execute,
            final(self).view() is None,
    {
        proof {
            use_type_invariant(&*self);
        }
        let mut taken = FaultSlot { fault: None };
        std::mem::swap(self, &mut taken);
        proof {
            use_type_invariant(&taken);
        }
        taken.fault
    }
}

impl ExecutionContext {
    /// The values printed so far, in order.
    pub closed spec fn output(&self) -> Seq<u32> {
        self.print_output@
    }

    /// The entries committed so far, in order.
    pub closed spec fn commits(&self) -> Seq<Entry> {
        self.committed@
    }

    /// The actions sent to the state store so far, in order.
    pub closed spec fn sent_actions(&self) -> Seq<ActionMessage> {
        self.actions.sent()
    }

    /// The observers registered with the state store so far, in order.
    pub closed spec fn sent_observers(&self) -> Seq<Observer> {
        self.observers.sent()
    }

    /// The failure of a host call that stopped the guest, if any.
    pub closed spec fn fault(&self) -> Option<RibosomeError> {
        self.fault.view()
    }

    /// A fresh context that sends state mutations on its own clones of the
    /// two channels.
    pub fn new(action_channel: &Sender<ActionMessage>, observer_channel: &Sender<Observer>) -> (r: Self)
        ensures
            is_fresh(&r),
    {
        ExecutionContext {
            print_output: Vec::new(),
            committed: Vec::new(),
            fault: FaultSlot::empty(),
            actions: Outbox::new(action_channel),
            observers: Outbox::new(observer_channel),
        }
    }

    /// Performs the host call at `index` with the guest's arguments `args`.
    ///
    /// `print` appends its argument, read as an unsigned 32-bit value, to the
    /// output. `commit` makes an entry of its two arguments, dispatches it and
    /// waits until the store has applied it, then returns the entry's
    /// identifier. An index outside the table, or arguments that do not match
    /// the function's signature, give a typed failure and change nothing.
    pub fn host_call(&mut self, index: usize, args: &Vec<i32>) -> (r: Result<Option<i32>, RibosomeError>)
        ensures
            index >= spec_table().len() ==> {
                &&& r matches Err(RibosomeError::UnknownHostCall { index: i }) && i == index
                &&& unchanged(old(self), final(self))
            },
            index < spec_table().len() && args@.len() != spec_table()[index as int].spec_arity() ==> {
                &&& r matches Err(RibosomeError::HostCallArgumentMismatch { index: i }) && i == index
                &&& unchanged(old(self), final(self))
            },
            spec_table()[index as int] == HostFunction::Print && args@.len() == 1 && index < spec_table().len() ==> {
                &&& r == Ok::<Option<i32>, RibosomeError>(None)
                &&& print_recorded(old(self), final(self), args@[0])
            },
            spec_table()[index as int] == HostFunction::Commit && args@.len() == 2 && index < spec_table().len() ==> {
                let entry = Entry { entry_type: args@[0], content: args@[1] };
                let action = ActionMessage::Commit { token: old(self).commits().len() as u64, entry };
                &&& output_kept(old(self), final(self))
                &&& r is Ok ==> {
                    &&& r == Ok::<Option<i32>, RibosomeError>(Some(commit_id(old(self).commits().len())))
                    &&& final(self).commits() == old(self).commits().push(entry)
                    &&& final(self).sent_actions() == old(self).sent_actions().push(action)
                    &&& final(self).sent_observers().len() == old(self).sent_observers().len() + 1
                    &&& final(self).sent_observers().last().action == action
                    &&& final(self).sent_observers().last().token == action.spec_token()
                }
                &&& r is Err ==> {
                    &&& r matches Err(RibosomeError::DispatchChannelClosed)
                    &&& final(self).commits() == old(self).commits()
                }
            },
    {
        let f = match HostFunction::from_index(index) {
            Some(f) => f,
            None => return Err(RibosomeError::UnknownHostCall { index }),
        };
        match f {
            HostFunction::Print => {
                if args.len() != 1 {
                    return Err(RibosomeError::HostCallArgumentMismatch { index });
                }
                self.print_output.push(args[0] as u32);
                Ok(None)
            },
            HostFunction::Commit => {
                if args.len() != 2 {
                    return Err(RibosomeError::HostCallArgumentMismatch { index });
                }
                let entry = Entry { entry_type: args[0], content: args[1] };
                let n = self.committed.len();
                let action = ActionMessage::Commit { token: n as u64, entry };
                match dispatch_action_and_wait(&mut self.actions, &mut self.observers, action) {
                    Ok(()) => {
                        self.committed.push(entry);
                        Ok(Some((n % 0x8000_0000) as i32))
                    },
                    Err(e) => Err(e),
                }
            },
        }
    }

    /// Records the failure of a host call, to be reported once the guest has
    /// unwound.
    pub fn record_fault(&mut self, e: RibosomeError)
        requires
            e.spec_stage() == Stage::Execute,
        ensures
            final(self).fault() == Some(e),
            final(self).output() == old(self).output(),
            final(self).commits() == old(self).commits(),
    {
        self.fault.set(e);
    }

    /// The recorded failure of a host call, if any.
    pub fn take_fault(&mut self) -> (r: Option<RibosomeError>)
        ensures
            r == old(self).fault(),
            r matches Some(e) ==> e.spec_stage() == Stage::Execute,
            final(self).fault() is None,
            final(self).output() == old(self).output(),
            final(self).commits() == old(self).commits(),
    {
        self.fault.take()
    }

    /// Consumes the context into the outcome of a call whose export returned
    /// `value`.
    pub fn finish(self, value: i32) -> (r: Runtime)
        ensures
            r.print_output@ == self.output(),
            r.committed@ == self.commits(),
            r.result@ == decimal_of(value as int),
    {
        Runtime { print_output: self.print_output, committed: self.committed, result: decimal(value) }
    }
}

} // verus!
