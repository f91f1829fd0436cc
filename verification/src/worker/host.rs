//! What the host keeps for a running worker.
//!
//! A worker reaches back into the host while one of its callbacks runs: it opens scopes, runs
//! continuations and borrows codecs. Each of these is known to the worker by an identifier
//! that holds for the invocation alone. The host's scope stacks are told apart by numbers.

use vstd::prelude::*;

use crate::native::completion::{CodecCapability, NextKind};
use crate::text::{concat2, text_eq};
use crate::text_map::{
    keys_ascend, lemma_entries_domain, lemma_entries_first,
    lemma_unique_first, TextMap,
};
use crate::worker::process::{fresh_prefixed, prefixed_identity};

verus! {

/// Why the host refuses a worker's call.
#[derive(Debug, Clone, Copy, PartialEq, Eq, Structural)]
pub enum HostStatusCode {
    /// What was asked for does not exist.
    NotFound,
    /// The worker may not ask for it.
    PermissionDenied,
    /// The call does not fit what it names.
    InvalidArgument,
    /// Something failed inside the host.
    Internal,
}

/// Status of a call that the host refuses.
#[derive(Debug)]
pub struct HostStatus {
    /// Why.
    pub code: HostStatusCode,
    /// Human-readable text.
    pub message: String,
}

/// The code and text of a status.
pub type HostStatusView = (HostStatusCode, Seq<char>);

impl View for HostStatus {
    type V = HostStatusView;

    open spec fn view(&self) -> HostStatusView {
        (self.code, self.message@)
    }
}

/// The status of a result, where it is one.
pub open spec fn refusal<T>(result: Result<T, HostStatus>) -> Option<HostStatusView> {
    match result {
        Ok(_) => None,
        Err(e) => Some(e@),
    }
}

/// A status with a fixed text.
fn status(code: HostStatusCode, message: &str) -> (r: HostStatus)
    ensures
        r@ == (code, message@),
{
    HostStatus { code, message: message.to_owned() }
}

/// A scope stack that a worker knows.
#[derive(Debug, Clone, Copy, PartialEq, Eq, Structural)]
pub struct StoredScopeStack {
    /// Which stack of the host it is.
    pub handle: u64,
    /// Depth of the stack when the invocation began, for a stack that belongs to one.
    pub invocation_base_depth: Option<usize>,
}

/// A stack that has to be unwound once no other invocation uses it.
#[derive(Debug, Clone, Copy, PartialEq, Eq, Structural)]
pub struct PendingScopeCleanup {
    /// Which stack it is.
    pub handle: u64,
    /// Depth to unwind it to.
    pub base_depth: usize,
}

/// A scope that a worker opened.
#[derive(Debug)]
pub struct StoredScopeHandle {
    /// Identity of the scope.
    pub uuid: String,
    /// Stack that the scope lies on, empty for the host's current one.
    pub scope_stack_id: String,
}

/// A codec that is lent to a worker.
#[derive(Debug)]
pub struct WorkerCodecCapability {
    /// Invocation that it is lent to.
    pub invocation_id: String,
    /// What it decodes.
    pub direction: CodecCapability,
}

/// What the host keeps for a worker.
pub struct WorkerHostRuntimeState {
    /// Identity of the activation.
    pub activation_id: String,
    /// Token that worker and host show each other.
    pub auth_token: String,
    /// Scope stacks by identifier.
    pub scope_stacks: TextMap<StoredScopeStack>,
    /// Stacks to unwind later.
    pub pending_scope_cleanups: Vec<PendingScopeCleanup>,
    /// Stacks that are being unwound.
    pub scope_stack_cleanups: Vec<u64>,
    /// Open scopes by identifier.
    pub scope_handles: TextMap<StoredScopeHandle>,
    /// Continuations by identifier.
    pub continuations: TextMap<NextKind>,
    /// Lent codecs by identifier.
    pub codecs: TextMap<WorkerCodecCapability>,
}

/// Whether some invocation uses a stack.
pub open spec fn in_use(stacks: Map<Seq<char>, StoredScopeStack>, handle: u64) -> bool {
    exists|id: Seq<char>| #[trigger]
        stacks.contains_key(id) && stacks[id].handle == handle
            && stacks[id].invocation_base_depth is Some
}

/// The lowest depth that a stack has to be unwound to.
pub open spec fn lowest_base(
    pending: Seq<PendingScopeCleanup>,
    handle: u64,
    base_depth: usize,
) -> usize
    decreases pending.len(),
{
    if pending.len() == 0 {
        base_depth
    } else {
        let before = lowest_base(pending.drop_last(), handle, base_depth);
        let last = pending.last();
        if last.handle == handle && last.base_depth < before {
            last.base_depth
        } else {
            before
        }
    }
}

/// The stacks that are still to be unwound once one is.
pub open spec fn without_handle(pending: Seq<PendingScopeCleanup>, handle: u64) -> Seq<
    PendingScopeCleanup,
>
    decreases pending.len(),
{
    if pending.len() == 0 {
        pending
    } else {
        let before = without_handle(pending.drop_last(), handle);
        if pending.last().handle == handle {
            before
        } else {
            before.push(pending.last())
        }
    }
}

/// The stacks that are still being unwound once one is done.
pub open spec fn handles_without(handles: Seq<u64>, handle: u64) -> Seq<u64>
    decreases handles.len(),
{
    if handles.len() == 0 {
        handles
    } else {
        let before = handles_without(handles.drop_last(), handle);
        if handles.last() == handle {
            before
        } else {
            before.push(handles.last())
        }
    }
}

/// What ending an invocation's use of a stack leads to: the stacks left, those to unwind
/// later, and the stack to unwind now with its depth.
pub open spec fn invocation_ended(
    stacks: Map<Seq<char>, StoredScopeStack>,
    pending: Seq<PendingScopeCleanup>,
    id: Seq<char>,
) -> (Map<Seq<char>, StoredScopeStack>, Seq<PendingScopeCleanup>, Option<(u64, usize)>) {
    if !stacks.contains_key(id) {
        (stacks, pending, None)
    } else {
        let stored = stacks[id];
        let left = stacks.remove(id);
        match stored.invocation_base_depth {
            None => (left, pending, None),
            Some(base_depth) => if in_use(left, stored.handle) {
                (
                    left,
                    pending.push(PendingScopeCleanup { handle: stored.handle, base_depth }),
                    None,
                )
            } else {
                (
                    left,
                    without_handle(pending, stored.handle),
                    Some((stored.handle, lowest_base(pending, stored.handle, base_depth))),
                )
            },
        }
    }
}

/// The problem of borrowing a codec.
pub open spec fn codec_problem(
    codecs: Map<Seq<char>, WorkerCodecCapability>,
    id: Seq<char>,
    invocation_id: Seq<char>,
    direction: CodecCapability,
) -> Option<HostStatusView> {
    if !codecs.contains_key(id) {
        Some((HostStatusCode::NotFound, "codec capability is unavailable"@))
    } else if codecs[id].invocation_id@ != invocation_id {
        Some(
            (
                HostStatusCode::PermissionDenied,
                "codec capability does not belong to this invocation"@,
            ),
        )
    } else if codecs[id].direction != direction {
        Some(
            (
                HostStatusCode::InvalidArgument,
                if direction == CodecCapability::Request {
                    "codec capability is response-only"@
                } else {
                    "codec capability is request-only"@
                },
            ),
        )
    } else {
        None
    }
}

/// Whether some invocation uses a stack.
pub fn has_active_scope_stack_alias(stacks: &TextMap<StoredScopeStack>, handle: u64) -> (r: bool)
    requires
        stacks.ordered(),
    ensures
        r == in_use(stacks@, handle),
{
    let mut i: usize = 0;
    while i < stacks.entries.len()
        invariant
            i <= stacks.entries.len(),
            stacks.ordered(),
            forall|k: int|
                0 <= k < i ==> !((#[trigger] stacks.entries@[k]).1.handle == handle
                    && stacks.entries@[k].1.invocation_base_depth is Some),
        decreases stacks.entries.len() - i,
    {
        let stored = stacks.entries[i].1;
        if stored.handle == handle && stored.invocation_base_depth.is_some() {
            proof {
                let key = stacks.entries@[i as int].0@;
                lemma_unique_first(stacks.entries@, i as int);
                lemma_entries_first(stacks.entries@, key, i as int);
                assert(stacks@.contains_key(key));
            }
            return true;
        }
        i += 1;
    }
    proof {
        assert forall|id: Seq<char>| #[trigger] stacks@.contains_key(id) implies !(
        stacks@[id].handle == handle && stacks@[id].invocation_base_depth is Some) by {
            lemma_entries_domain(stacks.entries@, id);
            let k = choose|k: int|
                0 <= k < stacks.entries@.len() && (#[trigger] stacks.entries@[k]).0@ == id;
            lemma_unique_first(stacks.entries@, k);
            lemma_entries_first(stacks.entries@, id, k);
        }
    }
    false
}

impl WorkerHostRuntimeState {
    /// Whether every table is in key order.
    pub open spec fn wf(self) -> bool {
        &&& self.scope_stacks.ordered()
        &&& self.scope_handles.ordered()
        &&& self.continuations.ordered()
        &&& self.codecs.ordered()
    }

    /// What the host keeps for a new worker.
    pub fn new(activation_id: String, auth_token: String) -> (r: Self)
        ensures
            r.wf(),
            r.activation_id == activation_id,
            r.auth_token == auth_token,
            r.scope_stacks@ == Map::<Seq<char>, StoredScopeStack>::empty(),
            r.pending_scope_cleanups@.len() == 0,
            r.scope_stack_cleanups@.len() == 0,
            r.scope_handles@ == Map::<Seq<char>, StoredScopeHandle>::empty(),
            r.continuations@ == Map::<Seq<char>, NextKind>::empty(),
            r.codecs@ == Map::<Seq<char>, WorkerCodecCapability>::empty(),
    {
        WorkerHostRuntimeState {
            activation_id,
            auth_token,
            scope_stacks: TextMap::new(),
            pending_scope_cleanups: Vec::new(),
            scope_stack_cleanups: Vec::new(),
            scope_handles: TextMap::new(),
            continuations: TextMap::new(),
            codecs: TextMap::new(),
        }
    }

    /// Checks that a call comes from the worker of this activation.
    pub fn authorize(&self, activation_id: &str, token: &str) -> (r: Result<(), HostStatus>)
        ensures
            refusal(r) == (if activation_id@ == self.activation_id@ && token@ == self.auth_token@ {
                None
            } else {
                Some((HostStatusCode::PermissionDenied, "invalid worker host token"@))
            }),
    {
        if !text_eq(activation_id, self.activation_id.as_str()) || !text_eq(
            token,
            self.auth_token.as_str(),
        ) {
            return Err(status(HostStatusCode::PermissionDenied, "invalid worker host token"));
        }
        Ok(())
    }

    /// Lends a codec to an invocation under a given identifier.
    pub fn insert_codec_as(
        &mut self,
        id: String,
        invocation_id: &str,
        direction: CodecCapability,
    )
        requires
            old(self).wf(),
        ensures
            final(self).wf(),
            final(self).codecs@ == old(self).codecs@.insert(id@, final(self).codecs@[id@]),
            final(self).codecs@[id@].invocation_id@ == invocation_id@,
            final(self).codecs@[id@].direction == direction,
            final(self).only_codecs_changed(*old(self)),
    {
        let capability = WorkerCodecCapability {
            invocation_id: invocation_id.to_owned(),
            direction,
        };
        self.codecs.insert(id, capability);
    }

    /// Whether nothing but the codecs differs.
    pub open spec fn only_codecs_changed(self, before: Self) -> bool {
        &&& self.activation_id == before.activation_id
        &&& self.auth_token == before.auth_token
        &&& self.scope_stacks == before.scope_stacks
        &&& self.pending_scope_cleanups == before.pending_scope_cleanups
        &&& self.scope_stack_cleanups == before.scope_stack_cleanups
        &&& self.scope_handles == before.scope_handles
        &&& self.continuations == before.continuations
    }

    /// Lends a codec to an invocation under a fresh identifier.
    pub fn insert_codec(&mut self, invocation_id: &str, direction: CodecCapability) -> (r: String)
        requires
            old(self).wf(),
        ensures
            final(self).wf(),
            prefixed_identity("codec-"@, r@),
            codec_problem(final(self).codecs@, r@, invocation_id@, direction) is None,
            final(self).codecs@ == old(self).codecs@.insert(r@, final(self).codecs@[r@]),
            final(self).only_codecs_changed(*old(self)),
    {
        let id = fresh_prefixed("codec-");
        let r = id.clone();
        self.insert_codec_as(id, invocation_id, direction);
        r
    }

    /// Takes a lent codec back.
    pub fn remove_codec(&mut self, id: &str)
        requires
            old(self).wf(),
        ensures
            final(self).wf(),
            final(self).codecs@ == old(self).codecs@.remove(id@),
            final(self).only_codecs_changed(*old(self)),
    {
        let _ = self.codecs.remove(id);
    }

    /// Checks that an invocation may use a codec in a direction.
    pub fn check_codec(&self, id: &str, invocation_id: &str, direction: CodecCapability) -> (r:
        Result<(), HostStatus>)
        ensures
            refusal(r) == codec_problem(self.codecs@, id@, invocation_id@, direction),
    {
        let capability = match self.codecs.get(id) {
            None => {
                return Err(status(HostStatusCode::NotFound, "codec capability is unavailable"));
            },
            Some(capability) => capability,
        };
        if !text_eq(capability.invocation_id.as_str(), invocation_id) {
            return Err(
                status(
                    HostStatusCode::PermissionDenied,
                    "codec capability does not belong to this invocation",
                ),
            );
        }
        if capability.direction == direction {
            return Ok(());
        }
        let text = match direction {
            CodecCapability::Request => "codec capability is response-only",
            CodecCapability::Response => "codec capability is request-only",
        };
        Err(status(HostStatusCode::InvalidArgument, text))
    }

    /// Whether a stack is being unwound; an invocation waits until it is not.
    pub fn is_unwinding(&self, handle: u64) -> (r: bool)
        ensures
            r == self.scope_stack_cleanups@.contains(handle),
    {
        let mut i: usize = 0;
        while i < self.scope_stack_cleanups.len()
            invariant
                i <= self.scope_stack_cleanups@.len(),
                forall|k: int| 0 <= k < i ==> self.scope_stack_cleanups@[k] != handle,
            decreases self.scope_stack_cleanups.len() - i,
        {
            if self.scope_stack_cleanups[i] == handle {
                return true;
            }
            i += 1;
        }
        false
    }

    /// Lets an invocation use a stack, whose depth is kept to unwind it to.
    pub fn insert_invocation_scope_stack(&mut self, id: String, handle: u64, depth: usize)
        requires
            old(self).wf(),
            !old(self).scope_stack_cleanups@.contains(handle),
        ensures
            final(self).wf(),
            final(self).scope_stacks@ == old(self).scope_stacks@.insert(
                id@,
                StoredScopeStack { handle, invocation_base_depth: Some(depth) },
            ),
            final(self).only_stacks_changed(*old(self)),
            final(self).pending_scope_cleanups == old(self).pending_scope_cleanups,
            final(self).scope_stack_cleanups == old(self).scope_stack_cleanups,
    {
        self.scope_stacks.insert(
            id,
            StoredScopeStack { handle, invocation_base_depth: Some(depth) },
        );
    }

    /// Gives a worker a stack of its own.
    pub fn create_scope_stack(&mut self, id: String, handle: u64)
        requires
            old(self).wf(),
        ensures
            final(self).wf(),
            final(self).scope_stacks@ == old(self).scope_stacks@.insert(
                id@,
                StoredScopeStack { handle, invocation_base_depth: None },
            ),
            final(self).only_stacks_changed(*old(self)),
            final(self).pending_scope_cleanups == old(self).pending_scope_cleanups,
            final(self).scope_stack_cleanups == old(self).scope_stack_cleanups,
    {
        self.scope_stacks.insert(id, StoredScopeStack { handle, invocation_base_depth: None });
    }

    /// Takes a stack from a worker; one that it does not have is no error.
    pub fn drop_scope_stack(&mut self, id: &str)
        requires
            old(self).wf(),
        ensures
            final(self).wf(),
            final(self).scope_stacks@ == old(self).scope_stacks@.remove(id@),
            final(self).only_stacks_changed(*old(self)),
            final(self).pending_scope_cleanups == old(self).pending_scope_cleanups,
            final(self).scope_stack_cleanups == old(self).scope_stack_cleanups,
    {
        let _ = self.scope_stacks.remove(id);
    }

    /// Whether nothing but the stacks and their unwinding differs.
    pub open spec fn only_stacks_changed(self, before: Self) -> bool {
        &&& self.activation_id == before.activation_id
        &&& self.auth_token == before.auth_token
        &&& self.scope_handles == before.scope_handles
        &&& self.continuations == before.continuations
        &&& self.codecs == before.codecs
    }

    /// Ends an invocation's use of a stack: gives the stack and the depth to unwind it to, once
    /// the last invocation that uses it has ended.
    pub fn take_invocation_scope_cleanup(&mut self, id: &str) -> (r: Option<(u64, usize)>)
        requires
            old(self).wf(),
        ensures
            final(self).wf(),
            final(self).only_stacks_changed(*old(self)),
            ({
                let (stacks, pending, unwind) = invocation_ended(
                    old(self).scope_stacks@,
                    old(self).pending_scope_cleanups@,
                    id@,
                );
                &&& final(self).scope_stacks@ == stacks
                &&& final(self).pending_scope_cleanups@ == pending
                &&& r == unwind
                &&& final(self).scope_stack_cleanups@ == (match unwind {
                    Some((handle, _)) => old(self).scope_stack_cleanups@.push(handle),
                    None => old(self).scope_stack_cleanups@,
                })
            }),
    {
        let stored = match self.scope_stacks.remove(id) {
            None => {
                return None;
            },
            Some(stored) => stored,
        };
        let base_depth = match stored.invocation_base_depth {
            None => {
                return None;
            },
            Some(base_depth) => base_depth,
        };
        if has_active_scope_stack_alias(&self.scope_stacks, stored.handle) {
            self.pending_scope_cleanups.push(
                PendingScopeCleanup { handle: stored.handle, base_depth },
            );
            return None;
        }
        let lowest = self.take_pending(stored.handle, base_depth);
        self.scope_stack_cleanups.push(stored.handle);
        Some((stored.handle, lowest))
    }

    /// Takes out what is to be unwound of a stack, and gives the lowest depth.
    fn take_pending(&mut self, handle: u64, base_depth: usize) -> (r: usize)
        ensures
            r == lowest_base(old(self).pending_scope_cleanups@, handle, base_depth),
            final(self).pending_scope_cleanups@ == without_handle(
                old(self).pending_scope_cleanups@,
                handle,
            ),
            final(self).only_stacks_changed(*old(self)),
            final(self).scope_stacks == old(self).scope_stacks,
            final(self).scope_stack_cleanups == old(self).scope_stack_cleanups,
    {
        let ghost all = self.pending_scope_cleanups@;
        let mut kept: Vec<PendingScopeCleanup> = Vec::new();
        let mut lowest = base_depth;
        let mut i: usize = 0;
        assert(all.take(0) =~= Seq::empty());
        while i < self.pending_scope_cleanups.len()
            invariant
                i <= self.pending_scope_cleanups@.len(),
                all == self.pending_scope_cleanups@,
                *self == *old(self),
                lowest == lowest_base(all.take(i as int), handle, base_depth),
                kept@ == without_handle(all.take(i as int), handle),
            decreases self.pending_scope_cleanups.len() - i,
        {
            let cleanup = self.pending_scope_cleanups[i];
            proof {
                assert(all.take(i + 1).drop_last() =~= all.take(i as int));
                assert(all.take(i + 1).last() == cleanup);
            }
            if cleanup.handle == handle {
                if cleanup.base_depth < lowest {
                    lowest = cleanup.base_depth;
                }
            } else {
                kept.push(cleanup);
            }
            i += 1;
        }
        assert(all.take(i as int) =~= all);
        self.pending_scope_cleanups = kept;
        lowest
    }
}

/// The scopes that do not lie on a stack.
pub open spec fn scopes_off(
    entries: Seq<(String, StoredScopeHandle)>,
    stack_id: Seq<char>,
) -> Seq<(String, StoredScopeHandle)>
    decreases entries.len(),
{
    if entries.len() == 0 {
        entries
    } else {
        let before = scopes_off(entries.drop_last(), stack_id);
        if entries.last().1.scope_stack_id@ == stack_id {
            before
        } else {
            before.push(entries.last())
        }
    }
}

/// Dropping scopes keeps the order of the others, and every one that stays was there.
proof fn lemma_scopes_off(entries: Seq<(String, StoredScopeHandle)>, stack_id: Seq<char>)
    ensures
        forall|i: int|
            0 <= i < scopes_off(entries, stack_id).len() ==> entries.contains(
                #[trigger] scopes_off(entries, stack_id)[i],
            ) && scopes_off(entries, stack_id)[i].1.scope_stack_id@ != stack_id,
        forall|i: int|
            0 <= i < entries.len() && (#[trigger] entries[i]).1.scope_stack_id@ != stack_id
                ==> scopes_off(entries, stack_id).contains(entries[i]),
        keys_ascend(entries) ==> keys_ascend(scopes_off(entries, stack_id)),
    decreases entries.len(),
{
    if entries.len() > 0 {
        let front = entries.drop_last();
        lemma_scopes_off(front, stack_id);
        let before = scopes_off(front, stack_id);
        let now = scopes_off(entries, stack_id);
        assert forall|i: int| 0 <= i < now.len() implies entries.contains(#[trigger] now[i])
            && now[i].1.scope_stack_id@ != stack_id by {
            if i < before.len() {
                assert(now[i] == before[i]);
                assert(front.contains(before[i]));
                let k = choose|k: int| 0 <= k < front.len() && front[k] == before[i];
                assert(entries[k] == now[i]);
            } else {
                assert(now[i] == entries[entries.len() - 1]);
            }
        }
        assert forall|i: int|
            0 <= i < entries.len() && (#[trigger] entries[i]).1.scope_stack_id@
                != stack_id implies now.contains(entries[i]) by {
            if i < front.len() {
                assert(front[i] == entries[i]);
                assert(before.contains(front[i]));
                let k = choose|k: int| 0 <= k < before.len() && before[k] == front[i];
                assert(now[k] == entries[i]);
            } else {
                assert(now[now.len() - 1] == entries[i]);
            }
        }
        if keys_ascend(entries) {
            assert forall|i: int, j: int| 0 <= i < j < front.len() implies crate::text::less(
                (#[trigger] front[i]).0@,
                (#[trigger] front[j]).0@,
            ) by {
                assert(front[i] == entries[i] && front[j] == entries[j]);
            }
            assert forall|i: int, j: int| 0 <= i < j < now.len() implies crate::text::less(
                (#[trigger] now[i]).0@,
                (#[trigger] now[j]).0@,
            ) by {
                if j < before.len() {
                    assert(now[i] == before[i] && now[j] == before[j]);
                } else {
                    assert(now[i] == before[i]);
                    assert(front.contains(before[i]));
                    let k = choose|k: int| 0 <= k < front.len() && front[k] == before[i];
                    assert(entries[k] == now[i]);
                    assert(now[j] == entries[entries.len() - 1]);
                }
            }
        }
    }
}

/// What to do next while a stack is unwound.
#[derive(Debug, Clone, Copy, PartialEq, Eq, Structural)]
pub enum UnwindStep {
    /// Look at the depth of the stack.
    Look,
    /// Pop the top scope, with its end event.
    Pop,
    /// Take the top scope off without an event, as it could not be popped.
    Remove,
    /// Nothing: the stack is as low as it has to be, or cannot be lowered further.
    Done,
}

/// What came of a step of unwinding a stack.
#[derive(Debug, Clone, Copy, PartialEq, Eq, Structural)]
pub enum UnwindEvent {
    /// The depth of the stack.
    Depth(usize),
    /// The stack cannot be reached.
    Unreachable,
    /// Whether the top scope was popped.
    Popped(bool),
    /// Whether the top scope was taken off.
    Removed(bool),
}

/// The step that follows an event while a stack is unwound to a depth.
pub open spec fn unwind_after(
    step: UnwindStep,
    event: UnwindEvent,
    base_depth: usize,
) -> UnwindStep {
    match (step, event) {
        (UnwindStep::Look, UnwindEvent::Depth(depth)) => if depth <= base_depth {
            UnwindStep::Done
        } else {
            UnwindStep::Pop
        },
        (UnwindStep::Pop, UnwindEvent::Popped(popped)) => if popped {
            UnwindStep::Look
        } else {
            UnwindStep::Remove
        },
        (UnwindStep::Remove, UnwindEvent::Removed(removed)) => if removed {
            UnwindStep::Look
        } else {
            UnwindStep::Done
        },
        (_, UnwindEvent::Unreachable) => UnwindStep::Done,
        _ => step,
    }
}

/// The step that follows an event while a stack is unwound to a depth. Unwinding begins with
/// a look at the stack.
pub fn next_unwind_step(step: UnwindStep, event: UnwindEvent, base_depth: usize) -> (r: UnwindStep)
    ensures
        r == unwind_after(step, event, base_depth),
{
    match (step, event) {
        (UnwindStep::Look, UnwindEvent::Depth(depth)) => if depth <= base_depth {
            UnwindStep::Done
        } else {
            UnwindStep::Pop
        },
        (UnwindStep::Pop, UnwindEvent::Popped(popped)) => if popped {
            UnwindStep::Look
        } else {
            UnwindStep::Remove
        },
        (UnwindStep::Remove, UnwindEvent::Removed(removed)) => if removed {
            UnwindStep::Look
        } else {
            UnwindStep::Done
        },
        (_, UnwindEvent::Unreachable) => UnwindStep::Done,
        _ => step,
    }
}

/// Unwinding takes a scope off only from a stack that is deeper than the depth to unwind it to,
/// and looks again after each one; what is done stays so.
pub proof fn law_unwinding_keeps_the_base(step: UnwindStep, event: UnwindEvent, base_depth: usize)
    ensures
        step == UnwindStep::Look && unwind_after(step, event, base_depth) == UnwindStep::Pop
            ==> (event matches UnwindEvent::Depth(depth) && depth > base_depth),
        unwind_after(step, event, base_depth) == UnwindStep::Remove ==> step == UnwindStep::Remove
            || event == UnwindEvent::Popped(false),
        step == UnwindStep::Pop && event == UnwindEvent::Popped(true) ==> unwind_after(
            step,
            event,
            base_depth,
        ) == UnwindStep::Look,
        step == UnwindStep::Remove && event == UnwindEvent::Removed(true) ==> unwind_after(
            step,
            event,
            base_depth,
        ) == UnwindStep::Look,
        step == UnwindStep::Done ==> unwind_after(step, event, base_depth) == UnwindStep::Done,
{
}

/// Where a worker's call runs.
#[derive(Debug, Clone, Copy, PartialEq, Eq, Structural)]
pub enum CallStack {
    /// On the host's current stack.
    Current,
    /// On a stack that the worker names.
    Named(u64),
}

/// The stack that an identifier names, where it is not empty.
pub open spec fn named_stack(stacks: Map<Seq<char>, StoredScopeStack>, id: Seq<char>) -> Result<
    CallStack,
    HostStatusView,
> {
    if id.len() == 0 {
        Ok(CallStack::Current)
    } else if stacks.contains_key(id) {
        Ok(CallStack::Named(stacks[id].handle))
    } else {
        Err((HostStatusCode::NotFound, "scope stack not found"@))
    }
}

/// The continuation that a call runs, or why it cannot.
pub open spec fn continuation_problem(
    continuations: Map<Seq<char>, NextKind>,
    id: Seq<char>,
    kind: NextKind,
) -> Option<HostStatusView> {
    if !continuations.contains_key(id) {
        Some((HostStatusCode::NotFound, "continuation not found"@))
    } else if continuations[id] != kind {
        Some(
            (
                HostStatusCode::InvalidArgument,
                match kind {
                    NextKind::Tool => "continuation is not a tool continuation"@,
                    NextKind::Llm => "continuation is not an LLM continuation"@,
                    NextKind::LlmStream => "continuation is not an LLM stream continuation"@,
                },
            ),
        )
    } else {
        None
    }
}

impl WorkerHostRuntimeState {
    /// Ends the unwinding of a stack.
    pub fn finish_cleanup(&mut self, handle: u64)
        requires
            old(self).wf(),
        ensures
            final(self).wf(),
            final(self).only_stacks_changed(*old(self)),
            final(self).scope_stacks == old(self).scope_stacks,
            final(self).pending_scope_cleanups == old(self).pending_scope_cleanups,
            final(self).scope_stack_cleanups@ == handles_without(
                old(self).scope_stack_cleanups@,
                handle,
            ),
    {
        let ghost all = self.scope_stack_cleanups@;
        let mut kept: Vec<u64> = Vec::new();
        let mut i: usize = 0;
        assert(all.take(0) =~= Seq::empty());
        while i < self.scope_stack_cleanups.len()
            invariant
                i <= self.scope_stack_cleanups@.len(),
                all == self.scope_stack_cleanups@,
                *self == *old(self),
                kept@ == handles_without(all.take(i as int), handle),
            decreases self.scope_stack_cleanups.len() - i,
        {
            let next = self.scope_stack_cleanups[i];
            proof {
                assert(all.take(i + 1).drop_last() =~= all.take(i as int));
                assert(all.take(i + 1).last() == next);
            }
            if next != handle {
                kept.push(next);
            }
            i += 1;
        }
        assert(all.take(i as int) =~= all);
        self.scope_stack_cleanups = kept;
    }

    /// Forgets the scopes that lie on a stack.
    pub fn forget_scope_handles(&mut self, stack_id: &str)
        requires
            old(self).wf(),
        ensures
            final(self).wf(),
            final(self).scope_handles.entries@ == scopes_off(
                old(self).scope_handles.entries@,
                stack_id@,
            ),
            final(self).only_handles_changed(*old(self)),
    {
        let ghost all = self.scope_handles.entries@;
        let mut rest: Vec<(String, StoredScopeHandle)> = Vec::new();
        rest.append(&mut self.scope_handles.entries);
        assert(rest@ =~= all);
        let mut kept: Vec<(String, StoredScopeHandle)> = Vec::new();
        let ghost mut done: int = 0;
        assert(all.take(0) =~= Seq::empty());
        assert(all.skip(0) =~= all);
        while rest.len() > 0
            invariant
                0 <= done <= all.len(),
                rest@ == all.skip(done),
                kept@ == scopes_off(all.take(done), stack_id@),
            decreases rest.len(),
        {
            let entry = rest.remove(0);
            proof {
                assert(entry == all[done]);
                assert(rest@ =~= all.skip(done + 1));
                assert(all.take(done + 1).drop_last() =~= all.take(done));
                assert(all.take(done + 1).last() == entry);
                done = done + 1;
            }
            if !text_eq(entry.1.scope_stack_id.as_str(), stack_id) {
                kept.push(entry);
            }
        }
        proof {
            assert(all.take(done) =~= all);
            lemma_scopes_off(all, stack_id@);
        }
        self.scope_handles = TextMap { entries: kept };
    }

    /// Whether nothing but the scopes differs.
    pub open spec fn only_handles_changed(self, before: Self) -> bool {
        &&& self.activation_id == before.activation_id
        &&& self.auth_token == before.auth_token
        &&& self.scope_stacks == before.scope_stacks
        &&& self.pending_scope_cleanups == before.pending_scope_cleanups
        &&& self.scope_stack_cleanups == before.scope_stack_cleanups
        &&& self.continuations == before.continuations
        &&& self.codecs == before.codecs
    }

    /// Keeps a scope that a worker opened; gives the identifier that the worker knows it by.
    pub fn insert_scope_handle(&mut self, uuid: &str, scope_stack_id: &str) -> (r: String)
        requires
            old(self).wf(),
        ensures
            final(self).wf(),
            r@ == "scope-"@ + uuid@,
            final(self).scope_handles@ == old(self).scope_handles@.insert(
                r@,
                final(self).scope_handles@[r@],
            ),
            final(self).scope_handles@[r@].uuid@ == uuid@,
            final(self).scope_handles@[r@].scope_stack_id@ == scope_stack_id@,
            final(self).only_handles_changed(*old(self)),
    {
        let id = concat2("scope-", uuid);
        let r = id.clone();
        self.scope_handles.insert(
            id,
            StoredScopeHandle {
                uuid: uuid.to_owned(),
                scope_stack_id: scope_stack_id.to_owned(),
            },
        );
        r
    }

    /// Takes out a scope that a worker closes.
    pub fn take_scope_handle(&mut self, id: &str) -> (r: Result<StoredScopeHandle, HostStatus>)
        requires
            old(self).wf(),
        ensures
            final(self).wf(),
            final(self).scope_handles@ == old(self).scope_handles@.remove(id@),
            final(self).only_handles_changed(*old(self)),
            match r {
                Ok(handle) => old(self).scope_handles@.contains_key(id@) && handle == old(
                    self).scope_handles@[id@],
                Err(e) => !old(self).scope_handles@.contains_key(id@) && e@ == (
                    HostStatusCode::NotFound,
                    "scope handle not found"@,
                ),
            },
    {
        match self.scope_handles.remove(id) {
            Some(handle) => Ok(handle),
            None => Err(status(HostStatusCode::NotFound, "scope handle not found")),
        }
    }

    /// The stack that a worker names for a call; an empty name is the host's current one.
    pub fn call_stack(&self, scope_stack_id: Option<&str>) -> (r: Result<CallStack, HostStatus>)
        ensures
            ({
                let expected = match scope_stack_id {
                    Some(id) => named_stack(self.scope_stacks@, id@),
                    None => Ok(CallStack::Current),
                };
                match r {
                    Ok(stack) => expected == Ok::<CallStack, HostStatusView>(stack),
                    Err(e) => expected == Err::<CallStack, HostStatusView>(e@),
                }
            }),
    {
        let id = match scope_stack_id {
            None => {
                return Ok(CallStack::Current);
            },
            Some(id) => id,
        };
        if id.is_empty() {
            return Ok(CallStack::Current);
        }
        match self.scope_stacks.get(id) {
            Some(stored) => Ok(CallStack::Named(stored.handle)),
            None => Err(status(HostStatusCode::NotFound, "scope stack not found")),
        }
    }

    /// Keeps a continuation under a given identifier.
    pub fn insert_continuation_as(&mut self, id: String, kind: NextKind)
        requires
            old(self).wf(),
        ensures
            final(self).wf(),
            final(self).continuations@ == old(self).continuations@.insert(id@, kind),
            final(self).only_continuations_changed(*old(self)),
    {
        self.continuations.insert(id, kind);
    }

    /// Whether nothing but the continuations differs.
    pub open spec fn only_continuations_changed(self, before: Self) -> bool {
        &&& self.activation_id == before.activation_id
        &&& self.auth_token == before.auth_token
        &&& self.scope_stacks == before.scope_stacks
        &&& self.pending_scope_cleanups == before.pending_scope_cleanups
        &&& self.scope_stack_cleanups == before.scope_stack_cleanups
        &&& self.scope_handles == before.scope_handles
        &&& self.codecs == before.codecs
    }

    /// Keeps a continuation under a fresh identifier.
    pub fn insert_continuation(&mut self, kind: NextKind) -> (r: String)
        requires
            old(self).wf(),
        ensures
            final(self).wf(),
            prefixed_identity("next-"@, r@),
            final(self).continuations@ == old(self).continuations@.insert(r@, kind),
            final(self).only_continuations_changed(*old(self)),
    {
        let id = fresh_prefixed("next-");
        let r = id.clone();
        self.insert_continuation_as(id, kind);
        r
    }

    /// Forgets a continuation.
    pub fn remove_continuation(&mut self, id: &str)
        requires
            old(self).wf(),
        ensures
            final(self).wf(),
            final(self).continuations@ == old(self).continuations@.remove(id@),
            final(self).only_continuations_changed(*old(self)),
    {
        let _ = self.continuations.remove(id);
    }

    /// Checks that a continuation is of the kind that a call runs.
    pub fn check_continuation(&self, id: &str, kind: NextKind) -> (r: Result<(), HostStatus>)
        ensures
            refusal(r) == continuation_problem(self.continuations@, id@, kind),
    {
        match self.continuations.get(id) {
            None => Err(status(HostStatusCode::NotFound, "continuation not found")),
            Some(found) => {
                if *found == kind {
                    return Ok(());
                }
                let text = match kind {
                    NextKind::Tool => "continuation is not a tool continuation",
                    NextKind::Llm => "continuation is not an LLM continuation",
                    NextKind::LlmStream => "continuation is not an LLM stream continuation",
                };
                Err(status(HostStatusCode::InvalidArgument, text))
            },
        }
    }
}

/// A fresh identifier for a stack that an invocation uses.
pub fn fresh_invocation_stack_id() -> (r: String)
    ensures
        prefixed_identity("invoke-"@, r@),
{
    fresh_prefixed("invoke-")
}

/// A fresh identifier for a stack of a worker's own.
pub fn fresh_stack_id() -> (r: String)
    ensures
        prefixed_identity("stack-"@, r@),
{
    fresh_prefixed("stack-")
}

/// A stack is unwound only once no invocation uses it any more.
pub proof fn law_stack_in_use_is_not_unwound(
    stacks: Map<Seq<char>, StoredScopeStack>,
    pending: Seq<PendingScopeCleanup>,
    id: Seq<char>,
)
    ensures
        invocation_ended(stacks, pending, id).2 matches Some((handle, _)) ==> !in_use(
            invocation_ended(stacks, pending, id).0,
            handle,
        ),
{
}

/// Two invocations that share a stack: ending the one leaves the stack alone, ending the other
/// unwinds it, to the lower of the two depths and with nothing left to unwind later.
pub proof fn law_shared_stack_is_unwound_once(
    stacks: Map<Seq<char>, StoredScopeStack>,
    pending: Seq<PendingScopeCleanup>,
    first: Seq<char>,
    second: Seq<char>,
    handle: u64,
    first_depth: usize,
    second_depth: usize,
)
    requires
        first != second,
        stacks.contains_key(first),
        stacks[first] == (StoredScopeStack { handle, invocation_base_depth: Some(first_depth) }),
        stacks.contains_key(second),
        stacks[second] == (StoredScopeStack { handle, invocation_base_depth: Some(second_depth) }),
        !in_use(stacks.remove(first).remove(second), handle),
        forall|i: int| 0 <= i < pending.len() ==> (#[trigger] pending[i]).handle != handle,
    ensures
        ({
            let (left, waiting, unwound) = invocation_ended(stacks, pending, first);
            let (end, none_waiting, last) = invocation_ended(left, waiting, second);
            &&& unwound is None
            &&& last == Some(
                (
                    handle,
                    if first_depth < second_depth {
                        first_depth
                    } else {
                        second_depth
                    },
                ),
            )
            &&& none_waiting == pending
        }),
{
    let (left, waiting, _) = invocation_ended(stacks, pending, first);
    assert(left.contains_key(second));
    assert(in_use(left, handle));
    lemma_untouched(pending, handle, second_depth);
    assert(waiting.drop_last() =~= pending);
}

/// Cleanups of other stacks neither lower a depth nor go away.
proof fn lemma_untouched(pending: Seq<PendingScopeCleanup>, handle: u64, base_depth: usize)
    requires
        forall|i: int| 0 <= i < pending.len() ==> (#[trigger] pending[i]).handle != handle,
    ensures
        lowest_base(pending, handle, base_depth) == base_depth,
        without_handle(pending, handle) == pending,
    decreases pending.len(),
{
    if pending.len() > 0 {
        let front = pending.drop_last();
        assert forall|i: int| 0 <= i < front.len() implies (#[trigger] front[i]).handle
            != handle by {
            assert(front[i] == pending[i]);
        }
        lemma_untouched(front, handle, base_depth);
        assert(pending[pending.len() - 1].handle != handle);
        assert(front.push(pending.last()) =~= pending);
    }
}

/// A codec serves the invocation that it is lent to, in its direction, and no other.
pub proof fn law_codec_serves_its_invocation(
    codecs: Map<Seq<char>, WorkerCodecCapability>,
    id: Seq<char>,
    invocation_id: Seq<char>,
    direction: CodecCapability,
)
    ensures
        codec_problem(codecs, id, invocation_id, direction) is None <==> codecs.contains_key(id)
            && codecs[id].invocation_id@ == invocation_id && codecs[id].direction == direction,
        codec_problem(codecs.remove(id), id, invocation_id, direction) is Some,
{
}

/// A codec is lent to a worker's call exactly where it is known, belongs to the invocation and works
/// in the direction that is asked for.
pub proof fn law_codecs_are_lent_to_their_invocation(
    codecs: Map<Seq<char>, WorkerCodecCapability>,
    id: Seq<char>,
    invocation_id: Seq<char>,
    direction: CodecCapability,
)
    ensures
        codec_problem(codecs, id, invocation_id, direction) is None <==> codecs.contains_key(id)
            && codecs[id].invocation_id@ == invocation_id && codecs[id].direction == direction,
        !codecs.contains_key(id) ==> codec_problem(codecs, id, invocation_id, direction) == Some(
            (HostStatusCode::NotFound, "codec capability is unavailable"@),
        ),
        codecs.contains_key(id) && codecs[id].invocation_id@ != invocation_id ==> codec_problem(
            codecs,
            id,
            invocation_id,
            direction,
        ) == Some(
            (
                HostStatusCode::PermissionDenied,
                "codec capability does not belong to this invocation"@,
            ),
        ),
        codecs.contains_key(id) && codecs[id].invocation_id@ == invocation_id
            && codecs[id].direction != direction ==> codec_problem(
            codecs,
            id,
            invocation_id,
            direction,
        ) == Some(
            (
                HostStatusCode::InvalidArgument,
                if direction == CodecCapability::Request {
                    "codec capability is response-only"@
                } else {
                    "codec capability is request-only"@
                },
            ),
        ),
{
}

/// A continuation runs exactly where it is known and is of the kind that is asked for.
pub proof fn law_continuations_run_by_kind(
    continuations: Map<Seq<char>, NextKind>,
    id: Seq<char>,
    kind: NextKind,
)
    ensures
        continuation_problem(continuations, id, kind) is None <==> continuations.contains_key(id)
            && continuations[id] == kind,
        !continuations.contains_key(id) ==> continuation_problem(continuations, id, kind) == Some(
            (HostStatusCode::NotFound, "continuation not found"@),
        ),
        continuations.contains_key(id) && continuations[id] != kind ==> (continuation_problem(
            continuations,
            id,
            kind,
        )->0).0 == HostStatusCode::InvalidArgument,
{
}

/// A call without the name of a stack works on the current one, and one with a name on that stack,
/// where it is known.
pub proof fn law_calls_work_on_their_stack(
    stacks: Map<Seq<char>, StoredScopeStack>,
    id: Seq<char>,
)
    ensures
        named_stack(stacks, Seq::empty()) == Ok::<CallStack, HostStatusView>(CallStack::Current),
        id.len() > 0 && stacks.contains_key(id) ==> named_stack(stacks, id) == Ok::<
            CallStack,
            HostStatusView,
        >(CallStack::Named(stacks[id].handle)),
        id.len() > 0 && !stacks.contains_key(id) ==> named_stack(stacks, id) == Err::<
            CallStack,
            HostStatusView,
        >((HostStatusCode::NotFound, "scope stack not found"@)),
{
}

/// A stack is unwound step by step: a scope above the base is popped, or removed where it cannot be
/// popped, until the base is reached or the stack is out of reach.
pub proof fn law_unwinding_goes_to_the_base(depth: usize, base_depth: usize, step: UnwindStep)
    ensures
        depth <= base_depth ==> unwind_after(UnwindStep::Look, UnwindEvent::Depth(depth), base_depth)
            == UnwindStep::Done,
        depth > base_depth ==> unwind_after(UnwindStep::Look, UnwindEvent::Depth(depth), base_depth)
            == UnwindStep::Pop,
        unwind_after(UnwindStep::Pop, UnwindEvent::Popped(true), base_depth) == UnwindStep::Look,
        unwind_after(UnwindStep::Pop, UnwindEvent::Popped(false), base_depth) == UnwindStep::Remove,
        unwind_after(UnwindStep::Remove, UnwindEvent::Removed(true), base_depth)
            == UnwindStep::Look,
        unwind_after(UnwindStep::Remove, UnwindEvent::Removed(false), base_depth)
            == UnwindStep::Done,
        unwind_after(step, UnwindEvent::Unreachable, base_depth) == UnwindStep::Done,
{
}

/// The end of an invocation gives its stack up. One that the invocation brought along is unwound
/// where no other invocation works on it, down to the lowest depth that any of them found; while
/// another one does, unwinding waits. A stack that the worker made itself is only forgotten.
pub proof fn law_ended_invocations_give_their_stack_up(
    stacks: Map<Seq<char>, StoredScopeStack>,
    pending: Seq<PendingScopeCleanup>,
    id: Seq<char>,
    other: Seq<char>,
    i: int,
)
    ensures
        ({
            let (left, waiting, unwind) = invocation_ended(stacks, pending, id);
            let handle = stacks[id].handle;
            let base = stacks[id].invocation_base_depth;
            &&& !left.contains_key(id)
            &&& other != id ==> left.contains_key(other) == stacks.contains_key(other)
            &&& other != id && stacks.contains_key(other) ==> left[other] == stacks[other]
            &&& !stacks.contains_key(id) ==> unwind is None && waiting == pending
            &&& stacks.contains_key(id) && base is None ==> unwind is None && waiting == pending
            &&& stacks.contains_key(id) && base is Some && other != id && stacks.contains_key(other)
                && stacks[other].handle == handle && stacks[other].invocation_base_depth is Some
                ==> unwind is None && waiting.len() == pending.len() + 1 && waiting.last().handle
                == handle && waiting.last().base_depth == base->0
            &&& unwind matches Some((unwound, depth)) ==> {
                &&& stacks.contains_key(id) && unwound == handle
                &&& depth <= base->0
                &&& 0 <= i < pending.len() && pending[i].handle == handle ==> depth
                    <= pending[i].base_depth
                &&& !(exists|k: Seq<char>| #[trigger]
                    left.contains_key(k) && left[k].handle == handle
                        && left[k].invocation_base_depth is Some)
            }
        }),
{
    let (left, waiting, unwind) = invocation_ended(stacks, pending, id);
    if stacks.contains_key(id) {
        let handle = stacks[id].handle;
        if other != id && stacks.contains_key(other) && stacks[other].handle == handle
            && stacks[other].invocation_base_depth is Some {
            assert(left.contains_key(other));
            assert(in_use(left, handle));
        }
        if stacks[id].invocation_base_depth is Some {
            lemma_lowest_base(pending, handle, stacks[id].invocation_base_depth->0, i);
        }
    }
}

/// The lowest base is no higher than any of them, and one of them.
proof fn lemma_lowest_base(
    pending: Seq<PendingScopeCleanup>,
    handle: u64,
    base_depth: usize,
    i: int,
)
    ensures
        lowest_base(pending, handle, base_depth) <= base_depth,
        0 <= i < pending.len() && pending[i].handle == handle ==> lowest_base(
            pending,
            handle,
            base_depth,
        ) <= pending[i].base_depth,
        lowest_base(pending, handle, base_depth) == base_depth || exists|k: int|
            0 <= k < pending.len() && (#[trigger] pending[k]).handle == handle
                && pending[k].base_depth == lowest_base(pending, handle, base_depth),
    decreases pending.len(),
{
    if pending.len() > 0 {
        let front = pending.drop_last();
        lemma_lowest_base(front, handle, base_depth, i);
        if 0 <= i < front.len() {
            assert(front[i] == pending[i]);
        }
        let before = lowest_base(front, handle, base_depth);
        if pending.last().handle == handle && pending.last().base_depth < before {
            assert(pending[pending.len() - 1].base_depth == lowest_base(
                pending,
                handle,
                base_depth,
            ));
        } else if before != base_depth {
            let k = choose|k: int|
                0 <= k < front.len() && (#[trigger] front[k]).handle == handle
                    && front[k].base_depth == before;
            assert(pending[k] == front[k]);
        }
    }
}

/// A stack is unwound to a depth at which some invocation found it.
pub proof fn law_stacks_are_unwound_to_a_base(
    pending: Seq<PendingScopeCleanup>,
    handle: u64,
    base_depth: usize,
)
    ensures
        lowest_base(pending, handle, base_depth) <= base_depth,
        lowest_base(pending, handle, base_depth) == base_depth || exists|k: int|
            0 <= k < pending.len() && (#[trigger] pending[k]).handle == handle
                && pending[k].base_depth == lowest_base(pending, handle, base_depth),
{
    lemma_lowest_base(pending, handle, base_depth, 0);
}

/// Taking entries out takes out those that are meant, and only those.
pub proof fn law_only_the_own_entries_are_taken_out(
    pending: Seq<PendingScopeCleanup>,
    cleanup: PendingScopeCleanup,
    handles: Seq<u64>,
    entries: Seq<(String, StoredScopeHandle)>,
    entry: (String, StoredScopeHandle),
    handle: u64,
    other: u64,
    stack_id: Seq<char>,
)
    ensures
        cleanup.handle == handle ==> without_handle(pending.push(cleanup), handle) == without_handle(
            pending,
            handle,
        ),
        cleanup.handle != handle ==> without_handle(pending.push(cleanup), handle) == without_handle(
            pending,
            handle,
        ).push(cleanup),
        other == handle ==> handles_without(handles.push(other), handle) == handles_without(
            handles,
            handle,
        ),
        other != handle ==> handles_without(handles.push(other), handle) == handles_without(
            handles,
            handle,
        ).push(other),
        entry.1.scope_stack_id@ == stack_id ==> scopes_off(entries.push(entry), stack_id)
            == scopes_off(entries, stack_id),
        entry.1.scope_stack_id@ != stack_id ==> scopes_off(entries.push(entry), stack_id)
            == scopes_off(entries, stack_id).push(entry),
{
    assert(pending.push(cleanup).drop_last() =~= pending);
    assert(handles.push(other).drop_last() =~= handles);
    assert(entries.push(entry).drop_last() =~= entries);
}

/// A stack is in use exactly where some invocation that brought it along still works on it.
pub proof fn law_stacks_in_use(stacks: Map<Seq<char>, StoredScopeStack>, handle: u64)
    ensures
        in_use(stacks, handle) <==> exists|id: Seq<char>| #[trigger]
            stacks.contains_key(id) && stacks[id].handle == handle
                && stacks[id].invocation_base_depth is Some,
{
}

/// What is told where a continuation is of another kind.
pub proof fn law_wrong_continuations_are_told(
    continuations: Map<Seq<char>, NextKind>,
    id: Seq<char>,
    kind: NextKind,
)
    requires
        continuations.contains_key(id),
        continuations[id] != kind,
    ensures
        kind is Tool ==> continuation_problem(continuations, id, kind) == Some(
            (HostStatusCode::InvalidArgument, "continuation is not a tool continuation"@),
        ),
        kind is Llm ==> continuation_problem(continuations, id, kind) == Some(
            (HostStatusCode::InvalidArgument, "continuation is not an LLM continuation"@),
        ),
        kind is LlmStream ==> continuation_problem(continuations, id, kind) == Some(
            (HostStatusCode::InvalidArgument, "continuation is not an LLM stream continuation"@),
        ),
{
}

/// A change of one of the host's tables leaves everything else as it is.
pub proof fn law_host_changes_are_confined(
    state: WorkerHostRuntimeState,
    before: WorkerHostRuntimeState,
)
    ensures
        state.only_codecs_changed(before) || state.only_stacks_changed(before)
            || state.only_handles_changed(before) || state.only_continuations_changed(before)
            ==> state.activation_id == before.activation_id && state.auth_token
            == before.auth_token,
        state.only_codecs_changed(before) ==> state.scope_stacks == before.scope_stacks
            && state.pending_scope_cleanups == before.pending_scope_cleanups
            && state.scope_stack_cleanups == before.scope_stack_cleanups && state.scope_handles
            == before.scope_handles && state.continuations == before.continuations,
        state.only_stacks_changed(before) ==> state.scope_handles == before.scope_handles
            && state.continuations == before.continuations && state.codecs == before.codecs,
        state.only_handles_changed(before) ==> state.scope_stacks == before.scope_stacks
            && state.pending_scope_cleanups == before.pending_scope_cleanups
            && state.scope_stack_cleanups == before.scope_stack_cleanups && state.continuations
            == before.continuations && state.codecs == before.codecs,
        state.only_continuations_changed(before) ==> state.scope_stacks == before.scope_stacks
            && state.pending_scope_cleanups == before.pending_scope_cleanups
            && state.scope_stack_cleanups == before.scope_stack_cleanups && state.scope_handles
            == before.scope_handles && state.codecs == before.codecs,
{
}

} // verus!
