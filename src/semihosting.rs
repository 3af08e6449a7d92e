//! Semihosting: requests to the host debug monitor. The trap itself is made
//! by the caller; this module decides what each call carries and what the
//! host's answer means, so that a write resubmits exactly the unwritten tail
//! of its buffer and never reaches outside it.

use vstd::prelude::*;

verus! {

/// Request number of the host's OPEN call.
pub const OPEN: usize = 0x01;

/// Request number of the host's WRITE call.
pub const WRITE: usize = 0x05;

/// OPEN mode: write, creating or truncating the file.
pub const OPEN_W_TRUNC: usize = 4;

/// What the host's OPEN call returns on failure (`-1` read as signed).
pub const OPEN_FAILED: usize = usize::MAX;

/// An open host-side stream, as the host numbered it.
#[derive(Clone, Copy, Debug, PartialEq, Eq, Structural)]
pub struct HostFileHandle {
    value: usize,
}

impl HostFileHandle {
    pub closed spec fn view(&self) -> usize {
        self.value
    }
}

/// The host failed to open the stream.
#[derive(Clone, Copy, Debug, PartialEq, Eq, Structural)]
pub struct OpenError;

/// Reads the result of an OPEN call: `-1` is a failure, any other value
/// (0 included) is the handle of the opened stream.
pub fn open_result(ret: usize) -> (r: Result<HostFileHandle, OpenError>)
    ensures
        ret == OPEN_FAILED <==> r is Err,
        r matches Ok(h) ==> h@ == ret,
{
    if ret == OPEN_FAILED {
        Err(OpenError)
    } else {
        Ok(HostFileHandle { value: ret })
    }
}

/// Name of the host's debug console, with its terminating zero byte.
pub const CONSOLE_NAME: &'static str = ":tt\0";

/// Arguments of an OPEN call besides the pointer to the name: the mode and
/// the length of the name without its terminator.
#[derive(Clone, Copy, Debug, PartialEq, Eq, Structural)]
pub struct OpenCall {
    pub mode: usize,
    pub name_len: usize,
}

/// Builds the OPEN call for a zero-terminated `name`.
pub fn open_call(name: &[u8], mode: usize) -> (r: OpenCall)
    requires
        name@.len() > 0,
    ensures
        r.mode == mode,
        r.name_len == name@.len() - 1,
{
    OpenCall { mode, name_len: name.len() - 1 }
}

/// Progress of a write: the part of the buffer still to send, or the end.
#[derive(Clone, Copy, Debug, PartialEq, Eq, Structural)]
pub enum WriteState {
    /// `remaining` bytes from `offset` on are still to be written.
    Pending { offset: usize, remaining: usize },
    /// Every byte was written.
    Done,
    /// The host answered with a value that is no remainder.
    Failed,
}

/// The state in which a write of `len` bytes starts.
pub open spec fn begin_spec(len: nat) -> WriteState {
    if len == 0 {
        WriteState::Done
    } else {
        WriteState::Pending { offset: 0, remaining: len as usize }
    }
}

/// The state after the host answered `ret` (the count of bytes not written)
/// to the call made in `st`.
pub open spec fn step_spec(st: WriteState, ret: int) -> WriteState {
    match st {
        WriteState::Pending { offset, remaining } => {
            if ret == 0 {
                WriteState::Done
            } else if 0 < ret <= remaining {
                WriteState::Pending {
                    offset: (offset + (remaining - ret)) as usize,
                    remaining: ret as usize,
                }
            } else {
                WriteState::Failed
            }
        },
        _ => st,
    }
}

/// A state whose pending range fits in a buffer of `total` bytes and ends
/// at its end.
pub open spec fn state_within(st: WriteState, total: nat) -> bool {
    match st {
        WriteState::Pending { offset, remaining } => offset + remaining == total && remaining > 0,
        _ => true,
    }
}

/// The calls, as (offset, length), made from state `st` when the host
/// answers `rets` in turn.
pub open spec fn calls_spec(st: WriteState, rets: Seq<int>) -> Seq<(int, int)>
    decreases rets.len(),
{
    match st {
        WriteState::Pending { offset, remaining } => {
            if rets.len() == 0 {
                Seq::empty()
            } else {
                seq![(offset as int, remaining as int)] + calls_spec(
                    step_spec(st, rets[0]),
                    rets.drop_first(),
                )
            }
        },
        _ => Seq::empty(),
    }
}

/// The state reached from `st` when the host answers `rets` in turn.
pub open spec fn after_spec(st: WriteState, rets: Seq<int>) -> WriteState
    decreases rets.len(),
{
    match st {
        WriteState::Pending { .. } => {
            if rets.len() == 0 {
                st
            } else {
                after_spec(step_spec(st, rets[0]), rets.drop_first())
            }
        },
        _ => st,
    }
}

/// The state in which a write of `len` bytes starts: an empty write is
/// done at once, without a host call.
pub fn write_begin(len: usize) -> (st: WriteState)
    ensures
        st == begin_spec(len as nat),
        state_within(st, len as nat),
        len == 0 <==> st is Done,
{
    if len == 0 {
        WriteState::Done
    } else {
        WriteState::Pending { offset: 0, remaining: len }
    }
}

/// Takes the host's answer `ret` to the call made in `st`: 0 ends the write,
/// a remainder up to what was sent keeps the tail pending, anything else
/// fails. `Done` and `Failed` stay as they are.
pub fn write_step(st: WriteState, ret: usize) -> (r: WriteState)
    requires
        st matches WriteState::Pending { offset, remaining } ==> offset + remaining <= usize::MAX,
    ensures
        r == step_spec(st, ret as int),
        forall|total: nat| state_within(st, total) ==> state_within(r, total),
{
    match st {
        WriteState::Pending { offset, remaining } => {
            if ret == 0 {
                WriteState::Done
            } else if ret <= remaining {
                WriteState::Pending { offset: offset + (remaining - ret), remaining: ret }
            } else {
                WriteState::Failed
            }
        },
        _ => st,
    }
}

/// Arguments of a WRITE call besides the pointer: the handle, and the range
/// of the buffer to send, from `offset` on for `len` bytes.
#[derive(Clone, Copy, Debug, PartialEq, Eq, Structural)]
pub struct WriteCall {
    pub handle: usize,
    pub offset: usize,
    pub len: usize,
}

/// A text stream to the host, over one handle that stays open.
#[derive(Debug)]
pub struct HostStream {
    handle: HostFileHandle,
}

impl HostStream {
    pub closed spec fn view(&self) -> usize {
        self.handle@
    }

    /// The stream to the host's debug console, from what the host answered to
    /// the OPEN call of `CONSOLE_NAME`; a failed open has no stream.
    pub fn new_stdout(open_ret: usize) -> (s: Self)
        requires
            open_ret != OPEN_FAILED,
        ensures
            s@ == open_ret,
    {
        HostStream { handle: open_result(open_ret).unwrap() }
    }

    /// The stream over an opened handle.
    pub fn new(handle: HostFileHandle) -> (s: Self)
        ensures
            s@ == handle@,
    {
        HostStream { handle }
    }

    /// The handle that the host gave the stream.
    pub fn handle(&self) -> (h: usize)
        ensures
            h == self@,
    {
        self.handle.value
    }

    /// The WRITE call to make in state `st`, if the write is still pending:
    /// it sends exactly the unwritten tail.
    pub fn write_call(&self, st: &WriteState) -> (r: Option<WriteCall>)
        ensures
            st is Pending <==> r is Some,
            st is Pending ==> r == Some(
                WriteCall { handle: self@, offset: st->offset, len: st->remaining },
            ),
    {
        match *st {
            WriteState::Pending { offset, remaining } => Some(
                WriteCall { handle: self.handle.value, offset, len: remaining },
            ),
            _ => None,
        }
    }
}

/// What remained to be written before the `i`-th call, when the first call
/// sends `first` bytes and the host answers `rets`.
pub open spec fn remaining_before(first: int, rets: Seq<int>, i: int) -> int {
    if i == 0 {
        first
    } else {
        rets[i - 1]
    }
}

/// A host that answers with remainders that fall strictly, from at most
/// `first`, down to 0.
pub open spec fn falling_to_zero(first: int, rets: Seq<int>) -> bool {
    &&& rets.len() > 0
    &&& rets[0] <= first
    &&& forall|i: int| 0 <= i < rets.len() ==> 0 <= #[trigger] rets[i]
    &&& rets.last() == 0
    &&& forall|i: int| 0 <= i < rets.len() - 1 ==> #[trigger] rets[i] > rets[i + 1]
}

proof fn lemma_calls_from_pending(st: WriteState, total: int, rets: Seq<int>)
    requires
        st matches WriteState::Pending { offset, remaining } && offset + remaining == total
            && remaining > 0 && falling_to_zero(remaining as int, rets),
        total <= usize::MAX,
    ensures
        calls_spec(st, rets).len() == rets.len(),
        forall|i: int|
            0 <= i < rets.len() ==> calls_spec(st, rets)[i] == (
                total - remaining_before(st->remaining as int, rets, i),
                remaining_before(st->remaining as int, rets, i),
            ),
        after_spec(st, rets) == WriteState::Done,
    decreases rets.len(),
{
    let next = step_spec(st, rets[0]);
    let tail = rets.drop_first();
    if rets.len() == 1 {
        assert(next == WriteState::Done);
        assert(calls_spec(next, tail) == Seq::<(int, int)>::empty());
        assert(after_spec(next, tail) == WriteState::Done);
    } else {
        assert(rets[0] > rets[1]);
        assert(rets[1] >= 0);
        assert(falling_to_zero(rets[0], tail)) by {
            assert forall|i: int| 0 <= i < tail.len() - 1 implies #[trigger] tail[i] > tail[i + 1] by {
                assert(rets[i + 1] > rets[i + 2]);
            }
        }
        lemma_calls_from_pending(next, total, tail);
        assert forall|i: int| 0 <= i < rets.len() implies calls_spec(st, rets)[i] == (
            total - remaining_before(st->remaining as int, rets, i),
            remaining_before(st->remaining as int, rets, i),
        ) by {
            if i > 0 {
                assert(calls_spec(st, rets)[i] == calls_spec(next, tail)[i - 1]);
            }
        }
    }
}

/// A write of `n > 0` bytes, to which the host answers with remainders that
/// fall strictly down to 0, makes exactly one call per answer; each call
/// starts `n - remaining` bytes into the buffer and sends the `remaining`
/// bytes not yet written, and the write ends done.
pub proof fn lemma_write_follows_remainders(n: usize, rets: Seq<int>)
    requires
        n > 0,
        falling_to_zero(n as int, rets),
    ensures
        calls_spec(begin_spec(n as nat), rets).len() == rets.len(),
        forall|i: int|
            0 <= i < rets.len() ==> calls_spec(begin_spec(n as nat), rets)[i] == (
                n - remaining_before(n as int, rets, i),
                remaining_before(n as int, rets, i),
            ),
        after_spec(begin_spec(n as nat), rets) == WriteState::Done,
{
    lemma_calls_from_pending(begin_spec(n as nat), n as int, rets);
}

/// A write of no bytes makes no call and is done, whatever the host would
/// answer.
pub proof fn lemma_empty_write(rets: Seq<int>)
    ensures
        calls_spec(begin_spec(0), rets).len() == 0,
        after_spec(begin_spec(0), rets) == WriteState::Done,
{
}

} // verus!
