//! The computation that a guest offers, and the calls by which a host reaches it.
//!
//! A host obtains a region with [`allocate`], fills it, and hands it to
//! [`run_e`] together with an identifier of its own choosing. The guest runs
//! the registered computation on a copy of the bytes and answers with one
//! [`Callback`], which carries the identifier and the pointer of a new region
//! that holds the payload. The host releases regions with [`deallocate`].

pub mod default_runnable;

use vstd::prelude::*;
use crate::error::Error;
use crate::error::Failure;
use crate::memory::Memory;
use crate::memory::zeroed;

verus! {

/// What one run of a computation comes to, as plain values.
pub type Outcome = Result<Seq<u8>, Failure>;

/// The plain values of what [`Runnable::run`] returned.
pub open spec fn outcome_of(result: Result<Vec<u8>, Error>) -> Outcome {
    match result {
        Ok(bytes) => Ok(bytes@),
        Err(error) => Err(error@),
    }
}

/// A computation from bytes to bytes that may fail.
pub trait Runnable {
    /// Whether a run on `input` may come to `outcome`. A computation whose
    /// result depends on nothing but its input admits one outcome per input;
    /// one that says nothing admits them all.
    open spec fn may_return(&self, input: Seq<u8>, outcome: Outcome) -> bool {
        true
    }

    /// Runs the computation on `input`.
    fn run(&self, input: Vec<u8>) -> (output: Result<Vec<u8>, Error>)
        ensures
            self.may_return(input@, outcome_of(output)),
    ;
}

/// The status code that the host sees for `outcome`: zero for success, else
/// the code of the failure.
pub open spec fn reply_code(outcome: Outcome) -> i32 {
    match outcome {
        Ok(_) => 0,
        Err(failure) => failure.code(),
    }
}

/// The bytes that the host sees for `outcome`: the output of a success, the
/// message of a failure in UTF-8.
pub open spec fn reply_payload(outcome: Outcome) -> Seq<u8> {
    match outcome {
        Ok(bytes) => bytes,
        Err(failure) => failure.payload(),
    }
}

/// The status code and the payload for the result of a run.
pub fn encode(result: Result<Vec<u8>, Error>) -> (reply: (i32, Vec<u8>))
    ensures
        reply.0 == reply_code(outcome_of(result)),
        reply.1@ == reply_payload(outcome_of(result)),
{
    match result {
        Ok(bytes) => (0, bytes),
        Err(error) => {
            let code: i32 = error.code();
            (code, error.into_bytes())
        },
    }
}

/// The call by which the guest answers the host.
#[derive(Debug, Clone, Copy, PartialEq, Eq, Structural)]
pub enum Callback {
    /// The run went well; the region at `pointer` holds its output.
    ReturnResult { pointer: usize, size: i32, ident: i32 },
    /// The run failed with `code`; the region at `pointer` holds the message.
    ReturnError { code: i32, pointer: usize, size: i32, ident: i32 },
}

impl Callback {
    /// The callback for a status code: success for zero, failure for any other.
    pub open spec fn select(code: i32, pointer: usize, size: i32, ident: i32) -> Callback {
        if code == 0 {
            Callback::ReturnResult { pointer, size, ident }
        } else {
            Callback::ReturnError { code, pointer, size, ident }
        }
    }

    /// The callback for a status code: success for zero, failure for any other.
    pub fn new(code: i32, pointer: usize, size: i32, ident: i32) -> (callback: Callback)
        ensures
            callback == Callback::select(code, pointer, size, ident),
    {
        if code == 0 {
            Callback::ReturnResult { pointer, size, ident }
        } else {
            Callback::ReturnError { code, pointer, size, ident }
        }
    }

    /// The pointer of the region that holds the payload.
    #[verifier::when_used_as_spec(spec_pointer)]
    pub fn pointer(&self) -> (pointer: usize)
        ensures
            pointer == self.spec_pointer(),
    {
        match self {
            Callback::ReturnResult { pointer, .. } => *pointer,
            Callback::ReturnError { pointer, .. } => *pointer,
        }
    }

    /// The pointer that the callback carries.
    pub open spec fn spec_pointer(&self) -> usize {
        match self {
            Callback::ReturnResult { pointer, .. } => *pointer,
            Callback::ReturnError { pointer, .. } => *pointer,
        }
    }

    /// The length of the payload as the host is told it.
    #[verifier::when_used_as_spec(spec_size)]
    pub fn size(&self) -> (size: i32)
        ensures
            size == self.spec_size(),
    {
        match self {
            Callback::ReturnResult { size, .. } => *size,
            Callback::ReturnError { size, .. } => *size,
        }
    }

    /// The size that the callback carries.
    pub open spec fn spec_size(&self) -> i32 {
        match self {
            Callback::ReturnResult { size, .. } => *size,
            Callback::ReturnError { size, .. } => *size,
        }
    }

    /// The identifier of the invocation that this callback answers.
    #[verifier::when_used_as_spec(spec_ident)]
    pub fn ident(&self) -> (ident: i32)
        ensures
            ident == self.spec_ident(),
    {
        match self {
            Callback::ReturnResult { ident, .. } => *ident,
            Callback::ReturnError { ident, .. } => *ident,
        }
    }

    /// The identifier that the callback carries.
    pub open spec fn spec_ident(&self) -> i32 {
        match self {
            Callback::ReturnResult { ident, .. } => *ident,
            Callback::ReturnError { ident, .. } => *ident,
        }
    }

    /// The status code: zero for the success callback.
    #[verifier::when_used_as_spec(spec_code)]
    pub fn code(&self) -> (code: i32)
        ensures
            code == self.spec_code(),
    {
        match self {
            Callback::ReturnResult { .. } => 0,
            Callback::ReturnError { code, .. } => *code,
        }
    }

    /// The status code that the callback stands for.
    pub open spec fn spec_code(&self) -> i32 {
        match self {
            Callback::ReturnResult { .. } => 0,
            Callback::ReturnError { code, .. } => *code,
        }
    }
}

/// The state of one guest instance: the computation that it runs, bound once
/// when the state is made, and the identifier of the latest invocation.
pub struct State<R: Runnable> {
    runnable: R,
    ident: i32,
}

impl<R: Runnable> State<R> {
    /// The computation that was bound when the state was made.
    pub closed spec fn registered(&self) -> R {
        self.runnable
    }

    /// The registered computation.
    pub fn runnable(&self) -> (runnable: &R)
        ensures
            *runnable == self.registered(),
    {
        &self.runnable
    }

    /// The identifier of the latest invocation; zero before the first.
    #[verifier::when_used_as_spec(spec_ident)]
    pub fn ident(&self) -> (ident: i32)
        ensures
            ident == self.spec_ident(),
    {
        self.ident
    }

    /// The recorded identifier.
    pub closed spec fn spec_ident(&self) -> i32 {
        self.ident
    }

    /// Records `ident` and runs the registered computation on `input`. The
    /// result is the status code and the payload of what the run came to.
    pub fn invoke(&mut self, input: Vec<u8>, ident: i32) -> (reply: (i32, Vec<u8>))
        ensures
            final(self).ident() == ident,
            final(self).registered() == old(self).registered(),
            exists|outcome: Outcome|
                {
                    &&& #[trigger] old(self).registered().may_return(input@, outcome)
                    &&& reply.0 == reply_code(outcome)
                    &&& reply.1@ == reply_payload(outcome)
                },
    {
        self.ident = ident;
        let result = self.runnable.run(input);
        let reply = encode(result);
        assert(old(self).registered().may_return(input@, outcome_of(result)));
        reply
    }
}

/// A state in which `runnable` is the registered computation.
pub fn use_runnable<R: Runnable>(runnable: R) -> (state: State<R>)
    ensures
        state.registered() == runnable,
        state.ident() == 0,
{
    State { runnable, ident: 0 }
}

/// Whether `after` is `before` with one new region of `size` bytes at
/// `pointer`. Nothing is said of the bytes in it.
pub open spec fn allocated(
    before: Map<usize, Seq<u8>>,
    after: Map<usize, Seq<u8>>,
    pointer: usize,
    size: i32,
) -> bool {
    &&& !before.contains_key(pointer)
    &&& after.contains_key(pointer)
    &&& after[pointer].len() == size
    &&& after == before.insert(pointer, after[pointer])
}

/// Whether `size` is the length of a live region at `pointer`.
pub open spec fn is_region(memory: Map<usize, Seq<u8>>, pointer: usize, size: i32) -> bool {
    memory.contains_key(pointer) && memory[pointer].len() == size
}

/// Grants a region of `size` bytes and returns its pointer. The region stays
/// until [`deallocate`] releases it; its bytes are there to be overwritten.
pub fn allocate(memory: &mut Memory, size: i32) -> (pointer: usize)
    requires
        size >= 0,
    ensures
        allocated(old(memory)@, final(memory)@, pointer, size),
        pointer == old(memory).granted(),
        final(memory).granted() == old(memory).granted() + 1,
{
    let bytes = zeroed(size as usize);
    memory.store(bytes)
}

/// Releases the region of `size` bytes at `pointer`, which must be live and of
/// that length.
pub fn deallocate(memory: &mut Memory, pointer: usize, size: i32)
    requires
        is_region(old(memory)@, pointer, size),
    ensures
        final(memory)@ == old(memory)@.remove(pointer),
        final(memory).granted() == old(memory).granted(),
{
    memory.release(pointer);
}

/// Whether `callback` and `after` are the answer to an invocation `ident`
/// whose run came to `outcome`, in a memory that was `before`: the payload
/// stands in a new region, every other region is as it was, and the callback
/// is chosen by the status code.
pub open spec fn answers(
    outcome: Outcome,
    ident: i32,
    callback: Callback,
    before: Map<usize, Seq<u8>>,
    after: Map<usize, Seq<u8>>,
) -> bool {
    let payload = reply_payload(outcome);
    &&& !before.contains_key(callback.pointer())
    &&& after == before.insert(callback.pointer(), payload)
    &&& callback == Callback::select(
        reply_code(outcome),
        callback.pointer(),
        payload.len() as i32,
        ident,
    )
}

/// Puts `payload` into a region of its own and chooses the callback for the
/// invocation `ident` by `code`.
pub fn deliver(memory: &mut Memory, code: i32, payload: Vec<u8>, ident: i32) -> (callback:
    Callback)
    ensures
        callback == Callback::select(code, callback.pointer(), payload@.len() as i32, ident),
        callback.pointer() == old(memory).granted(),
        !old(memory)@.contains_key(callback.pointer()),
        final(memory)@ == old(memory)@.insert(callback.pointer(), payload@),
        final(memory).granted() == old(memory).granted() + 1,
{
    let len: usize = payload.len();
    let pointer: usize = memory.store(payload);
    let size: i32 = #[verifier::truncate] (len as i32);
    Callback::new(code, pointer, size, ident)
}

/// Whether `callback` and `after` may come of an invocation `ident` of
/// `runnable` on `input` in a memory that was `before`.
pub open spec fn dispatched<R: Runnable>(
    runnable: R,
    input: Seq<u8>,
    ident: i32,
    callback: Callback,
    before: Map<usize, Seq<u8>>,
    after: Map<usize, Seq<u8>>,
) -> bool {
    exists|outcome: Outcome|
        {
            &&& #[trigger] runnable.may_return(input, outcome)
            &&& answers(outcome, ident, callback, before, after)
        }
}

/// Handles one invocation: records `ident`, runs the registered computation
/// on a copy of the `size` bytes at `pointer`, and answers with one callback
/// that carries `ident`. The region at `pointer` stays live and unchanged; the
/// payload stands in a new region that stays until the host releases it.
pub fn run_e<R: Runnable>(
    state: &mut State<R>,
    memory: &mut Memory,
    pointer: usize,
    size: i32,
    ident: i32,
) -> (callback: Callback)
    requires
        is_region(old(memory)@, pointer, size),
    ensures
        final(state).ident() == ident,
        final(state).registered() == old(state).registered(),
        dispatched(
            old(state).registered(),
            old(memory)@[pointer],
            ident,
            callback,
            old(memory)@,
            final(memory)@,
        ),
        callback.pointer() == old(memory).granted(),
        final(memory).granted() == old(memory).granted() + 1,
{
    let input: Vec<u8> = memory.read(pointer).unwrap();
    let (code, payload) = state.invoke(input, ident);
    deliver(memory, code, payload, ident)
}

/// Where a run on `input` can only come to `outcome`, an invocation on `input`
/// is answered as [`answers`] says of `outcome`.
pub proof fn lemma_single_outcome<R: Runnable>(
    runnable: R,
    input: Seq<u8>,
    outcome: Outcome,
    ident: i32,
    callback: Callback,
    before: Map<usize, Seq<u8>>,
    after: Map<usize, Seq<u8>>,
)
    requires
        forall|other: Outcome| #[trigger] runnable.may_return(input, other) ==> other == outcome,
        dispatched(runnable, input, ident, callback, before, after),
    ensures
        answers(outcome, ident, callback, before, after),
{
}

/// A computation that returns its input makes the guest answer with the
/// success callback, with the identifier of the invocation and a payload equal
/// to the input byte for byte.
pub proof fn lemma_echo_succeeds<R: Runnable>(
    runnable: R,
    input: Seq<u8>,
    ident: i32,
    callback: Callback,
    before: Map<usize, Seq<u8>>,
    after: Map<usize, Seq<u8>>,
)
    requires
        forall|bytes: Seq<u8>, outcome: Outcome| #[trigger]
            runnable.may_return(bytes, outcome) ==> outcome == Ok::<Seq<u8>, Failure>(bytes),
        dispatched(runnable, input, ident, callback, before, after),
    ensures
        callback == (Callback::ReturnResult {
            pointer: callback.pointer(),
            size: input.len() as i32,
            ident,
        }),
        after.contains_key(callback.pointer()),
        after[callback.pointer()] == input,
{
    lemma_single_outcome(
        runnable,
        input,
        Ok::<Seq<u8>, Failure>(input),
        ident,
        callback,
        before,
        after,
    );
}

/// A computation that fails with `failure`, whose status code is not zero,
/// makes the guest answer with the failure callback, with that code, the
/// identifier of the invocation and the message in UTF-8 as payload. For a
/// `Run` failure the code is the carried one, for a `Host` failure it is
/// [`HOST_ERROR_CODE`](crate::error::HOST_ERROR_CODE).
pub proof fn lemma_failure_is_reported<R: Runnable>(
    runnable: R,
    input: Seq<u8>,
    failure: Failure,
    ident: i32,
    callback: Callback,
    before: Map<usize, Seq<u8>>,
    after: Map<usize, Seq<u8>>,
)
    requires
        forall|outcome: Outcome| #[trigger]
            runnable.may_return(input, outcome) ==> outcome == Err::<Seq<u8>, Failure>(failure),
        failure.code() != 0,
        dispatched(runnable, input, ident, callback, before, after),
    ensures
        callback == (Callback::ReturnError {
            code: failure.code(),
            pointer: callback.pointer(),
            size: vstd::utf8::encode_utf8(failure.message()).len() as i32,
            ident,
        }),
        failure is Host ==> callback.code() == -1,
        failure is Run ==> callback.code() == failure->Run_code,
        after.contains_key(callback.pointer()),
        after[callback.pointer()] == vstd::utf8::encode_utf8(failure.message()),
{
    lemma_single_outcome(
        runnable,
        input,
        Err::<Seq<u8>, Failure>(failure),
        ident,
        callback,
        before,
        after,
    );
}

/// A region that was just granted can be released at once, and the memory is
/// then what it was before the grant.
pub proof fn lemma_allocate_then_deallocate(
    before: Map<usize, Seq<u8>>,
    granted: Map<usize, Seq<u8>>,
    pointer: usize,
    size: i32,
)
    requires
        allocated(before, granted, pointer, size),
    ensures
        is_region(granted, pointer, size),
        granted.remove(pointer) == before,
{
    assert(granted.remove(pointer) =~= before);
}

/// Two invocations, one after the other, are each answered by a callback with
/// its own identifier, and their payloads stand in different regions: as long
/// as the host has not released the first payload, the second invocation
/// leaves it as it was.
pub proof fn lemma_invocations_do_not_mix<R: Runnable>(
    runnable: R,
    first_input: Seq<u8>,
    first_ident: i32,
    first_callback: Callback,
    start: Map<usize, Seq<u8>>,
    between: Map<usize, Seq<u8>>,
    second_input: Seq<u8>,
    second_ident: i32,
    second_callback: Callback,
    resumed: Map<usize, Seq<u8>>,
    end: Map<usize, Seq<u8>>,
)
    requires
        dispatched(runnable, first_input, first_ident, first_callback, start, between),
        resumed.contains_key(first_callback.pointer()),
        dispatched(runnable, second_input, second_ident, second_callback, resumed, end),
    ensures
        first_callback.ident() == first_ident,
        second_callback.ident() == second_ident,
        first_callback.pointer() != second_callback.pointer(),
        end.contains_key(first_callback.pointer()),
        end[first_callback.pointer()] == resumed[first_callback.pointer()],
        exists|outcome: Outcome|
            {
                &&& #[trigger] runnable.may_return(second_input, outcome)
                &&& end[second_callback.pointer()] == reply_payload(outcome)
            },
{
}

} // verus!
