//! The computation of a guest in which none was registered.

use vstd::prelude::*;
use crate::error::Error;
use crate::error::Failure;
use crate::runnable::Callback;
use crate::runnable::Outcome;
use crate::runnable::dispatched;
use crate::runnable::lemma_single_outcome;
use crate::runnable::outcome_of;
use crate::runnable::Runnable;
use crate::runnable::State;

verus! {

/// The status code with which the default computation fails.
pub const DEFAULT_STATUS: i32 = 500;

/// Stands in until a real computation is registered: every run fails.
pub struct DefaultRunnable;

impl DefaultRunnable {
    /// The default computation.
    pub fn new() -> (runnable: Self)
        ensures
            runnable == DefaultRunnable,
    {
        DefaultRunnable
    }

    /// The one outcome of every run: a `Run` failure with [`DEFAULT_STATUS`]
    /// and an empty message.
    pub open spec fn outcome() -> Outcome {
        Err(Failure::Run { code: DEFAULT_STATUS, message: Seq::<char>::empty() })
    }
}

impl Runnable for DefaultRunnable {
    open spec fn may_return(&self, input: Seq<u8>, outcome: Outcome) -> bool {
        outcome == DefaultRunnable::outcome()
    }

    /// Fails, whatever the input is.
    fn run(&self, _input: Vec<u8>) -> (output: Result<Vec<u8>, Error>)
        ensures
            outcome_of(output) == DefaultRunnable::outcome(),
    {
        proof {
            reveal_strlit("");
        }
        let error = Error::new_run_error(DEFAULT_STATUS, "");
        assert(error@.message() =~= Seq::<char>::empty());
        Err(error)
    }
}

impl State<DefaultRunnable> {
    /// The state of a guest in which no computation was registered.
    pub fn new() -> (state: Self)
        ensures
            state.registered() == DefaultRunnable,
            state.ident() == 0,
    {
        crate::runnable::use_runnable(DefaultRunnable::new())
    }
}

/// A guest in which no computation was registered answers every invocation
/// with the failure callback: status [`DEFAULT_STATUS`], an empty payload and
/// the identifier of the invocation.
pub proof fn lemma_default_fails(
    input: Seq<u8>,
    ident: i32,
    callback: Callback,
    before: Map<usize, Seq<u8>>,
    after: Map<usize, Seq<u8>>,
)
    requires
        dispatched(DefaultRunnable, input, ident, callback, before, after),
    ensures
        callback == (Callback::ReturnError {
            code: DEFAULT_STATUS,
            pointer: callback.pointer(),
            size: 0,
            ident,
        }),
        after.contains_key(callback.pointer()),
        after[callback.pointer()] == Seq::<u8>::empty(),
{
    lemma_single_outcome(
        DefaultRunnable,
        input,
        DefaultRunnable::outcome(),
        ident,
        callback,
        before,
        after,
    );
    assert(vstd::utf8::encode_utf8(Seq::<char>::empty()) =~= Seq::<u8>::empty());
}

} // verus!
