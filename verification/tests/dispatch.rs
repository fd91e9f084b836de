use suborbital::error::Error;
use suborbital::memory::Memory;
use suborbital::runnable::default_runnable::DefaultRunnable;
use suborbital::runnable::{allocate, deallocate, run_e, use_runnable, Callback, Runnable, State};

struct Echo;

impl Runnable for Echo {
    fn run(&self, input: Vec<u8>) -> Result<Vec<u8>, Error> {
        Ok(input)
    }
}

struct Fails {
    code: i32,
    message: &'static str,
}

impl Runnable for Fails {
    fn run(&self, _input: Vec<u8>) -> Result<Vec<u8>, Error> {
        Err(Error::new_run_error(self.code, self.message))
    }
}

struct Broken {
    message: &'static str,
}

impl Runnable for Broken {
    fn run(&self, _input: Vec<u8>) -> Result<Vec<u8>, Error> {
        Err(Error::new_host_error(self.message))
    }
}

struct Reverse;

impl Runnable for Reverse {
    fn run(&self, input: Vec<u8>) -> Result<Vec<u8>, Error> {
        Ok(input.into_iter().rev().collect())
    }
}

fn host_input(memory: &mut Memory, bytes: &[u8]) -> usize {
    let pointer = allocate(memory, bytes.len() as i32);
    assert!(memory.write(pointer, bytes.to_vec()));
    pointer
}

#[test]
fn echo_hello_end_to_end() {
    let mut memory = Memory::new();
    let mut state = use_runnable(Echo);
    let pointer = allocate(&mut memory, 5);
    assert_eq!(memory.size_of(pointer), Some(5));
    assert!(memory.write(pointer, b"hello".to_vec()));
    let callback = run_e(&mut state, &mut memory, pointer, 5, 42);
    match callback {
        Callback::ReturnResult { pointer: payload, size, ident } => {
            assert_eq!(size, 5);
            assert_eq!(ident, 42);
            assert_ne!(payload, pointer);
            assert_eq!(memory.read(payload), Some(b"hello".to_vec()));
        }
        other => panic!("expected the success callback, got {:?}", other),
    }
    assert_eq!(state.ident(), 42);
}

#[test]
fn echo_returns_every_input_unchanged() {
    let inputs: Vec<Vec<u8>> = vec![
        vec![],
        vec![0],
        vec![255, 0, 128, 7],
        (0..=255u8).collect(),
        b"line one\nline two\0tail".to_vec(),
    ];
    let mut memory = Memory::new();
    let mut state = use_runnable(Echo);
    let mut ident = 1;
    for input in inputs {
        let pointer = host_input(&mut memory, &input);
        let callback = run_e(&mut state, &mut memory, pointer, input.len() as i32, ident);
        assert_eq!(
            callback,
            Callback::ReturnResult { pointer: callback.pointer(), size: input.len() as i32, ident }
        );
        assert_eq!(memory.read(callback.pointer()), Some(input.clone()));
        assert_eq!(memory.read(pointer), Some(input));
        ident += 1;
    }
}

#[test]
fn dispatch_leaves_the_input_region_live() {
    let mut memory = Memory::new();
    let mut state = use_runnable(Reverse);
    let pointer = host_input(&mut memory, b"abc");
    let callback = run_e(&mut state, &mut memory, pointer, 3, 9);
    assert_eq!(memory.read(pointer), Some(b"abc".to_vec()));
    assert_eq!(memory.read(callback.pointer()), Some(b"cba".to_vec()));
    deallocate(&mut memory, pointer, 3);
    assert_eq!(memory.read(pointer), None);
    assert_eq!(memory.read(callback.pointer()), Some(b"cba".to_vec()));
    deallocate(&mut memory, callback.pointer(), callback.size());
    assert_eq!(memory.read(callback.pointer()), None);
}

#[test]
fn run_error_reaches_the_failure_callback() {
    let mut memory = Memory::new();
    let mut state = use_runnable(Fails { code: 500, message: "x" });
    let pointer = host_input(&mut memory, b"anything");
    let callback = run_e(&mut state, &mut memory, pointer, 8, 3);
    match callback {
        Callback::ReturnError { code, pointer: payload, size, ident } => {
            assert_eq!(code, 500);
            assert_eq!(size, 1);
            assert_eq!(ident, 3);
            assert_eq!(memory.read(payload), Some(vec![0x78]));
        }
        other => panic!("expected the failure callback, got {:?}", other),
    }
}

#[test]
fn host_error_reaches_the_failure_callback_with_the_fixed_code() {
    let mut memory = Memory::new();
    let mut state = use_runnable(Broken { message: "y" });
    let pointer = host_input(&mut memory, b"");
    let callback = run_e(&mut state, &mut memory, pointer, 0, 11);
    match callback {
        Callback::ReturnError { code, pointer: payload, size, ident } => {
            assert_eq!(code, -1);
            assert_eq!(size, 1);
            assert_eq!(ident, 11);
            assert_eq!(memory.read(payload), Some(vec![0x79]));
        }
        other => panic!("expected the failure callback, got {:?}", other),
    }
}

#[test]
fn failure_message_crosses_as_utf8() {
    let mut memory = Memory::new();
    let mut state = use_runnable(Fails { code: 404, message: "né €" });
    let pointer = host_input(&mut memory, b"q");
    let callback = run_e(&mut state, &mut memory, pointer, 1, 0);
    assert_eq!(callback.code(), 404);
    assert_eq!(callback.size(), 7);
    assert_eq!(
        memory.read(callback.pointer()),
        Some(vec![0x6e, 0xc3, 0xa9, 0x20, 0xe2, 0x82, 0xac])
    );
}

#[test]
fn run_error_with_code_zero_takes_the_success_callback() {
    let mut memory = Memory::new();
    let mut state = use_runnable(Fails { code: 0, message: "fine" });
    let pointer = host_input(&mut memory, b"q");
    let callback = run_e(&mut state, &mut memory, pointer, 1, 5);
    assert_eq!(
        callback,
        Callback::ReturnResult { pointer: callback.pointer(), size: 4, ident: 5 }
    );
    assert_eq!(memory.read(callback.pointer()), Some(b"fine".to_vec()));
}

#[test]
fn default_runnable_always_fails() {
    let runnable = DefaultRunnable::new();
    for input in [vec![], vec![1, 2, 3], b"hello".to_vec()] {
        match runnable.run(input) {
            Err(Error::Run { code, message }) => {
                assert_eq!(code, 500);
                assert_eq!(message, "");
            }
            other => panic!("expected a run error, got {:?}", other),
        }
    }
}

#[test]
fn unregistered_guest_answers_with_the_failure_callback() {
    let mut memory = Memory::new();
    let mut state: State<DefaultRunnable> = State::new();
    assert_eq!(state.ident(), 0);
    let pointer = host_input(&mut memory, b"hello");
    let callback = run_e(&mut state, &mut memory, pointer, 5, 77);
    assert_eq!(
        callback,
        Callback::ReturnError { code: 500, pointer: callback.pointer(), size: 0, ident: 77 }
    );
    assert_eq!(memory.read(callback.pointer()), Some(vec![]));
    assert_eq!(state.ident(), 77);
}

#[test]
fn sequential_invocations_keep_their_own_ident_and_payload() {
    let mut memory = Memory::new();
    let mut state = use_runnable(Echo);
    let first_input = host_input(&mut memory, b"first");
    let first = run_e(&mut state, &mut memory, first_input, 5, 1);
    assert_eq!(state.ident(), 1);
    let second_input = host_input(&mut memory, b"second!");
    let second = run_e(&mut state, &mut memory, second_input, 7, 2);
    assert_eq!(state.ident(), 2);
    assert_eq!(first.ident(), 1);
    assert_eq!(second.ident(), 2);
    assert_ne!(first.pointer(), second.pointer());
    assert_eq!(first.size(), 5);
    assert_eq!(second.size(), 7);
    assert_eq!(memory.read(first.pointer()), Some(b"first".to_vec()));
    assert_eq!(memory.read(second.pointer()), Some(b"second!".to_vec()));
}

#[test]
fn use_runnable_binds_the_computation() {
    let state = use_runnable(Fails { code: 7, message: "seven" });
    assert_eq!(state.ident(), 0);
    assert_eq!(state.runnable().code, 7);
    assert_eq!(state.runnable().message, "seven");
}

#[test]
fn invoke_records_the_ident_and_encodes_the_result() {
    let mut state = use_runnable(Echo);
    assert_eq!(state.invoke(b"hello".to_vec(), 42), (0, b"hello".to_vec()));
    assert_eq!(state.ident(), 42);
    assert_eq!(state.invoke(vec![], -8), (0, vec![]));
    assert_eq!(state.ident(), -8);

    let mut failing = use_runnable(Fails { code: 500, message: "x" });
    assert_eq!(failing.invoke(b"hello".to_vec(), 1), (500, vec![0x78]));
    assert_eq!(failing.ident(), 1);

    let mut broken = use_runnable(Broken { message: "y" });
    assert_eq!(broken.invoke(b"hello".to_vec(), 2), (-1, vec![0x79]));
    assert_eq!(broken.ident(), 2);
}

#[test]
fn deliver_stores_the_payload_and_chooses_the_callback() {
    let mut memory = Memory::new();
    let kept = memory.store(vec![1, 2, 3]);
    let ok = suborbital::runnable::deliver(&mut memory, 0, vec![4, 5], 10);
    assert_eq!(ok, Callback::ReturnResult { pointer: ok.pointer(), size: 2, ident: 10 });
    assert_ne!(ok.pointer(), kept);
    let failed = suborbital::runnable::deliver(&mut memory, 500, vec![0x78], 11);
    assert_eq!(
        failed,
        Callback::ReturnError { code: 500, pointer: failed.pointer(), size: 1, ident: 11 }
    );
    assert_ne!(failed.pointer(), ok.pointer());
    assert_eq!(memory.read(kept), Some(vec![1, 2, 3]));
    assert_eq!(memory.read(ok.pointer()), Some(vec![4, 5]));
    assert_eq!(memory.read(failed.pointer()), Some(vec![0x78]));
}
