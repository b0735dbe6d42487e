use playground::ffi::artichoke_eval;
use playground::ffi::artichoke_eval_code;
use playground::ffi::artichoke_string_free;
use playground::ffi::artichoke_string_getch;
use playground::ffi::artichoke_string_getlen;
use playground::ffi::artichoke_string_new;
use playground::ffi::artichoke_string_putch;
use playground::ffi::artichoke_web_repl_init;
use playground::ffi::build_text;
use playground::ffi::eval_text;
use playground::ffi::Sessions;
use playground::ffi::State;
use playground::interpreter::Captured;
use playground::interpreter::EvalError;
use playground::interpreter::Reporter;

fn read(sessions: &Sessions, state: u32, ptr: u32) -> Vec<u8> {
    let len = artichoke_string_getlen(sessions, state, ptr);
    (0..len).map(|idx| artichoke_string_getch(sessions, state, ptr, idx)).collect()
}

fn write(sessions: &mut Sessions, state: u32, bytes: &[u8]) -> u32 {
    let ptr = artichoke_string_new(sessions, state);
    for byte in bytes {
        artichoke_string_putch(sessions, state, ptr, *byte);
    }
    ptr
}

fn ran(stdout: &[u8], value: &[u8]) -> Result<Option<Reporter>, String> {
    Ok(Some(Reporter {
        result: Ok(value.to_vec()),
        output: Captured { stdout: stdout.to_vec(), stderr: Vec::new() },
    }))
}

#[test]
fn init_never_returns_the_null_handle() {
    let mut sessions = Sessions::new();
    for _ in 0..50 {
        let state = artichoke_web_repl_init(&mut sessions, String::from("build"));
        assert_ne!(state, 0);
        assert!(sessions.is_live(state));
    }
}

#[test]
fn init_seeds_the_heap_with_the_build() {
    let mut sessions = Sessions::new();
    let state = artichoke_web_repl_init(&mut sessions, String::from("artichoke\n[rustc]"));
    assert_eq!(state, 1);
    assert_eq!(read(&sessions, state, 1), b"artichoke\n[rustc]");
    assert_eq!(artichoke_string_new(&mut sessions, state), 2);
}

#[test]
fn null_handle_is_never_live() {
    let mut sessions = Sessions::default();
    assert!(!sessions.is_live(0));
    assert!(!sessions.heap_has_room(0));
    let state = artichoke_web_repl_init(&mut sessions, String::new());
    assert!(!sessions.is_live(0));
    assert!(sessions.is_live(state));
    assert!(sessions.heap_has_room(state));
    assert!(!sessions.is_live(state + 1));
    assert!(sessions.has_room());
}

#[test]
fn sessions_get_handles_of_their_own() {
    let mut sessions = Sessions::new();
    let a = artichoke_web_repl_init(&mut sessions, String::from("a"));
    let b = artichoke_web_repl_init(&mut sessions, String::from("b"));
    assert_ne!(a, b);
    let in_a = write(&mut sessions, a, b"only in a");
    assert_eq!(read(&sessions, a, in_a), b"only in a");
    assert_eq!(read(&sessions, b, in_a), b"");
    assert_eq!(read(&sessions, a, 1), b"a");
    assert_eq!(read(&sessions, b, 1), b"b");
}

#[test]
fn strings_cross_the_boundary_byte_by_byte() {
    let mut sessions = Sessions::new();
    let state = artichoke_web_repl_init(&mut sessions, String::new());
    let ptr = artichoke_string_new(&mut sessions, state);
    assert_ne!(ptr, 0);
    assert_eq!(artichoke_string_getlen(&sessions, state, ptr), 0);
    for byte in b"puts 1" {
        artichoke_string_putch(&mut sessions, state, ptr, *byte);
    }
    assert_eq!(artichoke_string_getlen(&sessions, state, ptr), 6);
    assert_eq!(artichoke_string_getch(&sessions, state, ptr, 0), b'p');
    assert_eq!(artichoke_string_getch(&sessions, state, ptr, 5), b'1');
    assert_eq!(artichoke_string_getch(&sessions, state, ptr, 6), 0);
    assert_eq!(artichoke_eval_code(&sessions, state, ptr), b"puts 1");
}

#[test]
fn free_string_is_idempotent() {
    let mut sessions = Sessions::new();
    let state = artichoke_web_repl_init(&mut sessions, String::new());
    let ptr = write(&mut sessions, state, b"x");
    artichoke_string_free(&mut sessions, state, ptr);
    artichoke_string_free(&mut sessions, state, ptr);
    artichoke_string_free(&mut sessions, state, 12345);
    assert_eq!(artichoke_string_getlen(&sessions, state, ptr), 0);
    assert_eq!(artichoke_string_getch(&sessions, state, ptr, 0), 0);
    artichoke_string_putch(&mut sessions, state, ptr, b'y');
    assert_eq!(artichoke_string_getlen(&sessions, state, ptr), 0);
    assert_ne!(artichoke_string_new(&mut sessions, state), ptr);
}

#[test]
fn eval_stores_the_report_and_keeps_the_code() {
    let mut sessions = Sessions::new();
    let state = artichoke_web_repl_init(&mut sessions, String::new());
    let code = write(&mut sessions, state, b"puts 'hi'; 1");
    assert_eq!(artichoke_eval_code(&sessions, state, code), b"puts 'hi'; 1");
    let report = artichoke_eval(&mut sessions, state, ran(b"hi\n", b"1"), &Vec::new());
    assert_ne!(report, 0);
    assert_ne!(report, code);
    assert_eq!(read(&sessions, state, report), b"hi\n=> 1\n");
    assert_eq!(read(&sessions, state, code), b"puts 'hi'; 1");
}

#[test]
fn eval_of_absent_code_runs_the_empty_program() {
    let mut sessions = Sessions::new();
    let state = artichoke_web_repl_init(&mut sessions, String::new());
    assert_eq!(artichoke_eval_code(&sessions, state, 99), b"");
    assert_eq!(artichoke_eval_code(&sessions, state, 0), b"");
}

#[test]
fn eval_without_interpreter_stores_the_failure() {
    let mut sessions = Sessions::new();
    let state = artichoke_web_repl_init(&mut sessions, String::new());
    let failure = Err(String::from("no interpreter"));
    let out = artichoke_eval(&mut sessions, state, failure, &Vec::new());
    assert_eq!(read(&sessions, state, out), b"no interpreter");
}

#[test]
fn eval_without_report_stores_fatal_error() {
    let mut sessions = Sessions::new();
    let state = artichoke_web_repl_init(&mut sessions, String::new());
    let out = artichoke_eval(&mut sessions, state, Ok(None), &Vec::new());
    assert_eq!(read(&sessions, state, out), b"Fatal error");
}

#[test]
fn eval_text_of_each_outcome() {
    assert_eq!(eval_text(ran(b"hi\n", b"1"), &Vec::new()), "hi\n=> 1\n");
    assert_eq!(eval_text(ran(b"\xff\n", b"1"), &vec![String::from("\\xFF")]), "\\xFF\n=> 1\n");
    assert_eq!(eval_text(ran(b"\xff\n", b"1"), &Vec::new()), "Fatal error");
    assert_eq!(eval_text(Ok(None), &Vec::new()), "Fatal error");
    assert_eq!(eval_text(Err(String::from("boom")), &Vec::new()), "boom");
    let failed = Reporter {
        result: Err(EvalError::Raised(String::from("RuntimeError (boom)"))),
        output: Captured { stdout: Vec::new(), stderr: b"warn\n".to_vec() },
    };
    assert_eq!(eval_text(Ok(Some(failed)), &Vec::new()), "--- stderr:\nwarn\nRuntimeError (boom)");
}

#[test]
fn build_text_of_each_outcome() {
    assert_eq!(build_text(Ok(Some(String::from("artichoke")))), "artichoke");
    assert_eq!(build_text(Ok(None)), "Could not extract interpreter metadata");
    assert_eq!(build_text(Err(String::from("no interpreter"))), "no interpreter");
}

#[test]
fn from_raw_ends_the_session_for_good() {
    let mut sessions = Sessions::new();
    let first = artichoke_web_repl_init(&mut sessions, String::from("first"));
    let second = artichoke_web_repl_init(&mut sessions, String::from("second"));
    let state = State::from_raw(first, &mut sessions);
    assert!(!sessions.is_live(first));
    assert!(sessions.is_live(second));
    let third = artichoke_web_repl_init(&mut sessions, String::from("third"));
    assert_ne!(third, first);
    assert_ne!(third, second);
    assert!(!sessions.is_live(first));
    // The state that was taken back can be handed over again, under a new handle.
    let again = state.into_raw(&mut sessions);
    assert_ne!(again, first);
    assert_eq!(read(&sessions, again, 1), b"first");
}

#[test]
fn into_raw_hands_out_handles_in_turn() {
    let mut sessions = Sessions::new();
    assert_eq!(State::default().into_raw(&mut sessions), 1);
    assert_eq!(State::default().into_raw(&mut sessions), 2);
    let copy = State::default().clone();
    assert_eq!(copy.into_raw(&mut sessions), 3);
}
