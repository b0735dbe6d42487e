use playground::emscripten::set_main_loop_callback;
use playground::emscripten::EmptyMainLoop;
use playground::emscripten::Instruction;
use playground::emscripten::MainLoop;
use playground::emscripten::MainLoopCallback;

const SET: Instruction = Instruction::SetMainLoop { fps: -1, simulate_infinite_loop: 1 };

struct CountingLoop;

impl MainLoopCallback for CountingLoop {
    fn run_main_loop() {}
}

#[test]
fn first_install_only_sets() {
    let mut main_loop = MainLoop::new();
    let instructions = set_main_loop_callback(&mut main_loop, EmptyMainLoop);
    assert_eq!(instructions, vec![SET]);
}

#[test]
fn second_install_cancels_once_before_it_sets() {
    let mut main_loop = MainLoop::new();
    let mut issued = set_main_loop_callback(&mut main_loop, EmptyMainLoop);
    issued.extend(set_main_loop_callback(&mut main_loop, CountingLoop));
    assert_eq!(issued, vec![SET, Instruction::CancelMainLoop, SET]);
    let cancels = issued.iter().filter(|i| **i == Instruction::CancelMainLoop).count();
    assert_eq!(cancels, 1);
}

#[test]
fn every_install_after_the_first_cancels_once() {
    let mut main_loop = MainLoop::new();
    let mut issued = Vec::new();
    for _ in 0..5 {
        issued.extend(set_main_loop_callback(&mut main_loop, EmptyMainLoop));
    }
    let cancels = issued.iter().filter(|i| **i == Instruction::CancelMainLoop).count();
    let sets = issued.iter().filter(|i| **i == SET).count();
    assert_eq!(cancels, 4);
    assert_eq!(sets, 5);
    assert_eq!(issued.first(), Some(&SET));
    assert_eq!(issued.last(), Some(&SET));
}

#[test]
fn empty_main_loop_yields_at_once() {
    EmptyMainLoop::run_main_loop();
    assert_eq!(EmptyMainLoop, EmptyMainLoop);
}
