use qrack::call::{EngineCall, Layers};
use qrack::error::{settle, QrackError};
use qrack::measurement::shot_buffer;
use qrack::qrack_simulator::QrackSimulator;

fn live(sid: u64) -> QrackSimulator {
    let (mut s, _) = QrackSimulator::new(1);
    assert_eq!(s.attach(sid, 0), Ok(()));
    s
}

#[test]
fn new_plans_the_default_constructor() {
    let (s, call) = QrackSimulator::new(5);
    assert!(!s.live());
    assert_eq!(call, EngineCall::InitCount { qubits: 5, host_pointer: false });
}

#[test]
fn new_accepts_zero_qubits() {
    let (_, call) = QrackSimulator::new(0);
    assert_eq!(call, EngineCall::InitCount { qubits: 0, host_pointer: false });
}

#[test]
fn attach_makes_the_session_live_and_owns_the_handle() {
    let (mut s, _) = QrackSimulator::new(3);
    assert_eq!(s.attach(42, 0), Ok(()));
    assert!(s.live());
    assert_eq!(s.get_sid(), 42);
}

#[test]
fn failed_construction_is_reported_and_still_released() {
    let (mut s, _) = QrackSimulator::new(3);
    assert_eq!(s.attach(9, 1), Err(QrackError::EngineError));
    assert!(s.live());
    assert_eq!(s.destroy(), Some(EngineCall::Destroy { sid: 9 }));
    assert_eq!(s.destroy(), None);
}

#[test]
fn negative_register_value_is_a_failure() {
    let (mut s, _) = QrackSimulator::new(3);
    assert_eq!(s.attach(9, -1), Err(QrackError::EngineError));
}

#[test]
fn destroy_gives_the_handle_back_exactly_once() {
    let mut s = live(17);
    assert_eq!(s.destroy(), Some(EngineCall::Destroy { sid: 17 }));
    assert!(!s.live());
    assert_eq!(s.get_sid(), 17);
    assert_eq!(s.destroy(), None);
    assert_eq!(s.destroy(), None);
}

#[test]
fn a_session_that_was_never_attached_releases_nothing() {
    let (mut s, _) = QrackSimulator::new(2);
    assert_eq!(s.destroy(), None);
    assert!(!s.live());
}

#[test]
fn repeated_construct_and_destroy_balance() {
    let mut outstanding: i64 = 0;
    for n in 0..50u64 {
        let (mut s, call) = QrackSimulator::new(n);
        assert_eq!(call, EngineCall::InitCount { qubits: n, host_pointer: false });
        outstanding += 1;
        let _ = s.attach(n + 100, (n % 3) as i32);
        if let Some(EngineCall::Destroy { sid }) = s.destroy() {
            assert_eq!(sid, n + 100);
            outstanding -= 1;
        }
        assert_eq!(s.destroy(), None);
    }
    assert_eq!(outstanding, 0);
}

fn layers_call(bits: u32, host_pointer: bool) -> (Layers, EngineCall) {
    let f = |i: u32| bits & (1 << i) != 0;
    let layers = Layers {
        tensor_network: f(0),
        schmidt_decompose_multi: f(1),
        schmidt_decompose: f(2),
        stabilizer_hybrid: f(3),
        binary_decision_tree: f(4),
        paged: f(5),
        cpu_gpu_hybrid: f(6),
        opencl: f(7),
    };
    let (s, call) = QrackSimulator::new_layers(
        4, f(0), f(1), f(2), f(3), f(4), f(5), f(6), f(7), host_pointer,
    );
    assert!(!s.live());
    (layers, call)
}

#[test]
fn new_layers_fully_capable_uses_the_default_constructor() {
    let (_, call) =
        (0, QrackSimulator::new_layers(7, true, true, true, true, false, true, true, true, true).1);
    assert_eq!(call, EngineCall::InitCount { qubits: 7, host_pointer: true });
}

#[test]
fn new_layers_without_multi_uses_the_pager_constructor() {
    let (_, call) =
        QrackSimulator::new_layers(7, true, false, true, true, false, true, true, true, false);
    assert_eq!(call, EngineCall::InitCountPager { qubits: 7, host_pointer: false });
}

#[test]
fn new_layers_with_decision_tree_uses_the_full_constructor() {
    let (_, call) =
        QrackSimulator::new_layers(7, true, true, true, true, true, true, true, true, false);
    assert_eq!(
        call,
        EngineCall::InitCountType {
            qubits: 7,
            layers: Layers {
                tensor_network: true,
                schmidt_decompose_multi: true,
                schmidt_decompose: true,
                stabilizer_hybrid: true,
                binary_decision_tree: true,
                paged: true,
                cpu_gpu_hybrid: true,
                opencl: true,
            },
            zx_filter: false,
            host_pointer: false,
        }
    );
}

#[test]
fn new_layers_maps_every_combination_to_one_constructor() {
    let mut fast = 0;
    let mut pager = 0;
    let mut full = 0;
    for bits in 0..256u32 {
        for hp in [false, true] {
            let (layers, call) = layers_call(bits, hp);
            match call {
                EngineCall::InitCount { qubits, host_pointer } => {
                    assert_eq!((qubits, host_pointer), (4, hp));
                    assert_eq!(bits, 0b1110_1111);
                    fast += 1;
                }
                EngineCall::InitCountPager { qubits, host_pointer } => {
                    assert_eq!((qubits, host_pointer), (4, hp));
                    assert_eq!(bits, 0b1110_1101);
                    pager += 1;
                }
                EngineCall::InitCountType { qubits, layers: l, zx_filter, host_pointer } => {
                    assert_eq!((qubits, host_pointer), (4, hp));
                    assert_eq!(l, layers);
                    assert!(!zx_filter);
                    full += 1;
                }
                other => panic!("not a constructor: {:?}", other),
            }
        }
    }
    assert_eq!((fast, pager, full), (2, 2, 508));
}

#[test]
fn every_combination_of_flags_constructs_or_fails_cleanly() {
    for bits in 0..256u32 {
        for code in [0, 1] {
            let (s, _) = QrackSimulator::new_layers(
                1,
                bits & 1 != 0,
                bits & 2 != 0,
                bits & 4 != 0,
                bits & 8 != 0,
                bits & 16 != 0,
                bits & 32 != 0,
                bits & 64 != 0,
                bits & 128 != 0,
                false,
            );
            let mut s = s;
            let r = s.attach(bits as u64, code);
            assert_eq!(r.is_ok(), code == 0);
            assert_eq!(s.num_qubits(), EngineCall::NumQubits { sid: bits as u64 });
            assert_eq!(s.destroy(), Some(EngineCall::Destroy { sid: bits as u64 }));
            assert_eq!(s.destroy(), None);
        }
    }
}

#[test]
fn clone_plans_a_copy_with_a_life_of_its_own() {
    let mut source = live(3);
    let (mut copy, call) = source.clone();
    assert_eq!(call, EngineCall::InitClone { sid: 3 });
    assert!(!copy.live());
    assert_eq!(copy.attach(4, 0), Ok(()));
    assert_eq!(copy.x(0), EngineCall::Gate { sid: 4, gate: qrack::call::Gate::X, target: 0 });
    assert_eq!(source.prob(0), EngineCall::Prob { sid: 3, target: 0 });
    assert_eq!(copy.destroy(), Some(EngineCall::Destroy { sid: 4 }));
    assert!(source.live());
    assert_eq!(source.destroy(), Some(EngineCall::Destroy { sid: 3 }));
}

#[test]
fn check_error_is_ok_on_zero_only() {
    let s = live(1);
    assert_eq!(s.check_error(0), Ok(()));
    assert_eq!(s.check_error(1), Err(QrackError::EngineError));
    assert_eq!(s.check_error(-7), Err(QrackError::EngineError));
    assert_eq!(s.check_error(i32::MAX), Err(QrackError::EngineError));
}

#[test]
fn get_error_polls_the_own_register() {
    let s = live(11);
    assert_eq!(s.get_error(), EngineCall::GetError { sid: 11 });
}

#[test]
fn get_sid_returns_the_attached_handle() {
    assert_eq!(live(u64::MAX).get_sid(), u64::MAX);
    assert_eq!(live(0).get_sid(), 0);
}

#[test]
fn settle_keeps_the_value_on_zero_and_discards_it_otherwise() {
    assert_eq!(settle(0, 5u64), Ok(5));
    assert_eq!(settle(2, 5u64), Err(QrackError::EngineError));
    assert_eq!(settle(0, true), Ok(true));
    assert_eq!(settle(0, 0.5f64), Ok(0.5));
    assert_eq!(settle(1, vec![1u64, 2]), Err(QrackError::EngineError));
}

#[test]
fn shot_buffer_is_zeroed_and_as_long_as_asked() {
    assert_eq!(shot_buffer(0), Vec::<u64>::new());
    assert_eq!(shot_buffer(3), vec![0u64, 0, 0]);
    assert_eq!(shot_buffer(100).len(), 100);
}

#[test]
fn poll_follows_a_construction_on_the_new_handle() {
    let (_, call) = QrackSimulator::new(2);
    assert_eq!(call.session(), None);
    assert_eq!(call.poll(21), Some(EngineCall::GetError { sid: 21 }));
    let s = live(5);
    let (_, call) = s.clone();
    assert_eq!(call.session(), Some(5));
    assert_eq!(call.poll(6), Some(EngineCall::GetError { sid: 6 }));
}

#[test]
fn poll_follows_an_operation_on_its_own_session() {
    let s = live(5);
    assert_eq!(s.h(0).poll(0), Some(EngineCall::GetError { sid: 5 }));
    assert_eq!(s.m_all().poll(99), Some(EngineCall::GetError { sid: 5 }));
    let (_, call) = s.decompose(vec![1]);
    assert_eq!(call.poll(8), Some(EngineCall::GetError { sid: 5 }));
}

#[test]
fn nothing_is_polled_after_a_release_or_a_poll() {
    let mut s = live(5);
    assert_eq!(s.get_error().poll(0), None);
    let call = s.destroy().unwrap();
    assert_eq!(call.session(), Some(5));
    assert_eq!(call.poll(0), None);
}
