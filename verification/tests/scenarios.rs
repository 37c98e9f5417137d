// Scenarios driven end to end: the library plans each call, a small stand-in
// engine in this file performs it, and the library settles the outcome. The
// stand-in keeps, per handle, one probability of |1> for each qubit, which
// is enough for product states.

use qrack::call::{EngineCall, Gate, Polarity, Real};
use qrack::error::{settle, QrackError};
use qrack::measurement::shot_buffer;
use qrack::pauli::Pauli;
use qrack::qrack_simulator::QrackSimulator;

const SLOTS: usize = 4;

struct Engine {
    slots: Vec<Option<Vec<f64>>>,
    errors: Vec<i32>,
    performed: usize,
}

enum Answer {
    Nothing,
    Word(u64),
    Value(f64),
    Words(Vec<u64>),
}

impl Engine {
    fn start() -> Engine {
        Engine { slots: vec![None; SLOTS], errors: vec![0; SLOTS], performed: 0 }
    }

    fn in_use(&self) -> usize {
        self.slots.iter().filter(|s| s.is_some()).count()
    }

    fn mint(&mut self, state: Vec<f64>) -> u64 {
        let free = self.slots.iter().position(|s| s.is_none()).expect("handle space exhausted");
        self.slots[free] = Some(state);
        self.errors[free] = 0;
        free as u64
    }

    fn state(&mut self, sid: u64) -> &mut Vec<f64> {
        self.slots[sid as usize].as_mut().expect("use of a handle that is not live")
    }

    fn perform(&mut self, call: &EngineCall) -> Answer {
        self.performed += 1;
        match call {
            EngineCall::InitCount { qubits, .. } => Answer::Word(self.mint(vec![0.0; *qubits as usize])),
            EngineCall::InitClone { sid } => {
                let copy = self.state(*sid).clone();
                Answer::Word(self.mint(copy))
            }
            EngineCall::Destroy { sid } => {
                assert!(self.slots[*sid as usize].take().is_some(), "double release");
                Answer::Nothing
            }
            EngineCall::GetError { sid } => Answer::Word(self.errors[*sid as usize] as u64),
            EngineCall::Gate { sid, gate, target } => {
                let q = &mut self.state(*sid)[*target as usize];
                match gate {
                    Gate::X => *q = 1.0 - *q,
                    Gate::H => *q = 0.5,
                    _ => {}
                }
                Answer::Nothing
            }
            EngineCall::ControlledGate { sid, polarity: Polarity::AllOnes, gate: Gate::X, controls, target } => {
                let state = self.state(*sid);
                if controls.iter().all(|c| state[*c as usize] == 1.0) {
                    state[*target as usize] = 1.0 - state[*target as usize];
                }
                Answer::Nothing
            }
            EngineCall::Prob { sid, target } => Answer::Value(self.state(*sid)[*target as usize]),
            EngineCall::ForceM { sid, target, outcome } => {
                self.state(*sid)[*target as usize] = if *outcome { 1.0 } else { 0.0 };
                Answer::Word(*outcome as u64)
            }
            EngineCall::MeasureShots { sid, qubits, shots } => {
                let state = self.state(*sid).clone();
                let mut buffer = shot_buffer(*shots);
                for slot in buffer.iter_mut() {
                    for (i, q) in qubits.iter().enumerate() {
                        if state[*q as usize] == 1.0 {
                            *slot |= 1 << i;
                        }
                    }
                }
                Answer::Words(buffer)
            }
            EngineCall::NumQubits { sid } => Answer::Word(self.state(*sid).len() as u64),
            EngineCall::Compose { sid, other, qubits } => {
                let mut moved = self.state(*other).clone();
                assert_eq!(moved.len(), qubits.len());
                self.state(*sid).append(&mut moved);
                Answer::Nothing
            }
            EngineCall::Decompose { sid, qubits } => {
                let state = self.state(*sid);
                let part: Vec<f64> = qubits.iter().map(|q| state[*q as usize]).collect();
                let first = qubits[0] as usize;
                state.drain(first..first + qubits.len());
                Answer::Word(self.mint(part))
            }
            EngineCall::Exp { sid, .. } => {
                // not implemented by the stand-in: the engine reports a failure
                self.errors[*sid as usize] = 1;
                Answer::Nothing
            }
            other => panic!("the stand-in engine does not perform {:?}", other),
        }
    }

    /// Performs a call and polls the register that the library names.
    fn run(&mut self, call: &EngineCall) -> (Answer, i32) {
        let answer = self.perform(call);
        let handle = match answer {
            Answer::Word(w) => w,
            _ => 0,
        };
        let code = match call.poll(handle) {
            Some(poll) => match self.perform(&poll) {
                Answer::Word(code) => code as i32,
                _ => unreachable!(),
            },
            None => 0,
        };
        (answer, code)
    }

    fn open(&mut self, planned: (QrackSimulator, EngineCall)) -> Result<QrackSimulator, QrackError> {
        let (mut session, call) = planned;
        match self.run(&call) {
            (Answer::Word(sid), code) => match session.attach(sid, code) {
                Ok(()) => Ok(session),
                Err(e) => {
                    self.close(&mut session);
                    Err(e)
                }
            },
            _ => unreachable!(),
        }
    }

    fn close(&mut self, session: &mut QrackSimulator) {
        if let Some(call) = session.destroy() {
            self.run(&call);
        }
    }

    fn unit(&mut self, call: EngineCall) -> Result<(), QrackError> {
        let (_, code) = self.run(&call);
        settle(code, ())
    }

    fn word(&mut self, call: EngineCall) -> Result<u64, QrackError> {
        match self.run(&call) {
            (Answer::Word(w), code) => settle(code, w),
            _ => unreachable!(),
        }
    }

    fn value(&mut self, call: EngineCall) -> Result<f64, QrackError> {
        match self.run(&call) {
            (Answer::Value(v), code) => settle(code, v),
            _ => unreachable!(),
        }
    }

    fn words(&mut self, call: EngineCall) -> Result<Vec<u64>, QrackError> {
        match self.run(&call) {
            (Answer::Words(w), code) => settle(code, w),
            _ => unreachable!(),
        }
    }
}

#[test]
fn construct_then_destroy_never_exhausts_the_handle_space() {
    let mut engine = Engine::start();
    for n in 0..1000u64 {
        let mut s = engine.open(QrackSimulator::new(n % 8)).unwrap();
        assert_eq!(engine.in_use(), 1);
        engine.close(&mut s);
        engine.close(&mut s);
        assert_eq!(engine.in_use(), 0);
    }
}

#[test]
fn mutating_a_clone_leaves_its_source_alone() {
    let mut engine = Engine::start();
    let mut source = engine.open(QrackSimulator::new(1)).unwrap();
    let mut copy = engine.open(source.clone()).unwrap();
    assert_ne!(source.get_sid(), copy.get_sid());
    let before = engine.value(source.prob(0)).unwrap();
    engine.unit(copy.x(0)).unwrap();
    assert_eq!(engine.value(source.prob(0)).unwrap(), before);
    assert_eq!(engine.value(copy.prob(0)).unwrap(), 1.0);
    engine.close(&mut copy);
    assert_eq!(engine.value(source.prob(0)).unwrap(), before);
    engine.close(&mut source);
    assert_eq!(engine.in_use(), 0);
}

#[test]
fn shape_mismatch_never_reaches_the_engine() {
    let mut engine = Engine::start();
    let mut s = engine.open(QrackSimulator::new(2)).unwrap();
    let before = (engine.value(s.prob(0)).unwrap(), engine.value(s.prob(1)).unwrap());
    let performed = engine.performed;
    let planned = s.exp(
        vec![Pauli::PauliX, Pauli::PauliY, Pauli::PauliZ],
        Real::from_bits(0.5f64.to_bits()),
        vec![0, 1],
    );
    assert_eq!(planned, Err(QrackError::ShapeMismatch));
    assert_eq!(engine.performed, performed);
    let after = (engine.value(s.prob(0)).unwrap(), engine.value(s.prob(1)).unwrap());
    assert_eq!(before, after);
    engine.close(&mut s);
}

#[test]
fn an_engine_failure_is_reported_as_an_engine_error() {
    let mut engine = Engine::start();
    let mut s = engine.open(QrackSimulator::new(1)).unwrap();
    let call = s.exp(vec![Pauli::PauliX], Real::from_bits(0.5f64.to_bits()), vec![0]).unwrap();
    assert_eq!(engine.unit(call), Err(QrackError::EngineError));
    engine.close(&mut s);
    assert_eq!(engine.in_use(), 0);
}

#[test]
fn compose_then_decompose_gives_the_probabilities_back() {
    let mut engine = Engine::start();
    let mut a = engine.open(QrackSimulator::new(2)).unwrap();
    let mut b = engine.open(QrackSimulator::new(2)).unwrap();
    engine.unit(b.x(0)).unwrap();
    engine.unit(b.h(1)).unwrap();
    let expected = [engine.value(b.prob(0)).unwrap(), engine.value(b.prob(1)).unwrap()];
    engine.unit(a.compose(&b, vec![2, 3])).unwrap();
    assert!(b.live());
    assert_eq!(engine.word(a.num_qubits()).unwrap(), 4);
    let mut part = engine.open(a.decompose(vec![2, 3])).unwrap();
    assert_ne!(part.get_sid(), a.get_sid());
    assert_ne!(part.get_sid(), b.get_sid());
    assert_eq!(engine.word(a.num_qubits()).unwrap(), 2);
    for q in 0..2u64 {
        let p = engine.value(part.prob(q)).unwrap();
        assert!((p - expected[q as usize]).abs() < 1e-9);
    }
    engine.close(&mut part);
    engine.close(&mut b);
    engine.close(&mut a);
    assert_eq!(engine.in_use(), 0);
}

#[test]
fn hadamard_then_forced_measurement() {
    let mut engine = Engine::start();
    let mut s = engine.open(QrackSimulator::new(1)).unwrap();
    engine.unit(s.h(0)).unwrap();
    assert!((engine.value(s.prob(0)).unwrap() - 0.5).abs() < 1e-9);
    assert_eq!(engine.word(s.force_m(0, true)), Ok(1));
    assert!((engine.value(s.prob(0)).unwrap() - 1.0).abs() < 1e-9);
    engine.close(&mut s);
}

#[test]
fn controlled_x_acts_only_when_the_control_is_one() {
    let mut engine = Engine::start();
    let mut s = engine.open(QrackSimulator::new(2)).unwrap();
    engine.unit(s.mcx(vec![0], 1)).unwrap();
    assert_eq!(engine.value(s.prob(1)), Ok(0.0));
    engine.unit(s.x(0)).unwrap();
    engine.unit(s.mcx(vec![0], 1)).unwrap();
    assert!((engine.value(s.prob(1)).unwrap() - 1.0).abs() < 1e-9);
    engine.close(&mut s);
}

#[test]
fn a_hundred_shots_of_a_qubit_held_at_one() {
    let mut engine = Engine::start();
    let mut s = engine.open(QrackSimulator::new(1)).unwrap();
    engine.unit(s.x(0)).unwrap();
    let shots = engine.words(s.measure_shots(vec![0], 100)).unwrap();
    assert_eq!(shots.len(), 100);
    assert!(shots.iter().all(|outcome| *outcome == 1));
    engine.close(&mut s);
}
