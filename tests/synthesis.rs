use ark_relations::r1cs::ConstraintSystemRef;
use zk_addition::allocator::Allocator;
use zk_addition::circuit::{AdditionCircuit, SynthesisFault};
use zk_addition::field::FieldValue;

fn setup_allocator() -> Allocator {
    let mut cs = Allocator::new();
    cs.enter_setup_mode();
    cs
}

fn shape(cs: &Allocator) -> (usize, usize, usize) {
    (cs.num_instance_variables(), cs.num_witness_variables(), cs.num_constraints())
}

#[test]
fn fresh_allocator_holds_only_the_constant() {
    let cs = Allocator::new();
    assert!(cs.is_bound());
    assert!(!cs.is_in_setup_mode());
    assert_eq!(shape(&cs), (1, 0, 0));
}

#[test]
fn unbound_handle_is_reported() {
    let cs = Allocator { cs: ConstraintSystemRef::None };
    assert!(!cs.is_bound());
}

#[test]
fn setup_synthesis_needs_no_values() {
    let mut cs = setup_allocator();
    assert!(cs.is_in_setup_mode());
    assert_eq!(AdditionCircuit::unassigned().synthesize(&mut cs), Ok(()));
    assert_eq!(shape(&cs), (2, 2, 1));
}

#[test]
fn prove_synthesis_is_satisfied() {
    let mut cs = Allocator::new();
    let c = AdditionCircuit::with_secrets(FieldValue::from_u32(17), FieldValue::from_u32(2));
    assert_eq!(c.z, Some(FieldValue::from_u32(19)));
    assert_eq!(c.synthesize(&mut cs), Ok(()));
    assert_eq!(shape(&cs), (2, 2, 1));
    assert_eq!(cs.cs.is_satisfied(), Ok(true));
}

#[test]
fn wrong_output_is_not_satisfied() {
    let mut cs = Allocator::new();
    let c = AdditionCircuit {
        x: Some(FieldValue::from_u32(17)),
        y: Some(FieldValue::from_u32(2)),
        z: Some(FieldValue::from_u32(20)),
    };
    assert_eq!(c.synthesize(&mut cs), Ok(()));
    assert_eq!(cs.cs.is_satisfied(), Ok(false));
}

#[test]
fn setup_and_prove_shapes_agree() {
    let mut setup = setup_allocator();
    let mut prove = Allocator::new();
    AdditionCircuit::unassigned().synthesize(&mut setup).unwrap();
    AdditionCircuit::with_secrets(FieldValue::from_u32(5), FieldValue::from_u32(6))
        .synthesize(&mut prove)
        .unwrap();
    assert_eq!(shape(&setup), shape(&prove));
}

#[test]
fn missing_secret_fails_in_proving_mode() {
    let mut cs = Allocator::new();
    let c = AdditionCircuit { x: None, y: Some(FieldValue::from_u32(2)), z: Some(FieldValue::from_u32(19)) };
    assert_eq!(c.synthesize(&mut cs), Err(SynthesisFault::AssignmentMissing));
}

#[test]
fn missing_output_fails_in_proving_mode() {
    let mut cs = Allocator::new();
    let c = AdditionCircuit { x: Some(FieldValue::from_u32(17)), y: Some(FieldValue::from_u32(2)), z: None };
    assert_eq!(c.synthesize(&mut cs), Err(SynthesisFault::AssignmentMissing));
    assert_eq!(cs.num_constraints(), 0);
}

#[test]
fn unassigned_circuit_fails_in_proving_mode() {
    let mut cs = Allocator::new();
    assert_eq!(AdditionCircuit::unassigned().synthesize(&mut cs), Err(SynthesisFault::AssignmentMissing));
}

#[test]
fn public_inputs_hold_the_output() {
    let z = FieldValue::from_u32(19);
    assert_eq!(AdditionCircuit::public_inputs(z), vec![z]);
}

#[test]
fn circuit_copy_keeps_values() {
    let c = AdditionCircuit::with_secrets(FieldValue::from_u32(1), FieldValue::from_u32(2));
    let d = c.clone();
    assert_eq!(c, d);
}

#[test]
fn satisfaction_is_not_decided_in_setup_mode() {
    let mut cs = setup_allocator();
    AdditionCircuit::unassigned().synthesize(&mut cs).unwrap();
    assert_eq!(cs.is_satisfied(), None);
    assert_eq!(Allocator { cs: ConstraintSystemRef::None }.is_satisfied(), None);
}

#[test]
fn satisfaction_of_proving_system() {
    let mut good = Allocator::new();
    AdditionCircuit::with_secrets(FieldValue::from_u32(17), FieldValue::from_u32(2)).synthesize(&mut good).unwrap();
    assert_eq!(good.is_satisfied(), Some(true));
    let mut bad = Allocator::new();
    let c = AdditionCircuit { x: Some(FieldValue::from_u32(17)), y: Some(FieldValue::from_u32(2)), z: Some(FieldValue::from_u32(20)) };
    c.synthesize(&mut bad).unwrap();
    assert_eq!(bad.is_satisfied(), Some(false));
}

#[test]
fn check_accepts_a_true_sum() {
    let c = AdditionCircuit::with_secrets(FieldValue::from_u32(17), FieldValue::from_u32(2));
    assert_eq!(c.check_assignment(), Ok(()));
}

#[test]
fn check_rejects_a_wrong_sum() {
    let c = AdditionCircuit { x: Some(FieldValue::from_u32(17)), y: Some(FieldValue::from_u32(2)), z: Some(FieldValue::from_u32(20)) };
    assert_eq!(c.check_assignment(), Err(SynthesisFault::Unsatisfiable));
}

#[test]
fn check_reports_a_missing_value() {
    let c = AdditionCircuit { x: Some(FieldValue::from_u32(17)), y: None, z: Some(FieldValue::from_u32(19)) };
    assert_eq!(c.check_assignment(), Err(SynthesisFault::AssignmentMissing));
}

#[test]
fn well_formedness_of_circuits() {
    assert!(AdditionCircuit::unassigned().is_wf());
    let too_big = FieldValue { l0: 0, l1: 0, l2: 0, l3: u64::MAX };
    assert!(!AdditionCircuit { x: Some(too_big), y: None, z: None }.is_wf());
}
