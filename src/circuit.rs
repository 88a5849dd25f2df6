//! The addition circuit: two secret inputs whose field sum is a public output.
use crate::allocator::{
    all_assigned, all_hold, constraint_holds, constraints_of, in_setup_mode, instance_count, instance_values,
    is_bound, keeps_constraints, terms_value, wire_value, witness_count, witness_values,
    Allocator, Wire,
};
use crate::field::{modulus, FieldValue};
use vstd::prelude::*;

verus! {

/// Why synthesis could not be completed.
#[derive(Clone, Copy, Debug, PartialEq, Eq, Structural)]
pub enum SynthesisFault {
    /// Proving asked for the value of a variable and none was supplied.
    AssignmentMissing,
    /// The values were all supplied but do not satisfy the constraints.
    Unsatisfiable,
}

/// The circuit for `x + y = z` over the field, with `x` and `y` secret and `z`
/// public. A value is `None` while unknown: all three are unknown when the keys
/// are generated, and all three are known when a proof is made.
#[derive(Clone, Copy, Debug, PartialEq, Eq, Structural)]
pub struct AdditionCircuit {
    pub x: Option<FieldValue>,
    pub y: Option<FieldValue>,
    pub z: Option<FieldValue>,
}

/// A value that is known is a field element in canonical form.
pub open spec fn value_wf(v: Option<FieldValue>) -> bool {
    v matches Some(f) ==> f.wf()
}

/// The one constraint of the circuit, for the variables it was given: the sum
/// of the two witnesses equals the public input.
pub open spec fn sum_constraint(w: nat, i: nat) -> (Seq<Wire>, Wire) {
    (seq![Wire::Witness(w as usize), Wire::Witness((w + 1) as usize)], Wire::Instance(i as usize))
}

/// What a successful synthesis does to a constraint system: two witnesses and
/// one public input are appended, and one constraint over exactly them.
pub open spec fn synthesized(pre: Allocator, post: Allocator) -> bool {
    &&& is_bound(post)
    &&& in_setup_mode(post) == in_setup_mode(pre)
    &&& keeps_constraints(post) == keeps_constraints(pre)
    &&& witness_count(post) == witness_count(pre) + 2
    &&& instance_count(post) == instance_count(pre) + 1
    &&& constraints_of(post) == constraints_of(pre).push(
        sum_constraint(witness_count(pre), instance_count(pre)),
    )
}

/// The values that a successful synthesis assigns: none in setup mode; in
/// proving mode `x` and `y` to the two witnesses and `z` to the public input.
pub open spec fn assigned(c: AdditionCircuit, pre: Allocator, post: Allocator) -> bool {
    if in_setup_mode(pre) {
        &&& witness_values(post) == witness_values(pre)
        &&& instance_values(post) == instance_values(pre)
    } else {
        &&& witness_values(post) == witness_values(pre).push(c.x->0.value()).push(c.y->0.value())
        &&& instance_values(post) == instance_values(pre).push(c.z->0.value())
    }
}

impl AdditionCircuit {
    /// Every value that is known is a field element in canonical form.
    pub open spec fn wf(self) -> bool {
        value_wf(self.x) && value_wf(self.y) && value_wf(self.z)
    }

    /// All three values are known.
    pub open spec fn is_assigned(self) -> bool {
        self.x is Some && self.y is Some && self.z is Some
    }

    /// The values are known and satisfy `x + y = z` in the field.
    pub open spec fn holds(self) -> bool {
        &&& self.is_assigned()
        &&& self.z->0.value() == (self.x->0.value() + self.y->0.value()) % modulus()
    }

    /// Whether every known value is in canonical form.
    pub fn is_wf(&self) -> (r: bool)
        ensures
            r == self.wf(),
    {
        Self::value_is_wf(self.x) && Self::value_is_wf(self.y) && Self::value_is_wf(self.z)
    }

    fn value_is_wf(v: Option<FieldValue>) -> (r: bool)
        ensures
            r == value_wf(v),
    {
        match v {
            Some(f) => f.is_canonical(),
            None => true,
        }
    }

    /// The placeholder circuit that keys are generated from: all values unknown.
    pub fn unassigned() -> (r: AdditionCircuit)
        ensures
            r.wf(),
            r.x is None && r.y is None && r.z is None,
    {
        AdditionCircuit { x: None, y: None, z: None }
    }

    /// The circuit for the secrets `x` and `y`, with the public output set to
    /// their field sum.
    pub fn with_secrets(x: FieldValue, y: FieldValue) -> (r: AdditionCircuit)
        requires
            x.wf(),
            y.wf(),
        ensures
            r.wf(),
            r.holds(),
            r.x == Some(x),
            r.y == Some(y),
    {
        let z = x.add(&y);
        AdditionCircuit { x: Some(x), y: Some(y), z: Some(z) }
    }

    /// The public inputs that a proof for this circuit is checked against, in
    /// the order synthesis allocates them: the output alone.
    pub fn public_inputs(z: FieldValue) -> (r: Vec<FieldValue>)
        ensures
            r@ == seq![z],
    {
        vec![z]
    }

    /// Allocates `x` and `y` as witnesses and `z` as a public input, in that
    /// order, and enforces `x + y = z`. In setup mode no value is read; in
    /// proving mode each value must be known.
    pub fn synthesize(&self, cs: &mut Allocator) -> (r: Result<(), SynthesisFault>)
        requires
            self.wf(),
            is_bound(*old(cs)),
            witness_count(*old(cs)) + 2 <= usize::MAX,
            instance_count(*old(cs)) + 1 <= usize::MAX,
        ensures
            r is Ok <==> (in_setup_mode(*old(cs)) || self.is_assigned()),
            r is Err ==> r == Err::<(), SynthesisFault>(SynthesisFault::AssignmentMissing),
            r is Ok ==> synthesized(*old(cs), *final(cs)),
            r is Ok ==> assigned(*self, *old(cs), *final(cs)),
            in_setup_mode(*final(cs)) == in_setup_mode(*old(cs)),
    {
        let w = cs.num_witness_variables();
        let i = cs.num_instance_variables();
        if !cs.alloc_witness(self.x) {
            return Err(SynthesisFault::AssignmentMissing);
        }
        if !cs.alloc_witness(self.y) {
            return Err(SynthesisFault::AssignmentMissing);
        }
        if !cs.alloc_input(self.z) {
            return Err(SynthesisFault::AssignmentMissing);
        }
        let terms = vec![Wire::Witness(w), Wire::Witness(w + 1)];
        cs.enforce_equal(&terms, Wire::Instance(i));
        proof {
            assert(terms@ =~= sum_constraint(w as nat, i as nat).0);
        }
        Ok(())
    }

    /// Synthesizes the circuit with its values on a fresh system in proving
    /// mode and checks that they satisfy the constraints.
    pub fn check_assignment(&self) -> (r: Result<(), SynthesisFault>)
        requires
            self.wf(),
        ensures
            r is Ok <==> self.holds(),
            r == Err::<(), SynthesisFault>(SynthesisFault::AssignmentMissing) <==> !self.is_assigned(),
            r == Err::<(), SynthesisFault>(SynthesisFault::Unsatisfiable) <==> (self.is_assigned()
                && !self.holds()),
    {
        let mut cs = Allocator::new();
        let ghost fresh = cs;
        match self.synthesize(&mut cs) {
            Err(e) => {
                return Err(e);
            },
            Ok(()) => {},
        }
        proof {
            lemma_constraint_iff_relation(*self, fresh, cs);
        }
        match cs.is_satisfied() {
            Some(true) => Ok(()),
            _ => Err(SynthesisFault::Unsatisfiable),
        }
    }
}

/// On a proving system whose values line up with its variables, the
/// constraint that synthesis emits holds exactly when `x + y = z` in the
/// field: an honest prover's constraints are satisfied, and no assignment with
/// a different public output satisfies them.
pub proof fn lemma_constraint_iff_relation(c: AdditionCircuit, pre: Allocator, post: Allocator)
    requires
        c.wf(),
        c.is_assigned(),
        !in_setup_mode(pre),
        witness_count(pre) + 2 <= usize::MAX,
        instance_count(pre) + 1 <= usize::MAX,
        witness_values(pre).len() == witness_count(pre),
        instance_values(pre).len() == instance_count(pre),
        synthesized(pre, post),
        assigned(c, pre, post),
    ensures
        constraint_holds(post, constraints_of(post).last()) <==> c.holds(),
        constraints_of(pre).len() == 0 ==> (all_assigned(post) && (all_hold(post) <==> c.holds())),
{
    let k = constraints_of(post).last();
    let w = witness_count(pre);
    let i = instance_count(pre);
    assert(k == sum_constraint(w, i));
    assert(k.0.drop_last() =~= seq![Wire::Witness(w as usize)]);
    assert(k.0.drop_last().drop_last() =~= Seq::<Wire>::empty());
    assert(wire_value(post, Wire::Witness(w as usize)) == Some(c.x->0.value()));
    assert(wire_value(post, Wire::Witness((w + 1) as usize)) == Some(c.y->0.value()));
    assert(wire_value(post, Wire::Instance(i as usize)) == Some(c.z->0.value()));
    assert(terms_value(post, k.0.drop_last().drop_last()) == Some(0int));
    assert(terms_value(post, k.0.drop_last()) == Some(c.x->0.value()));
    assert(terms_value(post, k.0) == Some(c.x->0.value() + c.y->0.value()));
    vstd::arithmetic::div_mod::lemma_small_mod(c.z->0.value() as nat, modulus() as nat);
    if constraints_of(pre).len() == 0 {
        assert(constraints_of(post)[0] == k);
    }
}

/// Synthesis has the same shape whether or not values are known: from two
/// systems of equal shape, one in setup mode and one in proving mode, a
/// successful synthesis allocates the same variables in the same order and
/// emits the same constraint.
pub proof fn lemma_shape_stable(
    setup_pre: Allocator,
    setup_post: Allocator,
    prove_pre: Allocator,
    prove_post: Allocator,
)
    requires
        in_setup_mode(setup_pre),
        !in_setup_mode(prove_pre),
        instance_count(setup_pre) == instance_count(prove_pre),
        witness_count(setup_pre) == witness_count(prove_pre),
        constraints_of(setup_pre) == constraints_of(prove_pre),
        synthesized(setup_pre, setup_post),
        synthesized(prove_pre, prove_post),
    ensures
        instance_count(setup_post) == instance_count(prove_post),
        witness_count(setup_post) == witness_count(prove_post),
        constraints_of(setup_post) == constraints_of(prove_post),
{
}

} // verus!
