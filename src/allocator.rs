//! The constraint-system context that circuits allocate variables in and
//! emit constraints to, backed by `ark_relations`' rank-one constraint system.
use crate::field::{modulus, FieldValue};
use ark_ff::{BigInt, One, PrimeField};
use ark_relations::r1cs::{
    ConstraintSystem, ConstraintSystemRef, LinearCombination, SynthesisError, SynthesisMode,
    Variable,
};
use vstd::prelude::*;

verus! {

/// A variable of a constraint system: the constant one, the `i`-th public
/// input (instance) or the `i`-th secret input (witness).
#[derive(Clone, Copy, Debug, PartialEq, Eq, Structural)]
pub enum Wire {
    One,
    Instance(usize),
    Witness(usize),
}

/// A rank-one constraint system under construction. It is either in setup mode,
/// where only the shape is recorded and no value is read, or in proving mode,
/// where every allocated variable must be given its value. The handle may be
/// `ConstraintSystemRef::None`, bound to no system, on which every allocation
/// fails.
#[verifier::external_body]
pub struct Allocator {
    pub cs: ConstraintSystemRef<ark_bls12_381::Fr>,
}

/// Whether the handle is bound to a constraint system.
pub uninterp spec fn is_bound(cs: Allocator) -> bool;

/// Whether the constraint system is in setup mode.
pub uninterp spec fn in_setup_mode(cs: Allocator) -> bool;

/// The number of public-input variables, the constant one included.
pub uninterp spec fn instance_count(cs: Allocator) -> nat;

/// The number of witness variables.
pub uninterp spec fn witness_count(cs: Allocator) -> nat;

/// Whether the system keeps the constraints it is given (it always does in
/// setup mode; in proving mode only when asked to build its matrices).
pub uninterp spec fn keeps_constraints(cs: Allocator) -> bool;

/// The values assigned to the public inputs in proving mode, in order; the
/// first is the constant one.
pub uninterp spec fn instance_values(cs: Allocator) -> Seq<int>;

/// The values assigned to the witnesses in proving mode, in order.
pub uninterp spec fn witness_values(cs: Allocator) -> Seq<int>;

/// The constraints emitted so far, in order. `(terms, out)` stands for the
/// rank-one constraint `(Σ terms) · 1 = out`.
pub uninterp spec fn constraints_of(cs: Allocator) -> Seq<(Seq<Wire>, Wire)>;

/// The value of a variable, where one is assigned.
pub open spec fn wire_value(cs: Allocator, w: Wire) -> Option<int> {
    match w {
        Wire::One => Some(1),
        Wire::Instance(i) => if i < instance_values(cs).len() {
            Some(instance_values(cs)[i as int])
        } else {
            None
        },
        Wire::Witness(i) => if i < witness_values(cs).len() {
            Some(witness_values(cs)[i as int])
        } else {
            None
        },
    }
}

/// The integer sum of the values of `terms`, where all of them are assigned.
pub open spec fn terms_value(cs: Allocator, terms: Seq<Wire>) -> Option<int>
    decreases terms.len(),
{
    if terms.len() == 0 {
        Some(0)
    } else {
        match (terms_value(cs, terms.drop_last()), wire_value(cs, terms.last())) {
            (Some(a), Some(b)) => Some(a + b),
            _ => None,
        }
    }
}

/// Every variable of the constraint has a value, and the constraint holds in
/// the field.
pub open spec fn constraint_holds(cs: Allocator, c: (Seq<Wire>, Wire)) -> bool {
    &&& terms_value(cs, c.0) is Some
    &&& wire_value(cs, c.1) is Some
    &&& terms_value(cs, c.0)->0 % modulus() == wire_value(cs, c.1)->0 % modulus()
}

/// Every variable of every constraint has a value.
pub open spec fn all_assigned(cs: Allocator) -> bool {
    forall|i: int|
        0 <= i < constraints_of(cs).len() ==> {
            &&& terms_value(cs, (#[trigger] constraints_of(cs)[i]).0) is Some
            &&& wire_value(cs, constraints_of(cs)[i].1) is Some
        }
}

/// Every constraint holds.
pub open spec fn all_hold(cs: Allocator) -> bool {
    forall|i: int|
        0 <= i < constraints_of(cs).len() ==> constraint_holds(cs, #[trigger] constraints_of(cs)[i])
}

impl Allocator {
    /// Relies on `ConstraintSystem::new_ref`: a fresh system in proving mode,
    /// holding only the instance variable for the constant one.
    #[verifier::external_body]
    pub fn new() -> (r: Allocator)
        ensures
            is_bound(r),
            !in_setup_mode(r),
            keeps_constraints(r),
            instance_values(r) == seq![1int],
            witness_values(r) == Seq::<int>::empty(),
            instance_count(r) == 1,
            witness_count(r) == 0,
            constraints_of(r) == Seq::<(Seq<Wire>, Wire)>::empty(),
    {
        Allocator { cs: ConstraintSystem::new_ref() }
    }

    /// Relies on `ConstraintSystemRef::set_mode`, which changes the mode alone.
    #[verifier::external_body]
    pub fn enter_setup_mode(&mut self)
        ensures
            is_bound(*final(self)) == is_bound(*old(self)),
            in_setup_mode(*final(self)) == is_bound(*old(self)),
            is_bound(*old(self)) ==> keeps_constraints(*final(self)),
            instance_values(*final(self)) == instance_values(*old(self)),
            witness_values(*final(self)) == witness_values(*old(self)),
            instance_count(*final(self)) == instance_count(*old(self)),
            witness_count(*final(self)) == witness_count(*old(self)),
            constraints_of(*final(self)) == constraints_of(*old(self)),
    {
        self.cs.set_mode(SynthesisMode::Setup)
    }

    /// Relies on `ConstraintSystemRef::is_none`.
    #[verifier::external_body]
    pub fn is_bound(&self) -> (r: bool)
        ensures
            r == is_bound(*self),
    {
        !self.cs.is_none()
    }

    /// Relies on `ConstraintSystemRef::is_in_setup_mode`.
    #[verifier::external_body]
    pub fn is_in_setup_mode(&self) -> (r: bool)
        ensures
            r == in_setup_mode(*self),
    {
        self.cs.is_in_setup_mode()
    }

    /// Relies on `ConstraintSystemRef::num_instance_variables`.
    #[verifier::external_body]
    pub fn num_instance_variables(&self) -> (r: usize)
        ensures
            r == instance_count(*self),
    {
        self.cs.num_instance_variables()
    }

    /// Relies on `ConstraintSystemRef::num_witness_variables`.
    #[verifier::external_body]
    pub fn num_witness_variables(&self) -> (r: usize)
        ensures
            r == witness_count(*self),
    {
        self.cs.num_witness_variables()
    }

    /// Relies on `ConstraintSystemRef::num_constraints`: one per emitted constraint.
    #[verifier::external_body]
    pub fn num_constraints(&self) -> (r: usize)
        ensures
            r == constraints_of(*self).len(),
    {
        self.cs.num_constraints()
    }

    /// Relies on `ConstraintSystemRef::is_satisfied`: in proving mode it
    /// evaluates the kept constraints in order, fails at a variable without a
    /// value and answers `false` at the first constraint that does not hold.
    /// It fails in setup mode and on an unbound handle.
    #[verifier::external_body]
    pub fn is_satisfied(&self) -> (r: Option<bool>)
        requires
            is_bound(*self) && !in_setup_mode(*self) ==> keeps_constraints(*self),
        ensures
            !is_bound(*self) || in_setup_mode(*self) ==> r is None,
            r == Some(true) ==> all_hold(*self),
            r == Some(false) ==> !all_hold(*self),
            is_bound(*self) && !in_setup_mode(*self) && all_assigned(*self) ==> r == Some(
                all_hold(*self),
            ),
    {
        self.cs.is_satisfied().ok()
    }

    /// Relies on `ConstraintSystemRef::new_witness_variable`: the variable is
    /// counted whenever the handle is bound; in setup mode the value is not asked for, in
    /// proving mode a missing value makes the call fail.
    #[verifier::external_body]
    pub(crate) fn alloc_witness(&mut self, v: Option<FieldValue>) -> (ok: bool)
        requires
            witness_count(*old(self)) < usize::MAX,
            v matches Some(f) ==> f.wf(),
        ensures
            ok == (is_bound(*old(self)) && (in_setup_mode(*old(self)) || v is Some)),
            is_bound(*final(self)) == is_bound(*old(self)),
            in_setup_mode(*final(self)) == in_setup_mode(*old(self)),
            instance_count(*final(self)) == instance_count(*old(self)),
            keeps_constraints(*final(self)) == keeps_constraints(*old(self)),
            instance_values(*final(self)) == instance_values(*old(self)),
            witness_values(*final(self)) == if ok && !in_setup_mode(*old(self)) {
                witness_values(*old(self)).push(v->0.value())
            } else {
                witness_values(*old(self))
            },
            is_bound(*old(self)) ==> witness_count(*final(self)) == witness_count(*old(self)) + 1,
            !is_bound(*old(self)) ==> witness_count(*final(self)) == witness_count(*old(self)),
            constraints_of(*final(self)) == constraints_of(*old(self)),
    {
        self.cs.new_witness_variable(move || {
            v.map(|f| ark_bls12_381::Fr::from_bigint(BigInt::new([f.l0, f.l1, f.l2, f.l3])).unwrap())
                .ok_or(SynthesisError::AssignmentMissing)
        }).is_ok()
    }

    /// Relies on `ConstraintSystemRef::new_input_variable`, which behaves as
    /// `new_witness_variable` does, on the public inputs.
    #[verifier::external_body]
    pub(crate) fn alloc_input(&mut self, v: Option<FieldValue>) -> (ok: bool)
        requires
            instance_count(*old(self)) < usize::MAX,
            v matches Some(f) ==> f.wf(),
        ensures
            ok == (is_bound(*old(self)) && (in_setup_mode(*old(self)) || v is Some)),
            is_bound(*final(self)) == is_bound(*old(self)),
            in_setup_mode(*final(self)) == in_setup_mode(*old(self)),
            keeps_constraints(*final(self)) == keeps_constraints(*old(self)),
            witness_values(*final(self)) == witness_values(*old(self)),
            instance_values(*final(self)) == if ok && !in_setup_mode(*old(self)) {
                instance_values(*old(self)).push(v->0.value())
            } else {
                instance_values(*old(self))
            },
            is_bound(*old(self)) ==> instance_count(*final(self)) == instance_count(*old(self)) + 1,
            !is_bound(*old(self)) ==> instance_count(*final(self)) == instance_count(*old(self)),
            witness_count(*final(self)) == witness_count(*old(self)),
            constraints_of(*final(self)) == constraints_of(*old(self)),
    {
        self.cs.new_input_variable(move || {
            v.map(|f| ark_bls12_381::Fr::from_bigint(BigInt::new([f.l0, f.l1, f.l2, f.l3])).unwrap())
                .ok_or(SynthesisError::AssignmentMissing)
        }).is_ok()
    }

    /// Relies on `ConstraintSystemRef::enforce_constraint`, which appends one
    /// constraint `a · b = c`; here `a` sums `terms`, `b` is the constant one
    /// and `c` is `out`.
    #[verifier::external_body]
    pub(crate) fn enforce_equal(&mut self, terms: &Vec<Wire>, out: Wire)
        requires
            is_bound(*old(self)),
        ensures
            is_bound(*final(self)),
            keeps_constraints(*final(self)) == keeps_constraints(*old(self)),
            instance_values(*final(self)) == instance_values(*old(self)),
            witness_values(*final(self)) == witness_values(*old(self)),
            in_setup_mode(*final(self)) == in_setup_mode(*old(self)),
            instance_count(*final(self)) == instance_count(*old(self)),
            witness_count(*final(self)) == witness_count(*old(self)),
            constraints_of(*final(self)) == constraints_of(*old(self)).push((terms@, out)),
    {
        let var = |w: &Wire| match *w {
            Wire::One => Variable::One,
            Wire::Instance(i) => Variable::Instance(i),
            Wire::Witness(i) => Variable::Witness(i),
        };
        let a = LinearCombination(terms.iter().map(|w| (ark_bls12_381::Fr::one(), var(w))).collect());
        let _ = self.cs.enforce_constraint(a, Variable::One.into(), var(&out).into());
    }
}

} // verus!
