use ssa_ir::driver::{next_step, DriverAction, Signal};
use ssa_ir::function::{DeclarationRace, Module, Signature, Visibility};
use ssa_ir::known::Known;
use ssa_ir::nameset::NameSet;
use ssa_ir::normalize::{ns_intersection, ns_subtract, ns_union};
use ssa_ir::types::{TermType, Type};

const A: u32 = 1;
const X: u32 = 2;

fn set_of(names: &[u32]) -> NameSet {
    let mut s = NameSet::new();
    for n in names {
        s.insert_mut(*n);
    }
    s
}

/// The worked example from the known-set algebra: with `A` bound
/// before the group and `X` bound by a sibling, only `A` is known
/// when entering the closure.
#[test]
fn only_names_bound_before_the_group_enter_the_closure() {
    let known = Known::new().union(&set_of(&[A]));
    let mut k = known;
    k.start_group();
    let mut k = k.union(&set_of(&[X]));
    k.end_body();

    assert!(k.contains(A));
    assert!(k.contains(X));

    let inside = k.known_in_fun();
    assert!(inside.contains(A));
    assert!(!inside.contains(X));
}

/// `bind` marks names as established: they are removed from the top
/// contribution set and no longer excluded from a closure.
#[test]
fn bind_removes_names_from_the_sibling_contribution() {
    let mut k = Known::new().union(&set_of(&[A]));
    k.start_group();
    let mut k = k.union(&set_of(&[X]));
    k.end_body();

    // X was contributed by a sibling: not visible inside a closure
    assert!(!k.known_in_fun().contains(X));

    // after binding X it counts as established
    let k2 = k.bind(&set_of(&[X]));
    assert!(k2.known_in_fun().contains(X));
}

/// Group bookkeeping nests: an inner group restores the outer state
/// when it ends.
#[test]
fn groups_nest_and_unwind() {
    let mut k = Known::new().union(&set_of(&[A]));
    k.start_group();
    let mut k = k.union(&set_of(&[X]));
    k.end_body();
    k.start_group();
    let inner = k.union(&set_of(&[7]));
    let mut k = inner;
    k.end_body();
    k.end_group();
    // back in the outer group: the closure still excludes only X
    let inside = k.known_in_fun();
    assert!(inside.contains(A));
    assert!(!inside.contains(X));
    assert!(inside.contains(7));
}

/// The name-set wrappers really reach the underlying set: inserts are
/// observable, removals report presence, and iteration is sorted.
#[test]
fn name_set_operations_are_observable() {
    let mut s = NameSet::new();
    assert!(s.is_empty());
    assert!(!s.contains(5));
    s.insert_mut(5);
    s.insert_mut(3);
    s.insert_mut(9);
    s.insert_mut(3);
    assert!(!s.is_empty());
    assert!(s.contains(3) && s.contains(5) && s.contains(9));
    assert_eq!(s.to_sorted_vec(), vec![3, 5, 9]);
    assert!(s.remove_mut(5));
    assert!(!s.remove_mut(5));
    assert_eq!(s.to_sorted_vec(), vec![3, 9]);
}

/// The set helpers behave as their set-theoretic counterparts.
#[test]
fn set_helpers_compute_union_difference_and_intersection() {
    let ab = set_of(&[1, 2]);
    let bc = set_of(&[2, 3]);

    let u = ns_union(set_of(&[1, 2]), &bc);
    assert_eq!(u.to_sorted_vec(), vec![1, 2, 3]);

    let d = ns_subtract(set_of(&[1, 2]), &bc);
    assert_eq!(d.to_sorted_vec(), vec![1]);

    let i = ns_intersection(&ab, &bc);
    assert_eq!(i.to_sorted_vec(), vec![2]);
}

fn sig(module: u32, name: u32, arity: u8, results: Vec<Type>) -> Signature {
    Signature { module, name, arity, params: vec![], results, visibility: Visibility::Public }
}

/// Declaring a function is idempotent by symbol; a redeclaration with
/// a different signature is rejected.
#[test]
fn function_declaration_is_idempotent_and_races_are_rejected() {
    let mut m = Module::new(1);
    let f1 = m.declare_function(sig(1, 2, 0, vec![Type::Term(TermType::Any)])).unwrap();
    let f2 = m.declare_function(sig(1, 2, 0, vec![Type::Term(TermType::Any)])).unwrap();
    assert_eq!(f1, f2);
    assert_eq!(m.signatures.len(), 1);

    // same symbol, different signature: rejected, registry unchanged
    let r = m.declare_function(sig(1, 2, 0, vec![Type::Term(TermType::Integer)]));
    assert_eq!(r.unwrap_err(), DeclarationRace);
    assert_eq!(m.signatures.len(), 1);

    // a different symbol gets a fresh handle
    let f3 = m.declare_function(sig(1, 3, 2, vec![])).unwrap();
    assert_ne!(f1, f3);
    assert_eq!(m.signatures.len(), 2);
}

/// The driver's decisions: an interrupt shuts down, a terminating
/// signal exits at once, anything else continues while work was
/// scheduled and stops idle otherwise.
#[test]
fn driver_decisions_follow_the_signals() {
    assert_eq!(next_step(Some(Signal::Interrupt), true), DriverAction::Shutdown);
    assert_eq!(next_step(Some(Signal::Interrupt), false), DriverAction::Shutdown);
    assert_eq!(next_step(Some(Signal::Terminating), true), DriverAction::ExitNow);
    assert_eq!(next_step(Some(Signal::Other), true), DriverAction::ContinueRunning);
    assert_eq!(next_step(None, true), DriverAction::ContinueRunning);
    assert_eq!(next_step(Some(Signal::Other), false), DriverAction::StopIdle);
    assert_eq!(next_step(None, false), DriverAction::StopIdle);
}
