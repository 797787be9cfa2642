use partial_application::carrier::{Carrier, CarrierError};
use partial_application::labels::{
    postcondition_labels, precondition_labels, transition, uniform, FillLabel, LabelSlot,
};
use partial_application::options::Mode;
use std::cell::Cell;
use std::rc::Rc;

type Producer = Box<dyn Fn() -> i32>;

const MONOMORPHIC: Mode = Mode { polymorphic: false, cloneable: false };
const POLYMORPHIC: Mode = Mode { polymorphic: true, cloneable: false };
const CLONEABLE: Mode = Mode { polymorphic: true, cloneable: true };

fn constant(value: i32) -> Producer {
    Box::new(move || value)
}

fn counted(value: i32, calls: &Rc<Cell<usize>>) -> Producer {
    let calls = Rc::clone(calls);
    Box::new(move || {
        calls.set(calls.get() + 1);
        value
    })
}

fn add() -> Carrier<Producer, impl Fn(Vec<i32>) -> i32> {
    Carrier::new(2, |values: Vec<i32>| values[0] + values[1], MONOMORPHIC)
}

fn permutations(n: usize) -> Vec<Vec<usize>> {
    if n == 0 {
        return vec![vec![]];
    }
    let mut all = Vec::new();
    for shorter in permutations(n - 1) {
        for at in 0..=shorter.len() {
            let mut longer = shorter.clone();
            longer.insert(at, n - 1);
            all.push(longer);
        }
    }
    all
}

#[test]
fn add_first_a_then_b() {
    let carrier = add().set(0, constant(2)).unwrap().set(1, constant(3)).unwrap();
    assert_eq!(carrier.call(), Ok(5));
}

#[test]
fn add_first_b_then_a() {
    let carrier = add().set(1, constant(3)).unwrap().set(0, constant(2)).unwrap();
    assert_eq!(carrier.call(), Ok(5));
}

#[test]
fn values_reach_the_body_by_position_whatever_the_order() {
    let orders = permutations(3);
    assert_eq!(orders.len(), 6);
    for mode in [MONOMORPHIC, POLYMORPHIC, CLONEABLE] {
        for order in &orders {
            let calls: Vec<Rc<Cell<usize>>> = (0..3).map(|_| Rc::new(Cell::new(0))).collect();
            let mut carrier: Carrier<Producer, _> = Carrier::new(
                3,
                |values: Vec<i32>| 100 * values[0] + 10 * values[1] + values[2],
                mode,
            );
            for &i in order {
                assert_eq!(carrier.label(i), Some(FillLabel::Empty));
                carrier = carrier.set(i, counted(i as i32 + 1, &calls[i])).unwrap();
                assert_eq!(carrier.label(i), Some(FillLabel::Added));
            }
            assert!(carrier.is_complete());
            assert_eq!(carrier.call(), Ok(123));
            for count in &calls {
                assert_eq!(count.get(), 1);
            }
        }
    }
}

#[test]
fn no_producer_is_invoked_before_the_terminal_operation() {
    let calls = Rc::new(Cell::new(0));
    let carrier = add().set(0, counted(2, &calls)).unwrap().set(1, counted(3, &calls)).unwrap();
    assert_eq!(calls.get(), 0);
    assert_eq!(carrier.call(), Ok(5));
    assert_eq!(calls.get(), 2);
}

#[test]
fn nullary_function_is_invoked_at_once() {
    let carrier: Carrier<Producer, _> =
        Carrier::new(0, |values: Vec<i32>| 7 + values.len() as i32, MONOMORPHIC);
    assert_eq!(carrier.arity(), 0);
    assert!(carrier.is_complete());
    assert_eq!(carrier.call(), Ok(7));
}

#[test]
fn fresh_carrier_is_all_empty() {
    let carrier = add();
    assert_eq!(carrier.arity(), 2);
    assert_eq!(carrier.mode(), MONOMORPHIC);
    assert_eq!(carrier.label(0), Some(FillLabel::Empty));
    assert_eq!(carrier.label(1), Some(FillLabel::Empty));
    assert_eq!(carrier.label(2), None);
    assert!(!carrier.is_complete());
}

#[test]
fn setter_changes_its_own_label_only() {
    let carrier = add().set(1, constant(3)).unwrap();
    assert_eq!(carrier.label(0), Some(FillLabel::Empty));
    assert_eq!(carrier.label(1), Some(FillLabel::Added));
    assert!(!carrier.is_complete());
}

#[test]
fn second_supply_of_a_parameter_is_refused() {
    let carrier = add().set(0, constant(2)).unwrap();
    assert_eq!(carrier.set(0, constant(9)).err(), Some(CarrierError::AlreadyAdded));
    let complete = add().set(0, constant(2)).unwrap().set(1, constant(3)).unwrap();
    assert_eq!(complete.set(1, constant(9)).err(), Some(CarrierError::AlreadyAdded));
}

#[test]
fn supply_of_a_missing_parameter_is_refused() {
    assert_eq!(add().set(2, constant(1)).err(), Some(CarrierError::NoSuchParameter));
    let nullary: Carrier<Producer, _> = Carrier::new(0, |_: Vec<i32>| 0, MONOMORPHIC);
    assert_eq!(nullary.set(0, constant(1)).err(), Some(CarrierError::NoSuchParameter));
}

#[test]
fn early_invocation_is_refused_and_invokes_nothing() {
    assert_eq!(add().call(), Err(CarrierError::Incomplete));
    let calls = Rc::new(Cell::new(0));
    let half = add().set(0, counted(2, &calls)).unwrap();
    assert_eq!(half.call(), Err(CarrierError::Incomplete));
    assert_eq!(calls.get(), 0);
}

#[test]
fn duplication_needs_the_cloneable_mode() {
    for mode in [MONOMORPHIC, POLYMORPHIC, Mode { polymorphic: false, cloneable: true }] {
        let carrier: Carrier<Producer, _> = Carrier::new(1, |values: Vec<i32>| values[0], mode);
        assert_eq!(carrier.duplicate().err(), Some(CarrierError::NotCloneable));
        assert_eq!(carrier.set(0, constant(4)).unwrap().call(), Ok(4));
    }
}

#[test]
fn duplicates_share_what_was_supplied_and_complete_on_their_own() {
    let shared = Rc::new(Cell::new(0));
    let source: Carrier<Producer, _> =
        Carrier::new(2, |values: Vec<i32>| values[0] * values[1], CLONEABLE);
    let source = source.set(0, counted(6, &shared)).unwrap();
    let copy = source.duplicate().unwrap();
    assert_eq!(copy.mode(), CLONEABLE);
    assert_eq!(copy.arity(), 2);
    assert_eq!(copy.label(0), Some(FillLabel::Added));
    assert_eq!(copy.label(1), Some(FillLabel::Empty));
    assert_eq!(source.label(1), Some(FillLabel::Empty));

    let copy = copy.set(1, constant(7)).unwrap();
    assert_eq!(source.label(1), Some(FillLabel::Empty));
    let source = source.set(1, constant(7)).unwrap();

    assert_eq!(source.call(), Ok(42));
    assert_eq!(shared.get(), 1);
    assert_eq!(copy.call(), Ok(42));
    assert_eq!(shared.get(), 2);
}

#[test]
fn duplicates_may_be_completed_differently() {
    let source: Carrier<Producer, _> =
        Carrier::new(2, |values: Vec<i32>| values[0] - values[1], CLONEABLE);
    let source = source.set(0, constant(10)).unwrap();
    let copy = source.duplicate().unwrap().set(1, constant(1)).unwrap();
    let again = copy.duplicate().unwrap();
    let source = source.set(1, constant(4)).unwrap();
    assert_eq!(copy.call(), Ok(9));
    assert_eq!(again.call(), Ok(9));
    assert_eq!(source.call(), Ok(6));
}

#[test]
fn setter_headers_pin_one_coordinate() {
    let free = LabelSlot::Free;
    let empty = LabelSlot::Fixed(FillLabel::Empty);
    let added = LabelSlot::Fixed(FillLabel::Added);
    assert_eq!(precondition_labels(3, 1), vec![free, empty, free]);
    assert_eq!(postcondition_labels(3, 1), vec![free, added, free]);
    assert_eq!(precondition_labels(1, 0), vec![empty]);
    assert_eq!(postcondition_labels(3, 2), vec![free, free, added]);
    assert_eq!(transition(2, 0, FillLabel::Added), vec![added, free]);
    assert_eq!(transition(2, 5, FillLabel::Added), vec![free, free]);
    assert!(precondition_labels(0, 0).is_empty());
}

#[test]
fn constructor_and_terminal_headers_pin_every_coordinate() {
    let empty = LabelSlot::Fixed(FillLabel::Empty);
    let added = LabelSlot::Fixed(FillLabel::Added);
    assert_eq!(uniform(3, FillLabel::Empty), vec![empty, empty, empty]);
    assert_eq!(uniform(2, FillLabel::Added), vec![added, added]);
    assert!(uniform(0, FillLabel::Added).is_empty());
}
