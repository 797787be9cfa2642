//! The carrier at run time, with its labels held as data. Where the
//! generated carrier makes a second supply of one parameter, or an early
//! invocation, a type error, this one refuses them with an error value; in
//! everything else it behaves as the generated one does.

use crate::labels::{
    after_setter, complete_state, initial_state, is_permutation, run, setter_enabled, FillLabel,
};
use crate::options::Mode;
use std::sync::Arc;
use vstd::prelude::*;

verus! {

/// Why a carrier refused an operation.
#[derive(Clone, Copy, Debug, PartialEq, Eq, Structural)]
pub enum CarrierError {
    /// The carrier has no parameter at the given position.
    NoSuchParameter,
    /// The parameter has been supplied already.
    AlreadyAdded,
    /// Some parameter has not been supplied yet.
    Incomplete,
    /// The carrier's mode does not allow duplication.
    NotCloneable,
}

/// A partially applied function: one slot per parameter, each empty or
/// holding the producer of the parameter's value, and the function's body,
/// which takes the parameters' values by position.
///
/// Producers and body are held behind shared ownership, so that duplicates
/// of a carrier hold the same producers and the same body.
///
/// All producers have one type `P` and give values of one type: a function
/// whose parameters differ in type is carried with a sum of those types as
/// the value type.
pub struct Carrier<P, B> {
    mode: Mode,
    labels: Vec<FillLabel>,
    slots: Vec<Option<Arc<P>>>,
    body: Arc<B>,
}

/// What a carrier holds.
pub struct CarrierView<P, B> {
    pub mode: Mode,
    /// The fill state: one label per parameter.
    pub labels: Seq<FillLabel>,
    /// The producer supplied for each parameter, if any.
    pub slots: Seq<Option<P>>,
    pub body: B,
}

impl<P, B> CarrierView<P, B> {
    /// A slot is populated if and only if its label is `Added`.
    pub open spec fn wf(self) -> bool {
        &&& self.labels.len() == self.slots.len()
        &&& forall|i: int|
            0 <= i < self.labels.len() ==> ((#[trigger] self.labels[i] == FillLabel::Added)
                <==> self.slots[i] is Some)
    }

    /// This carrier after the setter of parameter `i` has stored `producer`:
    /// the label and the slot of `i` have changed, and nothing else.
    pub open spec fn with(self, i: int, producer: P) -> Self {
        CarrierView {
            mode: self.mode,
            labels: after_setter(self.labels, i),
            slots: self.slots.update(i, Some(producer)),
            body: self.body,
        }
    }
}

/// The carrier that the constructor returns: every label `Empty`, every
/// slot empty.
pub open spec fn fresh<P, B>(n: nat, body: B, mode: Mode) -> CarrierView<P, B> {
    CarrierView { mode, labels: initial_state(n), slots: Seq::new(n, |j: int| None), body }
}

/// The carrier over as many parameters as there are `producers`, in which
/// exactly the parameters named in `order` have been supplied, each with its
/// own producer.
pub open spec fn partly_filled<P, B>(producers: Seq<P>, order: Seq<int>, body: B, mode: Mode)
    -> CarrierView<P, B> {
    CarrierView {
        mode,
        labels: crate::labels::marked(producers.len(), order),
        slots: Seq::new(
            producers.len(),
            |j: int|
                if order.contains(j) {
                    Some(producers[j])
                } else {
                    None
                },
        ),
        body,
    }
}

/// The carrier in which every parameter has been supplied with its own
/// producer.
pub open spec fn filled<P, B>(producers: Seq<P>, body: B, mode: Mode) -> CarrierView<P, B> {
    CarrierView {
        mode,
        labels: complete_state(producers.len()),
        slots: Seq::new(producers.len(), |j: int| Some(producers[j])),
        body,
    }
}

/// The carrier reached from `start` by the setters of `order`, one after the
/// other, each storing the producer of its own parameter; `None` if one of
/// them is refused.
pub open spec fn supplied<P, B>(start: CarrierView<P, B>, producers: Seq<P>, order: Seq<int>)
    -> Option<CarrierView<P, B>>
    decreases order.len(),
{
    if order.len() == 0 {
        Some(start)
    } else {
        match supplied(start, producers, order.drop_last()) {
            Some(reached) => if setter_enabled(reached.labels, order.last()) {
                Some(reached.with(order.last(), producers[order.last()]))
            } else {
                None
            },
            None => None,
        }
    }
}

/// `values` holds, by position, a value that each slot's producer may give.
pub open spec fn yields<T, P: Fn() -> T>(slots: Seq<Option<P>>, values: Seq<T>) -> bool {
    &&& values.len() == slots.len()
    &&& forall|i: int|
        0 <= i < slots.len() ==> (#[trigger] slots[i] matches Some(producer) && call_ensures(
            producer,
            (),
            values[i],
        ))
}

/// `result` is what the body may return on values that the producers may
/// give, passed by position.
pub open spec fn may_return<T, R, P: Fn() -> T, B: Fn(Vec<T>) -> R>(
    carrier: CarrierView<P, B>,
    result: R,
) -> bool {
    exists|values: Vec<T>|
        yields(carrier.slots, values@) && call_ensures(carrier.body, (values,), result)
}

/// `Arc::clone` of std: a second handle to the same shared value. As values
/// the two handles are equal.
#[verifier::external_body]
fn share<T>(shared: &Arc<T>) -> (other: Arc<T>)
    ensures
        other == *shared,
{
    Arc::clone(shared)
}

impl<P, B> View for Carrier<P, B> {
    type V = CarrierView<P, B>;

    closed spec fn view(&self) -> CarrierView<P, B> {
        CarrierView {
            mode: self.mode,
            labels: self.labels@,
            slots: Seq::new(
                self.slots@.len(),
                |j: int|
                    match self.slots@[j] {
                        Some(producer) => Some(*producer),
                        None => None,
                    },
            ),
            body: *self.body,
        }
    }
}

impl<P, B> Carrier<P, B> {
    #[verifier::type_invariant]
    closed spec fn inv(&self) -> bool {
        self@.wf()
    }

    /// Creates the carrier of a function of `arity` parameters: nothing is
    /// supplied yet.
    pub fn new(arity: usize, body: B, mode: Mode) -> (carrier: Self)
        ensures
            carrier@ == fresh::<P, B>(arity as nat, body, mode),
    {
        let mut labels: Vec<FillLabel> = Vec::new();
        let mut slots: Vec<Option<Arc<P>>> = Vec::new();
        let mut j: usize = 0;
        while j < arity
            invariant
                j <= arity,
                labels@.len() == j,
                slots@.len() == j,
                forall|k: int| 0 <= k < j ==> labels@[k] == FillLabel::Empty,
                forall|k: int| 0 <= k < j ==> slots@[k] is None,
            decreases arity - j,
        {
            labels.push(FillLabel::Empty);
            slots.push(None);
            j += 1;
        }
        let carrier = Carrier { mode, labels, slots, body: Arc::new(body) };
        proof {
            assert(carrier@.labels =~= initial_state(arity as nat));
            assert(carrier@.slots =~= Seq::new(arity as nat, |j: int| None::<P>));
        }
        carrier
    }

    /// The mode that the carrier was created in.
    pub fn mode(&self) -> (mode: Mode)
        ensures
            mode == self@.mode,
    {
        self.mode
    }

    /// The number of parameters.
    pub fn arity(&self) -> (n: usize)
        ensures
            n == self@.labels.len(),
            self@.wf(),
    {
        proof {
            use_type_invariant(self);
        }
        self.labels.len()
    }

    /// The label of the parameter at `index`, if there is one.
    pub fn label(&self, index: usize) -> (label: Option<FillLabel>)
        ensures
            label == (if index < self@.labels.len() {
                Some(self@.labels[index as int])
            } else {
                None
            }),
    {
        if index < self.labels.len() {
            Some(self.labels[index])
        } else {
            None
        }
    }

    /// Whether every parameter has been supplied.
    pub fn is_complete(&self) -> (complete: bool)
        ensures
            complete == (self@.labels == complete_state(self@.labels.len())),
    {
        let mut j: usize = 0;
        while j < self.labels.len()
            invariant
                j <= self.labels.len(),
                forall|k: int| 0 <= k < j ==> self.labels@[k] == FillLabel::Added,
            decreases self.labels.len() - j,
        {
            match self.labels[j] {
                FillLabel::Empty => {
                    proof {
                        assert(complete_state(self.labels@.len())[j as int] == FillLabel::Added);
                    }
                    return false;
                },
                FillLabel::Added => {},
            }
            j += 1;
        }
        proof {
            assert(self.labels@ =~= complete_state(self.labels@.len()));
        }
        true
    }

    /// The setter of the parameter at `index`: takes the carrier and returns
    /// it with `producer` stored in that parameter's slot. Refused if the
    /// parameter has been supplied before, or if there is none at `index`.
    pub fn set(self, index: usize, producer: P) -> (result: Result<Self, CarrierError>)
        ensures
            match result {
                Ok(carrier) => setter_enabled(self@.labels, index as int) && carrier@
                    == self@.with(index as int, producer),
                Err(error) => !setter_enabled(self@.labels, index as int) && error == (if index
                    < self@.labels.len() {
                    CarrierError::AlreadyAdded
                } else {
                    CarrierError::NoSuchParameter
                }),
            },
    {
        proof {
            use_type_invariant(&self);
        }
        if index >= self.labels.len() {
            return Err(CarrierError::NoSuchParameter);
        }
        match self.labels[index] {
            FillLabel::Added => {
                return Err(CarrierError::AlreadyAdded);
            },
            FillLabel::Empty => {},
        }
        let ghost before = self@;
        let Carrier { mode, mut labels, mut slots, body } = self;
        labels.set(index, FillLabel::Added);
        slots.set(index, Some(Arc::new(producer)));
        let carrier = Carrier { mode, labels, slots, body };
        proof {
            assert(carrier@.slots =~= before.slots.update(index as int, Some(producer)));
            assert(carrier@.labels =~= after_setter(before.labels, index as int));
        }
        Ok(carrier)
    }

    /// Duplicates the carrier as it stands. The duplicate holds the same
    /// producers and the same body. Refused unless the mode is polymorphic
    /// and cloneable.
    pub fn duplicate(&self) -> (result: Result<Self, CarrierError>)
        ensures
            match result {
                Ok(carrier) => self@.mode.polymorphic && self@.mode.cloneable && carrier@
                    == self@,
                Err(error) => !(self@.mode.polymorphic && self@.mode.cloneable) && error
                    == CarrierError::NotCloneable,
            },
    {
        proof {
            use_type_invariant(self);
        }
        if !(self.mode.polymorphic && self.mode.cloneable) {
            return Err(CarrierError::NotCloneable);
        }
        let mut labels: Vec<FillLabel> = Vec::new();
        let mut slots: Vec<Option<Arc<P>>> = Vec::new();
        let mut j: usize = 0;
        while j < self.labels.len()
            invariant
                j <= self.labels.len(),
                self.labels@.len() == self.slots@.len(),
                labels@.len() == j,
                slots@.len() == j,
                forall|k: int| 0 <= k < j ==> labels@[k] == self.labels@[k],
                forall|k: int| 0 <= k < j ==> slots@[k] == self.slots@[k],
            decreases self.labels.len() - j,
        {
            labels.push(self.labels[j]);
            let slot = match &self.slots[j] {
                Some(producer) => Some(share(producer)),
                None => None,
            };
            slots.push(slot);
            j += 1;
        }
        proof {
            assert(labels@ =~= self.labels@);
            assert(slots@ =~= self.slots@);
        }
        let carrier = Carrier { mode: self.mode, labels, slots, body: share(&self.body) };
        proof {
            assert(carrier@.slots =~= self@.slots);
        }
        Ok(carrier)
    }
}

impl<T, R, P: Fn() -> T, B: Fn(Vec<T>) -> R> Carrier<P, B> {
    /// The terminal operation: takes the carrier, invokes every producer,
    /// in the order of the parameters, and invokes the body on the values by
    /// position. Refused, before anything is invoked, unless every parameter
    /// has been supplied.
    pub fn call(self) -> (result: Result<R, CarrierError>)
        requires
            self@.labels == complete_state(self@.labels.len()) ==> {
                &&& forall|i: int|
                    0 <= i < self@.slots.len() ==> (#[trigger] self@.slots[i] matches Some(
                        producer,
                    ) ==> call_requires(producer, ()))
                &&& forall|values: Vec<T>|
                    yields(self@.slots, values@) ==> call_requires(self@.body, (values,))
            },
        ensures
            match result {
                Ok(value) => self@.labels == complete_state(self@.labels.len()) && may_return(
                    self@,
                    value,
                ),
                Err(error) => self@.labels != complete_state(self@.labels.len()) && error
                    == CarrierError::Incomplete,
            },
    {
        proof {
            use_type_invariant(&self);
        }
        if !self.is_complete() {
            return Err(CarrierError::Incomplete);
        }
        let mut values: Vec<T> = Vec::new();
        let mut i: usize = 0;
        while i < self.slots.len()
            invariant
                i <= self.slots.len(),
                self@.wf(),
                self@.labels == complete_state(self@.labels.len()),
                values@.len() == i,
                forall|j: int|
                    0 <= j < self@.slots.len() ==> (#[trigger] self@.slots[j] matches Some(
                        producer,
                    ) ==> call_requires(producer, ())),
                forall|j: int|
                    0 <= j < i ==> (#[trigger] self@.slots[j] matches Some(producer)
                        && call_ensures(producer, (), values@[j])),
            decreases self.slots.len() - i,
        {
            proof {
                assert(self@.labels[i as int] == FillLabel::Added);
                assert(self@.slots[i as int] is Some);
            }
            match &self.slots[i] {
                Some(producer) => {
                    let value = producer();
                    values.push(value);
                },
                None => {
                    return Err(CarrierError::Incomplete);
                },
            }
            i += 1;
        }
        let value = (self.body)(values);
        Ok(value)
    }
}

/// The invariant of every carrier: a fresh one has it, and a setter that is
/// enabled keeps it.
pub proof fn lemma_invariant_kept<P, B>(carrier: CarrierView<P, B>, i: int, producer: P)
    requires
        carrier.wf(),
        setter_enabled(carrier.labels, i),
    ensures
        carrier.with(i, producer).wf(),
        fresh::<P, B>(carrier.labels.len(), carrier.body, carrier.mode).wf(),
{
}

/// With no parameters a fresh carrier is complete: the terminal operation
/// is not refused, and invokes the body on no values.
pub proof fn lemma_nullary_carrier_is_complete<T, P: Fn() -> T, B>(body: B, mode: Mode)
    ensures
        fresh::<P, B>(0, body, mode).labels == complete_state(0),
        fresh::<P, B>(0, body, mode) == filled(Seq::<P>::empty(), body, mode),
        forall|values: Seq<T>|
            yields(fresh::<P, B>(0, body, mode).slots, values) <==> values.len() == 0,
{
    crate::labels::lemma_nullary_is_complete();
    assert(fresh::<P, B>(0, body, mode).slots =~= filled(Seq::<P>::empty(), body, mode).slots);
}

/// Supplying follows the fill-state machine: a setter is refused exactly
/// where the machine has it not enabled, the labels reached are those that
/// the machine reaches, and each slot holds its parameter's producer if its
/// setter was among those used, and what it held before if not.
pub proof fn lemma_supplied_follows_run<P, B>(
    start: CarrierView<P, B>,
    producers: Seq<P>,
    order: Seq<int>,
)
    requires
        start.labels.len() == start.slots.len(),
    ensures
        match supplied(start, producers, order) {
            Some(reached) => {
                &&& run(start.labels, order) == Some(reached.labels)
                &&& reached.mode == start.mode
                &&& reached.body == start.body
                &&& reached.labels.len() == start.labels.len()
                &&& reached.slots.len() == start.slots.len()
                &&& forall|j: int|
                    0 <= j < start.slots.len() ==> #[trigger] reached.slots[j] == (
                    if order.contains(j) {
                        Some(producers[j])
                    } else {
                        start.slots[j]
                    })
            },
            None => run(start.labels, order) is None,
        },
    decreases order.len(),
{
    if order.len() > 0 {
        let head = order.drop_last();
        let last = order.last();
        lemma_supplied_follows_run(start, producers, head);
        match supplied(start, producers, head) {
            Some(before) => {
                if setter_enabled(before.labels, last) {
                    let reached = before.with(last, producers[last]);
                    assert forall|j: int| 0 <= j < start.slots.len() implies
                        #[trigger] reached.slots[j] == (if order.contains(j) {
                        Some(producers[j])
                    } else {
                        start.slots[j]
                    }) by {
                        crate::labels::lemma_contains_last(order, j);
                        assert(before.slots[j] == (if head.contains(j) {
                            Some(producers[j])
                        } else {
                            start.slots[j]
                        }));
                    }
                }
            },
            None => {},
        }
    }
}

/// Supplying distinct parameters, in any order, is never refused on a fresh
/// carrier, and leaves exactly those parameters supplied, each with its own
/// producer.
pub proof fn lemma_supplied_marks<P, B>(body: B, mode: Mode, producers: Seq<P>, order: Seq<int>)
    requires
        forall|k: int| 0 <= k < order.len() ==> 0 <= #[trigger] order[k] < producers.len(),
        forall|k: int, l: int| 0 <= k < l < order.len() ==> order[k] != order[l],
    ensures
        supplied(fresh(producers.len(), body, mode), producers, order) == Some(
            partly_filled(producers, order, body, mode),
        ),
{
    let start = fresh::<P, B>(producers.len(), body, mode);
    crate::labels::lemma_run_marks(producers.len(), order);
    lemma_supplied_follows_run(start, producers, order);
    let reached = supplied(start, producers, order)->Some_0;
    assert(reached.slots =~= partly_filled(producers, order, body, mode).slots);
}

/// Order independence: whatever the order in which the parameters are
/// supplied, each once with its own producer, no setter is refused, and the
/// carrier reached is the same: complete, with every producer in the slot of
/// its parameter. What the terminal operation may return is therefore the
/// same for every order: what the body may return on the producers' values,
/// passed by position.
pub proof fn lemma_supply_in_any_order<P, B>(
    body: B,
    mode: Mode,
    producers: Seq<P>,
    order: Seq<int>,
)
    requires
        is_permutation(order, producers.len()),
    ensures
        supplied(fresh(producers.len(), body, mode), producers, order) == Some(
            filled(producers, body, mode),
        ),
        filled(producers, body, mode).wf(),
{
    lemma_supplied_marks(body, mode, producers, order);
    assert(partly_filled(producers, order, body, mode).labels =~= filled(
        producers,
        body,
        mode,
    ).labels);
    assert(partly_filled(producers, order, body, mode).slots =~= filled(
        producers,
        body,
        mode,
    ).slots);
}

/// A carrier and its duplicate, completed by the same producers, each in an
/// order of its own, end as the same carrier, so the terminal operation may
/// return on one exactly what it may return on the other.
pub proof fn lemma_duplicates_complete_alike<P, B>(
    start: CarrierView<P, B>,
    copy: CarrierView<P, B>,
    supplied_before: Seq<int>,
    producers: Seq<P>,
    first: Seq<int>,
    second: Seq<int>,
)
    requires
        copy == start,
        start == partly_filled(producers, supplied_before, start.body, start.mode),
        is_permutation(supplied_before + first, producers.len()),
        is_permutation(supplied_before + second, producers.len()),
    ensures
        supplied(start, producers, first) == Some(filled(producers, start.body, start.mode)),
        supplied(copy, producers, second) == Some(filled(producers, start.body, start.mode)),
{
    lemma_continue_supply(start.body, start.mode, producers, supplied_before, first);
    lemma_continue_supply(start.body, start.mode, producers, supplied_before, second);
}

/// Supplying the rest of the parameters, in any order, completes a
/// partially filled carrier.
pub proof fn lemma_continue_supply<P, B>(
    body: B,
    mode: Mode,
    producers: Seq<P>,
    before: Seq<int>,
    rest: Seq<int>,
)
    requires
        is_permutation(before + rest, producers.len()),
    ensures
        supplied(partly_filled(producers, before, body, mode), producers, rest) == Some(
            filled(producers, body, mode),
        ),
{
    lemma_supplied_append(fresh(producers.len(), body, mode), producers, before, rest);
    lemma_supply_in_any_order(body, mode, producers, before + rest);
    assert forall|k: int| 0 <= k < before.len() implies 0 <= #[trigger] before[k]
        < producers.len() by {
        assert((before + rest)[k] == before[k]);
    }
    assert forall|k: int, l: int| 0 <= k < l < before.len() implies before[k] != before[l] by {
        assert((before + rest)[k] == before[k]);
        assert((before + rest)[l] == before[l]);
    }
    lemma_supplied_marks(body, mode, producers, before);
}

/// Supplying along `before + rest` is supplying along `before` and then,
/// from what was reached, along `rest`.
pub proof fn lemma_supplied_append<P, B>(
    start: CarrierView<P, B>,
    producers: Seq<P>,
    before: Seq<int>,
    rest: Seq<int>,
)
    ensures
        supplied(start, producers, before + rest) == (match supplied(start, producers, before) {
            Some(reached) => supplied(reached, producers, rest),
            None => None,
        }),
    decreases rest.len(),
{
    if rest.len() == 0 {
        assert(before + rest =~= before);
    } else {
        lemma_supplied_append(start, producers, before, rest.drop_last());
        assert((before + rest).drop_last() =~= before + rest.drop_last());
        assert((before + rest).last() == rest.last());
    }
}

} // verus!
