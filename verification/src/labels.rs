//! The fill-state machine: which parameters have been supplied, and how each
//! generated operation constrains and changes that state.

use vstd::prelude::*;

verus! {

/// Whether one parameter's slot has been supplied.
#[derive(Clone, Copy, Debug, PartialEq, Eq, Structural)]
pub enum FillLabel {
    Empty,
    Added,
}

/// One coordinate of the label tuple in the header of a generated operation:
/// either pinned to a label, or left as a free generic parameter so that the
/// operation is available whatever that coordinate holds.
#[derive(Clone, Copy, Debug, PartialEq, Eq, Structural)]
pub enum LabelSlot {
    Fixed(FillLabel),
    Free,
}

/// The state of a freshly constructed carrier over `n` parameters.
pub open spec fn initial_state(n: nat) -> Seq<FillLabel> {
    Seq::new(n, |j: int| FillLabel::Empty)
}

/// The only state in which the terminal operation is available.
pub open spec fn complete_state(n: nat) -> Seq<FillLabel> {
    Seq::new(n, |j: int| FillLabel::Added)
}

/// The setter of parameter `i` may run in `state`.
pub open spec fn setter_enabled(state: Seq<FillLabel>, i: int) -> bool {
    0 <= i < state.len() && state[i] == FillLabel::Empty
}

/// The state that the setter of parameter `i` leaves behind.
pub open spec fn after_setter(state: Seq<FillLabel>, i: int) -> Seq<FillLabel> {
    state.update(i, FillLabel::Added)
}

/// A header that pins every coordinate to `label`.
pub open spec fn uniform_labels(n: nat, label: FillLabel) -> Seq<LabelSlot> {
    Seq::new(n, |j: int| LabelSlot::Fixed(label))
}

/// A header that pins coordinate `i` to `label` and leaves the others free.
pub open spec fn transition_labels(n: nat, i: int, label: FillLabel) -> Seq<LabelSlot> {
    Seq::new(
        n,
        |j: int|
            if j == i {
                LabelSlot::Fixed(label)
            } else {
                LabelSlot::Free
            },
    )
}

/// A carrier in `state` is an instance of the type that `header` describes.
pub open spec fn admits(header: Seq<LabelSlot>, state: Seq<FillLabel>) -> bool {
    &&& header.len() == state.len()
    &&& forall|j: int|
        0 <= j < header.len() ==> (#[trigger] header[j] is Fixed ==> header[j]->Fixed_0
            == state[j])
}

/// The state described by the result header `header`, where the free
/// coordinates keep what they had in `state`.
pub open spec fn relabelled(header: Seq<LabelSlot>, state: Seq<FillLabel>) -> Seq<FillLabel> {
    Seq::new(
        header.len(),
        |j: int|
            match header[j] {
                LabelSlot::Fixed(label) => label,
                LabelSlot::Free => state[j],
            },
    )
}

/// The texts written for a label tuple: the marker type's name for a pinned
/// coordinate, the parameter's own name for a free one.
pub open spec fn label_texts(
    header: Seq<LabelSlot>,
    names: Seq<Seq<char>>,
    added: Seq<char>,
    empty: Seq<char>,
) -> Seq<Seq<char>> {
    Seq::new(
        header.len(),
        |j: int|
            match header[j] {
                LabelSlot::Fixed(FillLabel::Added) => added,
                LabelSlot::Fixed(FillLabel::Empty) => empty,
                LabelSlot::Free => names[j],
            },
    )
}

/// `order` names each of `n` parameters exactly once.
pub open spec fn is_permutation(order: Seq<int>, n: nat) -> bool {
    &&& order.len() == n
    &&& forall|k: int| 0 <= k < order.len() ==> 0 <= #[trigger] order[k] < n
    &&& forall|k: int, l: int| 0 <= k < l < order.len() ==> order[k] != order[l]
    &&& forall|j: int| 0 <= j < n ==> order.contains(j)
}

/// The state reached from `state` by the setters of `order`, one after the
/// other; `None` if one of them is not enabled when its turn comes.
pub open spec fn run(state: Seq<FillLabel>, order: Seq<int>) -> Option<Seq<FillLabel>>
    decreases order.len(),
{
    if order.len() == 0 {
        Some(state)
    } else {
        match run(state, order.drop_last()) {
            Some(reached) => if setter_enabled(reached, order.last()) {
                Some(after_setter(reached, order.last()))
            } else {
                None
            },
            None => None,
        }
    }
}

/// The state over `n` parameters in which exactly the parameters named in
/// `order` are `Added`.
pub open spec fn marked(n: nat, order: Seq<int>) -> Seq<FillLabel> {
    Seq::new(
        n,
        |j: int|
            if order.contains(j) {
                FillLabel::Added
            } else {
                FillLabel::Empty
            },
    )
}

/// A sequence names what its last item names and what the items before
/// it name.
pub proof fn lemma_contains_last(order: Seq<int>, j: int)
    requires
        order.len() > 0,
    ensures
        order.contains(j) == (order.drop_last().contains(j) || j == order.last()),
{
    let head = order.drop_last();
    if j == order.last() {
        assert(order[order.len() - 1] == j);
    } else if head.contains(j) {
        let k = choose|k: int| 0 <= k < head.len() && head[k] == j;
        assert(order[k] == j);
    } else if order.contains(j) {
        let k = choose|k: int| 0 <= k < order.len() && order[k] == j;
        assert(head[k] == j);
    }
}

/// Setters of distinct parameters, in any order, are all enabled in turn
/// when started on the initial state, and leave exactly their own parameters
/// `Added`.
pub proof fn lemma_run_marks(n: nat, order: Seq<int>)
    requires
        forall|k: int| 0 <= k < order.len() ==> 0 <= #[trigger] order[k] < n,
        forall|k: int, l: int| 0 <= k < l < order.len() ==> order[k] != order[l],
    ensures
        run(initial_state(n), order) == Some(marked(n, order)),
    decreases order.len(),
{
    if order.len() == 0 {
        assert(marked(n, order) =~= initial_state(n));
    } else {
        let head = order.drop_last();
        let last = order.last();
        lemma_run_marks(n, head);
        let reached = marked(n, head);
        if head.contains(last) {
            let k = choose|k: int| 0 <= k < head.len() && head[k] == last;
            assert(order[k] == order[order.len() - 1]);
        }
        assert(setter_enabled(reached, last));
        assert forall|j: int| 0 <= j < n implies after_setter(reached, last)[j] == marked(
            n,
            order,
        )[j] by {
            lemma_contains_last(order, j);
        }
        assert(after_setter(reached, last) =~= marked(n, order));
    }
}

/// Order independence: whatever the order in which the `n` setters are
/// used, each once, every one of them is enabled when its turn comes, and
/// the state reached is the one in which the terminal operation exists.
pub proof fn lemma_order_independence(n: nat, order: Seq<int>)
    requires
        is_permutation(order, n),
    ensures
        run(initial_state(n), order) == Some(complete_state(n)),
{
    lemma_run_marks(n, order);
    assert(marked(n, order) =~= complete_state(n));
}

/// The parameters that are `Added` in `state`, in ascending order.
pub open spec fn added_parameters(state: Seq<FillLabel>) -> Seq<int>
    decreases state.len(),
{
    if state.len() == 0 {
        Seq::empty()
    } else if state.last() == FillLabel::Added {
        added_parameters(state.drop_last()).push(state.len() - 1)
    } else {
        added_parameters(state.drop_last())
    }
}

/// `added_parameters` names exactly the parameters that are `Added`, each
/// once.
pub proof fn lemma_added_parameters(state: Seq<FillLabel>)
    ensures
        forall|k: int|
            0 <= k < added_parameters(state).len() ==> 0 <= #[trigger] added_parameters(
                state,
            )[k] < state.len(),
        forall|k: int, l: int|
            0 <= k < l < added_parameters(state).len() ==> added_parameters(state)[k]
                < added_parameters(state)[l],
        forall|j: int|
            0 <= j < state.len() ==> (added_parameters(state).contains(j) <==> state[j]
                == FillLabel::Added),
    decreases state.len(),
{
    if state.len() > 0 {
        let head = state.drop_last();
        let last = state.len() - 1;
        lemma_added_parameters(head);
        let named = added_parameters(state);
        let before = added_parameters(head);
        assert forall|j: int| 0 <= j < state.len() implies (named.contains(j) <==> state[j]
            == FillLabel::Added) by {
            if j < last {
                assert(head[j] == state[j]);
                if before.contains(j) {
                    let k = choose|k: int| 0 <= k < before.len() && before[k] == j;
                    assert(named[k] == j);
                }
                if named.contains(j) {
                    let k = choose|k: int| 0 <= k < named.len() && named[k] == j;
                    assert(before[k] == j);
                }
            } else if state.last() == FillLabel::Added {
                assert(named[named.len() - 1] == j);
            } else if named.contains(j) {
                let k = choose|k: int| 0 <= k < named.len() && named[k] == j;
                assert(before[k] < head.len());
            }
        }
    }
}

/// Every one of the fill states over `n` parameters is reached from the
/// initial state, by the setters of the parameters that it has `Added`.
pub proof fn lemma_every_state_reachable(state: Seq<FillLabel>)
    ensures
        run(initial_state(state.len()), added_parameters(state)) == Some(state),
{
    lemma_added_parameters(state);
    lemma_run_marks(state.len(), added_parameters(state));
    assert(marked(state.len(), added_parameters(state)) =~= state);
}

/// A setter is not enabled in the state that it leaves behind, nor in any
/// state reached from there: no parameter is supplied twice.
pub proof fn lemma_setter_runs_once(state: Seq<FillLabel>, i: int, later: Seq<int>)
    requires
        setter_enabled(state, i),
    ensures
        !setter_enabled(after_setter(state, i), i),
        run(after_setter(state, i), later) matches Some(reached) ==> !setter_enabled(reached, i),
    decreases later.len(),
{
    if later.len() > 0 {
        lemma_setter_runs_once(state, i, later.drop_last());
    }
}

/// Setters of different parameters do not depend on each other: each is
/// enabled after the other exactly if it was before, and both orders lead to
/// the same state.
pub proof fn lemma_setters_commute(state: Seq<FillLabel>, i: int, j: int)
    requires
        i != j,
        0 <= i < state.len(),
        0 <= j < state.len(),
    ensures
        setter_enabled(after_setter(state, i), j) == setter_enabled(state, j),
        after_setter(after_setter(state, i), j) == after_setter(after_setter(state, j), i),
{
    assert(after_setter(after_setter(state, i), j) =~= after_setter(after_setter(state, j), i));
}

/// With no parameters the initial state is already the complete one: the
/// constructor's result can be invoked at once.
pub proof fn lemma_nullary_is_complete()
    ensures
        initial_state(0) == complete_state(0),
{
    assert(initial_state(0) =~= complete_state(0));
}

/// The header of the setter of parameter `i` admits exactly the states in
/// which `i` is `Empty`, whatever the other labels are, and the header of
/// its result describes the state in which `i` alone has changed, to `Added`.
pub proof fn lemma_setter_header(state: Seq<FillLabel>, i: int)
    requires
        0 <= i < state.len(),
    ensures
        admits(transition_labels(state.len(), i, FillLabel::Empty), state) <==> setter_enabled(
            state,
            i,
        ),
        relabelled(transition_labels(state.len(), i, FillLabel::Added), state) == after_setter(
            state,
            i,
        ),
{
    let before = transition_labels(state.len(), i, FillLabel::Empty);
    assert(before[i] is Fixed);
    assert(relabelled(transition_labels(state.len(), i, FillLabel::Added), state)
        =~= after_setter(state, i));
}

/// The header of the terminal operation admits the complete state and no
/// other; the header of the constructor's result, the initial state and no
/// other.
pub proof fn lemma_uniform_header(state: Seq<FillLabel>, label: FillLabel)
    ensures
        admits(uniform_labels(state.len(), label), state) <==> state == Seq::new(
            state.len(),
            |j: int| label,
        ),
{
    let header = uniform_labels(state.len(), label);
    let all = Seq::new(state.len(), |j: int| label);
    if admits(header, state) {
        assert forall|j: int| 0 <= j < state.len() implies state[j] == all[j] by {
            assert(header[j] is Fixed);
        }
        assert(state =~= all);
    }
}

/// Builds the header that pins every one of `n` coordinates to `label`.
pub fn uniform(n: usize, label: FillLabel) -> (header: Vec<LabelSlot>)
    ensures
        header@ == uniform_labels(n as nat, label),
{
    let mut header: Vec<LabelSlot> = Vec::new();
    let mut j: usize = 0;
    while j < n
        invariant
            j <= n,
            header@.len() == j,
            forall|k: int| 0 <= k < j ==> header@[k] == LabelSlot::Fixed(label),
        decreases n - j,
    {
        header.push(LabelSlot::Fixed(label));
        j += 1;
    }
    proof {
        assert(header@ =~= uniform_labels(n as nat, label));
    }
    header
}

/// Builds the header that pins coordinate `i` to `label` and leaves the other
/// coordinates free.
pub fn transition(n: usize, i: usize, label: FillLabel) -> (header: Vec<LabelSlot>)
    ensures
        header@ == transition_labels(n as nat, i as int, label),
{
    let mut header: Vec<LabelSlot> = Vec::new();
    let mut j: usize = 0;
    while j < n
        invariant
            j <= n,
            header@.len() == j,
            forall|k: int|
                0 <= k < j ==> header@[k] == (if k == i {
                    LabelSlot::Fixed(label)
                } else {
                    LabelSlot::Free
                }),
        decreases n - j,
    {
        if j == i {
            header.push(LabelSlot::Fixed(label));
        } else {
            header.push(LabelSlot::Free);
        }
        j += 1;
    }
    proof {
        assert(header@ =~= transition_labels(n as nat, i as int, label));
    }
    header
}

/// The label tuple required of a carrier by the setter of parameter `i`.
pub fn precondition_labels(n: usize, i: usize) -> (header: Vec<LabelSlot>)
    ensures
        header@ == transition_labels(n as nat, i as int, FillLabel::Empty),
{
    transition(n, i, FillLabel::Empty)
}

/// The label tuple of the carrier that the setter of parameter `i` returns.
pub fn postcondition_labels(n: usize, i: usize) -> (header: Vec<LabelSlot>)
    ensures
        header@ == transition_labels(n as nat, i as int, FillLabel::Added),
{
    transition(n, i, FillLabel::Added)
}

/// Writes a label tuple as type arguments, one text per coordinate.
pub(crate) fn label_arguments(header: &Vec<LabelSlot>, names: &Vec<String>, added: &str, empty: &str) -> (out:
    Vec<String>)
    requires
        header@.len() == names@.len(),
    ensures
        out@.len() == header@.len(),
        crate::text::texts(out@) == label_texts(
            header@,
            crate::text::texts(names@),
            added@,
            empty@,
        ),
{
    let mut out: Vec<String> = Vec::new();
    let mut j: usize = 0;
    while j < header.len()
        invariant
            j <= header.len(),
            header@.len() == names@.len(),
            out@.len() == j,
            forall|k: int|
                0 <= k < j ==> #[trigger] out@[k]@ == label_texts(
                    header@,
                    crate::text::texts(names@),
                    added@,
                    empty@,
                )[k],
        decreases header.len() - j,
    {
        let item = match header[j] {
            LabelSlot::Fixed(FillLabel::Added) => added.to_owned(),
            LabelSlot::Fixed(FillLabel::Empty) => empty.to_owned(),
            LabelSlot::Free => names[j].clone(),
        };
        out.push(item);
        j += 1;
    }
    proof {
        assert(crate::text::texts(out@) =~= label_texts(
            header@,
            crate::text::texts(names@),
            added@,
            empty@,
        ));
    }
    out
}

} // verus!
