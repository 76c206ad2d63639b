//! Values that go into and come out of SQL statements, and the rule that
//! decides, step by step, what to do with the rows that a statement returns.

use vstd::prelude::*;

verus! {

/// A value bound to a parameter of a statement.
#[derive(Copy, Clone, Debug, PartialEq, Eq)]
pub enum SqlParam<'a> {
    Null,
    Integer(i64),
    Text(&'a str),
    Blob(&'a [u8]),
}

/// A value read from a column of a result row. A floating-point value is
/// recorded as `Real` only: no decoder of this library reads one.
#[derive(Clone, Debug, PartialEq, Eq)]
pub enum SqlValue {
    Null,
    Integer(i64),
    Real,
    Text(String),
    Blob(Vec<u8>),
}

/// The text parameter for an optional string: `Null` for `None`.
pub open spec fn spec_opt_text<'a>(value: Option<&'a str>) -> SqlParam<'a> {
    match value {
        Some(s) => SqlParam::Text(s),
        None => SqlParam::Null,
    }
}

/// The text parameter for an optional string; see `spec_opt_text`.
pub(crate) fn opt_text<'a>(value: Option<&'a str>) -> (r: SqlParam<'a>)
    ensures
        r == spec_opt_text(value),
{
    match value {
        Some(s) => SqlParam::Text(s),
        None => SqlParam::Null,
    }
}

/// What one step of a statement produced: a row, or the end.
#[derive(Copy, Clone, Debug, PartialEq, Eq)]
pub enum StepState {
    Row,
    Done,
}

/// What to do after a step.
#[derive(Copy, Clone, Debug, PartialEq, Eq)]
pub enum StepAction {
    /// Read the row, then step again.
    ReadRow,
    /// The statement returned what it should; stop.
    Finish,
    /// The statement returned too many or too few rows.
    Fail,
}

/// The action after a step that produced `state`, for a statement that
/// returns exactly `expected` rows (any number where `expected` is `None`),
/// when `rows_read` rows have been read already.
pub open spec fn spec_step_action(expected: Option<nat>, rows_read: nat, state: StepState) -> StepAction {
    match state {
        StepState::Row => match expected {
            Some(n) => if rows_read < n {
                StepAction::ReadRow
            } else {
                StepAction::Fail
            },
            None => StepAction::ReadRow,
        },
        StepState::Done => match expected {
            Some(n) => if rows_read == n {
                StepAction::Finish
            } else {
                StepAction::Fail
            },
            None => StepAction::Finish,
        },
    }
}

/// An expected row count as a mathematical number.
pub open spec fn nat_opt(expected: Option<usize>) -> Option<nat> {
    match expected {
        Some(n) => Some(n as nat),
        None => None,
    }
}

/// Decides what to do after a step; see `spec_step_action`.
pub fn step_action(expected: Option<usize>, rows_read: usize, state: StepState) -> (r: StepAction)
    ensures
        r == spec_step_action(nat_opt(expected), rows_read as nat, state),
{
    match state {
        StepState::Row => match expected {
            Some(n) => if rows_read < n {
                StepAction::ReadRow
            } else {
                StepAction::Fail
            },
            None => StepAction::ReadRow,
        },
        StepState::Done => match expected {
            Some(n) => if rows_read == n {
                StepAction::Finish
            } else {
                StepAction::Fail
            },
            None => StepAction::Finish,
        },
    }
}

/// The action that ends a run of steps through `states`, following
/// `spec_step_action` from `rows_read` rows read; `None` if `states` runs out
/// before a step ends it.
pub open spec fn spec_run_steps(expected: Option<nat>, rows_read: nat, states: Seq<StepState>) -> Option<
    StepAction,
>
    decreases states.len(),
{
    if states.len() == 0 {
        None
    } else {
        match spec_step_action(expected, rows_read, states[0]) {
            StepAction::ReadRow => spec_run_steps(expected, rows_read + 1, states.drop_first()),
            a => Some(a),
        }
    }
}

/// A statement expected to return exactly `n` rows finishes without failing
/// exactly when its steps are `n` rows and then the end.
pub proof fn lemma_run_finishes_iff_exact_rows(n: nat, states: Seq<StepState>)
    ensures
        spec_run_steps(Some(n), 0, states) == Some(StepAction::Finish) <==> (n < states.len()
            && states[n as int] == StepState::Done && forall|i: int|
            0 <= i < n ==> states[i] == StepState::Row),
{
    lemma_run_from(n, 0, states);
}

proof fn lemma_run_from(n: nat, k: nat, states: Seq<StepState>)
    requires
        k <= n,
    ensures
        spec_run_steps(Some(n), k, states) == Some(StepAction::Finish) <==> (n - k < states.len()
            && states[n - k] == StepState::Done && forall|i: int|
            0 <= i < n - k ==> states[i] == StepState::Row),
    decreases states.len(),
{
    if states.len() > 0 {
        if states[0] == StepState::Row && k < n {
            lemma_run_from(n, k + 1, states.drop_first());
            let rest = states.drop_first();
            if n - (k + 1) < rest.len() && rest[n - (k + 1)] == StepState::Done && forall|i: int|
                0 <= i < n - (k + 1) ==> rest[i] == StepState::Row {
                assert forall|i: int| 0 <= i < n - k implies states[i] == StepState::Row by {
                    if i > 0 {
                        assert(states[i] == rest[i - 1]);
                    }
                }
            }
            if n - k < states.len() && states[n - k] == StepState::Done && forall|i: int|
                0 <= i < n - k ==> states[i] == StepState::Row {
                assert forall|i: int| 0 <= i < n - (k + 1) implies rest[i] == StepState::Row by {
                    assert(rest[i] == states[i + 1]);
                }
                assert(rest[n - (k + 1)] == states[n - k]);
            }
        } else if states[0] == StepState::Row {
            assert(states[n - k] == StepState::Row);
        }
    }
}

/// A query with no expected row count reads every row it returns and never
/// fails: its steps end in `Finish` exactly when they reach the end of the
/// result, and no step before that end stops the run.
pub proof fn lemma_run_any_rows(k: nat, states: Seq<StepState>)
    ensures
        spec_run_steps(None, k, states) != Some(StepAction::Fail),
        (spec_run_steps(None, k, states) == Some(StepAction::Finish)) == states.contains(
            StepState::Done,
        ),
        (forall|i: int| 0 <= i < states.len() ==> states[i] == StepState::Row) ==> spec_run_steps(
            None,
            k,
            states,
        ) is None,
    decreases states.len(),
{
    if states.len() > 0 {
        lemma_run_any_rows(k + 1, states.drop_first());
        if states[0] == StepState::Row {
            if states.drop_first().contains(StepState::Done) {
                let j = choose|j: int|
                    0 <= j < states.drop_first().len() && states.drop_first()[j] == StepState::Done;
                assert(states[j + 1] == StepState::Done);
            }
            if states.contains(StepState::Done) {
                let j = choose|j: int| 0 <= j < states.len() && states[j] == StepState::Done;
                assert(states.drop_first()[j - 1] == StepState::Done);
            }
            if forall|i: int| 0 <= i < states.len() ==> states[i] == StepState::Row {
                assert forall|i: int| 0 <= i < states.drop_first().len() implies states.drop_first()[i]
                    == StepState::Row by {
                    assert(states.drop_first()[i] == states[i + 1]);
                }
            }
        } else {
            assert(states[0] == StepState::Done);
        }
    }
}

} // verus!
