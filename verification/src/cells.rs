//! The cells that hold a fact once it is known. A cell is written at most
//! once. What a cell holds has a name for each kind of fact, and each call
//! into a cell stands behind a function whose contract is believed, not
//! proved.

use crate::remote::Remote;
use crate::state::GitState;
use crate::status::GitStatus;
use once_cell::sync::OnceCell;
use vstd::prelude::*;

verus! {

/// `once_cell::sync::OnceCell`, made known so that it can stand in fields and
/// signatures. Nothing inside a cell is visible: what it holds goes by the
/// names below.
#[verifier::external_type_specification]
#[verifier::external_body]
#[verifier::reject_recursive_types(T)]
pub struct ExOnceCell<T>(OnceCell<T>);

/// What a `OnceCell` of text holds: nothing until it is written.
pub uninterp spec fn held_text(cell: OnceCell<String>) -> Option<String>;

/// What a `OnceCell` of optional text holds: nothing until it is written.
pub uninterp spec fn held_optional_text(cell: OnceCell<Option<String>>) -> Option<Option<String>>;

/// What a `OnceCell` of a status holds: nothing until it is written.
pub uninterp spec fn held_status(cell: OnceCell<GitStatus>) -> Option<GitStatus>;

/// What a `OnceCell` of a state holds: nothing until it is written.
pub uninterp spec fn held_state(cell: OnceCell<GitState>) -> Option<GitState>;

/// What a `OnceCell` of an optional remote holds: nothing until it is written.
pub uninterp spec fn held_remote(cell: OnceCell<Option<Remote>>) -> Option<Option<Remote>>;

/// A kind of fact that is kept in a cell. It says under which name the
/// contents of its cells go, so that one contract serves the cells of every
/// kind.
pub trait Fact: Sized {
    /// What a cell of this kind of fact holds: nothing until it is written.
    spec fn held(cell: OnceCell<Self>) -> Option<Self>;
}

impl Fact for String {
    open spec fn held(cell: OnceCell<String>) -> Option<String> {
        held_text(cell)
    }
}

impl Fact for Option<String> {
    open spec fn held(cell: OnceCell<Option<String>>) -> Option<Option<String>> {
        held_optional_text(cell)
    }
}

impl Fact for GitStatus {
    open spec fn held(cell: OnceCell<GitStatus>) -> Option<GitStatus> {
        held_status(cell)
    }
}

impl Fact for GitState {
    open spec fn held(cell: OnceCell<GitState>) -> Option<GitState> {
        held_state(cell)
    }
}

impl Fact for Option<Remote> {
    open spec fn held(cell: OnceCell<Option<Remote>>) -> Option<Option<Remote>> {
        held_remote(cell)
    }
}

/// Calls `OnceCell::new`. Believed, not proved: the new cell holds nothing.
#[verifier::external_body]
pub(crate) fn new_text_cell() -> (cell: OnceCell<String>)
    ensures
        held_text(cell) is None,
{
    OnceCell::new()
}

/// Calls `OnceCell::new`. Believed, not proved: the new cell holds nothing.
#[verifier::external_body]
pub(crate) fn new_optional_text_cell() -> (cell: OnceCell<Option<String>>)
    ensures
        held_optional_text(cell) is None,
{
    OnceCell::new()
}

/// Calls `OnceCell::new`. Believed, not proved: the new cell holds nothing.
#[verifier::external_body]
pub(crate) fn new_status_cell() -> (cell: OnceCell<GitStatus>)
    ensures
        held_status(cell) is None,
{
    OnceCell::new()
}

/// Calls `OnceCell::new`. Believed, not proved: the new cell holds nothing.
#[verifier::external_body]
pub(crate) fn new_state_cell() -> (cell: OnceCell<GitState>)
    ensures
        held_state(cell) is None,
{
    OnceCell::new()
}

/// Calls `OnceCell::new`. Believed, not proved: the new cell holds nothing.
#[verifier::external_body]
pub(crate) fn new_remote_cell() -> (cell: OnceCell<Option<Remote>>)
    ensures
        held_remote(cell) is None,
{
    OnceCell::new()
}

/// Calls `OnceCell::get`. Believed, not proved: the result is what the cell
/// holds, and nothing where it holds nothing.
#[verifier::external_body]
pub(crate) fn cell_get<T: Fact>(cell: &OnceCell<T>) -> (value: Option<&T>)
    ensures
        value == match T::held(*cell) {
            Some(held) => Some(&held),
            None => None,
        },
{
    cell.get()
}

/// Calls `OnceCell::get_or_init` with a function that returns `value`.
/// Believed, not proved: an empty cell then holds `value`, a full one is left
/// as it is, and the result is what the cell holds afterwards. The call does
/// not panic, as the function that it is handed does not.
#[verifier::external_body]
pub(crate) fn cell_get_or_init<T: Fact>(cell: &mut OnceCell<T>, value: T) -> (held: &T)
    ensures
        T::held(*final(cell)) == Some(*held),
        T::held(*old(cell)) is Some ==> *final(cell) == *old(cell),
        T::held(*old(cell)) is None ==> *held == value,
    no_unwind
{
    cell.get_or_init(move || value)
}

/// Calls `OnceCell::set`. Believed, not proved: an empty cell then holds
/// `value`, and the call succeeds; a full one is left as it is, and `value`
/// comes back. The call does not panic.
#[verifier::external_body]
pub(crate) fn cell_set<T: Fact>(cell: &mut OnceCell<T>, value: T) -> (done: Result<(), T>)
    ensures
        done is Ok <==> T::held(*old(cell)) is None,
        done is Ok ==> T::held(*final(cell)) == Some(value),
        done matches Err(back) ==> back == value && *final(cell) == *old(cell),
    no_unwind
{
    cell.set(value)
}

} // verus!
