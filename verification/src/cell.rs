//! The write-once cell behind forward references.
//!
//! A patch may refer to the document that the whole composition will end in.
//! The cell is handed out empty, as a lazy reference, and filled once when
//! that document exists. Nothing may force the reference before the fill.

use vstd::prelude::*;
use jrsonnet_evaluator::{Pending, Val};
use jrsonnet_evaluator::function::TlaArg;
use crate::value::Value;

verus! {

/// The evaluator's write-once cell, `Pending<Val>`. The evaluator's generic
/// type cannot be declared to the verifier, so it is held here unread.
#[verifier::external_body]
pub struct DeferredSlot {
    slot: Pending<Val>,
}

/// What `slot` holds.
pub uninterp spec fn slot_contents(slot: DeferredSlot) -> Option<Value>;

/// The argument that refers lazily to what `slot` will hold.
pub uninterp spec fn lazy_argument(slot: DeferredSlot) -> TlaArg;

/// `Pending::new`: an empty cell.
#[verifier::external_body]
fn slot_new() -> (slot: DeferredSlot)
    ensures
        slot_contents(slot) is None,
{
    DeferredSlot { slot: Pending::new() }
}

/// `Pending::fill` on an empty cell. On a filled one the evaluator panics,
/// which the precondition leaves out.
#[verifier::external_body]
fn slot_fill(slot: &mut DeferredSlot, value: Value)
    requires
        slot_contents(*old(slot)) is None,
    ensures
        slot_contents(*final(slot)) == Some(value),
{
    slot.slot.clone().fill(value.into_val());
}

/// `Pending::try_get`: what the cell holds now.
#[verifier::external_body]
fn slot_read(slot: &DeferredSlot) -> (value: Option<Value>)
    ensures
        value == slot_contents(*slot),
{
    slot.slot.try_get().map(Value::from_val)
}

/// `TlaArg::Lazy` over the cell: forcing it reads the cell at that moment,
/// and fails in the evaluator while the cell is empty.
#[verifier::external_body]
fn slot_lazy(slot: &DeferredSlot) -> (arg: TlaArg)
    ensures
        arg == lazy_argument(*slot),
{
    TlaArg::Lazy(slot.slot.clone().into())
}

/// Why a cell operation was refused.
#[derive(Debug)]
pub enum CellError {
    /// The cell was filled before.
    DoubleFill,
    /// The cell was read before its fill.
    ReadBeforeFill,
}

/// A cell that holds at most one value and is filled exactly once.
pub struct DeferredCell {
    slot: DeferredSlot,
}

impl DeferredCell {
    /// What the cell holds.
    pub closed spec fn contents(&self) -> Option<Value> {
        slot_contents(self.slot)
    }

    /// The lazy reference into this cell.
    pub closed spec fn reference(&self) -> TlaArg {
        lazy_argument(self.slot)
    }

    /// An empty cell.
    pub fn new() -> (cell: DeferredCell)
        ensures
            cell.contents() is None,
    {
        DeferredCell { slot: slot_new() }
    }

    /// Whether the cell has been filled.
    pub fn is_filled(&self) -> (filled: bool)
        ensures
            filled == (self.contents() is Some),
    {
        slot_read(&self.slot).is_some()
    }

    /// Stores `value` in an empty cell. A filled cell refuses, and keeps what
    /// it holds.
    pub fn fill(&mut self, value: Value) -> (result: Result<(), CellError>)
        ensures
            old(self).contents() is None ==> result is Ok && final(self).contents() == Some(value),
            old(self).contents() is Some ==> (result matches Err(CellError::DoubleFill)) && *final(self)
                == *old(self),
    {
        if slot_read(&self.slot).is_some() {
            return Err(CellError::DoubleFill);
        }
        slot_fill(&mut self.slot, value);
        Ok(())
    }

    /// The value of a filled cell.
    pub fn read(&self) -> (result: Result<Value, CellError>)
        ensures
            self.contents() matches Some(value) ==> result == Ok::<Value, CellError>(value),
            self.contents() is None ==> (result matches Err(CellError::ReadBeforeFill)),
    {
        match slot_read(&self.slot) {
            Some(value) => Ok(value),
            None => Err(CellError::ReadBeforeFill),
        }
    }

    /// A lazy reference to what the cell will hold. It may be handed out
    /// before the fill; forcing it before the fill fails in the evaluator.
    pub fn as_lazy_reference(&self) -> (arg: TlaArg)
        ensures
            arg == self.reference(),
    {
        slot_lazy(&self.slot)
    }
}

} // verus!
