use vstd::prelude::*;

verus! {

/// What an embedder's configuration reports when it rejects parsed data: a
/// message for the operator.
pub type ApplyError = String;

/// Outcome of handing parsed data to a configuration.
pub type ApplyResult = Result<(), ApplyError>;

/// A configuration that takes parsed data of type `D` in place.
///
/// The method takes `&self`: the configuration synchronises its own fields,
/// so that readers on other threads see either the old or the new values.
/// On failure it must leave its previous values in force.
pub trait Apply<D> {
    fn apply(&self, data: D) -> ApplyResult;
}

} // verus!
