//! The ways in which building or feeding a pipeline fails.

use vstd::prelude::*;
use crate::label::Namespace;

verus! {

/// Why a pipeline could not be built or fed.
#[derive(Clone, Copy, Debug, PartialEq, Eq, Structural)]
pub enum PipelineError {
    /// Two descriptors of one namespace share a label.
    DuplicateLabel(Namespace),
    /// A label is referred to that no descriptor of that namespace carries.
    UnknownLabel(Namespace),
    /// A bind group's layout is not the one that a shader expects of it, or
    /// data handed in does not fit the layout that it is meant for.
    LayoutMismatch,
    /// A texture's format is not the one that a pass expects of its target.
    FormatMismatch,
    /// A pass samples an attachment that no earlier pass has written.
    ReadBeforeWrite,
    /// The device did not create a resource that was asked of it.
    DeviceResourceFailure,
    /// Live data arrived for a component type that was never registered.
    UnregisteredComponent,
}

} // verus!
