//! Errors of the geometry builders.
use vstd::prelude::*;

verus! {

/// Why a mesh, sphere or grid could not be built.
#[derive(Clone, Copy, Debug, PartialEq, Eq, Structural)]
pub enum GeometryError {
    /// An argument lies outside the range the builder accepts.
    InvalidParameter,
}

} // verus!
