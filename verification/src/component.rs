//! Component identifiers for the framework.

use vstd::prelude::*;

verus! {

/// Integer id naming the logical component that produced an event.
/// No registry validation happens at this layer.
#[derive(Copy, Clone, Debug, PartialEq, Eq, Hash, Structural)]
pub struct ComponentId(pub u16);

} // verus!
