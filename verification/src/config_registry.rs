//! The configuration values that component types ask for.

use vstd::prelude::*;
use crate::config::{ConfigStore, TypeKey};
use crate::registry::KindId;

verus! {

/// A component type asks for the configuration value of a type.
#[derive(Clone, Copy, Debug, PartialEq, Eq, Structural)]
pub struct DesiredCfgSpec {
    pub component_kind: KindId,
    pub cfg_type: TypeKey,
}

/// One registered request for a configuration value.
#[derive(Clone, Copy, Debug, PartialEq, Eq, Structural)]
pub struct DesiredCfgEntry(pub DesiredCfgSpec);

/// Whether entry `i` asks, for the component type `kind`, for a value
/// that the store does not hold.
pub open spec fn is_missing<V>(
    store: ConfigStore<V>,
    desired: Seq<DesiredCfgEntry>,
    kind: KindId,
    i: int,
) -> bool {
    desired[i].0.component_kind == kind && store@.get(desired[i].0.cfg_type) is None
}

/// The first configuration type that the component type `kind` asks for
/// and the store does not hold.
pub fn first_missing<V>(store: &ConfigStore<V>, desired: &Vec<DesiredCfgEntry>, kind: KindId) -> (missing:
    Option<TypeKey>)
    ensures
        missing is None ==> forall|i: int|
            0 <= i < desired@.len() ==> !is_missing(*store, desired@, kind, i),
        missing matches Some(key) ==> exists|i: int|
            0 <= i < desired@.len() && is_missing(*store, desired@, kind, i) && desired@[i].0.cfg_type
                == key && forall|j: int| 0 <= j < i ==> !is_missing(*store, desired@, kind, j),
{
    let mut i: usize = 0;
    while i < desired.len()
        invariant
            i <= desired.len(),
            forall|j: int| 0 <= j < i ==> !is_missing(*store, desired@, kind, j),
        decreases desired.len() - i,
    {
        let spec = &desired[i].0;
        if spec.component_kind.0 == kind.0 && store.get(spec.cfg_type).is_none() {
            assert(is_missing(*store, desired@, kind, i as int));
            return Some(spec.cfg_type);
        }
        i += 1;
    }
    None
}

} // verus!
