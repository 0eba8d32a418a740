//! The registrations of component types, as they are found at startup.

use vstd::prelude::*;

verus! {

/// The identity of a component type.
#[derive(Clone, Copy, Debug, PartialEq, Eq, Hash, Structural)]
pub struct KindId(pub u64);

/// One registered component type. Without declared instance names the
/// type is a singleton.
pub struct Registration {
    pub kind: KindId,
    pub name: String,
    pub instances: Vec<String>,
}

/// A handler that subscribes to the messages of a component type without
/// naming an instance asks that this type have exactly one instance.
pub struct RouteConstraint {
    pub consumer_ty: String,
    pub consumer_kind: KindId,
    pub from_kind: KindId,
}

/// The number of instances that a registration stands for: one for a
/// singleton, else the number of declared names.
pub open spec fn instances_of(reg: Registration) -> nat {
    if reg.instances@.len() == 0 {
        1
    } else {
        reg.instances@.len()
    }
}

/// The number of instances of the first registration of `kind` among
/// those from position `from` on; 0 when there is none.
pub open spec fn count_from(registrations: Seq<Registration>, kind: KindId, from: int) -> nat
    decreases registrations.len() - from,
{
    if from < 0 || from >= registrations.len() {
        0
    } else if registrations[from].kind == kind {
        instances_of(registrations[from])
    } else {
        count_from(registrations, kind, from + 1)
    }
}

/// The number of instances declared for a component type: that of its
/// first registration, 0 for a type that is not registered.
pub fn instances_count(registrations: &Vec<Registration>, kind: KindId) -> (count: usize)
    ensures
        count == count_from(registrations@, kind, 0),
{
    let mut i: usize = 0;
    while i < registrations.len()
        invariant
            i <= registrations.len(),
            count_from(registrations@, kind, 0) == count_from(registrations@, kind, i as int),
        decreases registrations.len() - i,
    {
        let reg = &registrations[i];
        if reg.kind.0 == kind.0 {
            let n = reg.instances.len();
            return if n == 0 {
                1
            } else {
                n
            };
        }
        i += 1;
    }
    0
}

} // verus!
