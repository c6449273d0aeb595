//! Process-unique widget identifiers.

use vstd::prelude::*;

verus! {

/// Identifies one placed widget for the registry's lifetime. Ids are
/// drawn at construction and never reused; widgets cannot be removed.
#[derive(Clone, Copy, Debug, PartialEq, Eq, Hash, Structural)]
pub struct WidgetId(pub u128);

/// Relies on uuid: `Uuid::new_v4` draws a random version-4 UUID, taken
/// here as its 128-bit value. A random result promises nothing, so the
/// contract is empty; the registry checks uniqueness itself.
#[verifier::external_body]
pub(crate) fn fresh_widget_id() -> WidgetId {
    WidgetId(uuid::Uuid::new_v4().as_u128())
}

/// Whether `v` already holds `id`.
pub fn contains_id(v: &Vec<WidgetId>, id: WidgetId) -> (b: bool)
    ensures
        b == v@.contains(id),
{
    let mut i: usize = 0;
    while i < v.len()
        invariant
            i <= v.len(),
            forall|j: int| 0 <= j < i ==> v@[j] != id,
        decreases v.len() - i,
    {
        if v[i] == id {
            return true;
        }
        i = i + 1;
    }
    proof {
        assert(!v@.contains(id));
    }
    false
}

} // verus!
