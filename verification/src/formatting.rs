//! Hints for replies that found nothing.

use vstd::prelude::*;
use crate::text::{decimal, push_decimal};

verus! {

/// What a type needs for the Bevy Remote Protocol to reach it.
pub const BRP_REGISTRATION_REQUIREMENTS: &'static str = "Components must derive Reflect, be registered with app.register_type::<T>(), carry #[reflect(Component)], and derive Serialize and Deserialize to be inserted or mutated over BRP.";

/// The hint for a reply with no components.
pub open spec fn empty_components_hint(entity_id: Option<u64>) -> Seq<char> {
    match entity_id {
        Some(id) => "No components found for entity "@ + decimal(id as nat)
            + ". Possible reasons:\n1. The entity doesn't exist\n2. The entity has no components registered for BRP access\n3. Components aren't properly configured for reflection\n\n"@
            + BRP_REGISTRATION_REQUIREMENTS@,
        None => "No components found. This usually means no components are properly configured for BRP.\n\n"@
            + BRP_REGISTRATION_REQUIREMENTS@,
    }
}

/// Generates a hint message for when no components are found.
pub fn generate_empty_components_hint(entity_id: Option<u64>) -> (r: String)
    ensures
        r@ == empty_components_hint(entity_id),
{
    match entity_id {
        Some(id) => {
            let mut s = String::from_str("No components found for entity ");
            push_decimal(&mut s, id);
            s.append(". Possible reasons:\n1. The entity doesn't exist\n2. The entity has no components registered for BRP access\n3. Components aren't properly configured for reflection\n\n");
            s.append(BRP_REGISTRATION_REQUIREMENTS);
            s
        },
        None => {
            let mut s = String::from_str("No components found. This usually means no components are properly configured for BRP.\n\n");
            s.append(BRP_REGISTRATION_REQUIREMENTS);
            s
        },
    }
}

} // verus!
