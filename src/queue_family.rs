use vstd::prelude::*;

use crate::error::SuitabilityError;
use crate::has_flags;

verus! {

/// Bit of a queue family's flags that marks graphics support.
pub const QUEUE_GRAPHICS: u32 = 0x1;

/// Bit of a queue family's flags that marks transfer support.
pub const QUEUE_TRANSFER: u32 = 0x4;

/// Whether `i` is the least family index whose flags hold `wanted`.
pub open spec fn is_first_family(families: Seq<u32>, wanted: u32, i: int) -> bool {
    &&& 0 <= i < families.len()
    &&& has_flags(families[i], wanted)
    &&& forall|j: int| 0 <= j < i ==> !has_flags(#[trigger] families[j], wanted)
}

/// Whether `i` is the least index that can present.
pub open spec fn is_first_present(present: Seq<bool>, i: int) -> bool {
    &&& 0 <= i < present.len()
    &&& present[i]
    &&& forall|j: int| 0 <= j < i ==> !#[trigger] present[j]
}

/// The three queue family indices the renderer works with.
#[derive(Clone, Copy, Debug, PartialEq, Eq, Structural)]
pub struct QueueFamilyIndices {
    pub graphics: u32,
    pub transfer: u32,
    pub present: u32,
}

/// Whether some family's flags hold `wanted`.
pub open spec fn some_family(families: Seq<u32>, wanted: u32) -> bool {
    exists|i: int| 0 <= i < families.len() && has_flags(#[trigger] families[i], wanted)
}

/// Whether some family can present.
pub open spec fn some_present(present: Seq<bool>) -> bool {
    exists|i: int| 0 <= i < present.len() && #[trigger] present[i]
}

/// The first family whose flags hold `wanted`.
fn first_family_with(families: &Vec<u32>, wanted: u32) -> (r: Option<u32>)
    requires
        families@.len() <= u32::MAX,
    ensures
        r matches Some(i) ==> is_first_family(families@, wanted, i as int),
        r is None <==> !some_family(families@, wanted),
{
    let mut i: usize = 0;
    while i < families.len()
        invariant
            i <= families@.len() <= u32::MAX,
            forall|j: int| 0 <= j < i ==> !has_flags(#[trigger] families@[j], wanted),
        decreases families@.len() - i,
    {
        if families[i] & wanted == wanted {
            return Some(i as u32);
        }
        i += 1;
    }
    None
}

/// The first family that can present to the surface.
fn first_present(present: &Vec<bool>) -> (r: Option<u32>)
    requires
        present@.len() <= u32::MAX,
    ensures
        r matches Some(i) ==> is_first_present(present@, i as int),
        r is None <==> !some_present(present@),
{
    let mut i: usize = 0;
    while i < present.len()
        invariant
            i <= present@.len() <= u32::MAX,
            forall|j: int| 0 <= j < i ==> !#[trigger] present@[j],
        decreases present@.len() - i,
    {
        if present[i] {
            return Some(i as u32);
        }
        i += 1;
    }
    None
}

impl QueueFamilyIndices {
    /// Resolves the graphics, transfer and present families of one device.
    ///
    /// `family_flags[i]` holds the capability flags of family `i`, and
    /// `present_support[i]` says whether family `i` can present to the target
    /// surface. Each role takes the first family that serves it; the graphics
    /// and present roles may share a family. If any role finds no family the
    /// whole resolution fails.
    pub fn get(family_flags: &Vec<u32>, present_support: &Vec<bool>) -> (r: Result<
        QueueFamilyIndices,
        SuitabilityError,
    >)
        requires
            family_flags@.len() <= u32::MAX,
            present_support@.len() <= u32::MAX,
        ensures
            r is Ok <==> some_family(family_flags@, QUEUE_GRAPHICS) && some_family(
                family_flags@,
                QUEUE_TRANSFER,
            ) && some_present(present_support@),
            r matches Ok(q) ==> {
                &&& is_first_family(family_flags@, QUEUE_GRAPHICS, q.graphics as int)
                &&& is_first_family(family_flags@, QUEUE_TRANSFER, q.transfer as int)
                &&& is_first_present(present_support@, q.present as int)
            },
            r matches Err(e) ==> e == SuitabilityError("Missing required queue families."),
    {
        let graphics = first_family_with(family_flags, QUEUE_GRAPHICS);
        let transfer = first_family_with(family_flags, QUEUE_TRANSFER);
        let present = first_present(present_support);
        match (graphics, transfer, present) {
            (Some(graphics), Some(transfer), Some(present)) => Ok(
                QueueFamilyIndices { graphics, transfer, present },
            ),
            _ => Err(SuitabilityError("Missing required queue families.")),
        }
    }
}

} // verus!
