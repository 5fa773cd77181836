use vstd::prelude::*;

use crate::error::RenderError;
use crate::has_flags;

verus! {

/// Memory property bit: memory local to the device.
pub const MEMORY_DEVICE_LOCAL: u32 = 0x1;

/// Memory property bit: memory the host can map.
pub const MEMORY_HOST_VISIBLE: u32 = 0x2;

/// Memory property bit: host writes need no explicit flush.
pub const MEMORY_HOST_COHERENT: u32 = 0x4;

/// Whether bit `i` of a resource's compatible-type mask is set.
pub open spec fn type_allowed(type_bits: u32, i: int) -> bool {
    0 <= i < 32 && (type_bits >> (i as u32)) & 1u32 == 1u32
}

/// Whether memory type `i` may back a resource with compatible-type mask
/// `type_bits` when the caller asks for the property flags `wanted`.
pub open spec fn suitable_type(type_bits: u32, wanted: u32, type_flags: Seq<u32>, i: int) -> bool {
    &&& 0 <= i < type_flags.len()
    &&& type_allowed(type_bits, i)
    &&& has_flags(type_flags[i], wanted)
}

/// Whether any memory type may back the resource.
pub open spec fn some_suitable_type(type_bits: u32, wanted: u32, type_flags: Seq<u32>) -> bool {
    exists|i: int| #[trigger] suitable_type(type_bits, wanted, type_flags, i)
}

/// Selects the memory type for a new allocation.
///
/// `type_flags[i]` holds the property flags of the device's memory type `i`,
/// `type_bits` is the resource's mask of compatible types and `wanted` the
/// property flags the caller asks for. The first type that is compatible and
/// whose flags hold every wanted flag is chosen; if there is none the
/// allocation cannot be made.
pub fn get_memory_type_index(type_bits: u32, wanted: u32, type_flags: &Vec<u32>) -> (r: Result<
    u32,
    RenderError,
>)
    ensures
        r is Ok <==> some_suitable_type(type_bits, wanted, type_flags@),
        r matches Ok(i) ==> {
            &&& suitable_type(type_bits, wanted, type_flags@, i as int)
            &&& forall|j: int| 0 <= j < i ==> !#[trigger] suitable_type(type_bits, wanted, type_flags@, j)
        },
        r matches Err(e) ==> e == RenderError::NoSuitableMemoryType,
{
    let mut i: usize = 0;
    while i < type_flags.len() && i < 32
        invariant
            i <= type_flags@.len(),
            i <= 32,
            forall|j: int| 0 <= j < i ==> !#[trigger] suitable_type(type_bits, wanted, type_flags@, j),
        decreases type_flags@.len() - i,
    {
        let shift = i as u32;
        if (type_bits >> shift) & 1 == 1 && type_flags[i] & wanted == wanted {
            assert(suitable_type(type_bits, wanted, type_flags@, i as int));
            return Ok(shift);
        }
        i += 1;
    }
    assert forall|j: int| #![auto] !suitable_type(type_bits, wanted, type_flags@, j) by {
        if 0 <= j < type_flags@.len() && j >= i {
            assert(j >= 32);
        }
    }
    Err(RenderError::NoSuitableMemoryType)
}

} // verus!
