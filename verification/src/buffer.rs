//! Buffer resources: memory-type selection, allocation planning, aligned
//! sizes, and the host upload/readback byte model.
//!
//! The device's memory model is taken as the list of property-flag words of
//! its memory types, in declared order; handles are carried as opaque
//! integers supplied by the caller that performs the API calls.

use vstd::prelude::*;

verus! {

use vstd::arithmetic::div_mod::{
    lemma_fundamental_div_mod,
    lemma_fundamental_div_mod_converse_div,
    lemma_mod_multiples_basic,
};
use vstd::arithmetic::power2::{
    lemma2_to64,
    lemma_pow2_adds,
    lemma_pow2_strictly_increases,
    pow2,
};

/// Buffer usage bit that opts a buffer in to shader device addressing; an
/// allocation for such a buffer must set the device-address allocation flag.
pub const BUFFER_USAGE_SHADER_DEVICE_ADDRESS: u32 = 0x2_0000;

/// Memory property bit: fastest memory, local to the device.
pub const MEMORY_PROPERTY_DEVICE_LOCAL: u32 = 0x1;

/// Memory property bit: mappable into host address space.
pub const MEMORY_PROPERTY_HOST_VISIBLE: u32 = 0x2;

/// Memory property bit: host writes/reads need no explicit flush.
pub const MEMORY_PROPERTY_HOST_COHERENT: u32 = 0x4;

/// No memory type satisfies both the type bitmask and the property flags.
#[derive(Clone, Copy, Debug, PartialEq, Eq, Structural)]
pub enum MemoryTypeError {
    NoCompatibleMemoryType,
}

/// Whether bit `i` of `bits` is set.
pub open spec fn bit_is_set(bits: u32, i: int) -> bool {
    0 <= i < 32 && (bits >> (i as u32)) & 1u32 == 1u32
}

/// Whether memory type `i` is admitted by the requirement bitmask and offers
/// at least the desired property flags.
pub open spec fn memory_type_suitable(
    memory_type_flags: Seq<u32>,
    type_bits: u32,
    properties: u32,
    i: int,
) -> bool {
    &&& 0 <= i < memory_type_flags.len()
    &&& bit_is_set(type_bits, i)
    &&& (memory_type_flags[i] & properties) == properties
}

/// Returns the index of the first memory type whose bit is set in
/// `type_bits` and whose property flags are a superset of `properties`;
/// fails explicitly when no type is compatible.
pub fn get_memory_type_index(
    memory_type_flags: &Vec<u32>,
    type_bits: u32,
    properties: u32,
) -> (r: Result<u32, MemoryTypeError>)
    ensures
        match r {
            Ok(i) => memory_type_suitable(memory_type_flags@, type_bits, properties, i as int)
                && forall|j: int| 0 <= j < i
                    ==> !memory_type_suitable(memory_type_flags@, type_bits, properties, j),
            Err(e) => e == MemoryTypeError::NoCompatibleMemoryType
                && forall|j: int|
                    !memory_type_suitable(memory_type_flags@, type_bits, properties, j),
        },
{
    let mut i: usize = 0;
    let mut mask: u32 = type_bits;
    proof {
        assert(type_bits >> 0u32 == type_bits) by (bit_vector);
    }
    while i < memory_type_flags.len() && i < 32
        invariant
            i <= 32,
            i <= memory_type_flags@.len(),
            i < 32 ==> mask == type_bits >> (i as u32),
            forall|j: int| 0 <= j < i
                ==> !memory_type_suitable(memory_type_flags@, type_bits, properties, j),
        decreases memory_type_flags@.len() - i,
    {
        if mask & 1 == 1 {
            if (memory_type_flags[i] & properties) == properties {
                proof {
                    assert((type_bits >> (i as u32)) & 1u32 == 1u32);
                }
                return Ok(i as u32);
            }
        }
        proof {
            let ghost ii = i as u32;
            if i + 1 < 32 {
                assert(mask >> 1u32 == type_bits >> ((ii + 1) as u32)) by (bit_vector)
                    requires
                        mask == type_bits >> ii,
                        ii < 31,
                ;
            }
        }
        mask = mask >> 1;
        i = i + 1;
    }
    proof {
        assert forall|j: int|
            !memory_type_suitable(memory_type_flags@, type_bits, properties, j) by {
            if 0 <= j < memory_type_flags@.len() {
                if j >= i {
                    assert(j >= 32);
                    assert(!bit_is_set(type_bits, j));
                }
            }
        }
    }
    Err(MemoryTypeError::NoCompatibleMemoryType)
}

/// Whether `a` is a power of two.
pub open spec fn is_power_of_two(a: u32) -> bool {
    a >= 1 && (a & ((a - 1) as u32)) == 0
}

/// A power of two below the `u32` range has an exponent below 32.
proof fn lemma_power_of_two_exponent(a: u32) -> (n: nat)
    requires
        is_power_of_two(a),
    ensures
        n < 32,
        a == pow2(n),
    decreases a,
{
    if a == 1 {
        lemma2_to64();
        0
    } else {
        assert(a % 2 == 0 && a / 2 >= 1 && ((a / 2) & ((a / 2 - 1) as u32)) == 0 && a / 2 < a)
            by (bit_vector)
            requires
                a >= 2,
                (a & ((a - 1) as u32)) == 0,
        ;
        let n1 = lemma_power_of_two_exponent(a / 2);
        lemma_fundamental_div_mod(a as int, 2);
        lemma_pow2_adds(n1, 1);
        lemma2_to64();
        assert(a == pow2(n1 + 1));
        if n1 + 1 >= 32 {
            if n1 + 1 > 32 {
                lemma_pow2_strictly_increases(32, n1 + 1);
            }
            assert(pow2(32) == 0x1_0000_0000) by {
                lemma2_to64();
            }
            assert(false);
        }
        n1 + 1
    }
}

/// The smallest multiple of `alignment` that is at least `value`.
pub open spec fn spec_aligned_size(value: int, alignment: int) -> int
    recommends
        alignment >= 1,
{
    ((value + alignment - 1) / alignment) * alignment
}

/// Rounds `value` up to the next multiple of the power-of-two `alignment`.
#[verifier::rlimit(100)]
pub fn aligned_size(value: u32, alignment: u32) -> (r: u32)
    requires
        is_power_of_two(alignment),
        value + alignment - 1 <= u32::MAX,
    ensures
        r == spec_aligned_size(value as int, alignment as int),
        r % alignment == 0,
        value <= r,
        r < value + alignment,
{
    let m: u32 = alignment - 1;
    let sum: u32 = value + m;
    let r: u32 = sum & !m;
    proof {
        assert(sum & !m == sum - (sum & m) && sum & m <= m) by (bit_vector);
        let n = lemma_power_of_two_exponent(alignment);
        vstd::bits::lemma_u32_low_bits_mask_is_mod(sum, n);
        assert(m == vstd::bits::low_bits_mask(n) as u32);
        assert(sum % alignment == sum & m);
        assert(r == sum - (sum % alignment));
        lemma_fundamental_div_mod(sum as int, alignment as int);
        assert(r == (sum as int / alignment as int) * alignment as int);
        let q = sum as int / alignment as int;
        lemma_mod_multiples_basic(q, alignment as int);
        assert(sum % alignment < alignment);
    }
    r
}

/// The aligned size is itself aligned: rounding up twice changes nothing.
pub proof fn lemma_aligned_size_idempotent(value: u32, alignment: u32)
    requires
        is_power_of_two(alignment),
        value + alignment - 1 <= u32::MAX,
    ensures
        spec_aligned_size(
            spec_aligned_size(value as int, alignment as int),
            alignment as int,
        ) == spec_aligned_size(value as int, alignment as int),
{
    let a = alignment as int;
    let v = value as int;
    let q = (v + a - 1) / a;
    let r = spec_aligned_size(v, a);
    lemma_mod_multiples_basic(q, a);
    assert(r % a == 0);
    lemma_fundamental_div_mod(r, a);
    assert(r == a * (r / a));
    lemma_fundamental_div_mod_converse_div(r + a - 1, a, r / a, a - 1);
    assert((r + a - 1) / a == r / a);
    assert(spec_aligned_size(r, a) == (r / a) * a);
}

/// The aligned size is the smallest aligned value not below `value`: any
/// multiple of `alignment` that is at least `value` is at least as large.
pub proof fn lemma_aligned_size_smallest(value: u32, alignment: u32, candidate: int)
    requires
        is_power_of_two(alignment),
        value + alignment - 1 <= u32::MAX,
        candidate % (alignment as int) == 0,
        candidate >= value,
    ensures
        candidate >= spec_aligned_size(value as int, alignment as int),
{
    let a = alignment as int;
    let v = value as int;
    let q = (v + a - 1) / a;
    let r = spec_aligned_size(v, a);
    lemma_fundamental_div_mod(v + a - 1, a);
    assert(r == v + a - 1 - ((v + a - 1) % a));
    vstd::arithmetic::div_mod::lemma_mod_bound(v + a - 1, a);
    assert(r < v + a);
    lemma_mod_multiples_basic(q, a);
    assert(r % a == 0);
    if candidate < r {
        lemma_fundamental_div_mod(candidate, a);
        assert(candidate == a * (candidate / a));
        lemma_fundamental_div_mod(r, a);
        assert(r == a * (r / a));
        let d = r / a - candidate / a;
        assert(r - candidate == a * d) by (nonlinear_arith)
            requires
                candidate == a * (candidate / a),
                r == a * (r / a),
                d == r / a - candidate / a,
        ;
        assert(d >= 1) by (nonlinear_arith)
            requires
                a >= 1,
                a * d == r - candidate,
                r - candidate > 0,
        ;
        assert(a * d >= a) by (nonlinear_arith)
            requires
                a >= 1,
                d >= 1,
        ;
        assert(candidate >= v);
        assert(r >= v + a);
        assert(false);
    }
}

/// The allocation request derived for one buffer: the driver-reported size,
/// the chosen memory type, and whether the device-address allocation flag
/// must be set.
#[derive(Clone, Copy, Debug, PartialEq, Eq, Structural)]
pub struct BufferAllocationPlan {
    pub allocation_size: u64,
    pub memory_type_index: u32,
    pub use_device_address_flag: bool,
}

/// Plans the memory allocation for a buffer from its usage flags, the
/// desired memory properties, the device's memory model and the
/// driver-reported memory requirements. The allocation takes the
/// requirements-reported size (which may exceed the logical size), and opts
/// in to device addressing exactly when the usage asks for it.
pub fn plan_buffer_allocation(
    usage: u32,
    memory_properties: u32,
    memory_type_flags: &Vec<u32>,
    requirements_size: u64,
    requirements_type_bits: u32,
) -> (r: Result<BufferAllocationPlan, MemoryTypeError>)
    ensures
        match r {
            Ok(plan) => {
                &&& plan.allocation_size == requirements_size
                &&& memory_type_suitable(
                    memory_type_flags@,
                    requirements_type_bits,
                    memory_properties,
                    plan.memory_type_index as int,
                )
                &&& forall|j: int| 0 <= j < plan.memory_type_index
                    ==> !memory_type_suitable(
                        memory_type_flags@,
                        requirements_type_bits,
                        memory_properties,
                        j,
                    )
                &&& plan.use_device_address_flag
                    == ((usage & BUFFER_USAGE_SHADER_DEVICE_ADDRESS) != 0)
            },
            Err(e) => e == MemoryTypeError::NoCompatibleMemoryType
                && forall|j: int|
                    !memory_type_suitable(
                        memory_type_flags@,
                        requirements_type_bits,
                        memory_properties,
                        j,
                    ),
        },
{
    let memory_type_index = match get_memory_type_index(
        memory_type_flags,
        requirements_type_bits,
        memory_properties,
    ) {
        Ok(i) => i,
        Err(e) => {
            return Err(e);
        },
    };
    Ok(BufferAllocationPlan {
        allocation_size: requirements_size,
        memory_type_index,
        use_device_address_flag: (usage & BUFFER_USAGE_SHADER_DEVICE_ADDRESS) != 0,
    })
}

/// One GPU buffer and its backing memory block. The handles are opaque
/// values owned by the caller that created them; `size` is the originally
/// requested logical size, never larger than the allocated block.
/// Destruction must release the buffer and then the memory, in that
/// order, and only once no in-flight GPU work touches them.
#[derive(Clone, Copy, Debug)]
pub struct BufferResource {
    pub buffer: u64,
    pub memory: u64,
    pub size: u64,
}

/// The bytes of a memory block after a payload is written at its start.
pub open spec fn spec_store_bytes(contents: Seq<u8>, payload: Seq<u8>) -> Seq<u8> {
    payload + contents.skip(payload.len() as int)
}

impl BufferResource {
    /// Uploads `payload` into the mapped contents of this buffer's memory
    /// block. The payload must fit in the buffer's logical size, which in
    /// turn never exceeds the mapped block.
    pub fn store(&self, contents: &mut Vec<u8>, payload: &Vec<u8>)
        requires
            payload@.len() <= self.size,
            self.size <= old(contents)@.len(),
        ensures
            final(contents)@ == spec_store_bytes(old(contents)@, payload@),
    {
        let mut i: usize = 0;
        while i < payload.len()
            invariant
                i <= payload@.len(),
                payload@.len() <= contents@.len(),
                contents@.len() == old(contents)@.len(),
                forall|j: int| 0 <= j < i ==> contents@[j] == payload@[j],
                forall|j: int| i <= j < contents@.len() ==> contents@[j] == old(contents)@[j],
            decreases payload@.len() - i,
        {
            contents.set(i, payload[i]);
            i = i + 1;
        }
        proof {
            assert(contents@ =~= spec_store_bytes(old(contents)@, payload@));
        }
    }
}

/// Reads the first `count` bytes back out of a mapped memory block.
pub fn read_back(contents: &Vec<u8>, count: usize) -> (r: Vec<u8>)
    requires
        count <= contents@.len(),
    ensures
        r@ == contents@.take(count as int),
{
    let mut r: Vec<u8> = Vec::new();
    let mut i: usize = 0;
    while i < count
        invariant
            i <= count,
            count <= contents@.len(),
            r@ =~= contents@.take(i as int),
        decreases count - i,
    {
        r.push(contents[i]);
        i = i + 1;
    }
    proof {
        assert(r@ =~= contents@.take(count as int));
    }
    r
}

/// Round trip: storing a payload of `n` bytes and reading `n` bytes back
/// yields exactly the payload.
pub proof fn lemma_store_then_read_back(contents: Seq<u8>, payload: Seq<u8>)
    requires
        payload.len() <= contents.len(),
    ensures
        spec_store_bytes(contents, payload).take(payload.len() as int) == payload,
{
    assert(spec_store_bytes(contents, payload).take(payload.len() as int) =~= payload);
}

} // verus!
