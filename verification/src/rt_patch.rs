//! Function patcher: redirects a native entry point to a replacement
//! while saving what is needed to restore the original bytes exactly.
//!
//! Executable memory is modelled as a [`CodeRegion`]: the bytes of the
//! patchable entry region of one native function, together with the
//! page's writability. Installing a hook overwrites the whole region
//! with a jump image that targets the replacement; the returned
//! [`PatchedFunction`] handle keeps the exact original bytes and the
//! identity of the original entry, so that tearing the hook down
//! restores the region bit for bit.

use vstd::prelude::*;

use crate::errors::HookError;

verus! {

/// The number of bytes a jump image needs: one opcode byte, eight
/// address bytes, one trap byte terminating the image.
pub const PATCH_JUMP_LEN: usize = 10;

/// Opcode byte that starts a jump image.
pub const PATCH_JUMP_OPCODE: u8 = 0xe9;

/// Trap byte that pads a jump image to the region's length.
pub const PATCH_FILL_BYTE: u8 = 0xcc;

/// The patchable entry region of one native function: its current
/// bytes, and whether the containing code page could be made writable.
pub struct CodeRegion {
    pub bytes: Vec<u8>,
    pub writable: bool,
}

/// Byte `i` of the little-endian encoding of an address.
pub open spec fn spec_addr_byte(addr: u64, i: int) -> u8 {
    ((addr >> (8 * i)) & 0xff) as u8
}

/// The image a successful install leaves in a region of length `len`:
/// the jump opcode, the replacement address little-endian, and trap
/// bytes up to the region's end.
pub open spec fn spec_patch_image(replacement: u64, len: nat) -> Seq<u8>
    recommends
        len >= PATCH_JUMP_LEN,
{
    Seq::new(
        len,
        |i: int|
            if i == 0 {
                PATCH_JUMP_OPCODE
            } else if i <= 8 {
                spec_addr_byte(replacement, i - 1)
            } else {
                PATCH_FILL_BYTE
            },
    )
}

/// The geometry under which a region can be patched safely: the length
/// the symbol table expects must be exactly the region's length, and
/// the region must have room for a jump image.
pub open spec fn spec_patchable(region: CodeRegion, expected_len: nat) -> bool {
    expected_len == region.bytes@.len() && expected_len >= PATCH_JUMP_LEN
}

/// A live hook on one native function: the saved original bytes, the
/// original entry's identity, and a diagnostic name.
pub struct PatchedFunction {
    pub name: String,
    pub old_bytes: Vec<u8>,
    pub old_function: u64,
}

/// What a successful install guarantees, relating the region before
/// (`m0`) and after (`m1`) to the handle it returned.
pub open spec fn install_post(
    m0: CodeRegion,
    m1: CodeRegion,
    replacement: u64,
    original: u64,
    expected_len: nat,
    pf: PatchedFunction,
) -> bool {
    &&& m1.bytes@ == spec_patch_image(replacement, expected_len)
    &&& m1.writable == m0.writable
    &&& pf.old_bytes@ == m0.bytes@
    &&& pf.old_function == original
}

impl PatchedFunction {
    /// Installs a hook: checks that the region matches what the symbol
    /// table expects and that the page is writable, saves the original
    /// bytes, and overwrites the region with the jump image.
    ///
    /// Fails closed: `ResolutionMismatch` when the expected length does
    /// not match what can be safely rewritten, `MemoryProtection` when
    /// the page cannot be written; in both cases the region is left
    /// untouched.
    pub fn create(
        region: &mut CodeRegion,
        original: u64,
        replacement: u64,
        expected_len: usize,
        name: String,
    ) -> (r: Result<PatchedFunction, HookError>)
        ensures
            r is Ok <==> spec_patchable(*old(region), expected_len as nat) && old(
                region,
            ).writable,
            match r {
                Ok(pf) => {
                    &&& spec_patchable(*old(region), expected_len as nat)
                    &&& old(region).writable
                    &&& install_post(
                        *old(region),
                        *final(region),
                        replacement,
                        original,
                        expected_len as nat,
                        pf,
                    )
                    &&& pf.name@ == name@
                },
                Err(e) => {
                    &&& *final(region) == *old(region)
                    &&& (e == HookError::ResolutionMismatch <==> !spec_patchable(
                        *old(region),
                        expected_len as nat,
                    ))
                    &&& (e == HookError::MemoryProtection <==> spec_patchable(
                        *old(region),
                        expected_len as nat,
                    ) && !old(region).writable)
                },
            },
    {
        if expected_len != region.bytes.len() || expected_len < PATCH_JUMP_LEN {
            return Err(HookError::ResolutionMismatch);
        }
        if !region.writable {
            return Err(HookError::MemoryProtection);
        }
        let mut old_bytes: Vec<u8> = Vec::new();
        let mut i: usize = 0;
        while i < region.bytes.len()
            invariant
                i <= region.bytes.len(),
                old_bytes@ == region.bytes@.take(i as int),
            decreases region.bytes.len() - i,
        {
            let b: u8 = region.bytes[i];
            old_bytes.push(b);
            i = i + 1;
            proof {
                assert(old_bytes@ =~= region.bytes@.take(i as int));
            }
        }
        proof {
            assert(old_bytes@ =~= region.bytes@);
        }
        region.bytes[0] = PATCH_JUMP_OPCODE;
        let mut j: usize = 1;
        while j <= 8
            invariant
                1 <= j <= 9,
                region.writable == old(region).writable,
                region.bytes@.len() == expected_len,
                expected_len >= PATCH_JUMP_LEN,
                region.bytes@[0] == PATCH_JUMP_OPCODE,
                forall|k: int| 1 <= k < j ==> region.bytes@[k] == spec_addr_byte(replacement, k - 1),
            decreases 9 - j,
        {
            let shift: u64 = (8 * (j - 1)) as u64;
            let byte: u8 = #[verifier::truncate] (((replacement >> shift) & 0xff) as u8);
            proof {
                assert((replacement >> shift) & 0xff <= 0xff) by (bit_vector);
                assert(byte == spec_addr_byte(replacement, j - 1));
            }
            region.bytes[j] = byte;
            j = j + 1;
        }
        let mut k: usize = 9;
        while k < region.bytes.len()
            invariant
                9 <= k <= region.bytes.len(),
                region.writable == old(region).writable,
                region.bytes@.len() == expected_len,
                expected_len >= PATCH_JUMP_LEN,
                region.bytes@[0] == PATCH_JUMP_OPCODE,
                forall|t: int| 1 <= t <= 8 ==> region.bytes@[t] == spec_addr_byte(replacement, t - 1),
                forall|t: int| 9 <= t < k ==> region.bytes@[t] == PATCH_FILL_BYTE,
            decreases region.bytes.len() - k,
        {
            region.bytes[k] = PATCH_FILL_BYTE;
            k = k + 1;
        }
        proof {
            assert(region.bytes@ =~= spec_patch_image(replacement, expected_len as nat));
        }
        Ok(PatchedFunction { name, old_bytes, old_function: original })
    }

    /// The identity of the original entry, kept so the pre-patch
    /// behavior can still be invoked while the hook is live.
    pub fn old_function(&self) -> (r: u64)
        ensures
            r == self.old_function,
    {
        self.old_function
    }

    /// What a teardown guarantees: the region holds the saved original
    /// bytes again, and nothing else changed.
    pub open spec fn restore_post(self, m0: CodeRegion, m1: CodeRegion) -> bool {
        &&& m1.bytes@ == self.old_bytes@
        &&& m1.writable == m0.writable
    }

    /// Tears the hook down, writing the saved original bytes back over
    /// the region.
    pub fn uninstall(self, region: &mut CodeRegion)
        requires
            self.old_bytes@.len() == old(region).bytes@.len(),
            old(region).writable,
        ensures
            self.restore_post(*old(region), *final(region)),
    {
        let mut i: usize = 0;
        while i < self.old_bytes.len()
            invariant
                i <= self.old_bytes.len(),
                region.bytes@.len() == self.old_bytes@.len(),
                region.writable == old(region).writable,
                forall|k: int| 0 <= k < i ==> region.bytes@[k] == self.old_bytes@[k],
            decreases self.old_bytes.len() - i,
        {
            let b: u8 = self.old_bytes[i];
            region.bytes[i] = b;
            i = i + 1;
        }
        proof {
            assert(region.bytes@ =~= self.old_bytes@);
        }
    }
}

/// Installing a hook and tearing it down restores the region to its
/// pre-install bytes exactly: no residual redirection remains.
pub proof fn lemma_install_uninstall_round_trip(
    m0: CodeRegion,
    m1: CodeRegion,
    m2: CodeRegion,
    replacement: u64,
    original: u64,
    expected_len: nat,
    pf: PatchedFunction,
)
    requires
        install_post(m0, m1, replacement, original, expected_len, pf),
        pf.restore_post(m1, m2),
    ensures
        m2.bytes@ == m0.bytes@,
        m2.writable == m0.writable,
{
}

} // verus!
