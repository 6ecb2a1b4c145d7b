//! The packed 64-bit capability metadata word shared with the kernel.
use vstd::prelude::*;

verus! {

/// Bit 0 of a metadata word: the tag.
pub open spec fn meta_valid(raw: u64) -> bool {
    raw & 1u64 == 1u64
}

/// Bit 1 of a metadata word: integer pointer mode.
pub open spec fn meta_int_mode(raw: u64) -> bool {
    (raw >> 1u64) & 1u64 == 1u64
}

/// Bit 2 of a metadata word: sentry (unsealed call target).
pub open spec fn meta_sentry(raw: u64) -> bool {
    (raw >> 2u64) & 1u64 == 1u64
}

/// Bits 32 to 63 of a metadata word: the permission mask.
pub open spec fn meta_perms(raw: u64) -> u32 {
    (raw >> 32u64) as u32
}

/// Bits 3 to 31 of a metadata word, which no field occupies.
pub open spec fn meta_reserved(raw: u64) -> u64 {
    raw & 0xFFFF_FFF8u64
}

/// `raw` with bit `bit` set to `val` and every other bit kept.
pub open spec fn with_bit(raw: u64, bit: u64, val: bool) -> u64
    recommends
        bit < 64,
{
    if val {
        raw | (1u64 << bit)
    } else {
        raw & !(1u64 << bit)
    }
}

/// `raw` with bits 32 to 63 replaced by `perms` and bits 0 to 31 kept.
pub open spec fn with_perms(raw: u64, perms: u32) -> u64 {
    (raw & 0xFFFF_FFFFu64) | ((perms as u64) << 32u64)
}

/// The word whose four fields hold the given values and whose other bits are clear.
pub open spec fn encode_meta(valid: bool, int_mode: bool, sentry: bool, perms: u32) -> u64 {
    ((perms as u64) << 32u64) | (if sentry {
        4u64
    } else {
        0u64
    }) | (if int_mode {
        2u64
    } else {
        0u64
    }) | (if valid {
        1u64
    } else {
        0u64
    })
}

/// Capability metadata in the layout the CHERI-seL4 kernel expects:
/// tag in bit 0, integer mode in bit 1, sentry in bit 2, permissions in bits 32 to 63.
#[derive(Debug, Clone, Copy)]
pub struct CheriRiscv64CapMeta {
    raw: u64,
}

impl View for CheriRiscv64CapMeta {
    type V = u64;

    closed spec fn view(&self) -> u64 {
        self.raw
    }
}

impl CheriRiscv64CapMeta {
    /// An all-zero word: untagged, no permissions.
    pub fn new() -> (r: Self)
        ensures
            r@ == 0u64,
    {
        Self { raw: 0 }
    }

    /// The packed word.
    pub fn raw(&self) -> (r: u64)
        ensures
            r == self@,
    {
        self.raw
    }

    /// Sets or clears the tag bit.
    pub fn set_v(&mut self, val: bool)
        ensures
            final(self)@ == with_bit(old(self)@, 0, val),
            meta_valid(final(self)@) == val,
            meta_int_mode(final(self)@) == meta_int_mode(old(self)@),
            meta_sentry(final(self)@) == meta_sentry(old(self)@),
            meta_perms(final(self)@) == meta_perms(old(self)@),
            meta_reserved(final(self)@) == meta_reserved(old(self)@),
    {
        proof {
            lemma_set_bit_fields(self.raw, val);
        }
        if val {
            self.raw = self.raw | (1u64 << 0u64);
        } else {
            self.raw = self.raw & !(1u64 << 0u64);
        }
    }

    /// Sets or clears the integer pointer mode bit.
    pub fn set_m(&mut self, val: bool)
        ensures
            final(self)@ == with_bit(old(self)@, 1, val),
            meta_valid(final(self)@) == meta_valid(old(self)@),
            meta_int_mode(final(self)@) == val,
            meta_sentry(final(self)@) == meta_sentry(old(self)@),
            meta_perms(final(self)@) == meta_perms(old(self)@),
            meta_reserved(final(self)@) == meta_reserved(old(self)@),
    {
        proof {
            lemma_set_bit_fields(self.raw, val);
        }
        if val {
            self.raw = self.raw | (1u64 << 1u64);
        } else {
            self.raw = self.raw & !(1u64 << 1u64);
        }
    }

    /// Sets or clears the sentry bit.
    pub fn set_ct(&mut self, val: bool)
        ensures
            final(self)@ == with_bit(old(self)@, 2, val),
            meta_valid(final(self)@) == meta_valid(old(self)@),
            meta_int_mode(final(self)@) == meta_int_mode(old(self)@),
            meta_sentry(final(self)@) == val,
            meta_perms(final(self)@) == meta_perms(old(self)@),
            meta_reserved(final(self)@) == meta_reserved(old(self)@),
    {
        proof {
            lemma_set_bit_fields(self.raw, val);
        }
        if val {
            self.raw = self.raw | (1u64 << 2u64);
        } else {
            self.raw = self.raw & !(1u64 << 2u64);
        }
    }

    /// Replaces the permission mask.
    pub fn set_ap(&mut self, val: u32)
        ensures
            final(self)@ == with_perms(old(self)@, val),
            meta_valid(final(self)@) == meta_valid(old(self)@),
            meta_int_mode(final(self)@) == meta_int_mode(old(self)@),
            meta_sentry(final(self)@) == meta_sentry(old(self)@),
            meta_perms(final(self)@) == val,
            meta_reserved(final(self)@) == meta_reserved(old(self)@),
    {
        proof {
            lemma_set_perms_fields(self.raw, val);
            assert(!(0xFFFF_FFFFu64 << 32u64) == 0xFFFF_FFFFu64) by (bit_vector);
        }
        self.raw = (self.raw & !(0xFFFF_FFFFu64 << 32u64)) | ((val as u64) << 32u64);
    }
}

/// Setting one of the three flag bits changes that flag alone: the other two flags,
/// the permission mask and the unused bits keep their values.
pub proof fn lemma_set_bit_fields(raw: u64, val: bool)
    by (bit_vector)
    ensures
        meta_valid(with_bit(raw, 0, val)) == val,
        meta_int_mode(with_bit(raw, 0, val)) == meta_int_mode(raw),
        meta_sentry(with_bit(raw, 0, val)) == meta_sentry(raw),
        meta_perms(with_bit(raw, 0, val)) == meta_perms(raw),
        meta_reserved(with_bit(raw, 0, val)) == meta_reserved(raw),
        meta_valid(with_bit(raw, 1, val)) == meta_valid(raw),
        meta_int_mode(with_bit(raw, 1, val)) == val,
        meta_sentry(with_bit(raw, 1, val)) == meta_sentry(raw),
        meta_perms(with_bit(raw, 1, val)) == meta_perms(raw),
        meta_reserved(with_bit(raw, 1, val)) == meta_reserved(raw),
        meta_valid(with_bit(raw, 2, val)) == meta_valid(raw),
        meta_int_mode(with_bit(raw, 2, val)) == meta_int_mode(raw),
        meta_sentry(with_bit(raw, 2, val)) == val,
        meta_perms(with_bit(raw, 2, val)) == meta_perms(raw),
        meta_reserved(with_bit(raw, 2, val)) == meta_reserved(raw),
        with_bit(raw, 0, val) & !1u64 == raw & !1u64,
        with_bit(raw, 1, val) & !2u64 == raw & !2u64,
        with_bit(raw, 2, val) & !4u64 == raw & !4u64,
{
}

/// Setting the permission mask fills exactly bits 32 to 63: the three flags and the
/// unused bits keep their values.
pub proof fn lemma_set_perms_fields(raw: u64, perms: u32)
    by (bit_vector)
    ensures
        meta_valid(with_perms(raw, perms)) == meta_valid(raw),
        meta_int_mode(with_perms(raw, perms)) == meta_int_mode(raw),
        meta_sentry(with_perms(raw, perms)) == meta_sentry(raw),
        meta_perms(with_perms(raw, perms)) == perms,
        meta_reserved(with_perms(raw, perms)) == meta_reserved(raw),
        with_perms(raw, perms) >> 32u64 == perms as u64,
        with_perms(raw, perms) & 0xFFFF_FFFFu64 == raw & 0xFFFF_FFFFu64,
{
}

/// The four fields of an encoded word read back as the values they were given,
/// and its unused bits are clear.
pub proof fn lemma_encode_meta_fields(valid: bool, int_mode: bool, sentry: bool, perms: u32)
    by (bit_vector)
    ensures
        meta_valid(encode_meta(valid, int_mode, sentry, perms)) == valid,
        meta_int_mode(encode_meta(valid, int_mode, sentry, perms)) == int_mode,
        meta_sentry(encode_meta(valid, int_mode, sentry, perms)) == sentry,
        meta_perms(encode_meta(valid, int_mode, sentry, perms)) == perms,
        meta_reserved(encode_meta(valid, int_mode, sentry, perms)) == 0u64,
{
}

/// A word whose unused bits are clear is the encoding of its four fields.
pub proof fn lemma_meta_determined_by_fields(raw: u64)
    by (bit_vector)
    requires
        meta_reserved(raw) == 0u64,
    ensures
        raw == encode_meta(meta_valid(raw), meta_int_mode(raw), meta_sentry(raw), meta_perms(raw)),
{
}

/// The setters commute: applying any two of them in either order gives the same word.
pub proof fn lemma_setters_commute(raw: u64, a: bool, b: bool, perms: u32)
    by (bit_vector)
    ensures
        with_bit(with_bit(raw, 0, a), 1, b) == with_bit(with_bit(raw, 1, b), 0, a),
        with_bit(with_bit(raw, 0, a), 2, b) == with_bit(with_bit(raw, 2, b), 0, a),
        with_bit(with_bit(raw, 1, a), 2, b) == with_bit(with_bit(raw, 2, b), 1, a),
        with_perms(with_bit(raw, 0, a), perms) == with_bit(with_perms(raw, perms), 0, a),
        with_perms(with_bit(raw, 1, a), perms) == with_bit(with_perms(raw, perms), 1, a),
        with_perms(with_bit(raw, 2, a), perms) == with_bit(with_perms(raw, perms), 2, a),
{
}

} // verus!
