//! Single-bit operations on 32-bit registers.
use vstd::prelude::*;

verus! {

/// Number of bits in a register.
pub const REGISTER_BITS: u32 = 32;

/// Whether bit `i` of `reg` is set.
pub open spec fn bit_set(reg: u32, i: u32) -> bool {
    (reg >> i) & 1u32 == 1u32
}

/// The mask with only bit `pin` set.
pub open spec fn pin_mask(pin: u32) -> u32 {
    1u32 << pin
}

/// `r` equals `reg` on every bit but `pin`.
pub open spec fn same_except(r: u32, reg: u32, pin: u32) -> bool {
    forall|i: u32| i < 32 && i != pin ==> #[trigger] bit_set(r, i) == bit_set(reg, i)
}

/// Sets bit `pin` of `reg`, leaving the other bits as they are.
pub fn set_pin(reg: u32, pin: u32) -> (r: u32)
    requires
        pin < REGISTER_BITS,
    ensures
        r == reg | pin_mask(pin),
        bit_set(r, pin),
        same_except(r, reg, pin),
{
    let r = reg | (1u32 << pin);
    assert(bit_set(r, pin)) by (bit_vector)
        requires
            r == reg | (1u32 << pin),
            pin < 32,
    ;
    assert forall|i: u32| i < 32 && i != pin implies #[trigger] bit_set(r, i) == bit_set(reg, i) by {
        assert(bit_set(r, i) == bit_set(reg, i)) by (bit_vector)
            requires
                r == reg | (1u32 << pin),
                pin < 32,
                i < 32,
                i != pin,
        ;
    }
    r
}

/// Inverts bit `pin` of `reg`, leaving the other bits as they are.
pub fn toggle_pin(reg: u32, pin: u32) -> (r: u32)
    requires
        pin < REGISTER_BITS,
    ensures
        r == reg ^ pin_mask(pin),
        bit_set(r, pin) == !bit_set(reg, pin),
        same_except(r, reg, pin),
{
    let r = reg ^ (1u32 << pin);
    assert(bit_set(r, pin) == !bit_set(reg, pin)) by (bit_vector)
        requires
            r == reg ^ (1u32 << pin),
            pin < 32,
    ;
    assert forall|i: u32| i < 32 && i != pin implies #[trigger] bit_set(r, i) == bit_set(reg, i) by {
        assert(bit_set(r, i) == bit_set(reg, i)) by (bit_vector)
            requires
                r == reg ^ (1u32 << pin),
                pin < 32,
                i < 32,
                i != pin,
        ;
    }
    r
}

/// Whether bit `pin` of `reg` is set.
pub fn pin_is_set(reg: u32, pin: u32) -> (r: bool)
    requires
        pin < REGISTER_BITS,
    ensures
        r == bit_set(reg, pin),
{
    (reg >> pin) & 1u32 == 1u32
}

/// Toggling the same bit twice gives the register back.
pub proof fn lemma_toggle_twice(reg: u32, pin: u32)
    requires
        pin < 32,
    ensures
        (reg ^ pin_mask(pin)) ^ pin_mask(pin) == reg,
{
    assert((reg ^ (1u32 << pin)) ^ (1u32 << pin) == reg) by (bit_vector);
}

} // verus!
