//! The ignored-modifier mask: which modifier keys may be held during a key
//! release without hiding the pointer.
//!
//! A mask is a set of modifier-key bit flags in the low byte of a `u32`,
//! laid out as the display protocol's key-button mask does: the seven named
//! modifiers occupy bits 0 through 6, and the five mouse-button flags occupy
//! bits 8 through 12. The `All` shorthand is exactly the union of the seven
//! named modifiers; it never contains a mouse-button bit.

use vstd::prelude::*;

verus! {

/// Bit flag for the shift modifier.
pub const MASK_SHIFT: u32 = 0x1;
/// Bit flag for the caps-lock modifier.
pub const MASK_LOCK: u32 = 0x2;
/// Bit flag for the control modifier.
pub const MASK_CONTROL: u32 = 0x4;
/// Bit flag for the mod1 modifier.
pub const MASK_MOD1: u32 = 0x8;
/// Bit flag for the mod2 modifier.
pub const MASK_MOD2: u32 = 0x10;
/// Bit flag for the mod3 modifier.
pub const MASK_MOD3: u32 = 0x20;
/// Bit flag for the mod4 modifier.
pub const MASK_MOD4: u32 = 0x40;
/// Union of the seven named modifier flags.
pub const MASK_ALL_MODS: u32 = MASK_SHIFT | MASK_LOCK | MASK_CONTROL | MASK_MOD1
    | MASK_MOD2 | MASK_MOD3 | MASK_MOD4;
/// Union of the five mouse-button flags of the key-button mask.
pub const MASK_ANY_BUTTON: u32 = 0x100 | 0x200 | 0x400 | 0x800 | 0x1000;

/// A user-selectable modifier name, as offered on the command line:
/// one of the seven named modifiers, or `All` as shorthand for every one of
/// them at once.
#[derive(Clone, Copy, Debug, PartialEq, Eq, Structural)]
pub enum Mod {
    Shift,
    Caps,
    Ctrl,
    Mod1,
    Mod2,
    Mod3,
    Mod4,
    All,
}

/// The mask a single modifier name stands for.
pub open spec fn spec_mod_mask(m: Mod) -> u32 {
    match m {
        Mod::Shift => MASK_SHIFT,
        Mod::Caps => MASK_LOCK,
        Mod::Ctrl => MASK_CONTROL,
        Mod::Mod1 => MASK_MOD1,
        Mod::Mod2 => MASK_MOD2,
        Mod::Mod3 => MASK_MOD3,
        Mod::Mod4 => MASK_MOD4,
        Mod::All => MASK_ALL_MODS,
    }
}

/// Translates one modifier name to its bit mask.
pub fn mod_mask(m: Mod) -> (r: u32)
    ensures
        r == spec_mod_mask(m),
{
    match m {
        Mod::Shift => MASK_SHIFT,
        Mod::Caps => MASK_LOCK,
        Mod::Ctrl => MASK_CONTROL,
        Mod::Mod1 => MASK_MOD1,
        Mod::Mod2 => MASK_MOD2,
        Mod::Mod3 => MASK_MOD3,
        Mod::Mod4 => MASK_MOD4,
        Mod::All => MASK_ALL_MODS,
    }
}

/// The union of the masks of a sequence of modifier names.
pub open spec fn spec_combined_mask(mods: Seq<Mod>) -> u32
    decreases mods.len(),
{
    if mods.len() == 0 {
        0u32
    } else {
        spec_combined_mask(mods.drop_last()) | spec_mod_mask(mods.last())
    }
}

/// Folds a list of selected modifier names into the single ignored-modifier
/// mask used by the state machine.
pub fn combined_mask(mods: &Vec<Mod>) -> (r: u32)
    ensures
        r == spec_combined_mask(mods@),
{
    let mut r: u32 = 0;
    let mut i: usize = 0;
    while i < mods.len()
        invariant
            i <= mods.len(),
            r == spec_combined_mask(mods@.take(i as int)),
        decreases mods.len() - i,
    {
        proof {
            assert(mods@.take(i + 1).drop_last() =~= mods@.take(i as int));
            assert(mods@.take(i + 1).last() == mods@[i as int]);
        }
        r = r | mod_mask(mods[i]);
        i = i + 1;
    }
    proof {
        assert(mods@.take(mods@.len() as int) =~= mods@);
    }
    r
}

/// Law: the `All` shorthand is exactly the union of the seven individually
/// named modifier masks, and it contains no mouse-button bit.
pub proof fn lemma_all_is_union_of_named_mods()
    ensures
        spec_mod_mask(Mod::All) == (spec_mod_mask(Mod::Shift) | spec_mod_mask(Mod::Caps)
            | spec_mod_mask(Mod::Ctrl) | spec_mod_mask(Mod::Mod1) | spec_mod_mask(Mod::Mod2)
            | spec_mod_mask(Mod::Mod3) | spec_mod_mask(Mod::Mod4)),
        spec_mod_mask(Mod::All) & MASK_ANY_BUTTON == 0,
{
    assert((0x1u32 | 0x2 | 0x4 | 0x8 | 0x10 | 0x20 | 0x40)
        & (0x100u32 | 0x200 | 0x400 | 0x800 | 0x1000) == 0) by (bit_vector);
}

/// Law: no mask built from modifier names contains a mouse-button bit,
/// whichever names were selected.
pub proof fn lemma_combined_mask_has_no_button_bits(mods: Seq<Mod>)
    ensures
        spec_combined_mask(mods) & MASK_ANY_BUTTON == 0,
    decreases mods.len(),
{
    if mods.len() == 0 {
        assert(0u32 & MASK_ANY_BUTTON == 0) by (bit_vector);
    } else {
        lemma_combined_mask_has_no_button_bits(mods.drop_last());
        let prefix = spec_combined_mask(mods.drop_last());
        let last = spec_mod_mask(mods.last());
        assert(last & MASK_ANY_BUTTON == 0) by {
            lemma_all_is_union_of_named_mods();
            assert((0x1u32 | 0x2 | 0x4 | 0x8 | 0x10 | 0x20 | 0x40)
                & (0x100u32 | 0x200 | 0x400 | 0x800 | 0x1000) == 0) by (bit_vector);
            assert(forall|m: u32|
                m == 0x1 || m == 0x2 || m == 0x4 || m == 0x8 || m == 0x10 || m == 0x20
                    || m == 0x40 || m == 0x7f
                    ==> #[trigger] (m & (0x100u32 | 0x200 | 0x400 | 0x800 | 0x1000)) == 0)
                by (bit_vector);
        }
        assert(prefix & MASK_ANY_BUTTON == 0 && last & MASK_ANY_BUTTON == 0
            ==> (prefix | last) & MASK_ANY_BUTTON == 0) by (bit_vector);
    }
}

} // verus!
