//! The flag register that gates the optional compatibility checks.
//!
//! Three independent flags are packed into one byte, one bit each:
//!
//! | bit | flag             |
//! |-----|------------------|
//! | 0   | "perform checks" |
//! | 1   | "game version"   |
//! | 2   | "mod loader"     |
//!
//! The five upper bits carry no meaning. No operation reads them, and the
//! contracts below hold whatever they contain.

use vstd::prelude::*;

verus! {

/// Mask of the "perform checks" flag.
pub const PERFORM_CHECKS: u8 = 0b0000_0001;

/// Mask of the "game version" flag.
pub const GAME_VERSION: u8 = 0b0000_0010;

/// Mask of the "mod loader" flag.
pub const MOD_LOADER: u8 = 0b0000_0100;

/// What a flag register means: the state of its three flags.
pub struct Flags {
    pub perform_checks: bool,
    pub game_version: bool,
    pub mod_loader: bool,
}

/// Whether the flag selected by `mask` is set in `bits`.
pub open spec fn is_raised(bits: u8, mask: u8) -> bool {
    bits & mask != 0
}

/// `bits` with the flag selected by `mask` set.
pub open spec fn raised(bits: u8, mask: u8) -> u8 {
    bits | mask
}

/// `bits` with the flag selected by `mask` cleared.
pub open spec fn lowered(bits: u8, mask: u8) -> u8 {
    bits & !mask
}

/// The three flags that a byte encodes.
pub open spec fn decode(bits: u8) -> Flags {
    Flags {
        perform_checks: is_raised(bits, PERFORM_CHECKS),
        game_version: is_raised(bits, GAME_VERSION),
        mod_loader: is_raised(bits, MOD_LOADER),
    }
}

/// The byte, with its upper bits clear, that encodes three flags.
pub open spec fn encode(flags: Flags) -> u8 {
    let p: u8 = if flags.perform_checks { PERFORM_CHECKS } else { 0 };
    let g: u8 = if flags.game_version { GAME_VERSION } else { 0 };
    let m: u8 = if flags.mod_loader { MOD_LOADER } else { 0 };
    p | g | m
}

/// Compact register of the check flags for game version, mod loader and
/// whether to check at all.
///
/// One register is created per session and handed by reference to every
/// routing and adapter call of that session. It is deliberately not `Clone`:
/// a copy would have a state of its own.
pub struct Checks(u8);

impl View for Checks {
    type V = Flags;

    open spec fn view(&self) -> Flags {
        decode(self.bits())
    }
}

impl Default for Checks {
    /// A register with every flag unset.
    fn default() -> (checks: Self)
        ensures
            checks.bits() == 0,
            checks@ == (Flags { perform_checks: false, game_version: false, mod_loader: false }),
    {
        proof {
            lemma_decode_zero();
        }
        Checks(0)
    }
}

impl Checks {
    /// The byte that holds the flags.
    pub closed spec fn bits(&self) -> u8 {
        self.0
    }

    /// A register with all three flags set.
    pub fn new_all_set() -> (checks: Self)
        ensures
            checks.bits() == 0b0000_0111,
            checks@ == (Flags { perform_checks: true, game_version: true, mod_loader: true }),
    {
        assert(decode(0b0000_0111) == (Flags {
            perform_checks: true,
            game_version: true,
            mod_loader: true,
        })) by {
            assert(7u8 & 1 != 0 && 7u8 & 2 != 0 && 7u8 & 4 != 0) by (bit_vector);
        }
        Checks(0b0000_0111)
    }

    /// A register in which exactly the flags whose argument is `true` are set.
    pub fn from(checks: bool, game_version: bool, mod_loader: bool) -> (ret: Self)
        ensures
            ret.bits() == encode(
                Flags { perform_checks: checks, game_version, mod_loader },
            ),
            ret@ == (Flags { perform_checks: checks, game_version, mod_loader }),
    {
        let mut ret = Checks(0);
        proof {
            lemma_decode_zero();
        }
        if checks {
            ret.set_perform_check();
        }
        let ghost first = ret.0;
        if game_version {
            ret.set_game_version();
        }
        let ghost second = ret.0;
        if mod_loader {
            ret.set_mod_loader();
        }
        proof {
            lemma_raise_in_turn(checks, game_version, mod_loader, first, second, ret.0);
        }
        ret
    }

    /// Sets the "perform checks" flag. The other flags keep their state.
    pub fn set_perform_check(&mut self)
        ensures
            final(self).bits() == raised(old(self).bits(), PERFORM_CHECKS),
            final(self)@ == (Flags { perform_checks: true, ..old(self)@ }),
    {
        proof {
            lemma_raise(self.0);
        }
        self.0 = self.0 | PERFORM_CHECKS;
    }

    /// Sets the "game version" flag. The other flags keep their state.
    pub fn set_game_version(&mut self)
        ensures
            final(self).bits() == raised(old(self).bits(), GAME_VERSION),
            final(self)@ == (Flags { game_version: true, ..old(self)@ }),
    {
        proof {
            lemma_raise(self.0);
        }
        self.0 = self.0 | GAME_VERSION;
    }

    /// Sets the "mod loader" flag. The other flags keep their state.
    pub fn set_mod_loader(&mut self)
        ensures
            final(self).bits() == raised(old(self).bits(), MOD_LOADER),
            final(self)@ == (Flags { mod_loader: true, ..old(self)@ }),
    {
        proof {
            lemma_raise(self.0);
        }
        self.0 = self.0 | MOD_LOADER;
    }

    /// Clears the "perform checks" flag. The other flags keep their state.
    pub fn unset_perform_check(&mut self)
        ensures
            final(self).bits() == lowered(old(self).bits(), PERFORM_CHECKS),
            final(self)@ == (Flags { perform_checks: false, ..old(self)@ }),
    {
        proof {
            lemma_lower(self.0);
        }
        self.0 = self.0 & !PERFORM_CHECKS;
    }

    /// Clears the "game version" flag. The other flags keep their state.
    pub fn unset_game_version(&mut self)
        ensures
            final(self).bits() == lowered(old(self).bits(), GAME_VERSION),
            final(self)@ == (Flags { game_version: false, ..old(self)@ }),
    {
        proof {
            lemma_lower(self.0);
        }
        self.0 = self.0 & !GAME_VERSION;
    }

    /// Clears the "mod loader" flag. The other flags keep their state.
    pub fn unset_mod_loader(&mut self)
        ensures
            final(self).bits() == lowered(old(self).bits(), MOD_LOADER),
            final(self)@ == (Flags { mod_loader: false, ..old(self)@ }),
    {
        proof {
            lemma_lower(self.0);
        }
        self.0 = self.0 & !MOD_LOADER;
    }

    /// Whether the "perform checks" flag is set.
    pub fn perform_checks(&self) -> (set: bool)
        ensures
            set == self@.perform_checks,
    {
        self.0 & PERFORM_CHECKS != 0
    }

    /// Whether the "game version" flag is set.
    pub fn game_version(&self) -> (set: bool)
        ensures
            set == self@.game_version,
    {
        self.0 & GAME_VERSION != 0
    }

    /// Whether the "mod loader" flag is set.
    pub fn mod_loader(&self) -> (set: bool)
        ensures
            set == self@.mod_loader,
    {
        self.0 & MOD_LOADER != 0
    }

    /// Clears all three flags, and the unused bits with them.
    pub fn reset(&mut self)
        ensures
            final(self).bits() == 0,
            final(self)@ == (Flags {
                perform_checks: false,
                game_version: false,
                mod_loader: false,
            }),
    {
        proof {
            lemma_decode_zero();
        }
        self.0 = 0;
    }
}

/// Setting a flag in any byte sets that flag and leaves the two others as
/// they were.
pub proof fn lemma_raise(bits: u8)
    ensures
        decode(raised(bits, PERFORM_CHECKS)) == (Flags { perform_checks: true, ..decode(bits) }),
        decode(raised(bits, GAME_VERSION)) == (Flags { game_version: true, ..decode(bits) }),
        decode(raised(bits, MOD_LOADER)) == (Flags { mod_loader: true, ..decode(bits) }),
{
    assert((bits | 1) & 1 != 0 && (bits | 1) & 2 == bits & 2 && (bits | 1) & 4 == bits & 4)
        by (bit_vector);
    assert((bits | 2) & 2 != 0 && (bits | 2) & 1 == bits & 1 && (bits | 2) & 4 == bits & 4)
        by (bit_vector);
    assert((bits | 4) & 4 != 0 && (bits | 4) & 1 == bits & 1 && (bits | 4) & 2 == bits & 2)
        by (bit_vector);
}

/// Clearing a flag in any byte clears that flag and leaves the two others as
/// they were.
pub proof fn lemma_lower(bits: u8)
    ensures
        decode(lowered(bits, PERFORM_CHECKS)) == (Flags { perform_checks: false, ..decode(bits) }),
        decode(lowered(bits, GAME_VERSION)) == (Flags { game_version: false, ..decode(bits) }),
        decode(lowered(bits, MOD_LOADER)) == (Flags { mod_loader: false, ..decode(bits) }),
{
    assert((bits & !1u8) & 1 == 0 && (bits & !1u8) & 2 == bits & 2 && (bits & !1u8) & 4 == bits
        & 4) by (bit_vector);
    assert((bits & !2u8) & 2 == 0 && (bits & !2u8) & 1 == bits & 1 && (bits & !2u8) & 4 == bits
        & 4) by (bit_vector);
    assert((bits & !4u8) & 4 == 0 && (bits & !4u8) & 1 == bits & 1 && (bits & !4u8) & 2 == bits
        & 2) by (bit_vector);
}

/// Setting is idempotent: on any byte and for any mask, setting a second time
/// changes nothing.
pub proof fn lemma_raise_idempotent(bits: u8, mask: u8)
    ensures
        raised(raised(bits, mask), mask) == raised(bits, mask),
{
    assert((bits | mask) | mask == bits | mask) by (bit_vector);
}

/// Clearing is idempotent: on any byte and for any mask, clearing a second
/// time changes nothing.
pub proof fn lemma_lower_idempotent(bits: u8, mask: u8)
    ensures
        lowered(lowered(bits, mask), mask) == lowered(bits, mask),
{
    assert((bits & !mask) & !mask == bits & !mask) by (bit_vector);
}

/// Every combination of the three flags has a byte: decoding the encoded byte
/// gives the flags back, and the encoded byte has its unused bits clear.
pub proof fn lemma_decode_encode(flags: Flags)
    ensures
        decode(encode(flags)) == flags,
        encode(flags) & 0b1111_1000 == 0,
{
    let p: u8 = if flags.perform_checks { PERFORM_CHECKS } else { 0 };
    let g: u8 = if flags.game_version { GAME_VERSION } else { 0 };
    let m: u8 = if flags.mod_loader { MOD_LOADER } else { 0 };
    assert(((p | g | m) & 1 != 0 <==> p == 1) && ((p | g | m) & 2 != 0 <==> g == 2) && ((p | g
        | m) & 4 != 0 <==> m == 4) && (p | g | m) & 0b1111_1000 == 0) by (bit_vector)
        requires
            p == 0 || p == 1,
            g == 0 || g == 2,
            m == 0 || m == 4,
    ;
}

/// The zero byte has no flag set.
proof fn lemma_decode_zero()
    ensures
        decode(0) == (Flags { perform_checks: false, game_version: false, mod_loader: false }),
{
    assert(0u8 & 1 == 0 && 0u8 & 2 == 0 && 0u8 & 4 == 0) by (bit_vector);
}

/// Setting the chosen flags one after the other, from the zero byte, arrives
/// at the encoding of the choice.
proof fn lemma_raise_in_turn(p: bool, g: bool, m: bool, first: u8, second: u8, third: u8)
    requires
        first == (if p { raised(0, PERFORM_CHECKS) } else { 0 }),
        second == (if g { raised(first, GAME_VERSION) } else { first }),
        third == (if m { raised(second, MOD_LOADER) } else { second }),
    ensures
        third == encode(Flags { perform_checks: p, game_version: g, mod_loader: m }),
{
    let ep: u8 = if p { 1 } else { 0 };
    let eg: u8 = if g { 2 } else { 0 };
    let em: u8 = if m { 4 } else { 0 };
    assert(third == ep | eg | em) by (bit_vector)
        requires
            first == (if p { 0u8 | 1u8 } else { 0u8 }),
            second == (if g { first | 2u8 } else { first }),
            third == (if m { second | 4u8 } else { second }),
            ep == (if p { 1u8 } else { 0u8 }),
            eg == (if g { 2u8 } else { 0u8 }),
            em == (if m { 4u8 } else { 0u8 }),
    ;
}

} // verus!
