use vstd::prelude::*;

verus! {

/// Multiplier of the congruential step.
pub const MULTIPLIER: u64 = 6364136223846793005;

/// Increment of the congruential step.
pub const INCREMENT: u64 = 1442695040888963407;

/// The state that follows `state`: a linear congruential step modulo
/// two to the sixty-fourth.
#[verifier::opaque]
pub open spec fn spec_advance(state: int) -> int {
    (state * MULTIPLIER + INCREMENT) % 0x1_0000_0000_0000_0000
}

/// The number of thousandths that a state stands for: its upper half,
/// scaled down to `0..1000`.
#[verifier::opaque]
pub open spec fn spec_roll(state: int) -> int {
    ((state / 0x1_0000_0000) * 1000) / 0x1_0000_0000
}

/// The state reached from `seed` after `draws` steps.
pub open spec fn state_after(seed: int, draws: nat) -> int
    decreases draws,
{
    if draws == 0 {
        seed
    } else {
        spec_advance(state_after(seed, (draws - 1) as nat))
    }
}

/// Generator states stay within sixty-four bits.
pub proof fn lemma_state_in_range(seed: int, draws: nat)
    requires
        0 <= seed <= u64::MAX,
    ensures
        0 <= state_after(seed, draws) <= u64::MAX,
    decreases draws,
{
    if draws > 0 {
        reveal(spec_advance);
        lemma_state_in_range(seed, (draws - 1) as nat);
    }
}

/// Every roll is a number of thousandths below one thousand.
pub proof fn lemma_roll_in_range(state: int)
    requires
        0 <= state <= u64::MAX,
    ensures
        0 <= spec_roll(state) < 1000,
{
    reveal(spec_roll);
}

/// A seedable source of pseudo-random thousandths. Equal seeds give equal
/// sequences, on every machine.
#[derive(Clone, Copy, Debug)]
pub struct Generator {
    state: u64,
}

impl View for Generator {
    type V = int;

    closed spec fn view(&self) -> int {
        self.state as int
    }
}

impl Generator {
    /// The state is a sixty-four bit number.
    pub proof fn lemma_view_in_range(self)
        ensures
            0 <= self@ <= u64::MAX,
    {
    }

    pub fn seeded(seed: u64) -> (generator: Generator)
        ensures
            generator@ == seed,
    {
        Generator { state: seed }
    }

    /// The current state, which seeds whatever is drawn next.
    pub fn state(&self) -> (state: u64)
        ensures
            state == self@,
    {
        self.state
    }

    /// Steps the generator and reads the new state as a number of
    /// thousandths below one thousand.
    pub fn roll(&mut self) -> (thousandths: u32)
        ensures
            final(self)@ == spec_advance(old(self)@),
            thousandths == spec_roll(final(self)@),
            thousandths < 1000,
    {
        reveal(spec_advance);
        reveal(spec_roll);
        assert(self.state * MULTIPLIER <= 0xFFFF_FFFF_FFFF_FFFF * 6364136223846793005)
            by (nonlinear_arith)
            requires
                self.state <= 0xFFFF_FFFF_FFFF_FFFF,
                MULTIPLIER == 6364136223846793005,
        ;
        let wide: u128 = (self.state as u128) * (MULTIPLIER as u128) + (INCREMENT as u128);
        let next: u64 = (wide % 0x1_0000_0000_0000_0000u128) as u64;
        self.state = next;
        let upper: u64 = next / 0x1_0000_0000u64;
        ((upper * 1000) / 0x1_0000_0000u64) as u32
    }
}

} // verus!
