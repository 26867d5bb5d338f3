use vstd::prelude::*;

verus! {

/// Block density is given in thousandths: `DENSITY_SCALE` stands for a
/// probability of one.
pub const DENSITY_SCALE: u32 = 1000;

/// Why a set of parameters was turned down.
#[derive(Clone, Copy, Debug, PartialEq, Eq, Structural)]
pub enum ConfigError {
    /// The density is more than `DENSITY_SCALE` thousandths.
    DensityOutOfRange,
    /// Blocks would start with no strength at all.
    ZeroBlockStrength,
    /// The bar would have no cells.
    ZeroBarWidth,
    /// The ball would never move.
    ZeroBallPower,
}

impl ConfigError {
    pub open spec fn spec_describe(self) -> Seq<char> {
        match self {
            ConfigError::DensityOutOfRange => "block density must lie between 0 and 1"@,
            ConfigError::ZeroBlockStrength => "block strength must be at least 1"@,
            ConfigError::ZeroBarWidth => "bar width must be at least 1"@,
            ConfigError::ZeroBallPower => "ball power must be at least 1"@,
        }
    }

    /// A sentence for the person who typed the parameters.
    pub fn describe(&self) -> (text: &'static str)
        ensures
            text@ == self.spec_describe(),
    {
        match self {
            ConfigError::DensityOutOfRange => "block density must lie between 0 and 1",
            ConfigError::ZeroBlockStrength => "block strength must be at least 1",
            ConfigError::ZeroBarWidth => "bar width must be at least 1",
            ConfigError::ZeroBallPower => "ball power must be at least 1",
        }
    }
}

/// The tunable parameters of a game, as numbers.
pub struct ConfigView {
    /// Probability that a grid cell holds a block, in thousandths.
    pub block_density: int,
    /// Hits a fresh block withstands.
    pub block_strength: int,
    /// Cells the bar spans.
    pub bar_width: int,
    /// Unit steps the ball takes per tick.
    pub ball_power: int,
}

impl ConfigView {
    pub open spec fn inv(self) -> bool {
        &&& 0 <= self.block_density <= DENSITY_SCALE
        &&& 1 <= self.block_strength <= u16::MAX
        &&& 1 <= self.bar_width <= u16::MAX
        &&& 1 <= self.ball_power <= u16::MAX
    }

    /// The first complaint about these parameters, if there is any. They
    /// are looked at in the order density, strength, width, power.
    pub open spec fn rejection(self) -> Option<ConfigError> {
        if self.block_density > DENSITY_SCALE {
            Some(ConfigError::DensityOutOfRange)
        } else if self.block_strength == 0 {
            Some(ConfigError::ZeroBlockStrength)
        } else if self.bar_width == 0 {
            Some(ConfigError::ZeroBarWidth)
        } else if self.ball_power == 0 {
            Some(ConfigError::ZeroBallPower)
        } else {
            None
        }
    }
}

/// Validated parameters. A value of this type always describes a game
/// that can be laid out.
#[derive(Clone, Copy, Debug)]
pub struct Config {
    block_density: u32,
    block_strength: u16,
    bar_width: u16,
    ball_power: u16,
}

impl View for Config {
    type V = ConfigView;

    closed spec fn view(&self) -> ConfigView {
        ConfigView {
            block_density: self.block_density as int,
            block_strength: self.block_strength as int,
            bar_width: self.bar_width as int,
            ball_power: self.ball_power as int,
        }
    }
}

impl Config {
    /// Holds of every value of this type.
    #[verifier::type_invariant]
    pub open spec fn well_formed(self) -> bool {
        self@.inv()
    }

    /// Checks the parameters and keeps them. `block_density` counts
    /// thousandths, so `200` asks for a block in every fifth cell on
    /// average.
    pub fn new(block_density: u32, block_strength: u16, bar_width: u16, ball_power: u16) -> (outcome:
        Result<Config, ConfigError>)
        ensures
            ({
                let asked = ConfigView {
                    block_density: block_density as int,
                    block_strength: block_strength as int,
                    bar_width: bar_width as int,
                    ball_power: ball_power as int,
                };
                match outcome {
                    Ok(config) => asked.rejection() is None && config@ == asked && config@.inv(),
                    Err(error) => asked.rejection() == Some(error),
                }
            }),
    {
        if block_density > DENSITY_SCALE {
            Err(ConfigError::DensityOutOfRange)
        } else if block_strength == 0 {
            Err(ConfigError::ZeroBlockStrength)
        } else if bar_width == 0 {
            Err(ConfigError::ZeroBarWidth)
        } else if ball_power == 0 {
            Err(ConfigError::ZeroBallPower)
        } else {
            Ok(Config { block_density, block_strength, bar_width, ball_power })
        }
    }

    pub fn block_density(&self) -> (density: u32)
        ensures
            density == self@.block_density,
            self@.inv(),
    {
        proof {
            use_type_invariant(self);
        }
        self.block_density
    }

    pub fn block_strength(&self) -> (strength: u16)
        ensures
            strength == self@.block_strength,
            self@.inv(),
    {
        proof {
            use_type_invariant(self);
        }
        self.block_strength
    }

    pub fn bar_width(&self) -> (width: u16)
        ensures
            width == self@.bar_width,
            self@.inv(),
    {
        proof {
            use_type_invariant(self);
        }
        self.bar_width
    }

    pub fn ball_power(&self) -> (power: u16)
        ensures
            power == self@.ball_power,
            self@.inv(),
    {
        proof {
            use_type_invariant(self);
        }
        self.ball_power
    }
}

} // verus!
