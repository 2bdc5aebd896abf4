use vstd::prelude::*;

verus! {

/// Lower and upper bounds, both inclusive, for the three channels of a
/// pixel in hue, saturation and value.
#[derive(Clone, Copy, Debug, PartialEq, Eq, Structural)]
pub struct HsvBounds {
    pub hue_min: u8,
    pub hue_max: u8,
    pub saturation_min: u8,
    pub saturation_max: u8,
    pub value_min: u8,
    pub value_max: u8,
}

impl HsvBounds {
    /// Whether a pixel with these three channel values lies inside the bounds.
    pub open spec fn holds(self, hue: u8, saturation: u8, value: u8) -> bool {
        &&& self.hue_min <= hue <= self.hue_max
        &&& self.saturation_min <= saturation <= self.saturation_max
        &&& self.value_min <= value <= self.value_max
    }

    /// Whether a pixel with these three channel values lies inside the bounds.
    pub fn contains(&self, hue: u8, saturation: u8, value: u8) -> (inside: bool)
        ensures
            inside == self.holds(hue, saturation, value),
    {
        self.hue_min <= hue && hue <= self.hue_max && self.saturation_min <= saturation
            && saturation <= self.saturation_max && self.value_min <= value && value
            <= self.value_max
    }
}

/// How a frame is turned into a mask of candidate pixels.
#[derive(Clone, Copy, Debug, PartialEq, Eq, Structural)]
pub struct SegmenterConfig {
    /// The colours taken for flame.
    pub bounds: HsvBounds,
    /// Side of the square neighbourhood of the local threshold, in pixels.
    pub block_size: u32,
    /// What the local threshold lies below the neighbourhood's weighted mean.
    pub offset: i32,
}

/// How a mask is cleaned: the side of the square structuring element and
/// how often each pass is applied.
#[derive(Clone, Copy, Debug, PartialEq, Eq, Structural)]
pub struct CleanerConfig {
    pub kernel_size: u32,
    pub iterations: u32,
}

/// What is wrong with a set of parameters.
#[derive(Clone, Copy, Debug, PartialEq, Eq, Structural)]
pub enum ConfigError {
    /// The neighbourhood of the local threshold has no centre pixel: its
    /// side is even or below three.
    BlockSize,
    /// The structuring element has no pixel.
    KernelSize,
}

impl SegmenterConfig {
    pub open spec fn standard() -> SegmenterConfig {
        SegmenterConfig {
            bounds: HsvBounds {
                hue_min: 0,
                hue_max: 35,
                saturation_min: 50,
                saturation_max: 255,
                value_min: 200,
                value_max: 255,
            },
            block_size: 11,
            offset: 2,
        }
    }

    /// The neighbourhood is a square of odd side, three pixels or more.
    pub open spec fn usable(self) -> bool {
        self.block_size >= 3 && self.block_size % 2 == 1
    }

    pub fn new() -> (c: SegmenterConfig)
        ensures
            c == SegmenterConfig::standard(),
            c.usable(),
    {
        SegmenterConfig {
            bounds: HsvBounds {
                hue_min: 0,
                hue_max: 35,
                saturation_min: 50,
                saturation_max: 255,
                value_min: 200,
                value_max: 255,
            },
            block_size: 11,
            offset: 2,
        }
    }

    pub fn check(&self) -> (r: Result<(), ConfigError>)
        ensures
            r is Ok <==> self.usable(),
            r is Err ==> r == Err::<(), ConfigError>(ConfigError::BlockSize),
    {
        if self.block_size >= 3 && self.block_size % 2 == 1 {
            Ok(())
        } else {
            Err(ConfigError::BlockSize)
        }
    }
}

impl CleanerConfig {
    pub open spec fn standard() -> CleanerConfig {
        CleanerConfig { kernel_size: 3, iterations: 1 }
    }

    /// The structuring element has at least one pixel.
    pub open spec fn usable(self) -> bool {
        self.kernel_size >= 1
    }

    pub fn new() -> (c: CleanerConfig)
        ensures
            c == CleanerConfig::standard(),
            c.usable(),
    {
        CleanerConfig { kernel_size: 3, iterations: 1 }
    }

    pub fn check(&self) -> (r: Result<(), ConfigError>)
        ensures
            r is Ok <==> self.usable(),
            r is Err ==> r == Err::<(), ConfigError>(ConfigError::KernelSize),
    {
        if self.kernel_size >= 1 {
            Ok(())
        } else {
            Err(ConfigError::KernelSize)
        }
    }
}

} // verus!
