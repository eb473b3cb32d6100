use vstd::prelude::*;

verus! {

/// The resampling kernel applied when a frame is fitted to the terminal.
#[derive(Clone, Copy, Debug, PartialEq, Eq, Structural)]
pub enum FilterType {
    Nearest,
    Bilinear,
    Gaussian,
    Lanczos,
    Box,
}

/// The number that selects the kernel on the GPU side.
pub open spec fn selector_of(f: FilterType) -> u32 {
    match f {
        FilterType::Nearest => 0,
        FilterType::Bilinear => 1,
        FilterType::Gaussian => 2,
        FilterType::Lanczos => 3,
        FilterType::Box => 4,
    }
}

/// The kernel chosen by a key press, if the key selects one.
pub open spec fn filter_for_key(c: char) -> Option<FilterType> {
    if c == '1' {
        Some(FilterType::Nearest)
    } else if c == '2' {
        Some(FilterType::Bilinear)
    } else if c == '3' {
        Some(FilterType::Gaussian)
    } else if c == '4' {
        Some(FilterType::Lanczos)
    } else if c == '5' {
        Some(FilterType::Box)
    } else {
        None
    }
}

impl FilterType {
    /// The kernel's stable ordinal, handed to the compute shader.
    pub fn selector(self) -> (r: u32)
        ensures
            r == selector_of(self),
            r < 5,
    {
        match self {
            FilterType::Nearest => 0,
            FilterType::Bilinear => 1,
            FilterType::Gaussian => 2,
            FilterType::Lanczos => 3,
            FilterType::Box => 4,
        }
    }

    /// Keys `1` to `5` select Nearest, Bilinear, Gaussian, Lanczos and Box.
    pub fn from_key(c: char) -> (r: Option<FilterType>)
        ensures
            r == filter_for_key(c),
    {
        match c {
            '1' => Some(FilterType::Nearest),
            '2' => Some(FilterType::Bilinear),
            '3' => Some(FilterType::Gaussian),
            '4' => Some(FilterType::Lanczos),
            '5' => Some(FilterType::Box),
            _ => None,
        }
    }
}

} // verus!
