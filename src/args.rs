use crate::config::Mode;
use vstd::prelude::*;

verus! {

/// Display mode as chosen on the command line.
#[derive(Clone, Copy, PartialEq, Eq, Structural, Debug)]
pub enum DisplayMode {
    Color,
    Image,
}

impl From<DisplayMode> for Mode {
    fn from(display_mode: DisplayMode) -> (r: Mode) {
        match display_mode {
            DisplayMode::Color => Mode::Color,
            DisplayMode::Image => Mode::Image,
        }
    }
}

impl vstd::std_specs::convert::FromSpecImpl<DisplayMode> for Mode {
    open spec fn obeys_from_spec() -> bool {
        true
    }

    open spec fn from_spec(v: DisplayMode) -> Mode {
        match v {
            DisplayMode::Color => Mode::Color,
            DisplayMode::Image => Mode::Image,
        }
    }
}

} // verus!
