//! Summary of the effort curves of a rolling stock.
use std::collections::HashMap;
use vstd::prelude::*;

verus! {

/// Whether a traction mode is electric.
#[derive(Clone, Copy, Debug)]
pub struct LightModeEffortCurves {
    is_electric: bool,
}

/// The traction modes of a rolling stock, and the one used by default.
#[derive(Debug)]
pub struct LightEffortCurves {
    modes: HashMap<String, LightModeEffortCurves>,
    default_mode: String,
}

} // verus!
