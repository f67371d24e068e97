//! Checks on the shape of a simulation answer.
use vstd::prelude::*;

verus! {

/// Errors of a single-train simulation request.
#[derive(Clone, Copy, Debug, PartialEq, Eq, Structural)]
pub enum SingleSimulationError {
    RollingStockNotFound { rolling_stock_id: i64 },
    PathNotFound { path_id: i64 },
    ElectricalProfileSetNotFound { electrical_profile_set_id: i64 },
    WrongCoreResponseFormat,
}

/// The first element of a list sent back by the simulation service, which
/// must hold at least one.
pub fn get_first_from_core_vec<T>(core_vec: Vec<T>) -> (r: Result<T, SingleSimulationError>)
    ensures
        core_vec@.len() > 0 ==> r == Ok::<T, SingleSimulationError>(core_vec@[0]),
        core_vec@.len() == 0 ==> r == Err::<T, SingleSimulationError>(
            SingleSimulationError::WrongCoreResponseFormat,
        ),
{
    let mut core_vec = core_vec;
    if core_vec.len() == 0 {
        Err(SingleSimulationError::WrongCoreResponseFormat)
    } else {
        Ok(core_vec.swap_remove(0))
    }
}

} // verus!
