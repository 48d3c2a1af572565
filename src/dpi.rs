//! How the DPI scaling mode is chosen from an optional override.
use vstd::prelude::*;

verus! {

/// The environment variable whose value, when set, locks the scale factor.
pub const DPI_FACTOR_VAR: &'static str = "IMGUI_EXAMPLE_FORCE_DPI_FACTOR";

/// How the input adapter scales between logical and physical pixels: by the
/// factor the window reports, or by a factor fixed in advance.
#[derive(Clone, Copy, Debug, PartialEq, Eq)]
pub enum DpiMode<F> {
    Default,
    Locked(F),
}

/// The mode that an override gives: `None` where the variable is unset,
/// otherwise the outcome of reading its text as a factor.
pub open spec fn mode_for<F, E>(forced: Option<Result<F, E>>) -> Result<DpiMode<F>, E> {
    match forced {
        None => Ok(DpiMode::Default),
        Some(Ok(f)) => Ok(DpiMode::Locked(f)),
        Some(Err(e)) => Err(e),
    }
}

/// Chooses the scaling mode. An unset override keeps automatic detection, a
/// factor that was read locks the scale to exactly that factor, and text that
/// could not be read is an error that the caller treats as fatal.
pub fn dpi_mode<F, E>(forced: Option<Result<F, E>>) -> (r: Result<DpiMode<F>, E>)
    ensures
        r == mode_for(forced),
        forced is None <==> r == Ok::<DpiMode<F>, E>(DpiMode::Default),
        r is Err <==> (forced is Some && forced->0 is Err),
{
    match forced {
        None => Ok(DpiMode::Default),
        Some(Ok(f)) => Ok(DpiMode::Locked(f)),
        Some(Err(e)) => Err(e),
    }
}

} // verus!
