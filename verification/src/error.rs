use vstd::prelude::*;

verus! {

/// The error cases the generation pipeline can report.
///
/// `InvalidDensity` is returned when a sector is requested with a cell
/// density outside the open-closed interval that the generator accepts;
/// `InvalidCoordinates` reports a grid cell outside sector bounds;
/// `InvalidSeedFormat` reports a display code holding characters outside
/// the display alphabet; `RngNotInitialized` and `FormatError` are kept
/// for callers that match on the full set of cases.
#[derive(Debug, Clone, PartialEq, Eq, Structural)]
pub enum AstromapperError {
    InvalidDensity,
    RngNotInitialized,
    InvalidCoordinates(usize, usize),
    InvalidSeedFormat,
    FormatError,
}

} // verus!
