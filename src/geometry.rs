//! Terminal geometry and its bounds.

use vstd::prelude::*;
use vstd::string::StringExecFns;
use crate::error::{PtyError, PtyErrorCode};

verus! {

/// Rows of a freshly opened terminal.
pub const DEFAULT_ROWS: u16 = 24;

/// Columns of a freshly opened terminal.
pub const DEFAULT_COLS: u16 = 80;

/// The largest accepted number of rows or of columns.
pub const MAX_DIMENSION: u16 = 500;

/// Both dimensions lie in `1 ..= MAX_DIMENSION`.
pub open spec fn valid_dimensions(rows: u16, cols: u16) -> bool {
    1 <= rows <= MAX_DIMENSION && 1 <= cols <= MAX_DIMENSION
}

/// The message of the failure for out-of-range dimensions.
pub open spec fn invalid_dimensions_message() -> Seq<char> {
    "Invalid dimensions"@
}

/// `e` is the failure for out-of-range dimensions.
pub open spec fn is_invalid_dimensions(e: PtyError) -> bool {
    e.code == PtyErrorCode::ResizeFailed && e.message@ == invalid_dimensions_message()
}

/// Accepts a terminal size with both dimensions in `1 ..= MAX_DIMENSION`;
/// any other size is a `ResizeFailed` failure.
pub fn validate_dimensions(rows: u16, cols: u16) -> (r: Result<(), PtyError>)
    ensures
        r is Ok <==> valid_dimensions(rows, cols),
        r matches Err(e) ==> is_invalid_dimensions(e),
{
    if rows == 0 || cols == 0 || rows > MAX_DIMENSION || cols > MAX_DIMENSION {
        Err(PtyError::resize_failed(String::from_str("Invalid dimensions")))
    } else {
        Ok(())
    }
}

} // verus!
