//! Declarations of the types from std and from outside crates that the
//! library holds without looking inside them.

use vstd::prelude::*;

verus! {

/// A file system path from std, carried through the library as an opaque
/// value: the library only stores, compares and hands out paths.
#[verifier::external_type_specification]
#[verifier::external_body]
pub struct ExPathBuf(std::path::PathBuf);

/// The scroll and filter state of the log panel from tui-logger. The library
/// hands it the paging requests and never reads it back.
#[verifier::external_type_specification]
#[verifier::external_body]
pub struct ExTuiWidgetState(tui_logger::TuiWidgetState);

/// Relies on tui_logger::TuiWidgetState::new, which builds a fresh state and
/// cannot fail.
pub assume_specification[ tui_logger::TuiWidgetState::new ]() -> tui_logger::TuiWidgetState;

} // verus!
