use vstd::prelude::*;

verus! {

/// State shared across connections. The design keeps none: connections are
/// isolated, and the file system itself is the only shared resource.
pub struct AppState {}

impl AppState {
    /// A fresh, empty shared state.
    pub fn new() -> AppState {
        AppState {  }
    }
}

} // verus!
