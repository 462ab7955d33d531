use vstd::prelude::*;

verus! {

/// The persisted configuration: the name of the selected provider.
#[derive(Debug, Clone)]
pub struct AppConfig {
    pub provider: String,
}

} // verus!
