//! What the interactive session asks its caller to do once it ends.

use vstd::prelude::*;

verus! {

#[derive(Debug, Clone)]
pub enum ExitAction {
    Quit,
    SpawnShell(String),
}

} // verus!
