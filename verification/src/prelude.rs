//! The items that most users of the library need.

pub use crate::consts::ElementPatchMode;
pub use crate::execute_script::ExecuteScript;
pub use crate::patch_elements::PatchElements;
pub use crate::patch_signals::PatchSignals;
pub use crate::DatastarEvent;
