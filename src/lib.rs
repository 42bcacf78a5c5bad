//! Start-up logic of a desktop shell: which plugins are attached and when,
//! how the one-shot setup hook reports its outcome, and how the shell leaves
//! once the framework's run call has returned.

pub mod launcher;
pub mod plugins;
pub mod setup;
