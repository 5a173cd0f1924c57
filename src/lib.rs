//! Startup logic of the Deditor desktop shell: the configuration of its one
//! window, the plugins it registers, and the order in which the host framework
//! is asked to do each step of bringing the application up.
pub mod laws;
pub mod plugin;
pub mod startup;
pub mod window;
