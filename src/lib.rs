//! Native shell logic of a single-window file viewer: resolving the URLs the
//! operating system asks the application to open, keeping the list of opened
//! files, and deciding how the main window and the front end react to each
//! application event.

pub mod link;
pub mod store;
pub mod shell;
