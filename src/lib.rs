//! Interactive branch switching: the state machine behind a terminal branch
//! picker, the mapping of repository answers into its events, and the text
//! that the picker shows.

pub mod git;
pub mod input;
pub mod terminal;
pub mod widgets;
pub mod laws;
