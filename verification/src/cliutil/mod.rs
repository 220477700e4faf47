//! The live progress display: titles, line chunks, terminal sequences and
//! the two kinds of session.

pub mod common;
pub mod multistep;
pub mod outcome;
pub mod segment;
pub mod step;
pub mod term;

pub use common::{chunk_graphemes, chunk_width, split_line_to_chunks};
pub use common::{completed_frame, completed_frame_with, progress_frame};
pub use common::{completed_title, completed_title_with, done_marker, progress_title};
pub use common::Phase;
pub use common::{POLL_DELAY_MS, UPDATE_DELAY_MS};
pub use multistep::{frame, read_step, Delivery, MultiStep, Reading, Session};
pub use outcome::{join_report, Joined};
pub use step::{Step, StepState};
