//! Grading of a student's marks, the text of the report card, and the
//! decisions taken while the rendered card is published to a remote file
//! store.

pub mod grade;
pub mod input;
pub mod publish;
pub mod render;
pub mod text;
