//! A small capability library: a `Summary` capability with one required and
//! one defaulted operation, record types that override the default or
//! inherit it, several equivalent call-site forms over capability bounds,
//! and a generic `Pair` whose comparison-and-display method is available
//! only when its element type carries both the display and the ordering
//! capability.

pub mod display;
pub mod forms;
pub mod order;
pub mod pair;
pub mod summary;
