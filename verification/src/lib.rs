//! Core of a small fixed-timestep arcade game: a gliding player subject to
//! gravity must pass through shrinking gaps in procedurally generated
//! obstacles. The library owns the whole simulation — entity physics,
//! obstacle generation and collision, the menu/playing/dead state machine,
//! and the frame-time accumulator — and hands the host a list of drawing
//! commands each tick. The host (terminal window, input polling, colours)
//! stays outside.

pub mod cloud;
pub mod draw;
pub mod obstacle;
pub mod player;
pub mod random;
pub mod state;
