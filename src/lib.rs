//! A real-time input loop core: frame timing, normalised input events, a
//! registry of controllable objects that events fan out to, and an
//! Euler-angle camera controller.
//!
//! Every quantity is held in fixed point so that the logic can be proved:
//! times in microseconds, cursor and wheel amounts in thousandths of a pixel
//! or wheel step, angles in millionths of a degree.
use vstd::prelude::*;

pub mod camera;
pub mod driver;
pub mod input;
pub mod lang;
pub mod logic;
pub mod timing;

verus! {

/// An application that owns and runs the frame loop.
pub trait Game {
    fn main_loop(&mut self);
}

} // verus!
