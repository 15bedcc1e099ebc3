//! Verified decision logic of the Pi Constellation Mapper sky viewer.

pub mod controls;
pub mod pointer;
pub mod polyline;
pub mod selection;
