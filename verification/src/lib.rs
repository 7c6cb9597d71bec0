//! Value-math core for a small ray tracer.
//!
//! The engine works on exact 64-bit integer entries: homogeneous
//! four-component tuples (points and vectors), three-channel colours held in
//! fixed-point units, and square matrices of sizes two, three and four with
//! transpose, multiplication, cofactor expansion and inversion. On exact
//! entries the customary epsilon-tolerant comparison of computed geometry
//! collapses to plain equality, so every contract below speaks of equality
//! directly. A canvas of colours and a byte-exact bitmap emitter sit on top
//! of the colour type.

pub mod canvas;
pub mod maths;
