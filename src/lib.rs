//! Portable lane-typed vector values for numeric kernels.
//!
//! Each vector type holds one 128-bit register's worth of lanes, and every operation is
//! stated lane by lane against the single-element reference in `lane`, which the scalar
//! backend in `scalar` also meets. `dispatch` gathers the backends behind one generic
//! interface; `laws` proves the rules that tie the operations together.

pub mod dispatch;
pub mod f32x4;
pub mod f64x2;
pub mod i16x8;
pub mod i32x4;
pub mod i64x2;
pub mod i8x16;
pub mod lane;
pub mod laws;
pub mod scalar;
pub mod sse2;
