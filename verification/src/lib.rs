//! A minimal signal toolkit: an accumulating spectral probe that gathers a
//! fixed window of samples for a discrete Fourier transform, and a
//! single-pole exponential smoother.  All sample values are IEEE
//! single-precision numbers carried as `u32` bit patterns.

pub mod accumfft;
pub mod ieee;
pub mod sma;
