//! A rate controller driven by success and failure signals.
//!
//! A [`Controller`] holds a current value, an increase strategy and a decrease
//! strategy, and optional lower and upper bounds. Every value is an exact
//! [`Rational`], whose view is the real number it stands for, so each contract
//! is an equation between real numbers.
pub mod controller;
pub mod gcd;
pub mod laws;
pub mod rational;
pub mod strategy;

pub use controller::Controller;
pub use rational::Rational;
