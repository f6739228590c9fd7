//! Colors of the CSS color spaces: conversion between the spaces, mapping
//! into the gamut of a space, and interpolation.
//!
//! The type of a component is a parameter of the library, and the
//! arithmetic on components is the caller's: see [`Arithmetic`].

pub mod arith;
pub mod color;
pub mod convert;
pub mod flags;
pub mod gamut;
pub mod interpolate;
pub mod missing;
pub mod models;
pub mod space;
pub mod tags;

pub use arith::Arithmetic;
pub use color::{Color, ComponentDetails, Components};
pub use flags::{Channel, Flags};
pub use interpolate::{HueInterpolationMethod, Interpolation};
pub use missing::_analogous_missing_components;
pub use space::{Role, Space};
