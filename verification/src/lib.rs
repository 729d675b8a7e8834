//! Animals with a shared speaking interface, an optional swimming interface,
//! and a horse built by composition over a common base, together with a
//! demonstration that shows them off line by line.

pub mod animal;
pub mod cat;
pub mod demo;
pub mod dog;
pub mod duck;
pub mod horse;
pub mod text;
