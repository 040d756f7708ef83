//! Decision rules of ray–sphere intersection.
//!
//! The geometry of a hit (dot products, the square root of the discriminant,
//! the surface normal and its texture coordinates) is carried out in floating
//! point by the caller. What this crate decides, and proves, is which outcome
//! those numbers lead to: no hit, the near root, or the far root of the
//! quadratic `a t² - 2h t + c = 0`.

mod root;

pub use root::{select_root, Root};
