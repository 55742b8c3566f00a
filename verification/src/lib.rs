//! Cursor extension operations in the style of LINQ.
//!
//! A cursor is a single-pass, forward-only handle that yields the elements of
//! a finite sequence one at a time and then signals exhaustion.  The
//! [`LinqIteratorExtensions`] trait describes such cursors and derives scalar
//! results from them (`single`, `first_or`, and their variants with eager,
//! lazy or type-default fallbacks), and [`Intersect`] adapts two cursors
//! into a cursor over their set intersection.  [`VecCursor`] is the concrete
//! cursor over the elements of a `Vec`.

pub mod cursor;
pub mod intersect;
pub mod linq_adapters;

pub use cursor::VecCursor;
pub use intersect::intersect;
pub use intersect::Intersect;
pub use linq_adapters::single_func;
pub use linq_adapters::LinqIteratorExtensions;
