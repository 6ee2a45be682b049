//! Building blocks of the graph workspace.
//!
//! [`sso`] is a fixed-capacity collection of short strings packed into
//! cache lines. [`window`] describes a window that is still to be built,
//! [`util`] collects the settings of a user-interface context, and
//! [`discriminant`] plans the constants that stand for the variants of an
//! enum.
pub mod discriminant;
pub mod sso;
pub mod util;
pub mod window;
