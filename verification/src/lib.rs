//! Tracks the components of a program.
//!
//! A component is a function that holds JSX and whose name begins with a capital
//! letter. The transform makes each call of a component begin with a call of
//! `useComponentTracking`, and end with a call of what that returned. Components
//! in other declarations are left alone, and those in object literals are tracked
//! on request alone. Block comments ask for tracking (`@trackControls`) or forbid
//! it (`@noTrackControls`).
//!
//! - `ast`: the tree of a program, and views of it
//! - `comments`: the comments of a program, and the directives in them
//! - `names`, `detect`, `expr`: what a function is
//! - `options`: what the user chooses
//! - `policy`, `walk`: which functions are tracked, and what a visit changes
//! - `wrap`, `imports`: the code that is written
//! - `visitor`, `transform`: the transform
//! - `laws`: what holds of it as a whole
pub mod ast;
pub mod comments;
pub mod detect;
pub mod expr;
pub mod imports;
pub mod laws;
pub mod names;
pub mod options;
pub mod policy;
pub mod transform;
pub mod visitor;
pub mod walk;
pub mod wrap;

pub use crate::options::{
    PreactSignalsPluginExperimental, PreactSignalsPluginOptions, TransformMode,
};
pub use crate::transform::process_transform;
pub use crate::visitor::SignalsTransformVisitor;
