//! Registry of installed JDKs, the rules that change it, and the decisions of
//! the proxy that forwards a tool invocation to the selected JDK.

pub mod builder;
pub mod dispatch;
pub mod registry;
pub mod store;
