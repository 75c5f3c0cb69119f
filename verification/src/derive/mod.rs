//! The declaration of an aggregate: what the fields of the declared struct
//! and their `runtime` attributes say of the services and of their pools.

pub mod ast;
pub mod gen;
pub mod symbol;
pub mod syntax;

pub use self::ast::{Attrs, Field, Input, Struct};
pub use self::gen::{gen, Aggregate, Placement, Service};
pub use self::symbol::Symbol;
pub use self::syntax::{Error, ErrorKind, RuntimeOption};
