//! Literal fragments of the generated declarations, one table per language.

use vstd::prelude::*;

verus! {

/// Language chosen when the caller names none.
pub const DEFAULT_LANG: &'static str = "go";

pub const BOOL: &'static str = "bool";

pub const INT: &'static str = "int";

pub const FLOAT: &'static str = "float64";

pub const STRING: &'static str = "string";

pub const ANY: &'static str = "interface{}";

pub const GO_BOOL: &'static str = "bool";

pub const GO_INT: &'static str = "int";

pub const GO_FLOAT: &'static str = "float64";

pub const GO_STRING: &'static str = "string";

pub const GO_ANY: &'static str = "interface{}";

/// Name of the record that a document's root, or a keyless array, introduces.
pub const GO_AUTO_GENERATED: &'static str = "AutoGenerated";

pub const SCALA_BOOL: &'static str = "Boolean";

pub const SCALA_INT: &'static str = "Int";

pub const SCALA_FLOAT: &'static str = "Double";

pub const SCALA_STRING: &'static str = "String";

pub const SCALA_ANY: &'static str = "Any";

/// Name assumed by the Scala closer when it is given none.
pub const SCALA_AUTO_GENERATED: &'static str = "AutoGenerated";

pub const JAVA_BOOL: &'static str = "Boolean";

pub const JAVA_INT: &'static str = "Integer";

pub const JAVA_FLOAT: &'static str = "Double";

pub const JAVA_STRING: &'static str = "String";

pub const JAVA_ANY: &'static str = "Object";

pub const RUST_BOOL: &'static str = "bool";

pub const RUST_INT: &'static str = "i64";

pub const RUST_FLOAT: &'static str = "f64";

pub const RUST_STRING: &'static str = "String";

pub const RUST_ANY: &'static str = "serde_json::Value";

} // verus!
