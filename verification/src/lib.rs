//! A query-string builder and query description for the operating system's
//! file metadata search service, together with a plain attribute record for
//! the items a search returns.
//!
//! The builder accumulates typed predicate expressions and renders them into
//! a single query string joined by logical AND; a condition tree expresses
//! nested AND/OR combinations. A built query carries the query string, the
//! scope strings and an optional result cap; applying it to the native
//! search resource, and execution itself, happen at the native boundary
//! outside this library.

pub mod builder;
pub mod condition;
pub mod decimal;
pub mod item;
pub mod model;
pub mod query;
pub mod timefmt;

pub use builder::MDQueryBuilder;
pub use builder::MDQueryCompareOp;
pub use condition::MDQueryCondition;
pub use condition::MDQueryConditionExpression;
pub use condition::MDQueryConditionType;
pub use item::MDItem;
pub use model::MDItemKey;
pub use model::MDQueryScope;
pub use query::MDQuery;
pub use query::MDQueryError;
