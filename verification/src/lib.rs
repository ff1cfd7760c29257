//! Renders a GraphQL introspection result as a set of cross-linked Markdown
//! documents, one per GraphQL category (queries, mutations, subscriptions,
//! objects, inputs, enums, interfaces, unions, scalars).

pub mod json;
pub mod markdown;
pub mod schema;
pub mod schema_markdown;
pub mod sort;
pub mod text;

