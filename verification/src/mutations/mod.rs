//! The inputs of the GraphQL mutations and the decisions the mutations take.

pub mod dish;
pub mod dish_alias;
pub mod location;
pub mod occurrence;
pub mod review;
pub mod tag;
pub mod user;
