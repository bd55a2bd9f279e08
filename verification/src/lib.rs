//! Scaffolding generator: from a parsed data model to the source text of a
//! domain entity, a mapper, an abstract repository and its Prisma
//! implementation, together with the path each text belongs at.

pub mod entity;
pub mod fields;
pub mod mapper;
pub mod model;
pub mod module_type;
pub mod naming;
pub mod paths;
pub mod repository;
pub mod text;
pub mod writer;
