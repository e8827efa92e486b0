//! A strongly-typed field-mapping contract for laboratory chemical records.
//!
//! Every record type in this crate can be converted to and from a uniform,
//! weakly-typed sequence of scalar [`value::Value`]s, so that a type-agnostic
//! storage collaborator can persist, load, and introspect records without
//! knowing their concrete shape. The [`interface`] module holds the two
//! capability traits ([`interface::Entry`] and [`interface::FieldName`])
//! together with the schema-driven validator they share; the remaining
//! modules instantiate the contract once per concrete record shape.

pub mod value;
pub mod interface;
pub mod chemical;
pub mod chemical_inventory;
pub mod component;
pub mod hazard;
pub mod manufacturer;
pub mod manufacturer_chemical;
pub mod pictogram;
pub mod precaution;
