//! Discovers object-storage buckets and renders them as Terraform configuration.
//!
//! The library holds the resource records, the enrichment rules, the name
//! normalisation and the HCL renderer, each with its contract.
use vstd::prelude::*;

pub mod pipeline;
pub mod cli;
pub mod fetch;
pub mod layout;
pub mod model;
pub mod output;
pub mod render;
pub mod terraform;
pub mod tokens;
