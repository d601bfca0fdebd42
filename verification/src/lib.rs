//! Classification and filtering of bulk legal-entity registry records:
//! picks Residents' Management Companies (RMCs) and related
//! property-management entities out of company-register snapshots, and
//! classifies persons-with-significant-control disclosure lines.
//!
//! Two pipelines share one vocabulary: the register pipeline classifies each
//! record's legal form, extracts its SIC codes and applies the name rules;
//! the disclosure pipeline validates company-number prefixes and a
//! controlled vocabulary of statement kinds. Every decision function states
//! its result exactly; I/O stays outside the library.

pub mod legal_entity;
pub mod psc;
pub mod rmc;
pub mod util;
