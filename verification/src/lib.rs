//! control-base: the product-neutral base of the control stack.
//!
//! `plant` is the structure a plant declares about itself; `adapt` is the bookkeeping of the
//! error-driven calibration (the parameter lookup and the bounded trace of past values);
//! `contact_law` holds the types that name the contact laws a plant selects between.

pub mod adapt;
pub mod contact_law;
pub mod plant;
