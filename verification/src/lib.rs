//! A chain-agnostic currency layer: the tag that names a network, with its
//! textual and numeric forms, and the operations every network adapter offers.

pub mod currency;
