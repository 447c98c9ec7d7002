//! Tables that the endpoints look things up in.

pub mod erc20;
