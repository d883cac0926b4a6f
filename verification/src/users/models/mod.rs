pub mod claims;
