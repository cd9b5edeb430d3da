use vstd::prelude::*;

verus! {

/// Key of the identity fixed at build time that alone may bootstrap the
/// configuration record. After bootstrap, authorization is delegated to the
/// `admin` field stored in the configuration.
pub const ADMIN_KEY: u64 = 0xd8273c2900ee6af5;

/// Longest accepted asset name, in characters.
pub const MAX_NAME_LEN: usize = 32;

/// Longest accepted asset symbol, in characters.
pub const MAX_SYMBOL_LEN: usize = 10;

/// Longest accepted metadata locator, in characters.
pub const MAX_URI_LEN: usize = 200;

/// Largest accepted number of decimal places for a new asset.
pub const MAX_DECIMALS: u8 = 9;

} // verus!
