use vstd::prelude::*;

verus! {

/// Options of `genpass`.
#[derive(Debug)]
pub struct GenPassOpts {
    /// How many characters the password gets.
    pub length: u8,
    /// Whether upper-case letters are used.
    pub uppercase: bool,
    /// Whether lower-case letters are used.
    pub lowercase: bool,
    /// Whether digits are used.
    pub number: bool,
    /// Whether symbols are used.
    pub symbol: bool,
}

} // verus!
