//! Closed sets of wire tokens.

use vstd::prelude::*;

verus! {

/// A type with finitely many values, each written on the wire as one fixed
/// token.
pub trait Literal: Sized + Copy {
    /// The token of this value.
    spec fn token_spec(self) -> Seq<char>;

    /// The value whose token is `s`, if there is one.
    spec fn parse_spec(s: Seq<char>) -> Option<Self>;

    /// The token of this value.
    fn token(&self) -> (r: &'static str)
        ensures
            r@ == self.token_spec(),
    ;

    /// The value whose token is `s`, if there is one.
    fn from_token(s: &str) -> (r: Option<Self>)
        ensures
            r == Self::parse_spec(s@),
    ;

    /// Every value is found again from its token.
    proof fn lemma_token_parses(self)
        ensures
            Self::parse_spec(self.token_spec()) == Some(self),
    ;

    /// A string is parsed only as the value that it is the token of.
    proof fn lemma_parsed_token(s: Seq<char>)
        ensures
            Self::parse_spec(s) matches Some(v) ==> v.token_spec() == s,
    ;
}

} // verus!
