//! Configuration and result types.
use vstd::prelude::*;
use crate::deps::Deps;

verus! {

/// The configuration of one search: the identifier whose calls are
/// dependencies (`require` unless set otherwise).
#[derive(Debug)]
pub struct Options {
    word: String,
}

impl View for Options {
    type V = Seq<char>;

    /// The target identifier.
    closed spec fn view(&self) -> Seq<char> {
        self.word@
    }
}

impl Default for Options {
    fn default() -> (r: Self)
        ensures
            r@ == "require"@,
    {
        Options { word: "require".to_string() }
    }
}

impl Options {
    pub fn new() -> (r: Self)
        ensures
            r@ == "require"@,
    {
        Self::default()
    }

    /// The same options with `word` as the target identifier.
    pub fn word(self, word: &str) -> (r: Self)
        ensures
            r@ == word@,
    {
        let mut o = self;
        o.word = word.to_string();
        o
    }

    /// The target identifier.
    pub fn target(&self) -> (r: &String)
        ensures
            r@ == self@,
    {
        &self.word
    }
}

/// The result of a search, both lists in the order met.
///
/// `strings` holds the text of each matched call whose first argument is a
/// string literal or a template without interpolation. `expressions` holds
/// one record for each matched call whose first argument is anything else:
/// the name where that argument is an identifier, else an empty text, since
/// the syntax tree keeps no source text.
#[derive(Debug)]
pub struct Found {
    pub strings: Vec<String>,
    pub expressions: Vec<String>,
}

impl View for Found {
    type V = Deps;

    open spec fn view(&self) -> Deps {
        Deps {
            strings: self.strings@.map_values(|s: String| s@),
            expressions: self.expressions@.map_values(|s: String| s@),
        }
    }
}

impl Default for Found {
    fn default() -> (r: Self)
        ensures
            r@ == Deps::empty(),
    {
        let r = Found { strings: Vec::new(), expressions: Vec::new() };
        assert(r@.strings =~= Seq::empty());
        assert(r@.expressions =~= Seq::empty());
        r
    }
}

impl Found {
    pub fn new() -> (r: Self)
        ensures
            r@ == Deps::empty(),
    {
        Self::default()
    }

    pub(crate) fn push_string(&mut self, s: String)
        ensures
            final(self)@ == old(self)@.add(Deps::named(s@)),
    {
        self.strings.push(s);
        assert(self@.strings =~= old(self)@.strings + seq![s@]);
        assert(self@.expressions =~= old(self)@.expressions + Seq::empty());
    }

    pub(crate) fn push_expression(&mut self, s: String)
        ensures
            final(self)@ == old(self)@.add(Deps::dynamic(s@)),
    {
        self.expressions.push(s);
        assert(self@.strings =~= old(self)@.strings + Seq::empty());
        assert(self@.expressions =~= old(self)@.expressions + seq![s@]);
    }
}

} // verus!
