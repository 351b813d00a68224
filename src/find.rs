//! The entry points: a search over a parsed program, and a search over
//! source text with the parser handed in by the caller.
use vstd::prelude::*;
use crate::deps::{contains, parts_deps, Deps};
use crate::detective::Detective;
use crate::options::{Found, Options};
use crate::syntax::Part;

verus! {

/// Relies on `str::contains`: true iff `pattern` is a substring of `s`.
#[verifier::external_body]
fn str_contains(s: &str, pattern: &str) -> (r: bool)
    ensures
        r == contains(s@, pattern@),
{
    s.contains(pattern)
}

/// Whether `source` can hold a call of the target: it holds the target
/// identifier somewhere. Where it does not, no parse is needed.
pub fn may_contain_target(source: &str, options: &Options) -> (r: bool)
    ensures
        r == contains(source@, options@),
{
    str_contains(source, options.target().as_str())
}

/// The dependencies of a parsed program, in the order of a depth-first,
/// left-to-right walk.
pub fn find_in_program(program: &Vec<Part>, options: &Options) -> (r: Found)
    ensures
        r@ == parts_deps(program@, options@),
{
    let mut d = Detective::new(options);
    d.onbody(program);
    d.found
}

/// Finds the dependencies of `source`, parsed by `parse`.
///
/// Source that does not hold the target identifier gives an empty result,
/// and `parse` is not called on it (its precondition is owed only for
/// source that holds the identifier). Otherwise a parse error is handed
/// back as it came, and a parsed program gives the result of
/// `find_in_program`.
pub fn find<E, F: FnOnce(&str) -> Result<Vec<Part>, E>>(
    source: &str,
    options: &Options,
    parse: F,
) -> (r: Result<Found, E>)
    requires
        contains(source@, options@) ==> parse.requires((source,)),
    ensures
        !contains(source@, options@) ==> (r matches Ok(found) && found@ == Deps::empty()),
        contains(source@, options@) ==> exists|parsed: Result<Vec<Part>, E>|
            #[trigger] parse.ensures((source,), parsed) && match parsed {
                Ok(program) => r matches Ok(found) && found@ == parts_deps(program@, options@),
                Err(e) => r == Err::<Found, E>(e),
            },
{
    if !may_contain_target(source, options) {
        return Ok(Found::new());
    }
    match parse(source) {
        Ok(program) => Ok(find_in_program(&program, options)),
        Err(e) => Err(e),
    }
}

/// The resolved names alone: the `strings` of `find`.
pub fn detective<E, F: FnOnce(&str) -> Result<Vec<Part>, E>>(
    source: &str,
    options: &Options,
    parse: F,
) -> (r: Result<Vec<String>, E>)
    requires
        contains(source@, options@) ==> parse.requires((source,)),
    ensures
        !contains(source@, options@) ==> (r matches Ok(names) && names@.len() == 0),
        contains(source@, options@) ==> exists|parsed: Result<Vec<Part>, E>|
            #[trigger] parse.ensures((source,), parsed) && match parsed {
                Ok(program) => r matches Ok(names) && names@.map_values(|s: String| s@)
                    == parts_deps(program@, options@).strings,
                Err(e) => r == Err::<Vec<String>, E>(e),
            },
{
    match find(source, options, parse) {
        Ok(found) => {
            assert(found@.strings.len() == found.strings@.len());
            Ok(found.strings)
        },
        Err(e) => Err(e),
    }
}

} // verus!
