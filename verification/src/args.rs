//! The drawing method requested on the command line, and its parser.
//! The method only styles the renderer's primitives; the generator never
//! reads it, so parsing is the one piece of argument handling with any
//! rules of its own.

use vstd::prelude::*;
use vstd::string::StringExecFns;

verus! {

/// The primitive the renderer draws for each feed.
#[derive(Clone, Debug, PartialEq, Eq, Structural)]
pub enum Method {
    Arc,
    Curve,
    Dot,
    Line,
}

/// Parses a drawing method by its lower-case name.  Exactly the four
/// names `arc`, `curve`, `dot` and `line` are accepted; anything else is
/// answered with an error naming the rejected input.
pub fn parse_method(method: &str) -> (r: Result<Method, String>)
    ensures
        method@ == "arc"@ ==> r == Ok::<Method, String>(Method::Arc),
        method@ == "curve"@ ==> r == Ok::<Method, String>(Method::Curve),
        method@ == "dot"@ ==> r == Ok::<Method, String>(Method::Dot),
        method@ == "line"@ ==> r == Ok::<Method, String>(Method::Line),
        method@ != "arc"@ && method@ != "curve"@ && method@ != "dot"@ && method@ != "line"@
            ==> (r matches Err(e) && e@ == "Could not parse method "@ + method@),
{
    // The four names must be provably distinct: the lengths separate all
    // pairs but `arc`/`dot`, which differ in their first character.
    proof {
        reveal_strlit("arc");
        reveal_strlit("curve");
        reveal_strlit("dot");
        reveal_strlit("line");
        assert("arc"@.len() == 3);
        assert("curve"@.len() == 5);
        assert("dot"@.len() == 3);
        assert("line"@.len() == 4);
        assert("arc"@ != "dot"@) by {
            assert("arc"@[0] != "dot"@[0]);
        }
    }
    let m: String = method.to_owned();
    if m == String::from_str("arc") {
        Ok(Method::Arc)
    } else if m == String::from_str("curve") {
        Ok(Method::Curve)
    } else if m == String::from_str("dot") {
        Ok(Method::Dot)
    } else if m == String::from_str("line") {
        Ok(Method::Line)
    } else {
        Err(String::from_str("Could not parse method ").concat(method))
    }
}

} // verus!
