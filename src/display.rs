use vstd::prelude::*;
use vstd::string::StringExecFns;

verus! {

/// The text form of a circle whose coordinates render as `x`, `y` and
/// `radius`: `Circle(<x>, <y>) <radius>x<radius>`.
pub open spec fn circle_text(x: Seq<char>, y: Seq<char>, radius: Seq<char>) -> Seq<char> {
    "Circle("@ + x + ", "@ + y + ") "@ + radius + "x"@ + radius
}

/// Writes the text form of a circle from the renderings of its three numbers.
/// The radius stands twice, as the width and the height of the shape.
pub fn format_circle(x: &str, y: &str, radius: &str) -> (r: String)
    ensures
        r@ == circle_text(x@, y@, radius@),
{
    let mut r = String::from_str("Circle(");
    r.append(x);
    r.append(", ");
    r.append(y);
    r.append(") ");
    r.append(radius);
    r.append("x");
    r.append(radius);
    r
}

} // verus!
