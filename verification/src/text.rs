//! The text form of a vector: `(origin.x,origin.y)[target.x,target.y]`.
//!
//! Turning a coordinate into its decimal text is the caller's work; this
//! module owns the layout and proves it.
use vstd::prelude::*;
use vstd::string::*;

verus! {

/// Two coordinate texts between a pair of brackets, separated by one comma
/// and no blanks.
pub open spec fn pair_text(
    open: char,
    first: Seq<char>,
    second: Seq<char>,
    close: char,
) -> Seq<char> {
    seq![open] + first + seq![','] + second + seq![close]
}

/// The text form of a vector: the origin in round brackets, directly
/// followed by the target offset in square brackets.
pub open spec fn vector_text(
    origin_x: Seq<char>,
    origin_y: Seq<char>,
    target_x: Seq<char>,
    target_y: Seq<char>,
) -> Seq<char> {
    pair_text('(', origin_x, origin_y, ')') + pair_text('[', target_x, target_y, ']')
}

/// Appends `open`, `first`, a comma, `second` and `close` to `text`.
fn push_pair(text: &mut String, open: &str, first: &str, second: &str, close: &str)
    requires
        open@.len() == 1,
        close@.len() == 1,
    ensures
        final(text)@ == old(text)@ + pair_text(open@[0], first@, second@, close@[0]),
{
    let ghost before = text@;
    text.append(open);
    text.append(first);
    text.append(",");
    text.append(second);
    text.append(close);
    proof {
        reveal_strlit(",");
        assert(text@ =~= before + pair_text(open@[0], first@, second@, close@[0]));
    }
}

/// Lays out the text form of a vector from the decimal texts of its four
/// coordinates: the origin's `x` and `y`, then the target offset's `x` and
/// `y`. The texts are taken as they are; nothing is trimmed, padded or
/// escaped.
pub fn format_vector(
    origin_x: &str,
    origin_y: &str,
    target_x: &str,
    target_y: &str,
) -> (text: String)
    ensures
        text@ == vector_text(origin_x@, origin_y@, target_x@, target_y@),
{
    let mut text = String::new();
    proof {
        reveal_strlit("(");
        reveal_strlit(")");
        reveal_strlit("[");
        reveal_strlit("]");
    }
    push_pair(&mut text, "(", origin_x, origin_y, ")");
    push_pair(&mut text, "[", target_x, target_y, "]");
    text
}

} // verus!
