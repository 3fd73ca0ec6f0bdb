//! The host function that scripts print with.
//!
//! `println` takes any number of arguments. Each is turned into its display
//! text by the engine; the texts are joined with single spaces and written as
//! one line. The joining is done here, on texts; turning values into texts
//! and writing the line belong to the embedding program.

use vstd::prelude::*;

verus! {

/// `parts` in a row with exactly one space between neighbours.
pub open spec fn joined(parts: Seq<Seq<char>>) -> Seq<char>
    decreases parts.len(),
{
    if parts.len() == 0 {
        Seq::empty()
    } else if parts.len() == 1 {
        parts[0]
    } else {
        joined(parts.drop_last()) + seq![' '] + parts.last()
    }
}

/// The line that `println` writes for these arguments, without the line
/// break: the display texts of the arguments, joined with single spaces.
pub fn println_line(arguments: &Vec<String>) -> (line: String)
    ensures
        line@ == joined(arguments.deep_view()),
{
    let ghost texts = arguments.deep_view();
    let mut line = String::new();
    let mut done: usize = 0;
    while done < arguments.len()
        invariant
            done <= arguments.len(),
            texts == arguments.deep_view(),
            line@ == joined(texts.take(done as int)),
        decreases arguments.len() - done,
    {
        proof {
            reveal_strlit(" ");
            let before = texts.take(done as int);
            let after = texts.take(done + 1);
            assert(after.drop_last() =~= before);
            assert(after.last() == arguments[done as int]@);
            assert(" "@ =~= seq![' ']);
        }
        if done > 0 {
            line.append(" ");
        }
        line.append(arguments[done].as_str());
        done += 1;
    }
    assert(texts.take(done as int) =~= texts);
    line
}

} // verus!
