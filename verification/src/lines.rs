//! Captured diagnostic lines and the text they are delivered as.

use vstd::prelude::*;
use vstd::string::*;

verus! {

/// The lines of a buffer as sequences of characters.
pub open spec fn line_views(lines: Seq<String>) -> Seq<Seq<char>> {
    Seq::new(lines.len(), |i: int| lines[i]@)
}

/// The lines placed one after another with a single newline between
/// neighbours.
pub open spec fn join_lines(lines: Seq<Seq<char>>) -> Seq<char>
    decreases lines.len(),
{
    if lines.len() == 0 {
        Seq::empty()
    } else if lines.len() == 1 {
        lines[0]
    } else {
        join_lines(lines.drop_last()) + seq!['\n'] + lines.last()
    }
}

/// The text without its last character where that is a newline.
pub open spec fn trim_newline(text: Seq<char>) -> Seq<char> {
    if text.len() > 0 && text.last() == '\n' {
        text.drop_last()
    } else {
        text
    }
}

/// The text that a buffer of lines is delivered as.
pub open spec fn captured_text(lines: Seq<Seq<char>>) -> Seq<char> {
    trim_newline(join_lines(lines))
}

/// Appending a line to a buffer appends its characters to the buffer's model.
pub proof fn line_views_push(lines: Seq<String>, line: String)
    ensures
        line_views(lines.push(line)) == line_views(lines).push(line@),
{
    assert(line_views(lines.push(line)) =~= line_views(lines).push(line@));
}

/// Joins the lines with newlines and trims one trailing newline.
pub fn join_captured(lines: &Vec<String>) -> (text: String)
    ensures
        text@ == captured_text(line_views(lines@)),
{
    let ghost model = line_views(lines@);
    let mut joined = String::new();
    let mut i: usize = 0;
    while i < lines.len()
        invariant
            i <= lines.len(),
            model == line_views(lines@),
            joined@ == join_lines(model.take(i as int)),
        decreases lines.len() - i,
    {
        proof {
            reveal_strlit("\n");
            assert(model.take(i + 1).drop_last() =~= model.take(i as int));
            assert(model.take(i + 1).last() == lines@[i as int]@);
            assert("\n"@ =~= seq!['\n']);
        }
        if i > 0 {
            joined.append("\n");
        }
        joined.append(lines[i].as_str());
        proof {
            if i == 0 {
                assert(joined@ =~= lines@[0]@);
                assert(model.take(1)[0] == lines@[0]@);
            }
        }
        i = i + 1;
    }
    proof {
        assert(model.take(lines.len() as int) =~= model);
    }
    let n: usize = joined.as_str().unicode_len();
    if n > 0 && joined.as_str().get_char(n - 1) == '\n' {
        let trimmed = joined.as_str().substring_char(0, n - 1).to_owned();
        proof {
            assert(trimmed@ =~= joined@.drop_last());
        }
        trimmed
    } else {
        joined
    }
}

} // verus!
