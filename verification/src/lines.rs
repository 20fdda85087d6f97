use crate::escape_sequence::sequence::EraseInLineType;
use crate::model::{erased_line, least, shortened_line, spaces, written_line, InsertionMode};
use crate::text_styles::decorated_char::DecoratedChar;
use crate::text_styles::text_style::TextStyle;
use std::collections::VecDeque;
use vstd::prelude::*;

verus! {

/// The lines of a buffer as sequences of characters.
pub open spec fn grid_view(buffer: VecDeque<VecDeque<DecoratedChar>>) -> Seq<Seq<DecoratedChar>> {
    Seq::new(buffer@.len(), |i: int| buffer@[i]@)
}

/// `IndexMut::index_mut` of `VecDeque`, which the expression `&mut deque[index]`
/// calls: a mutable reference to the element at `index`. The element is the one
/// that stood there, and what the caller leaves in it takes its place; no other
/// element changes. The call panics where `index` is not below the length, so
/// that is required.
#[verifier::external_body]
pub(crate) fn element_mut<T>(deque: &mut VecDeque<T>, index: usize) -> (element: &mut T)
    requires
        index < old(deque)@.len(),
    ensures
        *element == old(deque)@[index as int],
        final(deque)@ == old(deque)@.update(index as int, *final(element)),
{
    &mut deque[index]
}

/// Replacing one line of a buffer replaces that line of the grid, and no other.
pub proof fn lemma_grid_update(
    before: VecDeque<VecDeque<DecoratedChar>>,
    after: VecDeque<VecDeque<DecoratedChar>>,
    index: int,
)
    requires
        0 <= index < before@.len(),
        after@ == before@.update(index, after@[index]),
    ensures
        grid_view(after) == grid_view(before).update(index, after@[index]@),
{
    assert(grid_view(after) =~= grid_view(before).update(index, after@[index]@));
}

/// Puts `c` into a line at column `x`, as printing does: pads the line with
/// spaces up to `x`, then replaces or inserts, and cuts an inserted line to
/// `cols` characters.
pub fn write_into_line(
    line: &mut VecDeque<DecoratedChar>,
    x: usize,
    cols: usize,
    c: char,
    style: TextStyle,
    mode: InsertionMode,
)
    requires
        x < cols,
    ensures
        final(line)@ == written_line(old(line)@, x as int, cols as int, c, style, mode),
{
    reveal(written_line);
    let decorated: DecoratedChar = DecoratedChar::new(c, style);
    while line.len() <= x
        invariant
            x < cols,
            old(line)@.len() <= x ==> line@.len() <= x + 1,
            old(line)@.len() > x ==> line@.len() == old(line)@.len(),
            line@.len() >= old(line)@.len(),
            line@ == old(line)@ + spaces(line@.len() - old(line)@.len(), style),
        decreases x + 1 - line.len(),
    {
        line.push_back(DecoratedChar::new(' ', style));
        proof {
            assert(line@ =~= old(line)@ + spaces(line@.len() - old(line)@.len(), style));
        }
    }
    proof {
        if old(line)@.len() > x {
            assert(line@ =~= old(line)@);
        }
    }
    match mode {
        InsertionMode::Replace => {
            let slot = element_mut(line, x);
            *slot = decorated;
        },
        InsertionMode::Insert => {
            line.insert(x, decorated);
            line.truncate(cols);
            proof {
                let padded = if old(line)@.len() <= x {
                    old(line)@ + spaces(x + 1 - old(line)@.len(), style)
                } else {
                    old(line)@
                };
                let inserted = padded.insert(x as int, decorated);
                assert(line@ =~= inserted.take(least(inserted.len() as int, cols as int)));
            }
        },
    }
}

/// Erases part of a line at column `x`: what stands from `x` on, what stands up
/// to and including `x`, or all of it.
pub fn erase_line(line: &mut VecDeque<DecoratedChar>, x: usize, erase: &EraseInLineType)
    requires
        x < usize::MAX,
    ensures
        final(line)@ == erased_line(old(line)@, x as int, *erase),
{
    reveal(erased_line);
    match erase {
        EraseInLineType::ToEndOfLine => {
            line.truncate(x);
            proof {
                assert(line@ =~= old(line)@.take(least(x as int, old(line)@.len() as int)));
            }
        },
        EraseInLineType::ToStartOfLine => {
            let count: usize = if x + 1 < line.len() {
                x + 1
            } else {
                line.len()
            };
            let mut dropped: usize = 0;
            while dropped < count
                invariant
                    dropped <= count <= old(line)@.len(),
                    line@ == old(line)@.skip(dropped as int),
                decreases count - dropped,
            {
                line.pop_front();
                dropped += 1;
                proof {
                    assert(line@ =~= old(line)@.skip(dropped as int));
                }
            }
        },
        EraseInLineType::EntireLine => {
            line.clear();
        },
    }
}

/// Removes `count` characters from a line beginning at column `x`, or as many as
/// stand there; what stood right of them moves left.
pub fn delete_from_line(line: &mut VecDeque<DecoratedChar>, x: usize, count: usize)
    ensures
        final(line)@ == shortened_line(old(line)@, x as int, count as int),
{
    reveal(shortened_line);
    let len: usize = line.len();
    if x >= len {
        proof {
            assert(line@ =~= shortened_line(old(line)@, x as int, count as int));
        }
        return ;
    }
    let removable: usize = if count < len - x {
        count
    } else {
        len - x
    };
    let mut removed: usize = 0;
    while removed < removable
        invariant
            x < len == old(line)@.len(),
            removed <= removable <= len - x,
            line@ == old(line)@.take(x as int) + old(line)@.skip(x + removed),
        decreases removable - removed,
    {
        line.remove(x);
        removed += 1;
        proof {
            assert(line@ =~= old(line)@.take(x as int) + old(line)@.skip(x + removed));
        }
    }
    proof {
        assert(old(line)@.take(x as int) + old(line)@.skip(x + 0) =~= old(line)@);
        assert(line@ =~= shortened_line(old(line)@, x as int, count as int));
    }
}

} // verus!
