//! Splitting a growing file into lines.

use vstd::prelude::*;

verus! {

/// The byte that ends a line.
pub const NEWLINE: u8 = 10;

/// The finished lines of `bytes`, each with the newline that ends it.
pub open spec fn complete_lines(bytes: Seq<u8>) -> Seq<Seq<u8>>
    decreases bytes.len(),
{
    if bytes.len() == 0 {
        Seq::empty()
    } else if bytes.last() == NEWLINE {
        complete_lines(bytes.drop_last()).push(unfinished_line(bytes.drop_last()).push(NEWLINE))
    } else {
        complete_lines(bytes.drop_last())
    }
}

/// What stands in `bytes` behind the last newline.
pub open spec fn unfinished_line(bytes: Seq<u8>) -> Seq<u8>
    decreases bytes.len(),
{
    if bytes.len() == 0 || bytes.last() == NEWLINE {
        Seq::empty()
    } else {
        unfinished_line(bytes.drop_last()).push(bytes.last())
    }
}

/// The byte strings behind one another.
pub open spec fn joined(lines: Seq<Seq<u8>>) -> Seq<u8>
    decreases lines.len(),
{
    if lines.len() == 0 {
        Seq::empty()
    } else {
        joined(lines.drop_last()) + lines.last()
    }
}

/// A line holds exactly one newline, at its end.
pub open spec fn is_line(line: Seq<u8>) -> bool {
    &&& line.len() > 0
    &&& line.last() == NEWLINE
    &&& !line.drop_last().contains(NEWLINE)
}

/// Bytes without a newline finish no line and are all unfinished.
pub proof fn lemma_no_newline(bytes: Seq<u8>)
    requires
        !bytes.contains(NEWLINE),
    ensures
        complete_lines(bytes).len() == 0,
        unfinished_line(bytes) == bytes,
    decreases bytes.len(),
{
    if bytes.len() > 0 {
        let shorter = bytes.drop_last();
        assert(bytes[bytes.len() - 1] != NEWLINE);
        assert(!shorter.contains(NEWLINE)) by {
            assert forall|i: int| 0 <= i < shorter.len() implies shorter[i] != NEWLINE by {
                assert(shorter[i] == bytes[i]);
            }
        }
        lemma_no_newline(shorter);
        assert(shorter.push(bytes.last()) =~= bytes);
    }
}

/// What is unfinished holds no newline.
pub proof fn unfinished_holds_no_newline(bytes: Seq<u8>)
    ensures
        !unfinished_line(bytes).contains(NEWLINE),
    decreases bytes.len(),
{
    if bytes.len() > 0 && bytes.last() != NEWLINE {
        unfinished_holds_no_newline(bytes.drop_last());
        let shorter = unfinished_line(bytes.drop_last());
        assert forall|i: int| 0 <= i < unfinished_line(bytes).len() implies unfinished_line(
            bytes,
        )[i] != NEWLINE by {
            if i < shorter.len() {
                assert(unfinished_line(bytes)[i] == shorter[i]);
                assert(shorter.contains(shorter[i]));
            }
        }
    }
}

/// Every finished line is a line: it ends with its only newline.
pub proof fn complete_lines_are_lines(bytes: Seq<u8>)
    ensures
        forall|i: int|
            0 <= i < complete_lines(bytes).len() ==> is_line(#[trigger] complete_lines(bytes)[i]),
    decreases bytes.len(),
{
    if bytes.len() > 0 {
        complete_lines_are_lines(bytes.drop_last());
        if bytes.last() == NEWLINE {
            let rest = unfinished_line(bytes.drop_last());
            unfinished_holds_no_newline(bytes.drop_last());
            assert(rest.push(NEWLINE).drop_last() =~= rest);
            let earlier = complete_lines(bytes.drop_last());
            assert forall|i: int| 0 <= i < complete_lines(bytes).len() implies is_line(
                #[trigger] complete_lines(bytes)[i],
            ) by {
                if i < earlier.len() {
                    assert(complete_lines(bytes)[i] == earlier[i]);
                }
            }
        } else {
            assert(complete_lines(bytes) == complete_lines(bytes.drop_last()));
        }
    }
}

/// Framing loses nothing and invents nothing: the finished lines and the unfinished rest, put
/// behind one another, are the bytes again.
pub proof fn framing_keeps_every_byte(bytes: Seq<u8>)
    ensures
        joined(complete_lines(bytes)) + unfinished_line(bytes) == bytes,
    decreases bytes.len(),
{
    if bytes.len() > 0 {
        let shorter = bytes.drop_last();
        framing_keeps_every_byte(shorter);
        assert(shorter.push(bytes.last()) =~= bytes);
        if bytes.last() == NEWLINE {
            assert(complete_lines(bytes).drop_last() =~= complete_lines(shorter));
            assert(joined(complete_lines(bytes)) + unfinished_line(bytes) =~= bytes);
        } else {
            assert(joined(complete_lines(bytes)) + unfinished_line(bytes) =~= bytes);
        }
    } else {
        assert(joined(complete_lines(bytes)) + unfinished_line(bytes) =~= bytes);
    }
}

/// It does not matter where a file was cut between two reads: framing the first piece, and then
/// the second behind what the first left unfinished, gives the lines of the whole.
pub proof fn framing_ignores_read_boundaries(first: Seq<u8>, second: Seq<u8>)
    ensures
        complete_lines(first + second) == complete_lines(first) + complete_lines(
            unfinished_line(first) + second,
        ),
        unfinished_line(first + second) == unfinished_line(unfinished_line(first) + second),
    decreases second.len(),
{
    let rest = unfinished_line(first);
    if second.len() == 0 {
        assert(first + second =~= first);
        assert(rest + second =~= rest);
        unfinished_holds_no_newline(first);
        lemma_no_newline(rest);
        assert(complete_lines(first) + complete_lines(rest) =~= complete_lines(first));
    } else {
        let shorter = second.drop_last();
        framing_ignores_read_boundaries(first, shorter);
        assert((first + second).drop_last() =~= first + shorter);
        assert((rest + second).drop_last() =~= rest + shorter);
        assert((first + second).last() == second.last());
        assert((rest + second).last() == second.last());
        assert(complete_lines(first + second) =~= complete_lines(first) + complete_lines(
            rest + second,
        ));
    }
}

/// Runs of lines are joined one behind the other.
pub proof fn lemma_joined_append(first: Seq<Seq<u8>>, second: Seq<Seq<u8>>)
    ensures
        joined(first + second) == joined(first) + joined(second),
    decreases second.len(),
{
    if second.len() == 0 {
        assert(first + second =~= first);
        assert(joined(first) + joined(second) =~= joined(first));
    } else {
        lemma_joined_append(first, second.drop_last());
        assert((first + second).drop_last() =~= first + second.drop_last());
        assert((first + second).last() == second.last());
        assert(joined(first + second) =~= joined(first) + joined(second));
    }
}

/// Framing undoes joining: lines put behind one another are framed into the same lines, with
/// nothing left over.
pub proof fn framing_undoes_joining(lines: Seq<Seq<u8>>)
    requires
        forall|i: int| 0 <= i < lines.len() ==> is_line(#[trigger] lines[i]),
    ensures
        complete_lines(joined(lines)) == lines,
        unfinished_line(joined(lines)) == Seq::<u8>::empty(),
    decreases lines.len(),
{
    if lines.len() == 0 {
        assert(complete_lines(joined(lines)) =~= lines);
    } else {
        let shorter = lines.drop_last();
        let line = lines.last();
        assert forall|i: int| 0 <= i < shorter.len() implies is_line(#[trigger] shorter[i]) by {
            assert(shorter[i] == lines[i]);
        }
        framing_undoes_joining(shorter);
        assert(is_line(lines[lines.len() - 1]));
        framing_ignores_read_boundaries(joined(shorter), line);
        assert(unfinished_line(joined(shorter)) + line =~= line);
        lemma_no_newline(line.drop_last());
        assert(line.drop_last().push(NEWLINE) =~= line);
        assert(complete_lines(line) =~= seq![line]);
        assert(complete_lines(joined(lines)) =~= lines);
    }
}

} // verus!
