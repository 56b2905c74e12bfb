//! Where in a document an error was found: the line and the column of a
//! byte offset.

use vstd::prelude::*;

verus! {

/// The number of line feeds in some bytes.
pub open spec fn line_feeds(bytes: Seq<u8>) -> nat
    decreases bytes.len(),
{
    if bytes.len() == 0 {
        0
    } else if bytes.last() == 0x0a {
        line_feeds(bytes.drop_last()) + 1
    } else {
        line_feeds(bytes.drop_last())
    }
}

/// The number of bytes up to and including the last line feed in some
/// bytes; zero where there is none.
pub open spec fn last_line_start(bytes: Seq<u8>) -> nat
    decreases bytes.len(),
{
    if bytes.len() == 0 {
        0
    } else if bytes.last() == 0x0a {
        bytes.len()
    } else {
        last_line_start(bytes.drop_last())
    }
}

/// The line of a byte offset: the lines are counted from one, and a line
/// ends behind its line feed, so that the offset just behind a line feed
/// still lies in the line that the line feed ends. The offset zero, at
/// which nothing has been read, has the line zero.
pub open spec fn line_of(data: Seq<u8>, pos: int) -> nat {
    if pos <= 0 {
        0
    } else {
        line_feeds(data.subrange(0, pos - 1)) + 1
    }
}

/// The column of a byte offset: the number of bytes between the start of
/// its line and the offset.
pub open spec fn column_of(data: Seq<u8>, pos: int) -> int {
    if pos <= 0 {
        0
    } else {
        pos - last_line_start(data.subrange(0, pos - 1))
    }
}

/// A place in a document.
#[derive(Debug, PartialEq, Eq, Structural, Clone, Copy, Hash)]
pub struct Location {
    /// The line, counted from one.
    pub line: u64,
    /// The number of bytes from the start of the line.
    pub column: u64,
}

proof fn lemma_line_bounds(bytes: Seq<u8>)
    ensures
        line_feeds(bytes) <= bytes.len(),
        last_line_start(bytes) <= bytes.len(),
    decreases bytes.len(),
{
    if bytes.len() > 0 {
        lemma_line_bounds(bytes.drop_last());
    }
}

/// Finds the line and the column of a byte offset in a document.
pub fn locate(data: &[u8], pos: u64) -> (location: Location)
    requires
        pos <= data@.len(),
    ensures
        location.line == line_of(data@, pos as int),
        location.column == column_of(data@, pos as int),
{
    if pos == 0 {
        return Location { line: 0, column: 0 };
    }
    let len = data.len();
    assert(pos - 1 < len);
    let stop: usize = (pos - 1) as usize;
    let mut line: u64 = 1;
    let mut start: usize = 0;
    let mut i: usize = 0;
    assert(data@.subrange(0, 0) =~= Seq::<u8>::empty());
    while i < stop
        invariant
            i <= stop,
            stop == pos - 1,
            pos <= data@.len(),
            line == line_feeds(data@.subrange(0, i as int)) + 1,
            start == last_line_start(data@.subrange(0, i as int)),
            start <= i,
        decreases stop - i,
    {
        proof {
            let longer = data@.subrange(0, i + 1);
            assert(longer.drop_last() =~= data@.subrange(0, i as int));
            assert(longer.last() == data@[i as int]);
            lemma_line_bounds(data@.subrange(0, i as int));
        }
        if data[i] == 0x0a {
            line = line + 1;
            start = i + 1;
        }
        i += 1;
    }
    Location { line, column: pos - start as u64 }
}

} // verus!
