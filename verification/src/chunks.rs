//! Cursors over the rows of a table fetched in chunks: the plain walk that
//! asks chunk after chunk until one comes back empty, and the bounded walk
//! that stops at a known row count.

use vstd::prelude::*;

verus! {

/// A walk over a table in chunks of `chunk_size` rows from row 0, until a
/// chunk comes back empty.
#[derive(Debug, Clone, Copy)]
pub struct TableChunks {
    pub offset: i64,
    pub chunk_size: i64,
}

impl TableChunks {
    /// A walk that starts at row 0.
    pub fn new(chunk_size: i64) -> (r: Self)
        ensures
            r.offset == 0,
            r.chunk_size == chunk_size,
    {
        TableChunks { offset: 0, chunk_size }
    }

    /// The offset and row limit of the next request.
    pub fn request(&self) -> (r: (i64, i64))
        ensures
            r == (self.offset, self.chunk_size),
    {
        (self.offset, self.chunk_size)
    }

    /// Takes note of a chunk: an empty chunk ends the walk (the answer is
    /// `false` and the cursor stays); any other moves it one chunk on.
    pub fn on_chunk(&mut self, chunk_is_empty: bool) -> (go_on: bool)
        requires
            !chunk_is_empty ==> old(self).offset + old(self).chunk_size <= i64::MAX,
            !chunk_is_empty ==> old(self).offset + old(self).chunk_size >= i64::MIN,
        ensures
            go_on == !chunk_is_empty,
            final(self).chunk_size == old(self).chunk_size,
            final(self).offset == if chunk_is_empty {
                old(self).offset as int
            } else {
                old(self).offset + old(self).chunk_size
            },
    {
        if chunk_is_empty {
            false
        } else {
            self.offset = self.offset + self.chunk_size;
            true
        }
    }
}

/// The offset of the request after `k` non-empty chunks.
pub open spec fn chunk_offset(chunk_size: int, k: nat) -> int {
    k * chunk_size
}

/// A walk that meets no empty chunk asks for consecutive chunks: the request
/// after `k` chunks starts where the `k`-th request ended, at `k` times the
/// chunk size, so that no row is asked twice or skipped.
pub proof fn lemma_chunks_consecutive(chunk_size: int, k: nat)
    ensures
        chunk_offset(chunk_size, 0) == 0,
        chunk_offset(chunk_size, k + 1) == chunk_offset(chunk_size, k) + chunk_size,
{
    assert((k + 1) * chunk_size == k * chunk_size + chunk_size) by (nonlinear_arith);
}

/// A walk over the first `total` rows of a table in chunks of at most
/// `chunk_size` rows, advancing by the rows each chunk actually holds, until
/// the rows are all read or a chunk comes back empty.
#[derive(Debug, Clone, Copy)]
pub struct BoundedChunks {
    pub offset: usize,
    pub total: usize,
    pub chunk_size: usize,
}

/// The next request of a bounded walk: from the offset, the rows that are
/// left up to a chunk's worth; none once the offset reaches the total.
pub open spec fn bounded_request(c: BoundedChunks) -> Option<(usize, usize)> {
    if c.offset < c.total {
        Some(
            (
                c.offset,
                if c.total - c.offset < c.chunk_size {
                    (c.total - c.offset) as usize
                } else {
                    c.chunk_size
                },
            ),
        )
    } else {
        None
    }
}

impl BoundedChunks {
    /// A walk over the first `total` rows, from row 0.
    pub fn new(total: usize, chunk_size: usize) -> (r: Self)
        ensures
            r.offset == 0,
            r.total == total,
            r.chunk_size == chunk_size,
    {
        BoundedChunks { offset: 0, total, chunk_size }
    }

    /// The offset and row limit of the next request, if rows are left.
    pub fn next_request(&self) -> (r: Option<(usize, usize)>)
        ensures
            r == bounded_request(*self),
    {
        if self.offset < self.total {
            let remaining = self.total - self.offset;
            let limit = if remaining < self.chunk_size {
                remaining
            } else {
                self.chunk_size
            };
            Some((self.offset, limit))
        } else {
            None
        }
    }

    /// Takes note of a chunk of `rows` rows: an empty chunk ends the walk
    /// (the answer is `false` and the cursor stays); any other moves the
    /// offset on by its rows.
    pub fn on_chunk(&mut self, rows: usize) -> (go_on: bool)
        requires
            old(self).offset + rows <= usize::MAX,
        ensures
            go_on == (rows > 0),
            final(self).total == old(self).total,
            final(self).chunk_size == old(self).chunk_size,
            final(self).offset == old(self).offset + rows,
    {
        if rows == 0 {
            false
        } else {
            self.offset = self.offset + rows;
            true
        }
    }
}

/// Every request of a bounded walk lies within the rows it walks and asks
/// for at most a chunk's worth of rows, and at least one row where chunks
/// hold rows.
pub proof fn lemma_bounded_request_in_range(c: BoundedChunks)
    ensures
        bounded_request(c) matches Some((offset, limit)) ==> offset == c.offset && offset + limit
            <= c.total && limit <= c.chunk_size && (c.chunk_size > 0 ==> limit > 0),
        bounded_request(c) is None <==> c.offset >= c.total,
{
}

} // verus!
