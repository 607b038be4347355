//! Source identifiers and byte spans.

use vstd::prelude::*;

verus! {

/// An opaque identifier of one loaded source text.
#[derive(Debug, Clone, Copy, PartialEq, Eq, PartialOrd, Ord, Hash, Structural)]
pub struct SourceId(u32);

impl SourceId {
    /// Creates a source identifier.
    pub fn new(value: u32) -> (id: Self)
        ensures
            id.index() == value,
    {
        SourceId(value)
    }

    /// The numeric value of the identifier.
    pub closed spec fn index(self) -> u32 {
        self.0
    }

    /// Returns the numeric value of the identifier.
    pub fn get(self) -> (value: u32)
        ensures
            value == self.index(),
    {
        self.0
    }
}

/// A half-open byte range `[start, end)` inside one source text.
#[derive(Debug, Clone, Copy, PartialEq, Eq, PartialOrd, Ord, Hash, Structural)]
pub struct SourceSpan {
    source_id: SourceId,
    start: usize,
    end: usize,
}

impl SourceSpan {
    /// The source that the span points into.
    pub closed spec fn spec_source_id(self) -> SourceId {
        self.source_id
    }

    /// The smallest span from the first start to the last end of two spans, in the first
    /// span's source.
    pub closed spec fn spec_union(self, other: SourceSpan) -> SourceSpan {
        SourceSpan {
            source_id: self.source_id,
            start: if self.start <= other.start {
                self.start
            } else {
                other.start
            },
            end: if self.end >= other.end {
                self.end
            } else {
                other.end
            },
        }
    }

    /// Returns the smallest span from the first start to the last end of two spans.
    pub fn union(self, other: SourceSpan) -> (r: SourceSpan)
        ensures
            r == self.spec_union(other),
    {
        SourceSpan {
            source_id: self.source_id,
            start: if self.start <= other.start {
                self.start
            } else {
                other.start
            },
            end: if self.end >= other.end {
                self.end
            } else {
                other.end
            },
        }
    }

    /// The first byte offset of the span.
    pub closed spec fn spec_start(self) -> usize {
        self.start
    }

    /// The byte offset just past the span.
    pub closed spec fn spec_end(self) -> usize {
        self.end
    }

    /// Every span starts no later than it ends.
    pub closed spec fn wf(self) -> bool {
        self.start <= self.end
    }

    /// Creates a span when `start <= end`.
    pub fn new(source_id: SourceId, start: usize, end: usize) -> (span: Option<Self>)
        ensures
            span is Some <==> start <= end,
            span matches Some(s) ==> s.spec_source_id() == source_id && s.spec_start() == start
                && s.spec_end() == end && s.wf(),
    {
        if start <= end {
            Some(SourceSpan { source_id, start, end })
        } else {
            None
        }
    }

    /// Creates a span from offsets that are already known to be ordered.
    pub fn from_valid_offsets(source_id: SourceId, start: usize, end: usize) -> (span: Self)
        requires
            start <= end,
        ensures
            span.spec_source_id() == source_id,
            span.spec_start() == start,
            span.spec_end() == end,
            span.wf(),
    {
        SourceSpan { source_id, start, end }
    }

    /// Returns the source identifier.
    pub fn source_id(self) -> (id: SourceId)
        ensures
            id == self.spec_source_id(),
    {
        self.source_id
    }

    /// Returns the first byte offset.
    pub fn start(self) -> (offset: usize)
        ensures
            offset == self.spec_start(),
    {
        self.start
    }

    /// Returns the byte offset just past the span.
    pub fn end(self) -> (offset: usize)
        ensures
            offset == self.spec_end(),
    {
        self.end
    }
}

} // verus!
