use vstd::prelude::*;

verus! {

/// One step in a `Location` path through the chain topology: an escape to the
/// parent level, a reference to a sibling chain by numeric id, a reference to
/// a pallet instance within a chain, or a general numeric index.
#[derive(Clone, Copy, Debug, PartialEq, Eq, Structural)]
pub enum Segment {
    AncestorEscape,
    SiblingChainRef(u32),
    PalletInstanceRef(u8),
    GeneralIndex(u128),
}

/// A hierarchical, path-based identifier: an ordered sequence of segments
/// describing a place in the chain topology. Immutable once built; equality
/// is structural, segment by segment.
#[derive(Clone, Debug, PartialEq, Eq)]
pub struct Location {
    segments: Vec<Segment>,
}

impl View for Location {
    type V = Seq<Segment>;

    closed spec fn view(&self) -> Seq<Segment> {
        self.segments@
    }
}

/// A location is interior (relative to the local chain) when it does not
/// begin with an ancestor escape; otherwise it is foreign.
pub open spec fn spec_is_interior(s: Seq<Segment>) -> bool {
    s.len() == 0 || s[0] != Segment::AncestorEscape
}

/// `prefix` is a strict structural prefix of `loc`: every segment of `prefix`
/// is matched, in order, by the segment of `loc` at the same index.
pub open spec fn spec_prefix_matches(prefix: Seq<Segment>, loc: Seq<Segment>) -> bool {
    prefix.len() <= loc.len() && prefix == loc.subrange(0, prefix.len() as int)
}

impl Location {
    pub fn new(segments: Vec<Segment>) -> (r: Location)
        ensures
            r@ == segments@,
    {
        Location { segments }
    }

    pub fn len(&self) -> (n: usize)
        ensures
            n == self@.len(),
    {
        self.segments.len()
    }

    pub fn segment(&self, i: usize) -> (s: Segment)
        requires
            i < self@.len(),
        ensures
            s == self@[i as int],
    {
        self.segments[i]
    }

    pub fn is_interior(&self) -> (r: bool)
        ensures
            r == spec_is_interior(self@),
    {
        if self.segments.len() == 0 {
            true
        } else {
            match self.segments[0] {
                Segment::AncestorEscape => false,
                _ => true,
            }
        }
    }
}

} // verus!
