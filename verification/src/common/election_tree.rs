use vstd::prelude::*;

use crate::xml::{
    count_event, lemma_count_event_basics, lemma_count_event_concat, ElementName, XmlEvent,
};

verus! {

/// Election tree as defined in EML_NL.
#[derive(Debug, Clone)]
pub struct ElectionTree {
    /// Regions defined for this part of the election tree
    pub regions: Vec<ElectionTreeRegion>,
}

/// A region in the election tree.
#[derive(Debug, Clone)]
pub struct ElectionTreeRegion {}

impl ElectionTree {
    /// Create a new election tree with the given regions.
    pub fn new(regions: Vec<ElectionTreeRegion>) -> (r: Self)
        ensures
            r.regions == regions,
    {
        ElectionTree { regions }
    }
}

/// The events of `n` regions: each is written as an empty element.
pub open spec fn regions_events(n: nat) -> Seq<XmlEvent>
    decreases n,
{
    if n == 0 {
        seq![]
    } else {
        regions_events((n - 1) as nat) + seq![
            XmlEvent::Start(ElementName::Region),
            XmlEvent::End(ElementName::Region),
        ]
    }
}

impl ElectionTree {
    /// The events of this element: one empty `kr:Region` per region.
    pub open spec fn spec_events(self) -> Seq<XmlEvent> {
        seq![XmlEvent::Start(ElementName::ElectionTree)] + regions_events(
            self.regions@.len(),
        ) + seq![XmlEvent::End(ElementName::ElectionTree)]
    }

    /// Append the events of this element to `out`.
    pub fn write_events(&self, out: &mut Vec<XmlEvent>)
        ensures
            final(out)@ == old(out)@ + self.spec_events(),
    {
        let ghost start = out@;
        out.push(XmlEvent::Start(ElementName::ElectionTree));
        let n = self.regions.len();
        let mut i: usize = 0;
        while i < n
            invariant
                n == self.regions@.len(),
                i <= n,
                out@ == start + seq![XmlEvent::Start(ElementName::ElectionTree)] + regions_events(
                    i as nat,
                ),
            decreases n - i,
        {
            out.push(XmlEvent::Start(ElementName::Region));
            out.push(XmlEvent::End(ElementName::Region));
            i = i + 1;
        }
        out.push(XmlEvent::End(ElementName::ElectionTree));
    }
}

impl From<Vec<ElectionTreeRegion>> for ElectionTree {
    fn from(regions: Vec<ElectionTreeRegion>) -> (r: Self)
        ensures
            r.regions == regions,
    {
        ElectionTree::new(regions)
    }
}

impl vstd::std_specs::convert::FromSpecImpl<Vec<ElectionTreeRegion>> for ElectionTree {
    open spec fn obeys_from_spec() -> bool {
        true
    }

    open spec fn from_spec(regions: Vec<ElectionTreeRegion>) -> ElectionTree {
        ElectionTree { regions }
    }
}

/// `n` regions are written as `n` region elements.
proof fn lemma_regions_events_count(n: nat)
    ensures
        count_event(regions_events(n), XmlEvent::Start(ElementName::Region)) == n,
    decreases n,
{
    let e = XmlEvent::Start(ElementName::Region);
    if n == 0 {
        lemma_count_event_basics(regions_events(n), e, e);
        assert(regions_events(n) =~= Seq::<XmlEvent>::empty());
    } else {
        lemma_regions_events_count((n - 1) as nat);
        let two = seq![XmlEvent::Start(ElementName::Region), XmlEvent::End(ElementName::Region)];
        lemma_count_event_concat(regions_events((n - 1) as nat), two, e);
        lemma_count_event_basics(seq![XmlEvent::End(ElementName::Region)], e, e);
        lemma_count_event_basics(Seq::<XmlEvent>::empty(), XmlEvent::Start(ElementName::Region), e);
        lemma_count_event_basics(Seq::<XmlEvent>::empty(), XmlEvent::End(ElementName::Region), e);
        lemma_count_event_concat(seq![XmlEvent::Start(ElementName::Region)], seq![XmlEvent::End(ElementName::Region)], e);
        assert(two =~= seq![XmlEvent::Start(ElementName::Region)] + seq![XmlEvent::End(ElementName::Region)]);
    }
}

/// Reading back a written election tree: its events hold one region element
/// for each of its regions.
pub proof fn lemma_election_tree_events_count(t: ElectionTree)
    ensures
        count_event(t.spec_events(), XmlEvent::Start(ElementName::Region)) == t.regions@.len(),
{
    let e = XmlEvent::Start(ElementName::Region);
    let h = seq![XmlEvent::Start(ElementName::ElectionTree)];
    let r = regions_events(t.regions@.len());
    let z = seq![XmlEvent::End(ElementName::ElectionTree)];
    lemma_regions_events_count(t.regions@.len());
    lemma_count_event_basics(r, XmlEvent::Start(ElementName::ElectionTree), e);
    lemma_count_event_basics(r, XmlEvent::End(ElementName::ElectionTree), e);
    lemma_count_event_concat(h, r, e);
    lemma_count_event_concat(h + r, z, e);
}

} // verus!
