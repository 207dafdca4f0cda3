//! The three envelope levels of the interchange document: an interchange
//! wraps functional groups, a group wraps transaction sets, a set wraps
//! segments. Every add recomputes the matching trailer counter, so the
//! announced counts never drift from the structural content, and rendering
//! nests the levels in strict order, one segment per line.

use vstd::prelude::*;
use crate::segments::{GeSegment, GsSegment, IeaSegment, IsaSegment, SeSegment, StSegment,
    X12Segment};
use crate::strfmt::push_char;

verus! {

/// One transaction set: header, typed segments, trailer.
#[derive(Debug, Clone)]
pub struct TransactionSet {
    pub st: StSegment,
    pub segments: Vec<X12Segment>,
    pub se: SeSegment,
}

/// The text of a run of segments, one per line.
pub open spec fn segments_render_spec(ss: Seq<X12Segment>) -> Seq<char>
    decreases ss.len(),
{
    if ss.len() == 0 {
        Seq::<char>::empty()
    } else {
        segments_render_spec(ss.drop_last()) + ss.last().render_spec() + seq!['\n']
    }
}

impl TransactionSet {
    /// The trailer announces the structural segment count (its own line and
    /// the header included) and echoes the header's control number.
    pub open spec fn wf(self) -> bool {
        &&& self.se.se01_segment_count == self.segments@.len() + 2
        &&& self.se.se02_transaction_control_number@ == self.st.st02_control_number@
    }

    /// The text of this set: header line, segment lines, trailer.
    pub open spec fn render_spec(self) -> Seq<char> {
        self.st.render_spec() + seq!['\n'] + segments_render_spec(self.segments@)
            + self.se.render_spec()
    }

    /// Builds an empty set under the given control number.
    pub fn new(control_number: &str) -> (ts: Self)
        ensures
            ts.segments@.len() == 0,
            ts.st.st02_control_number@ == control_number@,
            ts.se.se02_transaction_control_number@ == control_number@,
            ts.se.se01_segment_count == 0,
    {
        TransactionSet {
            st: StSegment { st02_control_number: String::from_str(control_number) },
            segments: Vec::new(),
            se: SeSegment {
                se01_segment_count: 0,
                se02_transaction_control_number: String::from_str(control_number),
            },
        }
    }

    /// Appends one segment and recomputes the trailer count as the number of
    /// segments plus the header and trailer themselves.
    pub fn add_segment(&mut self, segment: X12Segment)
        requires
            old(self).segments@.len() + 2 < u32::MAX,
        ensures
            final(self).segments@ == old(self).segments@.push(segment),
            final(self).se.se01_segment_count == final(self).segments@.len() + 2,
            final(self).st == old(self).st,
            final(self).se.se02_transaction_control_number
                == old(self).se.se02_transaction_control_number,
    {
        self.segments.push(segment);
        self.se.se01_segment_count = (self.segments.len() + 2) as u32;
    }

    /// Renders this set.
    pub fn render(&self) -> (s: String)
        ensures
            s@ == self.render_spec(),
    {
        let mut s = self.st.render();
        push_char(&mut s, '\n');
        let mut i: usize = 0;
        while i < self.segments.len()
            invariant
                i <= self.segments@.len(),
                s@ == self.st.render_spec() + seq!['\n'] + segments_render_spec(
                    self.segments@.take(i as int),
                ),
            decreases self.segments@.len() - i,
        {
            s.append(self.segments[i].render().as_str());
            push_char(&mut s, '\n');
            proof {
                let ii = i as int;
                assert(self.segments@.take(ii + 1).drop_last() =~= self.segments@.take(ii));
                assert(self.segments@.take(ii + 1).last() == self.segments@[ii]);
                assert(s@ =~= self.st.render_spec() + seq!['\n'] + segments_render_spec(
                    self.segments@.take(ii + 1),
                ));
            }
            i = i + 1;
        }
        s.append(self.se.render().as_str());
        proof {
            assert(self.segments@.take(self.segments@.len() as int) =~= self.segments@);
            assert(s@ =~= self.render_spec());
        }
        s
    }
}

/// One functional group: header, transaction sets, trailer.
#[derive(Debug, Clone)]
pub struct FunctionalGroup {
    pub gs: GsSegment,
    pub transaction_sets: Vec<TransactionSet>,
    pub ge: GeSegment,
}

/// The text of a run of transaction sets, each followed by a line break.
pub open spec fn sets_render_spec(ts: Seq<TransactionSet>) -> Seq<char>
    decreases ts.len(),
{
    if ts.len() == 0 {
        Seq::<char>::empty()
    } else {
        sets_render_spec(ts.drop_last()) + ts.last().render_spec() + seq!['\n']
    }
}

impl FunctionalGroup {
    /// The trailer announces the number of transaction sets and echoes the
    /// header's control number.
    pub open spec fn wf(self) -> bool {
        &&& self.ge.ge01_number_of_transaction_sets == self.transaction_sets@.len()
        &&& self.ge.ge02_group_control_number@ == self.gs.gs06_group_control_number@
    }

    /// The text of this group: header line, transaction sets, trailer.
    pub open spec fn render_spec(self) -> Seq<char> {
        self.gs.render_spec() + seq!['\n'] + sets_render_spec(self.transaction_sets@)
            + self.ge.render_spec()
    }

    /// Builds an empty group under the given control number, dated with the
    /// given `YYYYMMDD` date and `HHMM` time.
    pub fn new(sender_id: &str, receiver_id: &str, control_number: &str, date: &str, time: &str) -> (g:
        Self)
        ensures
            g.transaction_sets@.len() == 0,
            g.wf(),
            g.gs.gs02_sender_id@ == sender_id@,
            g.gs.gs03_receiver_id@ == receiver_id@,
            g.gs.gs04_date@ == date@,
            g.gs.gs05_time@ == time@,
            g.gs.gs06_group_control_number@ == control_number@,
    {
        FunctionalGroup {
            gs: GsSegment {
                gs02_sender_id: String::from_str(sender_id),
                gs03_receiver_id: String::from_str(receiver_id),
                gs04_date: String::from_str(date),
                gs05_time: String::from_str(time),
                gs06_group_control_number: String::from_str(control_number),
            },
            transaction_sets: Vec::new(),
            ge: GeSegment {
                ge01_number_of_transaction_sets: 0,
                ge02_group_control_number: String::from_str(control_number),
            },
        }
    }

    /// Appends one transaction set and recomputes the trailer count to the
    /// current number of sets.
    pub fn add_transaction_set(&mut self, transaction: TransactionSet)
        requires
            old(self).transaction_sets@.len() + 1 < u32::MAX,
        ensures
            final(self).transaction_sets@ == old(self).transaction_sets@.push(transaction),
            final(self).ge.ge01_number_of_transaction_sets == final(self).transaction_sets@.len(),
            final(self).gs == old(self).gs,
            final(self).ge.ge02_group_control_number == old(self).ge.ge02_group_control_number,
    {
        self.transaction_sets.push(transaction);
        self.ge.ge01_number_of_transaction_sets = self.transaction_sets.len() as u32;
    }

    /// Renders this group.
    pub fn render(&self) -> (s: String)
        ensures
            s@ == self.render_spec(),
    {
        let mut s = self.gs.render();
        push_char(&mut s, '\n');
        let mut i: usize = 0;
        while i < self.transaction_sets.len()
            invariant
                i <= self.transaction_sets@.len(),
                s@ == self.gs.render_spec() + seq!['\n'] + sets_render_spec(
                    self.transaction_sets@.take(i as int),
                ),
            decreases self.transaction_sets@.len() - i,
        {
            s.append(self.transaction_sets[i].render().as_str());
            push_char(&mut s, '\n');
            proof {
                let ii = i as int;
                assert(self.transaction_sets@.take(ii + 1).drop_last()
                    =~= self.transaction_sets@.take(ii));
                assert(self.transaction_sets@.take(ii + 1).last()
                    == self.transaction_sets@[ii]);
                assert(s@ =~= self.gs.render_spec() + seq!['\n'] + sets_render_spec(
                    self.transaction_sets@.take(ii + 1),
                ));
            }
            i = i + 1;
        }
        s.append(self.ge.render().as_str());
        proof {
            assert(self.transaction_sets@.take(self.transaction_sets@.len() as int)
                =~= self.transaction_sets@);
            assert(s@ =~= self.render_spec());
        }
        s
    }
}

/// One interchange: header, functional groups, trailer.
#[derive(Debug, Clone)]
pub struct X12Interchange {
    pub isa: IsaSegment,
    pub functional_groups: Vec<FunctionalGroup>,
    pub iea: IeaSegment,
}

/// The text of a run of functional groups, each followed by a line break.
pub open spec fn groups_render_spec(gs: Seq<FunctionalGroup>) -> Seq<char>
    decreases gs.len(),
{
    if gs.len() == 0 {
        Seq::<char>::empty()
    } else {
        groups_render_spec(gs.drop_last()) + gs.last().render_spec() + seq!['\n']
    }
}

impl X12Interchange {
    /// The trailer announces the number of groups and echoes the header's
    /// control number.
    pub open spec fn wf(self) -> bool {
        &&& self.iea.iea01_number_of_included_functional_groups == self.functional_groups@.len()
        &&& self.iea.iea02_interchange_control_number@ == self.isa.isa12_control_number@
    }

    /// The text of this interchange: header line, groups, trailer.
    pub open spec fn render_spec(self) -> Seq<char> {
        self.isa.render_spec() + seq!['\n'] + groups_render_spec(self.functional_groups@)
            + self.iea.render_spec()
    }

    /// Builds an empty interchange under the given control number, dated
    /// with the given `YYMMDD` date and `HHMM` time.
    pub fn new(sender_id: &str, receiver_id: &str, control_number: &str, date: &str, time: &str) -> (x:
        Self)
        ensures
            x.functional_groups@.len() == 0,
            x.isa.isa06_sender_id@ == sender_id@,
            x.isa.isa08_receiver_id@ == receiver_id@,
            x.isa.isa09_date@ == date@,
            x.isa.isa10_time@ == time@,
            x.isa.isa12_control_number@ == control_number@,
            x.isa.isa13_usage_indicator == 'P',
            x.wf(),
            x.iea.iea02_interchange_control_number@ == control_number@,
    {
        X12Interchange {
            isa: IsaSegment {
                isa06_sender_id: String::from_str(sender_id),
                isa08_receiver_id: String::from_str(receiver_id),
                isa09_date: String::from_str(date),
                isa10_time: String::from_str(time),
                isa12_control_number: String::from_str(control_number),
                isa13_usage_indicator: 'P',
            },
            functional_groups: Vec::new(),
            iea: IeaSegment {
                iea01_number_of_included_functional_groups: 0,
                iea02_interchange_control_number: String::from_str(control_number),
            },
        }
    }

    /// Appends one functional group and recomputes the trailer count to the
    /// current number of groups.
    pub fn add_functional_group(&mut self, group: FunctionalGroup)
        requires
            old(self).functional_groups@.len() + 1 < u32::MAX,
        ensures
            final(self).functional_groups@ == old(self).functional_groups@.push(group),
            final(self).iea.iea01_number_of_included_functional_groups == final(
                self).functional_groups@.len(),
            final(self).isa == old(self).isa,
            final(self).iea.iea02_interchange_control_number
                == old(self).iea.iea02_interchange_control_number,
    {
        self.functional_groups.push(group);
        self.iea.iea01_number_of_included_functional_groups = self.functional_groups.len() as u32;
    }

    /// Renders this interchange.
    pub fn render(&self) -> (s: String)
        ensures
            s@ == self.render_spec(),
    {
        let mut s = self.isa.render();
        push_char(&mut s, '\n');
        let mut i: usize = 0;
        while i < self.functional_groups.len()
            invariant
                i <= self.functional_groups@.len(),
                s@ == self.isa.render_spec() + seq!['\n'] + groups_render_spec(
                    self.functional_groups@.take(i as int),
                ),
            decreases self.functional_groups@.len() - i,
        {
            s.append(self.functional_groups[i].render().as_str());
            push_char(&mut s, '\n');
            proof {
                let ii = i as int;
                assert(self.functional_groups@.take(ii + 1).drop_last()
                    =~= self.functional_groups@.take(ii));
                assert(self.functional_groups@.take(ii + 1).last()
                    == self.functional_groups@[ii]);
                assert(s@ =~= self.isa.render_spec() + seq!['\n'] + groups_render_spec(
                    self.functional_groups@.take(ii + 1),
                ));
            }
            i = i + 1;
        }
        s.append(self.iea.render().as_str());
        proof {
            assert(self.functional_groups@.take(self.functional_groups@.len() as int)
                =~= self.functional_groups@);
            assert(s@ =~= self.render_spec());
        }
        s
    }
}

} // verus!
