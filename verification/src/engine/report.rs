//! What a transition passes over without ending the session.

use crate::execution::Defect;
use crate::portfolio::PortfolioError;
use vstd::prelude::*;

verus! {

/// The errors that one transition recovered from. The session goes on
/// regardless; the report is for whoever keeps the books on it.
#[derive(Debug, PartialEq)]
pub struct Report {
    /// The error with which the portfolio rejected the event it was offered,
    /// if it did. The portfolio was left as it was.
    pub rejection: Option<PortfolioError>,
    /// The intents that could not be packaged and so were not sent, each by
    /// its place in the batch it came in.
    pub defects: Vec<Defect>,
}

impl Report {
    /// A report is clean when nothing was passed over.
    pub open spec fn spec_is_clean(&self) -> bool {
        self.rejection is None && self.defects@.len() == 0
    }

    /// Whether nothing was passed over.
    #[verifier::when_used_as_spec(spec_is_clean)]
    pub fn is_clean(&self) -> (clean: bool)
        ensures
            clean == self.spec_is_clean(),
    {
        self.rejection.is_none() && self.defects.len() == 0
    }

    /// The report of a transition that passed over nothing.
    pub fn clean() -> (report: Report)
        ensures
            report.rejection is None,
            report.defects@ == Seq::<Defect>::empty(),
    {
        Report { rejection: None, defects: Vec::new() }
    }

    /// The report of a transition in which the portfolio answered an event
    /// with `rejection`, if with any.
    pub fn of_event(rejection: Option<PortfolioError>) -> (report: Report)
        ensures
            report.rejection == rejection,
            report.defects@ == Seq::<Defect>::empty(),
    {
        Report { rejection, defects: Vec::new() }
    }

    /// The report of a transition that passed over the intents with these
    /// defects.
    pub fn of_intents(defects: Vec<Defect>) -> (report: Report)
        ensures
            report.rejection is None,
            report.defects == defects,
    {
        Report { rejection: None, defects }
    }
}

} // verus!
