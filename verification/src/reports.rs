use vstd::prelude::*;

use crate::error::RequestError;
use crate::schedule::{parse_period, parsed_instant, period_outcome, period_result_is};
use crate::text::trimmed;
use crate::time::Instant;

verus! {

/// The period a report covers, as two RFC 3339 texts.
#[derive(Debug)]
pub struct ReportPeriodParams {
    pub date_from: String,
    pub date_to: String,
}

impl ReportPeriodParams {
    pub fn parse(&self) -> (r: Result<(Instant, Instant), RequestError>)
        ensures
            period_result_is(
                r,
                period_outcome(
                    parsed_instant(trimmed(self.date_from@)),
                    parsed_instant(trimmed(self.date_to@)),
                ),
            ),
            r matches Ok((f, t)) ==> f.valid() && t.valid(),
    {
        parse_period(self.date_from.as_str(), self.date_to.as_str())
    }
}

} // verus!
