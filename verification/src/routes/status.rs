//! The handler that reports the state of the service.

use vstd::prelude::*;
use vstd::string::*;
use crate::decimal::{decimal_digits, decimal_text};
use crate::json::{is_plain, json_quoted, json_string};
use crate::response::{ContentType, Response, OK};

verus! {

/// The uptime that the service reports, in seconds. It is a fixed
/// figure, not a measurement.
pub const REPORTED_UPTIME: u64 = 3600;

/// What the service reports of itself.
#[derive(Debug, PartialEq, Eq)]
pub struct Status {
    /// The state of the service, in a word.
    pub status: String,
    /// Seconds the service has been up.
    pub uptime: u64,
}

/// The JSON object of a report, given its `status` member already
/// written as a JSON string literal: the two members in the order
/// `status`, `uptime`, with no white space.
pub open spec fn status_frame(quoted_status: Seq<char>, uptime: nat) -> Seq<char> {
    "{\"status\":"@ + quoted_status + ",\"uptime\":"@ + decimal_digits(uptime) + "}"@
}

/// The body of every response to a status request.
pub open spec fn status_body() -> Seq<char> {
    "{\"status\":\"Running\",\"uptime\":3600}"@
}

/// Puts a report together from its `status` member, already written
/// as a JSON string literal, and its uptime.
pub fn frame_status(quoted_status: &str, uptime: u64) -> (r: String)
    ensures
        r@ == status_frame(quoted_status@, uptime as nat),
{
    let mut body = String::from_str("{\"status\":");
    body.append(quoted_status);
    body.append(",\"uptime\":");
    let digits = decimal_text(uptime);
    body.append(digits.as_str());
    body.append("}");
    body
}

impl Status {
    /// The report of a running service.
    pub fn running() -> (r: Status)
        ensures
            r.status@ == "Running"@,
            r.uptime == REPORTED_UPTIME,
    {
        Status { status: String::from_str("Running"), uptime: REPORTED_UPTIME }
    }

    /// Writes the report as a JSON object.
    pub fn to_json(&self) -> (r: String)
        ensures
            r@ == status_frame(json_quoted(self.status@), self.uptime as nat),
            is_plain(self.status@) ==> r@ == status_frame(
                seq!['"'] + self.status@ + seq!['"'],
                self.uptime as nat,
            ),
    {
        let quoted = json_string(self.status.as_str());
        frame_status(quoted.as_str(), self.uptime)
    }
}

/// The report of a running service, written out, is the fixed body.
pub proof fn lemma_running_body(quoted: Seq<char>)
    requires
        quoted == seq!['"'] + "Running"@ + seq!['"'],
    ensures
        status_frame(quoted, REPORTED_UPTIME as nat) == status_body(),
{
    reveal_strlit("Running");
    reveal_strlit("{\"status\":");
    reveal_strlit(",\"uptime\":");
    reveal_strlit("}");
    reveal_strlit("{\"status\":\"Running\",\"uptime\":3600}");
    reveal_with_fuel(decimal_digits, 5);
    assert(decimal_digits(3600) =~= seq!['3', '6', '0', '0']);
    assert(status_frame(quoted, 3600) =~= status_body());
}

/// Answers a status request: always the same report, whatever was
/// asked before.
pub fn status() -> (r: Response)
    ensures
        r.code == OK,
        r.content_type == ContentType::Json,
        r.body@ == status_body(),
{
    let report = Status::running();
    let body = report.to_json();
    proof {
        reveal_strlit("Running");
        assert(is_plain(report.status@));
        lemma_running_body(seq!['"'] + report.status@ + seq!['"']);
    }
    Response::json(body)
}

} // verus!
