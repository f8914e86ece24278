//! Turning a batch of events, and possibly a question, into backend text.
use crate::event::{EventView, NetworkEvent};
use chrono::DateTime;
use vstd::prelude::*;
use vstd::string::*;

verus! {

/// The text of a UTC instant given in nanoseconds since the Unix epoch.
pub uninterp spec fn utc_text_of(nanos: i64) -> Seq<char>;

/// Relies on chrono's `DateTime::from_timestamp_nanos`, total on `i64`, and on
/// the `Display` form of the `DateTime<Utc>` it returns, which depends on the
/// instant alone.
#[verifier::external_body]
fn utc_text(nanos: i64) -> (r: String)
    ensures
        r@ == utc_text_of(nanos),
{
    DateTime::from_timestamp_nanos(nanos).to_string()
}

pub open spec fn question_preamble(q: Seq<char>) -> Seq<char> {
    "User Question: "@ + q
        + "\n\nAnalyze the following network events to answer the user's question. Provide a concise and direct answer based on the data. If the data doesn't directly support the answer, state that. \n\nNetwork Events:\n"@
}

pub open spec fn anomaly_preamble() -> Seq<char> {
    "Analyze the following network events for anomalies or suspicious activity. Summarize anything unusual concisely; if nothing stands out, say so.\n\nNetwork Events:\n"@
}

/// The fixed opening of a prompt: question answering when a question is
/// given, anomaly analysis otherwise.
pub open spec fn preamble_of(question: Option<Seq<char>>) -> Seq<char> {
    match question {
        Some(q) => question_preamble(q),
        None => anomaly_preamble(),
    }
}

/// The line of one event, given the text of its timestamp.
pub open spec fn line_of(timestamp: Seq<char>, e: EventView) -> Seq<char> {
    "Timestamp: "@ + timestamp + ", Source: "@ + e.source_ip + ", Dest: "@ + e.dest_ip
        + ", Protocol: "@ + e.protocol + ", Summary: "@ + e.summary + "\n"@
}

/// One line per event, in batch order.
pub open spec fn lines_of(batch: Seq<NetworkEvent>) -> Seq<char>
    decreases batch.len(),
{
    if batch.len() == 0 {
        Seq::empty()
    } else {
        lines_of(batch.drop_last()) + line_of(
            utc_text_of(batch.last().timestamp),
            batch.last()@,
        )
    }
}

pub open spec fn question_view(question: Option<&str>) -> Option<Seq<char>> {
    match question {
        Some(q) => Some(q@),
        None => None,
    }
}

/// The whole prompt for `batch` and `question`.
pub open spec fn prompt_of(batch: Seq<NetworkEvent>, question: Option<Seq<char>>) -> Seq<char> {
    preamble_of(question) + lines_of(batch)
}

/// The opening of a prompt.
pub fn preamble(question: Option<&str>) -> (r: String)
    ensures
        r@ == preamble_of(question_view(question)),
{
    match question {
        Some(q) => {
            let mut r = String::from_str("User Question: ");
            r.append(q);
            r.append(
                "\n\nAnalyze the following network events to answer the user's question. Provide a concise and direct answer based on the data. If the data doesn't directly support the answer, state that. \n\nNetwork Events:\n",
            );
            r
        },
        None => String::from_str(
            "Analyze the following network events for anomalies or suspicious activity. Summarize anything unusual concisely; if nothing stands out, say so.\n\nNetwork Events:\n",
        ),
    }
}

/// The line of `e`, whose timestamp reads `timestamp`.
pub fn event_line(timestamp: &str, e: &NetworkEvent) -> (r: String)
    ensures
        r@ == line_of(timestamp@, e@),
{
    let mut r = String::from_str("Timestamp: ");
    r.append(timestamp);
    r.append(", Source: ");
    r.append(e.source_ip.as_str());
    r.append(", Dest: ");
    r.append(e.dest_ip.as_str());
    r.append(", Protocol: ");
    r.append(e.protocol.as_str());
    r.append(", Summary: ");
    r.append(e.summary.as_str());
    r.append("\n");
    r
}

/// Formats `batch` for the backend: the preamble, then one line per event in
/// batch order. An empty batch gives the preamble alone.
pub fn format_prompt(batch: &Vec<NetworkEvent>, question: Option<&str>) -> (r: String)
    ensures
        r@ == prompt_of(batch@, question_view(question)),
{
    let mut r = preamble(question);
    let n = batch.len();
    let mut i: usize = 0;
    while i < n
        invariant
            n == batch@.len(),
            i <= n,
            r@ == preamble_of(question_view(question)) + lines_of(batch@.take(i as int)),
        decreases n - i,
    {
        let e = &batch[i];
        let ts = utc_text(e.timestamp);
        let line = event_line(ts.as_str(), e);
        r.append(line.as_str());
        proof {
            assert(batch@.take(i + 1).drop_last() =~= batch@.take(i as int));
            assert(batch@.take(i + 1).last() == batch@[i as int]);
        }
        i = i + 1;
    }
    assert(batch@.take(n as int) =~= batch@);
    r
}

proof fn lemma_lines_by_view(b1: Seq<NetworkEvent>, b2: Seq<NetworkEvent>)
    requires
        b1.len() == b2.len(),
        forall|i: int| 0 <= i < b1.len() ==> #[trigger] b1[i]@ == b2[i]@,
    ensures
        lines_of(b1) == lines_of(b2),
    decreases b1.len(),
{
    if b1.len() > 0 {
        let (p1, p2) = (b1.drop_last(), b2.drop_last());
        assert forall|i: int| 0 <= i < p1.len() implies #[trigger] p1[i]@ == p2[i]@ by {
            assert(b1[i]@ == b2[i]@);
        }
        lemma_lines_by_view(p1, p2);
        assert(b1.last()@ == b2[b2.len() - 1]@);
    }
}

/// The prompt is a function of what the events hold and of the question:
/// batches whose events read the same, with the same question, give the
/// same text.
pub proof fn lemma_format_deterministic(
    b1: Seq<NetworkEvent>,
    b2: Seq<NetworkEvent>,
    q1: Option<Seq<char>>,
    q2: Option<Seq<char>>,
)
    requires
        b1.len() == b2.len(),
        forall|i: int| 0 <= i < b1.len() ==> #[trigger] b1[i]@ == b2[i]@,
        q1 == q2,
    ensures
        prompt_of(b1, q1) == prompt_of(b2, q2),
{
    lemma_lines_by_view(b1, b2);
}

} // verus!
