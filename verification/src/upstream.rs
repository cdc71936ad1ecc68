//! The addresses of the two upstream records.

use vstd::prelude::*;
use vstd::string::StringExecFns;

verus! {

/// The upstream service.
pub const RAIDRES_URL: &'static str = "https://raidres.fly.dev";

/// The description of an event record that was reached and not had.
pub const EVENT_FETCH_FAILED: &'static str = "Failed to fetch item reservation data.";

/// The description of a raid record that was reached and not had.
pub const RAID_FETCH_FAILED: &'static str = "Failed to fetch raid item data.";

/// Why a fetch gave no record.
#[derive(Clone, Debug, PartialEq, Eq)]
pub enum FetchFailure {
    /// The upstream host was not reached; the transport's own description.
    Transport { description: String },
    /// Upstream answered with a status that is no success.
    Status { code: u16 },
    /// The body is not the record that was asked for.
    Schema,
}

/// What a failure is, as plain values.
pub enum FailedView {
    Transport { description: Seq<char> },
    Status { code: u16 },
    Schema,
}

impl View for FetchFailure {
    type V = FailedView;

    open spec fn view(&self) -> FailedView {
        match *self {
            FetchFailure::Transport { description } => FailedView::Transport {
                description: description@,
            },
            FetchFailure::Status { code } => FailedView::Status { code },
            FetchFailure::Schema => FailedView::Schema,
        }
    }
}

/// A status from 200 to 299.
pub open spec fn is_success(code: u16) -> bool {
    200 <= code <= 299
}

/// The description of a failed fetch: the transport's own where the host was
/// not reached, else the one that belongs to the record asked for.
pub open spec fn failure_text(context: Seq<char>, failure: FailedView) -> Seq<char> {
    match failure {
        FailedView::Transport { description } => description,
        FailedView::Status { code } => context,
        FailedView::Schema => context,
    }
}

/// Tells whether a status lets the body stand for the record.
pub fn status_is_success(code: u16) -> (ok: bool)
    ensures
        ok == is_success(code),
{
    200 <= code && code <= 299
}

/// Describes a failed fetch of the record that `context` speaks of.
pub fn describe_failure(context: &str, failure: FetchFailure) -> (text: String)
    ensures
        text@ == failure_text(context@, failure@),
{
    match failure {
        FetchFailure::Transport { description } => description,
        FetchFailure::Status { code } => String::from_str(context),
        FetchFailure::Schema => String::from_str(context),
    }
}

/// Both fixed descriptions say something.
pub proof fn lemma_descriptions_not_empty()
    ensures
        EVENT_FETCH_FAILED@.len() > 0,
        RAID_FETCH_FAILED@.len() > 0,
{
    reveal_strlit("Failed to fetch item reservation data.");
    reveal_strlit("Failed to fetch raid item data.");
}

/// The character of a decimal digit.
pub open spec fn digit(d: nat) -> char
    recommends
        d < 10,
{
    seq!['0', '1', '2', '3', '4', '5', '6', '7', '8', '9'][d as int]
}

/// A natural number in decimal, without leading zeros.
pub open spec fn natural(n: nat) -> Seq<char>
    decreases n,
{
    if n < 10 {
        seq![digit(n)]
    } else {
        natural(n / 10) + seq![digit(n % 10)]
    }
}

/// An integer in decimal, with `-` before a negative one.
pub open spec fn decimal(n: int) -> Seq<char> {
    if n < 0 {
        seq!['-'] + natural((-n) as nat)
    } else {
        natural(n as nat)
    }
}

/// The address of an event's record: `{base}/api/events/{id}`.
pub open spec fn event_url(base: Seq<char>, id: Seq<char>) -> Seq<char> {
    base + "/api/events/"@ + id
}

/// The address of a raid's record: `{base}/raids/raid_{raid_id}.json`.
pub open spec fn raid_url(base: Seq<char>, raid_id: i32) -> Seq<char> {
    base + "/raids/raid_"@ + decimal(raid_id as int) + ".json"@
}

/// The text of one decimal digit.
fn digit_text(d: u32) -> (s: &'static str)
    requires
        d < 10,
    ensures
        s@ == seq![digit(d as nat)],
{
    proof {
        reveal_strlit("0");
        reveal_strlit("1");
        reveal_strlit("2");
        reveal_strlit("3");
        reveal_strlit("4");
        reveal_strlit("5");
        reveal_strlit("6");
        reveal_strlit("7");
        reveal_strlit("8");
        reveal_strlit("9");
    }
    let s = match d {
        0 => "0",
        1 => "1",
        2 => "2",
        3 => "3",
        4 => "4",
        5 => "5",
        6 => "6",
        7 => "7",
        8 => "8",
        _ => "9",
    };
    assert(s@ =~= seq![digit(d as nat)]);
    s
}

/// Writes a natural number in decimal.
fn natural_text(n: u32) -> (s: String)
    ensures
        s@ == natural(n as nat),
    decreases n,
{
    if n < 10 {
        String::from_str(digit_text(n))
    } else {
        natural_text(n / 10).concat(digit_text(n % 10))
    }
}

/// Writes an integer in decimal.
pub fn decimal_text(n: i32) -> (s: String)
    ensures
        s@ == decimal(n as int),
{
    if n < 0 {
        let wide: i64 = n as i64;
        let magnitude: u32 = (0 - wide) as u32;
        proof {
            reveal_strlit("-");
            assert("-"@ =~= seq!['-']);
        }
        String::from_str("-").concat(natural_text(magnitude).as_str())
    } else {
        natural_text(n as u32)
    }
}

/// Builds the address of an event's record.
pub fn event_record_url(base: &str, id: &str) -> (url: String)
    ensures
        url@ == event_url(base@, id@),
{
    String::from_str(base).concat("/api/events/").concat(id)
}

/// Builds the address of a raid's record.
pub fn raid_record_url(base: &str, raid_id: i32) -> (url: String)
    ensures
        url@ == raid_url(base@, raid_id),
{
    String::from_str(base).concat("/raids/raid_").concat(decimal_text(raid_id).as_str()).concat(
        ".json",
    )
}

} // verus!
