//! The analysis rule and the records around it.
//!
//! The score is a placeholder rule over the input string alone:
//! (number of characters mod 10) * 7.5 points. The crate carries scores in
//! tenths of a point so that they stay integers: one step is 75 tenths and
//! the largest possible score is 675 tenths (67.5 points). Length means
//! character count; the input is scored verbatim, with no address syntax
//! checked and no normalization.

use vstd::prelude::*;

verus! {

/// One scoring step in tenths of a point: 7.5 points.
pub const SCORE_STEP_TENTHS: u64 = 75;

/// The score of an input with this character sequence, in tenths of a
/// point: (length mod 10) * 75.
pub open spec fn score_tenths(s: Seq<char>) -> int {
    ((s.len() % 10) as int) * 75
}

/// An analysis request: the string handed in under the `ip` query key.
pub struct AnalyzeRequest {
    pub ip: String,
}

/// An analysis response: the input echoed back, its score in tenths of a
/// point, and the whole milliseconds the analysis took.
pub struct AnalyzeResponse {
    pub ip_address: String,
    pub risk_score_tenths: u64,
    pub analysis_time_ms: u128,
}

impl AnalyzeResponse {
    /// A response is well formed when its score is the score of the input
    /// it echoes.
    pub open spec fn wf(self) -> bool {
        self.risk_score_tenths == score_tenths(self.ip_address@)
    }
}

/// The risk score of `ip`, in tenths of a point.
pub fn risk_score_tenths(ip: &str) -> (r: u64)
    ensures
        r == score_tenths(ip@),
{
    let n = ip.unicode_len();
    ((n % 10) as u64) * SCORE_STEP_TENTHS
}

/// Handle one analysis request: score the input, with the clock read before
/// and after the scoring, and echo the input back.
///
/// The score and the echo are exact; the elapsed time depends on the clock,
/// so only its sign is stated.
pub fn analyze(req: AnalyzeRequest) -> (resp: AnalyzeResponse)
    ensures
        resp.ip_address@ == req.ip@,
        resp.risk_score_tenths == score_tenths(req.ip@),
        resp.analysis_time_ms >= 0,
        resp.wf(),
{
    let start = crate::clock::instant_now();
    let score = risk_score_tenths(req.ip.as_str());
    let elapsed = crate::clock::instant_elapsed(&start);
    let ms = crate::clock::duration_as_millis(&elapsed);
    AnalyzeResponse { ip_address: req.ip, risk_score_tenths: score, analysis_time_ms: ms }
}

/// The score of any input is one of ten values:
/// {0, 75, 150, 225, 300, 375, 450, 525, 600, 675} tenths, that is
/// {0, 7.5, 15, 22.5, 30, 37.5, 45, 52.5, 60, 67.5} points.
pub proof fn lemma_score_one_of_ten(s: Seq<char>)
    ensures
        0 <= score_tenths(s) <= 675,
        score_tenths(s) % 75 == 0,
        score_tenths(s) == 0 || score_tenths(s) == 75 || score_tenths(s) == 150
            || score_tenths(s) == 225 || score_tenths(s) == 300 || score_tenths(s) == 375
            || score_tenths(s) == 450 || score_tenths(s) == 525 || score_tenths(s) == 600
            || score_tenths(s) == 675,
{
}

/// The score depends on the input alone: equal inputs score equally. With
/// the echo stated by `analyze`, repeating a request repeats its score and
/// its echoed address; only the timing may differ.
pub proof fn lemma_score_deterministic(a: Seq<char>, b: Seq<char>)
    requires
        a == b,
    ensures
        score_tenths(a) == score_tenths(b),
{
}

} // verus!
