//! The metrics document of the primary backend: a line-oriented text in which
//! each counter stands on a line of the shape
//! `name{label="value",...} number`. Two counters matter here, the used and
//! the maximum number of cache blocks of one model in one version.

use crate::text::{
    chars_of, contains, find_last_token, has_substring, last_token, line_end, lines,
    parse_unsigned, unsigned_of,
};
use vstd::prelude::*;
use vstd::slice::slice_subrange;

verus! {

/// The label that marks the counter of blocks in use.
pub const USED_MARKER: &'static str = "kv_cache_block_type=\"used\"";

/// The label that marks the counter of blocks at most.
pub const MAX_MARKER: &'static str = "kv_cache_block_type=\"max\"";

/// The label of the model whose counters are read.
pub const MODEL_MARKER: &'static str = "model=\"tensorrt_llm\"";

/// The label of the version whose counters are read.
pub const VERSION_MARKER: &'static str = "version=\"1\"";

/// What one metrics document says of the two counters. A counter is `None`
/// where no line of the document gives it.
#[derive(Clone, Copy, Debug, PartialEq, Eq)]
pub struct MetricsSample {
    pub used_units: Option<u64>,
    pub max_units: Option<u64>,
}

/// `line` carries the label `block` and the labels of the model and of the
/// version: it is a line of the counter that `block` marks.
pub open spec fn names_counter(line: Seq<char>, block: Seq<char>) -> bool {
    &&& has_substring(line, block)
    &&& has_substring(line, MODEL_MARKER@)
    &&& has_substring(line, VERSION_MARKER@)
}

/// The number that `line` gives for the counter that `block` marks: that of
/// its last token, where the line names the counter and the token is a number.
pub open spec fn line_reading(line: Seq<char>, block: Seq<char>) -> Option<u64> {
    if names_counter(line, block) {
        unsigned_of(last_token(line))
    } else {
        None
    }
}

/// The reading of the last of `lines` that has one.
pub open spec fn last_reading(lines: Seq<Seq<char>>, block: Seq<char>) -> Option<u64>
    decreases lines.len(),
{
    if lines.len() == 0 {
        None
    } else {
        match line_reading(lines.last(), block) {
            Some(value) => Some(value),
            None => last_reading(lines.drop_last(), block),
        }
    }
}

/// The sample that the document `text` yields.
pub open spec fn sample_of(text: Seq<char>) -> MetricsSample {
    MetricsSample {
        used_units: last_reading(lines(text), USED_MARKER@),
        max_units: last_reading(lines(text), MAX_MARKER@),
    }
}

/// The text that `String::from_utf8_lossy` makes of `bytes`.
pub uninterp spec fn lossy_text(bytes: Seq<u8>) -> Seq<char>;

/// Calls `String::from_utf8_lossy`, which decodes `bytes` as UTF-8 and puts
/// U+FFFD in place of what is no UTF-8. The contract only names the result.
#[verifier::external_body]
fn decode_lossy(bytes: &[u8]) -> (text: String)
    ensures
        text@ == lossy_text(bytes@),
{
    String::from_utf8_lossy(bytes).into_owned()
}

fn read_line(line: &[char], block: &[char], model: &[char], version: &[char]) -> (reading: Option<
    u64,
>)
    requires
        model@ == MODEL_MARKER@,
        version@ == VERSION_MARKER@,
    ensures
        reading == line_reading(line@, block@),
{
    if contains(line, block) && contains(line, model) && contains(line, version) {
        let (start, end) = find_last_token(line);
        parse_unsigned(slice_subrange(line, start, end))
    } else {
        None
    }
}

/// Reads the two counters out of the metrics document `text`. The document is
/// taken line by line; of several lines that give a counter the last one
/// counts, and a line that names a counter without giving a number for it is
/// passed over.
pub fn parse_metrics(text: &str) -> (sample: MetricsSample)
    ensures
        sample == sample_of(text@),
{
    let chars = chars_of(text);
    let used_marker = chars_of(USED_MARKER);
    let max_marker = chars_of(MAX_MARKER);
    let model_marker = chars_of(MODEL_MARKER);
    let version_marker = chars_of(VERSION_MARKER);
    let n: usize = chars.len();
    let mut used: Option<u64> = None;
    let mut max: Option<u64> = None;
    let mut from: usize = 0;
    let mut more: bool = true;
    let ghost mut done: Seq<Seq<char>> = Seq::empty();
    assert(chars@.skip(0) =~= chars@);
    assert(done + lines(chars@) =~= lines(chars@));
    while more
        invariant
            n == chars@.len(),
            from <= n,
            used_marker@ == USED_MARKER@,
            max_marker@ == MAX_MARKER@,
            model_marker@ == MODEL_MARKER@,
            version_marker@ == VERSION_MARKER@,
            more ==> lines(chars@) == done + lines(chars@.skip(from as int)),
            !more ==> lines(chars@) == done,
            used == last_reading(done, USED_MARKER@),
            max == last_reading(done, MAX_MARKER@),
        decreases (n - from) + (if more { 1int } else { 0int }),
    {
        let end = line_end(chars.as_slice(), from);
        let line = slice_subrange(chars.as_slice(), from, end);
        if let Some(value) = read_line(
            line,
            used_marker.as_slice(),
            model_marker.as_slice(),
            version_marker.as_slice(),
        ) {
            used = Some(value);
        }
        if let Some(value) = read_line(
            line,
            max_marker.as_slice(),
            model_marker.as_slice(),
            version_marker.as_slice(),
        ) {
            max = Some(value);
        }
        proof {
            let rest = chars@.skip(from as int);
            assert(line@ =~= rest.take(end - from));
            assert(done.push(line@).drop_last() =~= done);
            if end == n {
                assert(rest.take(end - from) =~= rest);
                assert(done + seq![line@] =~= done.push(line@));
            } else {
                assert(rest.skip(end - from + 1) =~= chars@.skip(end + 1));
                assert(done + (seq![line@] + lines(chars@.skip(end + 1))) =~= done.push(line@)
                    + lines(chars@.skip(end + 1)));
            }
            done = done.push(line@);
        }
        if end == n {
            more = false;
        } else {
            from = end + 1;
        }
    }
    MetricsSample { used_units: used, max_units: max }
}

/// Reads the two counters out of the body of a metrics response: the bytes are
/// decoded as UTF-8, lossily, and the text is read as `parse_metrics` reads it.
pub fn parse_metrics_body(body: &[u8]) -> (sample: MetricsSample)
    ensures
        sample == sample_of(lossy_text(body@)),
{
    let text = decode_lossy(body);
    parse_metrics(text.as_str())
}

} // verus!
