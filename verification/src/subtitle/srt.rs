use vstd::prelude::*;
use vstd::string::StringExecFns;
use crate::subtitle::SingleSubtitle;

verus! {

/// Milliseconds of silence between two consecutive captions.
pub const SUBTITLE_GAP_MS: u64 = 200;

/// The decimal digit `d` as a character, for `0 <= d <= 9`.
pub open spec fn digit_char(d: int) -> char {
    if d == 0 { '0' }
    else if d == 1 { '1' }
    else if d == 2 { '2' }
    else if d == 3 { '3' }
    else if d == 4 { '4' }
    else if d == 5 { '5' }
    else if d == 6 { '6' }
    else if d == 7 { '7' }
    else if d == 8 { '8' }
    else { '9' }
}

/// The decimal representation of `n`, most significant digit first,
/// without leading zeros (a single `0` for zero).
pub open spec fn dec_digits(n: nat) -> Seq<char>
    decreases n,
{
    if n < 10 {
        seq![digit_char(n as int)]
    } else {
        dec_digits(n / 10).push(digit_char((n % 10) as int))
    }
}

/// `n` in decimal, zero-padded on the left to at least two digits.
pub open spec fn pad2(n: nat) -> Seq<char> {
    if n < 10 { seq!['0'] + dec_digits(n) } else { dec_digits(n) }
}

/// `n` in decimal, zero-padded on the left to at least three digits.
pub open spec fn pad3(n: nat) -> Seq<char> {
    if n < 100 { seq!['0'] + pad2(n) } else { dec_digits(n) }
}

/// A point in time `ms` milliseconds from the start, in the fixed-width
/// `HH:MM:SS,mmm` form used by the subtitle document.
pub open spec fn srt_timestamp(ms: nat) -> Seq<char> {
    let total_secs = ms / 1000;
    pad2(total_secs / 3600) + seq![':'] + pad2((total_secs % 3600) / 60) + seq![':']
        + pad2(total_secs % 60) + seq![','] + pad3(ms % 1000)
}

/// One complete caption entry: 1-based index, the `start --> end` timestamp
/// line, the caption text, and a blank separator line.
pub open spec fn srt_entry(index: nat, start_ms: nat, dur_ms: nat, text: Seq<char>) -> Seq<char> {
    dec_digits(index) + seq!['\n'] + srt_timestamp(start_ms) + seq![' ', '-', '-', '>', ' ']
        + srt_timestamp(start_ms + dur_ms) + seq!['\n'] + text + seq!['\n', '\n']
}

/// When the `i`-th caption begins: captions are laid end to end, each
/// separated from its predecessor by the fixed gap.
pub open spec fn caption_start(subs: Seq<SingleSubtitle>, i: int) -> int
    decreases i,
{
    if i <= 0 {
        0
    } else {
        caption_start(subs, i - 1) + subs[i - 1].duration + SUBTITLE_GAP_MS
    }
}

/// When the `i`-th caption ends: its start plus its own duration.
pub open spec fn caption_end(subs: Seq<SingleSubtitle>, i: int) -> int {
    caption_start(subs, i) + subs[i].duration
}

/// Whether every caption's cursor advance stays within `u64`.
pub open spec fn caption_times_fit(subs: Seq<SingleSubtitle>) -> bool {
    forall|i: int| 0 <= i < subs.len() ==> caption_end(subs, i) + SUBTITLE_GAP_MS <= u64::MAX
}

/// The document made of the first `n` captions, in order.
pub open spec fn srt_document_upto(subs: Seq<SingleSubtitle>, n: int) -> Seq<char>
    decreases n,
{
    if n <= 0 {
        Seq::empty()
    } else {
        srt_document_upto(subs, n - 1) + srt_entry(
            n as nat,
            caption_start(subs, n - 1) as nat,
            subs[n - 1].duration as nat,
            subs[n - 1].text@,
        )
    }
}

/// The whole time-coded subtitle document for the given captions.
pub open spec fn srt_document(subs: Seq<SingleSubtitle>) -> Seq<char> {
    srt_document_upto(subs, subs.len() as int)
}

/// Captions are gap-additive: the first caption starts at zero, each later
/// caption starts exactly one gap after its predecessor ends, and each
/// caption ends exactly its own duration after it starts.
pub proof fn lemma_caption_gap_additive(subs: Seq<SingleSubtitle>, i: int)
    requires
        0 < i < subs.len(),
    ensures
        caption_start(subs, 0) == 0,
        caption_start(subs, i) == caption_end(subs, i - 1) + SUBTITLE_GAP_MS,
        caption_end(subs, i) == caption_start(subs, i) + subs[i].duration,
{
}

/// The timing generator is deterministic: two documents rendered from
/// identical captions are identical, character for character.
pub proof fn lemma_subtitle_deterministic(
    subs: Seq<SingleSubtitle>,
    first: Seq<char>,
    second: Seq<char>,
)
    requires
        first == srt_document(subs),
        second == srt_document(subs),
    ensures
        first == second,
{
}

fn digit_str(d: u64) -> (r: &'static str)
    requires
        d < 10,
    ensures
        r@ == seq![digit_char(d as int)],
{
    proof {
        reveal_strlit("0");
        reveal_strlit("1");
        reveal_strlit("2");
        reveal_strlit("3");
        reveal_strlit("4");
        reveal_strlit("5");
        reveal_strlit("6");
        reveal_strlit("7");
        reveal_strlit("8");
        reveal_strlit("9");
    }
    let r: &'static str = if d == 0 { "0" }
    else if d == 1 { "1" }
    else if d == 2 { "2" }
    else if d == 3 { "3" }
    else if d == 4 { "4" }
    else if d == 5 { "5" }
    else if d == 6 { "6" }
    else if d == 7 { "7" }
    else if d == 8 { "8" }
    else { "9" };
    proof {
        assert(r@ =~= seq![digit_char(d as int)]);
    }
    r
}

/// `n` in decimal as an owned string.
pub fn dec_string(n: u64) -> (s: String)
    ensures
        s@ == dec_digits(n as nat),
    decreases n,
{
    if n < 10 {
        String::from_str(digit_str(n))
    } else {
        let mut s = dec_string(n / 10);
        s.append(digit_str(n % 10));
        proof {
            assert(dec_digits(n as nat) =~= dec_digits(n as nat / 10) + seq![digit_char(
                (n as nat % 10) as int,
            )]);
        }
        s
    }
}

fn pad2_string(n: u64) -> (s: String)
    ensures
        s@ == pad2(n as nat),
{
    if n < 10 {
        proof {
            reveal_strlit("0");
        }
        let mut s = String::from_str("0");
        let d = dec_string(n);
        s.append(d.as_str());
        proof {
            assert("0"@ =~= seq!['0']);
        }
        s
    } else {
        dec_string(n)
    }
}

fn pad3_string(n: u64) -> (s: String)
    ensures
        s@ == pad3(n as nat),
{
    if n < 100 {
        proof {
            reveal_strlit("0");
        }
        let mut s = String::from_str("0");
        let d = pad2_string(n);
        s.append(d.as_str());
        proof {
            assert("0"@ =~= seq!['0']);
        }
        s
    } else {
        dec_string(n)
    }
}

/// Writes the time-coded subtitle document. The generator owns the timing
/// rule: a running cursor starts at zero, each caption spans its own
/// duration, and the cursor then advances past a fixed gap.
pub struct SrtSubtitle {
    pub temp_dir: String,
}

impl SrtSubtitle {
    pub fn new() -> (r: Self)
        ensures
            r.temp_dir@ == "temp"@,
    {
        Self { temp_dir: String::from_str("temp") }
    }

    pub fn with_temp_dir(self, temp_dir: String) -> (r: Self)
        ensures
            r.temp_dir@ == temp_dir@,
    {
        Self { temp_dir }
    }

    /// The `HH:MM:SS,mmm` rendering of a time given in milliseconds.
    pub fn to_subtitle_time_string(time_ms: u64) -> (r: String)
        ensures
            r@ == srt_timestamp(time_ms as nat),
    {
        proof {
            reveal_strlit(":");
            reveal_strlit(",");
            assert(":"@ =~= seq![':']);
            assert(","@ =~= seq![',']);
        }
        let total_secs = time_ms / 1000;
        let mut s = pad2_string(total_secs / 3600);
        s.append(":");
        let m = pad2_string((total_secs % 3600) / 60);
        s.append(m.as_str());
        s.append(":");
        let sec = pad2_string(total_secs % 60);
        s.append(sec.as_str());
        s.append(",");
        let milli = pad3_string(time_ms % 1000);
        s.append(milli.as_str());
        s
    }

    /// One caption entry plus the time at which it ends.
    pub fn gen_single_subtitle(&self, text: &str, index: u64, start_ms: u64, time_ms: u64) -> (r: (
        String,
        u64,
    ))
        requires
            start_ms + time_ms <= u64::MAX,
        ensures
            r.0@ == srt_entry(index as nat, start_ms as nat, time_ms as nat, text@),
            r.1 == start_ms + time_ms,
    {
        proof {
            reveal_strlit("\n");
            reveal_strlit(" --> ");
            reveal_strlit("\n\n");
            assert("\n"@ =~= seq!['\n']);
            assert(" --> "@ =~= seq![' ', '-', '-', '>', ' ']);
            assert("\n\n"@ =~= seq!['\n', '\n']);
        }
        let mut content = dec_string(index);
        content.append("\n");
        let start_time = Self::to_subtitle_time_string(start_ms);
        content.append(start_time.as_str());
        content.append(" --> ");
        let end_time = start_ms + time_ms;
        let end_time_str = Self::to_subtitle_time_string(end_time);
        content.append(end_time_str.as_str());
        content.append("\n");
        content.append(text);
        content.append("\n\n");
        (content, end_time)
    }

    /// The whole document, or `None` when the caption times would overflow
    /// the millisecond counter.
    pub fn subtitle_content(&self, subtitles: &Vec<SingleSubtitle>) -> (r: Option<String>)
        ensures
            match r {
                Some(s) => caption_times_fit(subtitles@) && s@ == srt_document(subtitles@),
                None => !caption_times_fit(subtitles@),
            },
    {
        let mut content = String::new();
        let mut time: u64 = 0;
        let n = subtitles.len();
        let mut i: usize = 0;
        while i < n
            invariant
                n == subtitles@.len(),
                0 <= i <= n,
                time == caption_start(subtitles@, i as int),
                content@ == srt_document_upto(subtitles@, i as int),
                forall|j: int|
                    0 <= j < i ==> caption_end(subtitles@, j) + SUBTITLE_GAP_MS <= u64::MAX,
            decreases n - i,
        {
            let sub = &subtitles[i];
            let end = match time.checked_add(sub.duration) {
                Some(e) => e,
                None => {
                    proof {
                        assert(caption_end(subtitles@, i as int) + SUBTITLE_GAP_MS > u64::MAX);
                    }
                    return None;
                },
            };
            if end > u64::MAX - SUBTITLE_GAP_MS {
                proof {
                    assert(caption_end(subtitles@, i as int) + SUBTITLE_GAP_MS > u64::MAX);
                }
                return None;
            }
            let idx = i as u64 + 1;
            let (single, end_time) = self.gen_single_subtitle(
                sub.text.as_str(),
                idx,
                time,
                sub.duration,
            );
            content.append(single.as_str());
            time = end_time + SUBTITLE_GAP_MS;
            i = i + 1;
        }
        Some(content)
    }
}

} // verus!
