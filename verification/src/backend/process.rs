//! One running tunnel process: how its command line is split, how its log is
//! named and written, what is kept of its error output, and what the monitor
//! of its output does on each event.

use crate::backend::types::{ProcessId, Timestamp, TunnelId, END_OF_TEXT_RANGE};
use crate::errors;
use crate::text::{
    char_is_control, char_is_whitespace, contains, decimal, decimal_string, from_chars, is_control,
    is_whitespace, push_char, str_contains, texts, to_chars, trim, trim_bounds,
};
use tokio_util::sync::CancellationToken;
use vstd::prelude::*;
use vstd::string::*;
use vstd::utf8::{encode_scalar, encode_utf8};

verus! {

/// How many characters of error output are kept once the buffer outgrows the
/// same number of bytes.
pub const STDERR_TAIL_LIMIT: usize = 4096;

/// The cancellation signal of `tokio_util`. It is carried through and handed
/// to the functions of `tokio_util`; nothing is known of what it holds.
#[verifier::external_type_specification]
#[verifier::external_body]
pub struct ExCancellationToken(CancellationToken);

/// A new cancellation signal that depends on no other.
///
/// Calls `CancellationToken::new`. Nothing is claimed of the result.
#[verifier::external_body]
pub(crate) fn new_token() -> CancellationToken {
    CancellationToken::new()
}

/// A signal that is cancelled whenever `parent` is, and that leaves `parent`
/// alone when it is cancelled itself.
///
/// Calls `CancellationToken::child_token`. Nothing is claimed of the result.
#[verifier::external_body]
pub(crate) fn child_token(parent: &CancellationToken) -> CancellationToken {
    parent.child_token()
}

/// Another handle on the same signal.
///
/// Calls `CancellationToken::clone`, which gives a handle on the very signal
/// that `token` is a handle on: the two are the same signal, and `tokio_util`
/// compares them as equal.
#[verifier::external_body]
pub(crate) fn share_token(token: &CancellationToken) -> (shared: CancellationToken)
    ensures
        shared == *token,
{
    token.clone()
}

/// Cancels the signal and every signal derived from it.
///
/// Calls `CancellationToken::cancel`, which changes no value that the
/// library's contracts speak of.
#[verifier::external_body]
pub(crate) fn cancel_token(token: &CancellationToken) {
    token.cancel()
}

/// What `chrono` prints as `YYYYMMDD_HHMMSS` for the date and time of day
/// that lie `local_secs` seconds after 1970-01-01T00:00:00, read without a
/// zone.
pub uninterp spec fn file_stamp_text(local_secs: int) -> Seq<char>;

/// What `chrono` prints as RFC 3339 text with milliseconds for the instant
/// `secs` seconds and `nanos` nanoseconds after the Unix epoch, told in the
/// zone that lies `offset` seconds east of UTC.
pub uninterp spec fn line_stamp_text(secs: u64, nanos: u32, offset: int) -> Seq<char>;

/// How many seconds the local time of this machine is ahead of UTC at the
/// instant `secs` seconds and `nanos` nanoseconds after the Unix epoch;
/// nothing where `chrono` cannot hold the instant.
///
/// Calls `chrono::DateTime::from_timestamp`, `DateTime::with_timezone` with
/// `chrono::Local`, `DateTime::offset` and `FixedOffset::local_minus_utc`.
/// The offset depends on the time zone of the machine; `chrono` keeps every
/// offset within a day either way, and no more is claimed. The bounds keep
/// the instant within four-digit years, far inside what `chrono` holds.
/// `chrono` looks the zone up in the machine's zone data and gives up on zone
/// data that is broken, as it does for every local time.
#[verifier::external_body]
fn local_offset(secs: u64, nanos: u32) -> (offset: Option<i32>)
    requires
        secs < END_OF_TEXT_RANGE,
        nanos < 1_000_000_000,
    ensures
        offset matches Some(east) ==> -86_400 < east < 86_400,
{
    let utc = chrono::DateTime::from_timestamp(secs as i64, nanos)?;
    Some(utc.with_timezone(&chrono::Local).offset().local_minus_utc())
}

/// The date and time of day that lie `local_secs` seconds after
/// 1970-01-01T00:00:00 as `YYYYMMDD_HHMMSS`; nothing where `chrono` cannot
/// hold them.
///
/// Calls `chrono::DateTime::from_timestamp`, `DateTime::naive_utc` and
/// `NaiveDateTime::format`. No zone and no clock is read: the text depends on
/// `local_secs` alone.
#[verifier::external_body]
fn format_file_stamp(local_secs: i64) -> (text: Option<String>)
    requires
        -86_400 < local_secs < END_OF_TEXT_RANGE + 86_400,
    ensures
        text matches Some(t) ==> t@ == file_stamp_text(local_secs as int),
{
    let plain = chrono::DateTime::from_timestamp(local_secs, 0)?;
    Some(plain.naive_utc().format("%Y%m%d_%H%M%S").to_string())
}

/// The instant `secs` seconds and `nanos` nanoseconds after the Unix epoch as
/// RFC 3339 text with milliseconds, told in the zone that lies `offset`
/// seconds east of UTC; nothing where `chrono` cannot hold the instant.
///
/// Calls `chrono::DateTime::from_timestamp`, `FixedOffset::east_opt`,
/// `DateTime::with_timezone` and `DateTime::to_rfc3339_opts`. The zone of the
/// machine and the clock are not read: the text depends on the arguments
/// alone. The bounds keep the instant within four-digit years and the offset
/// within a day, which is what `chrono` takes.
#[verifier::external_body]
fn format_line_stamp(secs: u64, nanos: u32, offset: i32) -> (text: Option<String>)
    requires
        secs < END_OF_TEXT_RANGE,
        nanos < 1_000_000_000,
        -86_400 < offset < 86_400,
    ensures
        text matches Some(t) ==> t@ == line_stamp_text(secs, nanos, offset as int),
{
    let utc = chrono::DateTime::from_timestamp(secs as i64, nanos)?;
    let zone = chrono::FixedOffset::east_opt(offset)?;
    Some(utc.with_timezone(&zone).to_rfc3339_opts(chrono::SecondsFormat::Millis, true))
}

/// What stands for the time where no local time can be had of an instant:
/// its whole seconds since the Unix epoch, as a decimal numeral.
pub open spec fn plain_stamp(at: Timestamp) -> Seq<char> {
    decimal(at.secs() as nat)
}

/// `stamp` tells the time of `at` for the name of a log file: it is the
/// local date and time of day as `YYYYMMDD_HHMMSS`, where local time is
/// within a day of UTC; or, where no local time can be had, the whole seconds
/// since the Unix epoch.
pub open spec fn is_file_stamp(at: Timestamp, stamp: Seq<char>) -> bool {
    ||| stamp == plain_stamp(at)
    ||| at.secs() < END_OF_TEXT_RANGE && exists|local: int|
        at.secs() - 86_400 < local < at.secs() + 86_400 && stamp == #[trigger] file_stamp_text(
            local,
        )
}

/// `stamp` tells the time of `at` for a log line: it is the instant as RFC
/// 3339 text with milliseconds in a zone within a day of UTC; or, where no
/// local time can be had, the whole seconds since the Unix epoch.
pub open spec fn is_line_stamp(at: Timestamp, stamp: Seq<char>) -> bool {
    ||| stamp == plain_stamp(at)
    ||| at.secs() < END_OF_TEXT_RANGE && exists|offset: int|
        -86_400 < offset < 86_400 && stamp == #[trigger] line_stamp_text(
            at.secs(),
            at.subsec_nanos(),
            offset,
        )
}

/// The time of `at` for the name of a log file: the local time as
/// `YYYYMMDD_HHMMSS`, or the whole seconds since the Unix epoch where no
/// local time can be had, as from the year 10000 on.
pub fn file_stamp(at: &Timestamp) -> (stamp: String)
    ensures
        is_file_stamp(*at, stamp@),
        at.secs() >= END_OF_TEXT_RANGE ==> stamp@ == plain_stamp(*at),
{
    let (secs, nanos) = at.parts();
    if secs >= END_OF_TEXT_RANGE {
        return decimal_string(secs);
    }
    let offset: i32 = match local_offset(secs, nanos) {
        Some(offset) => offset,
        None => {
            return decimal_string(secs);
        },
    };
    let local: i64 = secs as i64 + offset as i64;
    match format_file_stamp(local) {
        Some(stamp) => {
            proof {
                assert(stamp@ == file_stamp_text(local as int));
            }
            stamp
        },
        None => decimal_string(secs),
    }
}

/// The time of `at` for a log line: the local time as RFC 3339 text with
/// milliseconds, or the whole seconds since the Unix epoch where no local
/// time can be had, as from the year 10000 on.
pub fn line_stamp(at: &Timestamp) -> (stamp: String)
    ensures
        is_line_stamp(*at, stamp@),
        at.secs() >= END_OF_TEXT_RANGE ==> stamp@ == plain_stamp(*at),
{
    let (secs, nanos) = at.parts();
    if secs >= END_OF_TEXT_RANGE {
        return decimal_string(secs);
    }
    let offset: i32 = match local_offset(secs, nanos) {
        Some(offset) => offset,
        None => {
            return decimal_string(secs);
        },
    };
    match format_line_stamp(secs, nanos, offset) {
        Some(stamp) => {
            proof {
                assert(stamp@ == line_stamp_text(secs, nanos, offset as int));
            }
            stamp
        },
        None => decimal_string(secs),
    }
}

/// A character that may not stand in a file name: a path or drive separator,
/// a wildcard, a quote, a redirection sign, or a control character.
pub open spec fn is_unsafe_in_file_name(c: char) -> bool {
    ||| c == '/'
    ||| c == '\\'
    ||| c == ':'
    ||| c == '*'
    ||| c == '?'
    ||| c == '"'
    ||| c == '<'
    ||| c == '>'
    ||| c == '|'
    ||| is_control(c)
}

/// The character that stands for `c` in a file name.
pub open spec fn file_name_char(c: char) -> char {
    if is_unsafe_in_file_name(c) {
        '_'
    } else {
        c
    }
}

/// `name` made fit for a file name: every unsafe character replaced by `_`,
/// then whitespace trimmed from both ends.
pub open spec fn sanitized(name: Seq<char>) -> Seq<char> {
    trim(name.map_values(|c: char| file_name_char(c)))
}

/// Makes `name` fit for a file name.
pub fn sanitize_filename(name: &str) -> (clean: String)
    ensures
        clean@ == sanitized(name@),
{
    let chars = to_chars(name);
    let mut mapped: Vec<char> = Vec::new();
    let mut i: usize = 0;
    while i < chars.len()
        invariant
            i <= chars.len(),
            mapped@ == chars@.take(i as int).map_values(|c: char| file_name_char(c)),
        decreases chars.len() - i,
    {
        let c = chars[i];
        let bad = c == '/' || c == '\\' || c == ':' || c == '*' || c == '?' || c == '"' || c == '<'
            || c == '>' || c == '|' || char_is_control(c);
        let kept = if bad {
            '_'
        } else {
            c
        };
        mapped.push(kept);
        proof {
            assert(chars@.take(i + 1).map_values(|c: char| file_name_char(c)) =~= chars@.take(
                i as int,
            ).map_values(|c: char| file_name_char(c)).push(kept));
        }
        i += 1;
    }
    proof {
        assert(chars@.take(chars.len() as int) =~= chars@);
    }
    let (from, to) = trim_bounds(&mapped);
    from_chars(&mapped, from, to)
}

/// Sanitizing leaves no unsafe character and no whitespace at either end.
pub proof fn lemma_sanitized_is_safe(name: Seq<char>)
    ensures
        forall|i: int|
            0 <= i < sanitized(name).len() ==> !is_unsafe_in_file_name(#[trigger] sanitized(name)[i]),
        sanitized(name).len() > 0 ==> !is_whitespace(sanitized(name)[0]) && !is_whitespace(
            sanitized(name).last(),
        ),
{
    let mapped = name.map_values(|c: char| file_name_char(c));
    crate::text::lemma_trim_start_shape(mapped);
    let t = crate::text::trim_start(mapped);
    crate::text::lemma_trim_end_shape(t);
    let r = crate::text::trim_end(t);
    assert(r == sanitized(name));
    let k = mapped.len() - t.len();
    assert forall|i: int| 0 <= i < r.len() implies !is_unsafe_in_file_name(#[trigger] r[i]) by {
        assert(r[i] == t[i]);
        assert(t[i] == mapped[i + k]);
        assert(mapped[i + k] == file_name_char(name[i + k]));
    }
    if r.len() > 0 {
        assert(r[0] == t[0]);
    }
}

/// Where the scan of a command line stands: the arguments completed so far,
/// the argument being read, and whether a quote is open.
pub struct ScanState {
    pub done: Seq<Seq<char>>,
    pub current: Seq<char>,
    pub in_quotes: bool,
}

/// The scan after one more character: a double quote opens or closes the
/// protection of whitespace and is dropped; whitespace outside quotes ends
/// the argument being read, if there is one; any other character joins it.
pub open spec fn scan_step(st: ScanState, c: char) -> ScanState {
    if c == '"' {
        ScanState { in_quotes: !st.in_quotes, ..st }
    } else if is_whitespace(c) && !st.in_quotes {
        if st.current.len() > 0 {
            ScanState { done: st.done.push(st.current), current: Seq::empty(), in_quotes: false }
        } else {
            st
        }
    } else {
        ScanState { current: st.current.push(c), ..st }
    }
}

/// The scan after all of `s`.
pub open spec fn scan(s: Seq<char>) -> ScanState
    decreases s.len(),
{
    if s.len() == 0 {
        ScanState { done: Seq::empty(), current: Seq::empty(), in_quotes: false }
    } else {
        scan_step(scan(s.drop_last()), s.last())
    }
}

/// The arguments of the command line `s`: what the scan completed, and the
/// argument it was reading at the end, if any.
pub open spec fn split_args(s: Seq<char>) -> Seq<Seq<char>> {
    let st = scan(s);
    if st.current.len() > 0 {
        st.done.push(st.current)
    } else {
        st.done
    }
}

/// No argument is empty and none holds a double quote.
pub proof fn lemma_args_are_clean(s: Seq<char>)
    ensures
        forall|i: int|
            0 <= i < split_args(s).len() ==> (#[trigger] split_args(s)[i]).len() > 0
                && !split_args(s)[i].contains('"'),
{
    lemma_scan_is_clean(s);
}

/// Every completed argument of a scan is non-empty and free of double
/// quotes, and so is what the argument being read holds.
pub proof fn lemma_scan_is_clean(s: Seq<char>)
    ensures
        !scan(s).current.contains('"'),
        forall|i: int|
            0 <= i < scan(s).done.len() ==> (#[trigger] scan(s).done[i]).len() > 0 && !scan(
                s,
            ).done[i].contains('"'),
    decreases s.len(),
{
    if s.len() > 0 {
        let before = scan(s.drop_last());
        lemma_scan_is_clean(s.drop_last());
        let c = s.last();
        let after = scan(s);
        if c != '"' && !(is_whitespace(c) && !before.in_quotes) {
            assert forall|j: int| 0 <= j < after.current.len() implies after.current[j] != '"' by {
                if j < before.current.len() {
                    assert(before.current.contains(before.current[j]));
                }
            }
        }
    }
}

/// Splits a command line into its arguments.
pub fn parse_cli_args(cli_args: &str) -> (args: Vec<String>)
    ensures
        texts(args@) == split_args(cli_args@),
{
    let mut args: Vec<String> = Vec::new();
    let mut current = String::new();
    let mut current_len: usize = 0;
    let mut in_quotes = false;
    proof {
        assert(texts(args@) =~= scan(cli_args@.take(0)).done);
    }
    for c in it: cli_args.chars()
        invariant
            it.seq() == cli_args@,
            texts(args@) == scan(cli_args@.take(it.index() as int)).done,
            current@ == scan(cli_args@.take(it.index() as int)).current,
            in_quotes == scan(cli_args@.take(it.index() as int)).in_quotes,
            (current_len == 0) == (current@.len() == 0),
    {
        proof {
            let k = it.index() as int;
            assert(cli_args@.take(k + 1).drop_last() =~= cli_args@.take(k));
            assert(cli_args@.take(k + 1).last() == c);
        }
        if c == '"' {
            in_quotes = !in_quotes;
        } else if char_is_whitespace(c) && !in_quotes {
            if current_len > 0 {
                proof {
                    assert(texts(args@.push(current)) =~= texts(args@).push(current@));
                }
                args.push(current);
                current = String::new();
                current_len = 0;
            }
        } else {
            push_char(&mut current, c);
            current_len = 1;
        }
    }
    proof {
        assert(cli_args@.take(cli_args@.len() as int) =~= cli_args@);
    }
    if current_len > 0 {
        proof {
            assert(texts(args@.push(current)) =~= texts(args@).push(current@));
        }
        args.push(current);
    }
    args
}

/// The part of a log file's name that tells whose log it is: the sanitized
/// tag, or the identifier where the entry has no tag.
pub open spec fn log_owner(tag: Seq<char>, id: TunnelId) -> Seq<char> {
    if tag.len() == 0 {
        id.debug_text()
    } else {
        sanitized(tag)
    }
}

/// The name of the log file of one run: owner, process id and time of start.
pub open spec fn log_file_name_text(
    tag: Seq<char>,
    id: TunnelId,
    pid: ProcessId,
    stamp: Seq<char>,
) -> Seq<char> {
    log_owner(tag, id) + "-"@ + decimal(pid.0 as nat) + "-"@ + stamp + ".log"@
}

/// The name of the log file for the run of entry `id`, named `tag`, as
/// process `pid`, started at the time that `stamp` spells.
pub fn log_file_name(tag: &str, id: TunnelId, pid: ProcessId, stamp: &str) -> (name: String)
    ensures
        name@ == log_file_name_text(tag@, id, pid, stamp@),
{
    let mut name = if tag.unicode_len() == 0 {
        id.to_debug_text()
    } else {
        sanitize_filename(tag)
    };
    let number = decimal_string(pid.0 as u64);
    name.append("-");
    name.append(number.as_str());
    name.append("-");
    name.append(stamp);
    name.append(".log");
    name
}

/// The name of the log file for a run that starts now: its time is that of
/// the present instant, in local time.
pub fn new_log_file_name(tag: &str, id: TunnelId, pid: ProcessId) -> (name: String)
    ensures
        exists|now: Timestamp, stamp: Seq<char>| #[trigger]
            is_file_stamp(now, stamp) && name@ == log_file_name_text(tag@, id, pid, stamp),
{
    let now = Timestamp::now();
    let stamp = file_stamp(&now);
    let name = log_file_name(tag, id, pid, stamp.as_str());
    proof {
        assert(is_file_stamp(now, stamp@) && name@ == log_file_name_text(tag@, id, pid, stamp@));
    }
    name
}

/// One of the two output streams of a process.
#[derive(Debug, Clone, Copy, PartialEq, Eq, Structural)]
pub enum OutputStream {
    Stdout,
    Stderr,
}

impl OutputStream {
    /// The tag that marks the stream's lines in the log.
    pub open spec fn tag(self) -> Seq<char> {
        match self {
            OutputStream::Stdout => "STDOUT"@,
            OutputStream::Stderr => "STDERR"@,
        }
    }
}

/// A line of the log: time, stream and text, closed by a line feed.
pub open spec fn log_line_text(stamp: Seq<char>, stream: OutputStream, line: Seq<char>) -> Seq<
    char,
> {
    "["@ + stamp + "] ["@ + stream.tag() + "] "@ + line + "\n"@
}

/// The log line for `line`, read from `stream` at the time that `stamp`
/// spells.
pub fn log_line(stamp: &str, stream: OutputStream, line: &str) -> (text: String)
    ensures
        text@ == log_line_text(stamp@, stream, line@),
{
    let mut text = String::from_str("[");
    text.append(stamp);
    text.append("] [");
    match stream {
        OutputStream::Stdout => text.append("STDOUT"),
        OutputStream::Stderr => text.append("STDERR"),
    }
    text.append("] ");
    text.append(line);
    text.append("\n");
    text
}

/// The number of bytes that a string with the characters `s` takes, as the
/// machine counts them.
pub open spec fn byte_len(s: Seq<char>) -> usize {
    encode_utf8(s).len() as usize
}

/// What a buffer of error output holds after `line` is added: the old
/// content, the line and a line feed; cut down to its last
/// `STDERR_TAIL_LIMIT` characters once it takes more bytes than that.
pub open spec fn tail_after(old_text: Seq<char>, line: Seq<char>) -> Seq<char> {
    let grown = old_text + line + seq!['\n'];
    if byte_len(grown) > STDERR_TAIL_LIMIT && grown.len() > STDERR_TAIL_LIMIT {
        grown.subrange(grown.len() - STDERR_TAIL_LIMIT, grown.len() as int)
    } else {
        grown
    }
}

/// The most recent error output of a process, bounded in size.
#[derive(Debug)]
pub struct StderrTail {
    text: String,
}

impl View for StderrTail {
    type V = Seq<char>;

    closed spec fn view(&self) -> Seq<char> {
        self.text@
    }
}

impl StderrTail {
    /// An empty buffer.
    pub fn new() -> (tail: Self)
        ensures
            tail@.len() == 0,
    {
        StderrTail { text: String::new() }
    }

    /// Adds a line of error output; the oldest content leaves first.
    pub fn push_line(&mut self, line: &str)
        ensures
            final(self)@ == tail_after(old(self)@, line@),
    {
        self.text.append(line);
        push_char(&mut self.text, '\n');
        proof {
            assert(self.text@ =~= old(self)@ + line@ + seq!['\n']);
        }
        if self.text.as_str().len() > STDERR_TAIL_LIMIT {
            let chars = to_chars(self.text.as_str());
            let n = chars.len();
            if n > STDERR_TAIL_LIMIT {
                self.text = from_chars(&chars, n - STDERR_TAIL_LIMIT, n);
            }
        }
    }

    /// What the buffer holds.
    pub fn contents(&self) -> (text: String)
        ensures
            text@ == self@,
    {
        self.text.clone()
    }
}

/// Every character takes at least one byte.
pub proof fn lemma_chars_at_most_bytes(s: Seq<char>)
    ensures
        s.len() <= encode_utf8(s).len(),
    decreases s.len(),
{
    if s.len() > 0 {
        lemma_chars_at_most_bytes(s.drop_first());
    }
}

/// A buffer of error output never holds more than `STDERR_TAIL_LIMIT`
/// characters after a line is added, and what it holds is the newest
/// content. The grown buffer is taken to fit the machine.
pub proof fn lemma_tail_is_bounded(old_text: Seq<char>, line: Seq<char>)
    requires
        encode_utf8(old_text + line + seq!['\n']).len() <= usize::MAX,
    ensures
        tail_after(old_text, line).len() <= STDERR_TAIL_LIMIT,
        (old_text + line + seq!['\n']).subrange(
            (old_text + line + seq!['\n']).len() - tail_after(old_text, line).len(),
            (old_text + line + seq!['\n']).len() as int,
        ) == tail_after(old_text, line),
{
    let grown = old_text + line + seq!['\n'];
    lemma_chars_at_most_bytes(grown);
    assert(grown.subrange(0, grown.len() as int) =~= grown);
}

/// The bytes of two texts in a row are the bytes of the first and then the
/// bytes of the second.
pub proof fn lemma_bytes_of_concat(a: Seq<char>, b: Seq<char>)
    ensures
        encode_utf8(a + b) == encode_utf8(a) + encode_utf8(b),
    decreases a.len(),
{
    if a.len() == 0 {
        assert(a + b =~= b);
        assert(encode_utf8(a) + encode_utf8(b) =~= encode_utf8(b));
    } else {
        lemma_bytes_of_concat(a.drop_first(), b);
        assert((a + b).drop_first() =~= a.drop_first() + b);
        assert((a + b)[0] == a[0]);
        assert(encode_utf8(a + b) =~= encode_scalar(a[0] as u32) + (encode_utf8(a.drop_first())
            + encode_utf8(b)));
        assert(encode_utf8(a) + encode_utf8(b) =~= encode_scalar(a[0] as u32) + (encode_utf8(
            a.drop_first(),
        ) + encode_utf8(b)));
    }
}

/// `end` is what `whole` ends with.
pub open spec fn is_end_of(end: Seq<char>, whole: Seq<char>) -> bool {
    end.len() <= whole.len() && whole.subrange(whole.len() - end.len(), whole.len() as int) == end
}

/// All that was added to a buffer of error output: every line with its line
/// feed, in order.
pub open spec fn pushed_text(lines: Seq<Seq<char>>) -> Seq<char>
    decreases lines.len(),
{
    if lines.len() == 0 {
        Seq::empty()
    } else {
        pushed_text(lines.drop_last()) + lines.last() + seq!['\n']
    }
}

/// What a buffer of error output that began empty holds after the lines
/// `lines` were added to it one by one.
pub open spec fn tail_after_all(lines: Seq<Seq<char>>) -> Seq<char>
    decreases lines.len(),
{
    if lines.len() == 0 {
        Seq::empty()
    } else {
        tail_after(tail_after_all(lines.drop_last()), lines.last())
    }
}

/// However many lines were added to a buffer of error output that began
/// empty, it holds the end of all that was added, the newest content, and no
/// more than `STDERR_TAIL_LIMIT` characters of it. All that was added is
/// taken to fit the machine.
pub proof fn lemma_tail_is_recent(lines: Seq<Seq<char>>)
    requires
        encode_utf8(pushed_text(lines)).len() <= usize::MAX,
    ensures
        is_end_of(tail_after_all(lines), pushed_text(lines)),
        tail_after_all(lines).len() <= STDERR_TAIL_LIMIT,
    decreases lines.len(),
{
    if lines.len() > 0 {
        let front = lines.drop_last();
        let added = lines.last() + seq!['\n'];
        let all_before = pushed_text(front);
        let all = pushed_text(lines);
        assert(all =~= all_before + added);
        lemma_bytes_of_concat(all_before, added);
        lemma_tail_is_recent(front);
        let kept = tail_after_all(front);
        let grown = kept + lines.last() + seq!['\n'];
        assert(grown =~= kept + added);
        let cut = all_before.len() - kept.len();
        assert(all_before =~= all_before.subrange(0, cut) + kept);
        assert(all =~= all_before.subrange(0, cut) + grown);
        lemma_bytes_of_concat(all_before.subrange(0, cut), grown);
        assert(all.subrange(all.len() - grown.len(), all.len() as int) =~= grown);
        lemma_tail_is_bounded(kept, lines.last());
        let tail = tail_after_all(lines);
        assert(tail == tail_after(kept, lines.last()));
        let skip = grown.len() - tail.len();
        assert(grown.subrange(skip, grown.len() as int) == tail);
        assert(all.subrange(all.len() - tail.len(), all.len() as int) =~= grown.subrange(
            skip,
            grown.len() as int,
        ));
    } else {
        assert(pushed_text(lines).subrange(0, 0) =~= tail_after_all(lines));
    }
}

/// The text of an I/O failure tells that storage is exhausted.
pub open spec fn tells_disk_full(error: Seq<char>) -> bool {
    contains(error, "No space left on device"@) || contains(error, "disk full"@)
}

/// Whether the text of an I/O failure tells that storage is exhausted.
pub fn is_disk_full(error: &str) -> (full: bool)
    ensures
        full == tells_disk_full(error@),
{
    str_contains(error, "No space left on device") || str_contains(error, "disk full")
}

/// Why a process could not be started.
#[derive(Debug)]
pub enum SpawnError {
    /// The binary is missing at `path`.
    BinaryNotFound { path: String },
    /// The binary at `path` may not be executed.
    PermissionDenied { path: String },
    /// The process could not bind its port.
    PortInUse,
    /// The operating system refused for another reason.
    Other { reason: String },
    /// The process reported no process id.
    NoPid,
    /// The log directory could not be created.
    LogDirectory,
    /// The log file could not be created.
    LogFile,
    /// The standard output could not be captured.
    CaptureStdout,
    /// The standard error could not be captured.
    CaptureStderr,
}

impl SpawnError {
    /// The message shown for the error.
    pub open spec fn text(self) -> Seq<char> {
        match self {
            SpawnError::BinaryNotFound { path } => "wstunnel binary not found at "@ + path@
                + ". Please verify the binary path."@,
            SpawnError::PermissionDenied { path } =>
                "Permission denied executing wstunnel binary at "@ + path@
                    + ". Check file permissions."@,
            SpawnError::PortInUse => errors::process::PORT_IN_USE@,
            SpawnError::Other { reason } => "Failed to spawn wstunnel process: "@ + reason@,
            SpawnError::NoPid => errors::process::FAILED_TO_GET_PID@,
            SpawnError::LogDirectory => errors::logs::FAILED_TO_CREATE_DIR@,
            SpawnError::LogFile => errors::logs::FAILED_TO_CREATE_FILE@,
            SpawnError::CaptureStdout => errors::process::FAILED_TO_CAPTURE_STDOUT@,
            SpawnError::CaptureStderr => errors::process::FAILED_TO_CAPTURE_STDERR@,
        }
    }

    /// The message shown for the error.
    pub fn message(&self) -> (msg: String)
        ensures
            msg@ == self.text(),
    {
        match self {
            SpawnError::BinaryNotFound { path } => errors::binary::not_found_simple(path.as_str()),
            SpawnError::PermissionDenied { path } => errors::binary::permission_denied(
                path.as_str(),
            ),
            SpawnError::PortInUse => String::from_str(errors::process::PORT_IN_USE),
            SpawnError::Other { reason } => errors::process::spawn_failed(reason.as_str()),
            SpawnError::NoPid => String::from_str(errors::process::FAILED_TO_GET_PID),
            SpawnError::LogDirectory => String::from_str(errors::logs::FAILED_TO_CREATE_DIR),
            SpawnError::LogFile => String::from_str(errors::logs::FAILED_TO_CREATE_FILE),
            SpawnError::CaptureStdout => String::from_str(
                errors::process::FAILED_TO_CAPTURE_STDOUT,
            ),
            SpawnError::CaptureStderr => String::from_str(
                errors::process::FAILED_TO_CAPTURE_STDERR,
            ),
        }
    }
}

/// Tells what kind of failure the operating system reported with the words
/// `error` when the binary at `binary_path` was to be spawned: a missing
/// binary, a refusal of permission, a port in use, or anything else, looked
/// for in this order.
pub fn classify_spawn_error(error: &str, binary_path: &str) -> (kind: SpawnError)
    ensures
        match kind {
            SpawnError::BinaryNotFound { path } => path@ == binary_path@ && (contains(
                error@,
                "No such file or directory"@,
            ) || contains(error@, "cannot find the path"@)),
            SpawnError::PermissionDenied { path } => path@ == binary_path@ && !contains(
                error@,
                "No such file or directory"@,
            ) && !contains(error@, "cannot find the path"@) && contains(
                error@,
                "Permission denied"@,
            ),
            SpawnError::PortInUse => !contains(error@, "No such file or directory"@) && !contains(
                error@,
                "cannot find the path"@,
            ) && !contains(error@, "Permission denied"@) && contains(
                error@,
                "Address already in use"@,
            ),
            SpawnError::Other { reason } => reason@ == error@ && !contains(
                error@,
                "No such file or directory"@,
            ) && !contains(error@, "cannot find the path"@) && !contains(
                error@,
                "Permission denied"@,
            ) && !contains(error@, "Address already in use"@),
            _ => false,
        },
{
    if str_contains(error, "No such file or directory") || str_contains(
        error,
        "cannot find the path",
    ) {
        SpawnError::BinaryNotFound { path: String::from_str(binary_path) }
    } else if str_contains(error, "Permission denied") {
        SpawnError::PermissionDenied { path: String::from_str(binary_path) }
    } else if str_contains(error, "Address already in use") {
        SpawnError::PortInUse
    } else {
        SpawnError::Other { reason: String::from_str(error) }
    }
}

/// The record of one live process, kept by the supervisor from the moment a
/// start is under way until the process is stopped or seen dead.
#[derive(Debug)]
pub struct ProcessInstance {
    /// The entry the process belongs to.
    pub tunnel_id: TunnelId,
    /// The process id; absent while the process is still being started.
    pub pid: Option<ProcessId>,
    /// Where the output of the process is logged; empty until it is started.
    pub log_path: String,
    /// When the record was made.
    pub started_at: Timestamp,
    /// The signal that stops the monitor of this process.
    pub cancellation_token: CancellationToken,
    /// The exit code, once known.
    pub exit_code: Option<i32>,
}

impl ProcessInstance {
    /// The record of a process that runs as `pid` and logs to `log_path`.
    pub fn new(
        tunnel_id: TunnelId,
        pid: ProcessId,
        log_path: String,
        cancellation_token: CancellationToken,
    ) -> (instance: Self)
        ensures
            instance.tunnel_id == tunnel_id,
            instance.pid == Some(pid),
            instance.log_path == log_path,
            instance.cancellation_token == cancellation_token,
            instance.exit_code is None,
    {
        ProcessInstance {
            tunnel_id,
            pid: Some(pid),
            log_path,
            started_at: Timestamp::now(),
            cancellation_token,
            exit_code: None,
        }
    }

    /// The record of a process whose start is under way.
    pub fn starting(tunnel_id: TunnelId, cancellation_token: CancellationToken) -> (instance: Self)
        ensures
            instance.tunnel_id == tunnel_id,
            instance.pid is None,
            instance.log_path@.len() == 0,
            instance.cancellation_token == cancellation_token,
            instance.exit_code is None,
    {
        ProcessInstance {
            tunnel_id,
            pid: None,
            log_path: String::new(),
            started_at: Timestamp::now(),
            cancellation_token,
            exit_code: None,
        }
    }

    /// The process id, while the process has one.
    pub fn pid(&self) -> (pid: Option<ProcessId>)
        ensures
            pid == self.pid,
    {
        self.pid
    }
}

/// What the monitor of a process is told.
#[derive(Debug)]
pub enum MonitorEvent {
    /// The signal to stop was given.
    Cancelled,
    /// A line was read from a stream.
    Line { stream: OutputStream, line: String },
    /// A stream has ended.
    Closed { stream: OutputStream },
    /// A stream could not be read.
    ReadFailed { stream: OutputStream, error: String },
    /// The line last handed out for writing could not be written to the log.
    WriteFailed { stream: OutputStream, error: String },
}

/// What the monitor of a process is to do next.
#[derive(Debug)]
pub enum MonitorAction {
    /// Write `text` to the log, then go on reading.
    Write { text: String },
    /// Go on reading the streams that are still watched.
    Continue,
    /// Flush the log and end; `report` is what to note of a failure.
    Finish { report: Option<String> },
}

/// The state of the monitor of one process: which streams it still
/// watches, and whether it has ended.
#[derive(Debug, Clone, Copy, PartialEq, Eq, Structural)]
pub struct Monitor {
    pub stdout_open: bool,
    pub stderr_open: bool,
    pub finished: bool,
}

/// What is noted when a line of `stream` could not be written to the log at
/// `log_path` for the reason that `error` spells.
pub open spec fn write_failure_report(
    stream: OutputStream,
    error: Seq<char>,
    log_path: Seq<char>,
) -> Seq<char> {
    if tells_disk_full(error) {
        "Disk full - cannot write to log file: "@ + log_path
    } else {
        match stream {
            OutputStream::Stdout => "Failed to write stdout to log: "@ + error,
            OutputStream::Stderr => "Failed to write stderr to log: "@ + error,
        }
    }
}

impl Monitor {
    /// The monitor as it is after `stream` is given up.
    pub open spec fn without(self, stream: OutputStream) -> Monitor {
        match stream {
            OutputStream::Stdout => Monitor { stdout_open: false, ..self },
            OutputStream::Stderr => Monitor { stderr_open: false, ..self },
        }
    }

    /// The monitor when it has ended.
    pub open spec fn ended(self) -> Monitor {
        Monitor { finished: true, ..self }
    }

    /// The state after `event`: the signal to stop, the end of a stream and
    /// a failure to write end the monitor; a failure to read gives the stream
    /// up and ends the monitor when no stream is left; a line changes nothing.
    /// A monitor that has ended stays as it is.
    pub open spec fn after(self, event: MonitorEvent) -> Monitor {
        if self.finished {
            self
        } else {
            match event {
                MonitorEvent::Cancelled => self.ended(),
                MonitorEvent::Line { stream, line } => self,
                MonitorEvent::Closed { stream } => self.ended(),
                MonitorEvent::ReadFailed { stream, error } => {
                    let left = self.without(stream);
                    if !left.stdout_open && !left.stderr_open {
                        left.ended()
                    } else {
                        left
                    }
                },
                MonitorEvent::WriteFailed { stream, error } => self.ended(),
            }
        }
    }

    /// What the tail of error output holds after `event`: a line of the
    /// error stream is added to it while the monitor runs.
    pub open spec fn tail_after_event(self, event: MonitorEvent, tail: Seq<char>) -> Seq<char> {
        match event {
            MonitorEvent::Line { stream, line } => if !self.finished && stream
                == OutputStream::Stderr {
                tail_after(tail, line@)
            } else {
                tail
            },
            _ => tail,
        }
    }

    /// A monitor that watches both streams.
    pub fn new() -> (monitor: Self)
        ensures
            monitor == (Monitor { stdout_open: true, stderr_open: true, finished: false }),
    {
        Monitor { stdout_open: true, stderr_open: true, finished: false }
    }

    /// Whether the monitor still reads `stream`.
    pub fn watches(&self, stream: OutputStream) -> (watched: bool)
        ensures
            watched == (!self.finished && match stream {
                OutputStream::Stdout => self.stdout_open,
                OutputStream::Stderr => self.stderr_open,
            }),
    {
        !self.finished && match stream {
            OutputStream::Stdout => self.stdout_open,
            OutputStream::Stderr => self.stderr_open,
        }
    }

    /// Takes one event and says what to do next. The log of the process is at
    /// `log_path`; `tail` keeps the newest error output.
    pub fn on_event(&mut self, event: MonitorEvent, tail: &mut StderrTail, log_path: &str) -> (action:
        MonitorAction)
        ensures
            *final(self) == old(self).after(event),
            final(tail)@ == old(self).tail_after_event(event, old(tail)@),
            match action {
                MonitorAction::Write { text } => !old(self).finished && (
                event matches MonitorEvent::Line { stream, line } && exists|
                    now: Timestamp,
                    stamp: Seq<char>,
                | #[trigger]
                    is_line_stamp(now, stamp) && text@ == log_line_text(stamp, stream, line@)),
                MonitorAction::Continue => !old(self).finished && event is ReadFailed && !final(self).finished,
                MonitorAction::Finish { report } => final(self).finished && (match report {
                    Some(note) => !old(self).finished && (
                    event matches MonitorEvent::WriteFailed { stream, error } && note@
                        == write_failure_report(stream, error@, log_path@)),
                    None => old(self).finished || !(event is WriteFailed),
                }),
            },
    {
        if self.finished {
            return MonitorAction::Finish { report: None };
        }
        match event {
            MonitorEvent::Cancelled => {
                self.finished = true;
                MonitorAction::Finish { report: None }
            },
            MonitorEvent::Line { stream, line } => {
                let now = Timestamp::now();
                let stamp = line_stamp(&now);
                let text = log_line(stamp.as_str(), stream, line.as_str());
                match stream {
                    OutputStream::Stderr => {
                        tail.push_line(line.as_str());
                    },
                    OutputStream::Stdout => {},
                }
                proof {
                    assert(is_line_stamp(now, stamp@) && text@ == log_line_text(
                        stamp@,
                        stream,
                        line@,
                    ));
                }
                MonitorAction::Write { text }
            },
            MonitorEvent::Closed { stream } => {
                self.finished = true;
                MonitorAction::Finish { report: None }
            },
            MonitorEvent::ReadFailed { stream, error } => {
                match stream {
                    OutputStream::Stdout => {
                        self.stdout_open = false;
                    },
                    OutputStream::Stderr => {
                        self.stderr_open = false;
                    },
                }
                if !self.stdout_open && !self.stderr_open {
                    self.finished = true;
                    MonitorAction::Finish { report: None }
                } else {
                    MonitorAction::Continue
                }
            },
            MonitorEvent::WriteFailed { stream, error } => {
                self.finished = true;
                let note = if is_disk_full(error.as_str()) {
                    errors::disk::full_log_write(log_path)
                } else {
                    match stream {
                        OutputStream::Stdout => errors::logs::failed_to_write_stdout(
                            error.as_str(),
                        ),
                        OutputStream::Stderr => errors::logs::failed_to_write_stderr(
                            error.as_str(),
                        ),
                    }
                };
                MonitorAction::Finish { report: Some(note) }
            },
        }
    }
}

/// The signal to stop is observed whatever else the monitor waits for, and a
/// monitor that has ended never runs again.
pub proof fn lemma_monitor_ends(monitor: Monitor, event: MonitorEvent)
    ensures
        monitor.finished ==> monitor.after(event) == monitor,
        event is Cancelled ==> monitor.after(event).finished,
        event is WriteFailed ==> monitor.after(event).finished,
        monitor.after(event).finished || (monitor.after(event).stdout_open || monitor.after(
            event,
        ).stderr_open) || !(monitor.stdout_open || monitor.stderr_open),
{
}

} // verus!
