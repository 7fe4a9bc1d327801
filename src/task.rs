//! A journal entry: descriptive text and the instant it was created.
use chrono::{DateTime, Local, TimeZone, Utc};
use vstd::prelude::*;
use vstd::string::*;

verus! {

/// Minimum width, in characters, of the text column of a rendered task.
pub const TEXT_WIDTH: usize = 50;

/// Largest distance, in seconds from the epoch, of an instant that is
/// guaranteed to render (about 250,000 years on either side).
pub const SECS_BOUND: i64 = 8_000_000_000_000;

/// One entry of the journal.
pub struct Task {
    /// What the task is about, e.g. "pay the bills".
    pub text: String,
    /// Creation instant, in whole seconds since the Unix epoch (UTC).
    pub created_at: i64,
}

/// The wall-clock text `YYYY-MM-DD HH:MM` of an instant given in seconds.
pub uninterp spec fn minute_text(local_secs: int) -> Seq<char>;

pub open spec fn in_clock_range(secs: int) -> bool {
    -SECS_BOUND <= secs <= SECS_BOUND
}

pub open spec fn spaces(n: nat) -> Seq<char>
    decreases n,
{
    if n == 0 {
        Seq::empty()
    } else {
        spaces((n - 1) as nat).push(' ')
    }
}

/// `text` left-justified in a column of at least `width` characters.
pub open spec fn padded(text: Seq<char>, width: nat) -> Seq<char> {
    if text.len() >= width {
        text
    } else {
        text + spaces((width - text.len()) as nat)
    }
}

/// The display line of a task whose text is `text` and whose local
/// creation time reads `stamp`.
pub open spec fn line_of(text: Seq<char>, stamp: Seq<char>) -> Seq<char> {
    padded(text, TEXT_WIDTH as nat) + seq![' ', '['] + stamp + seq![']']
}

/// `line` is the display line of `t` for some local-time offset that
/// chrono can represent (strictly within one day of UTC).
pub open spec fn renders_as(t: Task, line: Seq<char>) -> bool {
    exists|offset: int|
        -86400 < offset < 86400 && line == line_of(t.text@, #[trigger] minute_text(t.created_at + offset))
}

/// Relies on chrono's `From<SystemTime>` for `DateTime<Utc>` and on
/// `DateTime::timestamp`: the system clock's current instant in whole
/// seconds, before the epoch as well as after. Nothing is known of the value.
#[verifier::external_body]
fn now_seconds() -> (r: i64) {
    DateTime::<Utc>::from(std::time::SystemTime::now()).timestamp()
}

/// Relies on chrono's `DateTime::from_timestamp`, which accepts every
/// instant within `SECS_BOUND` (plus a day), and on `Local`'s
/// `offset_from_utc_datetime`, whose `FixedOffset` lies strictly within a
/// day of UTC. The offset depends on the machine's time zone, so no more is
/// said of it; chrono stops only where that zone's description is malformed.
#[verifier::external_body]
fn local_offset_at(secs: i64) -> (r: Option<i32>)
    ensures
        in_clock_range(secs as int) ==> r is Some,
        r matches Some(o) ==> -86400 < o < 86400,
{
    let d = DateTime::from_timestamp(secs, 0)?;
    Some(Local.offset_from_utc_datetime(&d.naive_utc()).local_minus_utc())
}

/// Relies on chrono's `DateTime::from_timestamp` and on its `%F %H:%M`
/// formatting: the wall-clock text of an instant, which depends on the
/// instant alone.
#[verifier::external_body]
fn minute_stamp(local_secs: i64) -> (r: Option<String>)
    ensures
        -SECS_BOUND - 86400 <= local_secs <= SECS_BOUND + 86400 ==> r is Some,
        r matches Some(s) ==> s@ == minute_text(local_secs as int),
{
    let d = DateTime::from_timestamp(local_secs, 0)?;
    Some(d.naive_utc().format("%F %H:%M").to_string())
}

/// The display line of a task with text `text` whose local creation time
/// reads `stamp`: the text padded with spaces to `TEXT_WIDTH` characters,
/// then a space and the stamp in square brackets.
pub fn format_line(text: &str, stamp: &str) -> (r: String)
    ensures
        r@ == line_of(text@, stamp@),
{
    let mut out = String::from_str(text);
    let len = text.unicode_len();
    let mut n: usize = len;
    proof {
        assert(out@ =~= text@ + spaces(0));
    }
    while n < TEXT_WIDTH
        invariant
            len == text@.len(),
            n >= len,
            len < TEXT_WIDTH ==> n <= TEXT_WIDTH,
            len >= TEXT_WIDTH ==> n == len,
            out@ == text@ + spaces((n - len) as nat),
        decreases TEXT_WIDTH - n,
    {
        proof {
            reveal_strlit(" ");
        }
        out.append(" ");
        proof {
            assert(spaces((n + 1 - len) as nat) == spaces((n - len) as nat).push(' '));
            assert(out@ =~= text@ + spaces((n + 1 - len) as nat));
        }
        n = n + 1;
    }
    let ghost body = out@;
    proof {
        assert(body == padded(text@, TEXT_WIDTH as nat)) by {
            if len >= TEXT_WIDTH {
                assert(spaces(0) =~= Seq::<char>::empty());
                assert(body =~= text@);
            }
        }
        reveal_strlit(" [");
        reveal_strlit("]");
    }
    out.append(" [");
    out.append(stamp);
    out.append("]");
    proof {
        assert(out@ =~= line_of(text@, stamp@));
    }
    out
}

impl Task {
    /// A task holding `text`, created at `created_at` (seconds since the epoch).
    pub fn with_instant(text: String, created_at: i64) -> (r: Task)
        ensures
            r.text@ == text@,
            r.created_at == created_at,
    {
        Task { text, created_at }
    }

    /// A task holding `text`, stamped with the current instant.
    pub fn new(text: String) -> (r: Task)
        ensures
            r.text@ == text@,
    {
        Task::with_instant(text, now_seconds())
    }

    /// The display line of the record, its creation instant shifted by
    /// `offset` seconds (local time minus UTC); `None` where that instant
    /// is out of range.
    pub fn render_at(&self, offset: i32) -> (r: Option<String>)
        requires
            -86400 < offset < 86400,
        ensures
            in_clock_range(self.created_at as int) ==> r is Some,
            r matches Some(s) ==> s@ == line_of(self.text@, minute_text(self.created_at + offset)),
    {
        let local = match self.created_at.checked_add(offset as i64) {
            Some(l) => l,
            None => return None,
        };
        let stamp = match minute_stamp(local) {
            Some(s) => s,
            None => return None,
        };
        Some(format_line(self.text.as_str(), stamp.as_str()))
    }

    /// The display line of the record, its creation instant shown in the
    /// local time zone; `None` where that instant is out of range.
    pub fn render(&self) -> (r: Option<String>)
        ensures
            in_clock_range(self.created_at as int) ==> r is Some,
            r matches Some(s) ==> renders_as(*self, s@),
    {
        let offset = match local_offset_at(self.created_at) {
            Some(o) => o,
            None => return None,
        };
        self.render_at(offset)
    }
}

} // verus!
