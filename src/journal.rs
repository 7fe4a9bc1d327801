//! The journal: an ordered sequence of tasks, identified by 1-based
//! position, and the operations that read and change it.
use crate::task::{in_clock_range, renders_as, Task};
use vstd::prelude::*;
use vstd::string::*;

verus! {

/// Why an operation on the journal did not go through.
#[derive(Debug, PartialEq, Eq, Structural)]
pub enum JournalError {
    /// The stored content is present but is not a well-formed journal.
    Decode,
    /// A task position of 0, or past the end of the journal.
    InvalidTaskId,
    /// A task whose creation instant cannot be shown in local time.
    Unrenderable,
}

/// What listing the journal shows.
pub enum Listing {
    /// The journal holds no task.
    Empty,
    /// One line per task, in stored order.
    Lines(Vec<String>),
}

/// `position` names a task of a journal of `len` tasks.
pub open spec fn valid_position(len: nat, position: int) -> bool {
    1 <= position <= len
}

pub open spec fn digit_char(d: nat) -> char {
    if d == 0 { '0' }
    else if d == 1 { '1' }
    else if d == 2 { '2' }
    else if d == 3 { '3' }
    else if d == 4 { '4' }
    else if d == 5 { '5' }
    else if d == 6 { '6' }
    else if d == 7 { '7' }
    else if d == 8 { '8' }
    else { '9' }
}

/// Decimal digits of `n`, without sign or leading zeros.
pub open spec fn decimal(n: nat) -> Seq<char>
    decreases n,
{
    if n < 10 {
        seq![digit_char(n)]
    } else {
        decimal(n / 10).push(digit_char(n % 10))
    }
}

/// The listing line of the task at `position` whose display line is `rendered`.
pub open spec fn entry_of(position: nat, rendered: Seq<char>) -> Seq<char> {
    decimal(position) + seq![':', ' '] + rendered
}

/// `entry` is the listing line at `position` of task `t`.
pub open spec fn listed_as(entry: Seq<char>, position: nat, t: Task) -> bool {
    exists|line: Seq<char>| entry == #[trigger] entry_of(position, line) && renders_as(t, line)
}

fn digit_str(d: u64) -> (r: &'static str)
    requires
        d < 10,
    ensures
        r@ == seq![digit_char(d as nat)],
{
    proof {
        reveal_strlit("0");
        reveal_strlit("1");
        reveal_strlit("2");
        reveal_strlit("3");
        reveal_strlit("4");
        reveal_strlit("5");
        reveal_strlit("6");
        reveal_strlit("7");
        reveal_strlit("8");
        reveal_strlit("9");
    }
    if d == 0 { "0" }
    else if d == 1 { "1" }
    else if d == 2 { "2" }
    else if d == 3 { "3" }
    else if d == 4 { "4" }
    else if d == 5 { "5" }
    else if d == 6 { "6" }
    else if d == 7 { "7" }
    else if d == 8 { "8" }
    else { "9" }
}

/// `n` written in decimal.
pub fn decimal_text(n: u64) -> (r: String)
    ensures
        r@ == decimal(n as nat),
    decreases n,
{
    if n < 10 {
        String::from_str(digit_str(n))
    } else {
        let mut s = decimal_text(n / 10);
        s.append(digit_str(n % 10));
        s
    }
}

/// The listing line `<position>: <rendered>`.
pub fn list_entry(position: u64, rendered: &str) -> (r: String)
    ensures
        r@ == entry_of(position as nat, rendered@),
{
    let mut s = decimal_text(position);
    proof {
        reveal_strlit(": ");
    }
    s.append(": ");
    s.append(rendered);
    proof {
        assert(s@ =~= entry_of(position as nat, rendered@));
    }
    s
}

/// The journal held by the stored `content`, given what parsing it gave
/// (`None` where it is malformed): empty content is an empty journal,
/// whatever the parse said; any other content is what the parse gave, or a
/// decode error.
pub fn collect_tasks(content: &[u8], parsed: Option<Vec<Task>>) -> (r: Result<
    Vec<Task>,
    JournalError,
>)
    ensures
        content@.len() == 0 ==> (r matches Ok(v) && v@.len() == 0),
        content@.len() > 0 ==> match parsed {
            Some(v) => r == Ok::<Vec<Task>, JournalError>(v),
            None => r == Err::<Vec<Task>, JournalError>(JournalError::Decode),
        },
{
    if content.len() == 0 {
        Ok(Vec::new())
    } else {
        match parsed {
            Some(v) => Ok(v),
            None => Err(JournalError::Decode),
        }
    }
}

/// Appends `task` after every task already in the journal.
pub fn add_task(tasks: &mut Vec<Task>, task: Task)
    ensures
        final(tasks)@ == old(tasks)@.push(task),
{
    tasks.push(task);
}

/// Removes the task at 1-based `task_position`; the tasks after it move
/// one position earlier. A position of 0 or past the end is refused and
/// the journal is left as it was.
pub fn complete_task(tasks: &mut Vec<Task>, task_position: usize) -> (r: Result<(), JournalError>)
    ensures
        r is Ok <==> valid_position(old(tasks)@.len(), task_position as int),
        r is Ok ==> final(tasks)@ == old(tasks)@.remove(task_position - 1),
        r is Err ==> r == Err::<(), JournalError>(JournalError::InvalidTaskId)
            && final(tasks)@ == old(tasks)@,
{
    if task_position == 0 || task_position > tasks.len() {
        return Err(JournalError::InvalidTaskId);
    }
    tasks.remove(task_position - 1);
    Ok(())
}

/// Adding a task keeps every earlier task where it was and puts the new
/// one last: the journal grows by exactly one.
pub proof fn lemma_add_is_append_only(before: Seq<Task>, task: Task)
    ensures
        before.push(task).len() == before.len() + 1,
        forall|i: int| 0 <= i < before.len() ==> #[trigger] before.push(task)[i] == before[i],
        before.push(task).last() == task,
{
}

/// Completing the task at a valid `position` leaves one task fewer: those
/// before it keep their places, and each one after it moves one place down.
pub proof fn lemma_complete_shifts_down(before: Seq<Task>, position: int)
    requires
        valid_position(before.len(), position),
    ensures
        before.remove(position - 1).len() == before.len() - 1,
        forall|i: int| 0 <= i < position - 1 ==> #[trigger] before.remove(position - 1)[i] == before[i],
        forall|i: int|
            position - 1 <= i < before.len() - 1 ==> #[trigger] before.remove(position - 1)[i]
                == before[i + 1],
{
}

/// Starting from an empty journal, adding `first` then `second` and
/// completing position 1 leaves `second` alone, at position 1.
pub proof fn lemma_add_add_complete_first(first: Task, second: Task)
    ensures
        valid_position(seq![].push(first).push(second).len(), 1),
        seq![].push(first).push(second).remove(0) == seq![second],
{
    assert(seq![].push(first).push(second).remove(0) =~= seq![second]);
}

/// The listing of the journal: `Empty` for an empty journal, else the line
/// `<position>: <display line>` of each task in stored order, positions
/// counted from 1. Fails only on a task that cannot be rendered.
pub fn list_tasks(tasks: &Vec<Task>) -> (r: Result<Listing, JournalError>)
    requires
        tasks@.len() < u64::MAX,
    ensures
        (forall|i: int| 0 <= i < tasks@.len() ==> in_clock_range(#[trigger] tasks@[i].created_at as int))
            ==> r is Ok,
        r is Err ==> r == Err::<Listing, JournalError>(JournalError::Unrenderable),
        r matches Ok(l) ==> ((l is Empty) <==> tasks@.len() == 0),
        r matches Ok(Listing::Lines(v)) ==> v@.len() == tasks@.len() && forall|i: int|
            0 <= i < v@.len() ==> listed_as(#[trigger] v@[i]@, (i + 1) as nat, tasks@[i]),
{
    if tasks.len() == 0 {
        return Ok(Listing::Empty);
    }
    let mut lines: Vec<String> = Vec::new();
    let mut i: usize = 0;
    while i < tasks.len()
        invariant
            i <= tasks@.len() < u64::MAX,
            lines@.len() == i,
            forall|j: int| 0 <= j < i ==> listed_as(#[trigger] lines@[j]@, (j + 1) as nat, tasks@[j]),
        decreases tasks@.len() - i,
    {
        let rendered = match tasks[i].render() {
            Some(s) => s,
            None => return Err(JournalError::Unrenderable),
        };
        let entry = list_entry((i + 1) as u64, rendered.as_str());
        assert(listed_as(entry@, (i + 1) as nat, tasks@[i as int]));
        lines.push(entry);
        i = i + 1;
    }
    Ok(Listing::Lines(lines))
}

} // verus!
