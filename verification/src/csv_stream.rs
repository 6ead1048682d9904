use crate::clock::{
    duration_from_secs, instant_after, instant_at_or_after, instant_checked_add, instant_reached,
    secs_duration,
};
use crate::message::UserMessage;
use crate::text::{lines, lines_seq, parse_u64, parse_u64_seq, split, split_seq, views};
use std::collections::VecDeque;
use std::time::Instant;
use vstd::prelude::*;

verus! {

/// A chat stream replayed from a CSV file: each row after the header holds a
/// user name, a message and a delay in seconds.
#[derive(Debug)]
pub struct CsvMessageStream {
    /// When the replay started.
    pub start: Instant,
    /// The messages not yet delivered, in file order.
    pub messages: VecDeque<UserMessage>,
}

/// Why a CSV file cannot be replayed.
#[derive(Debug)]
pub enum CsvError {
    /// A row has fewer than three fields; holds the row.
    MissingFields(String),
    /// The third field of a row is not a number of seconds; holds the row.
    InvalidNumber(String),
    /// A row's due time cannot be represented as an instant.
    TimestampOverflow,
}

/// The data rows of a CSV text: its lines after the first.
pub open spec fn csv_rows(contents: Seq<char>) -> Seq<Seq<char>> {
    let ls = lines_seq(contents);
    if ls.len() > 0 {
        ls.skip(1)
    } else {
        Seq::empty()
    }
}

/// The comma-separated fields of a row.
pub open spec fn csv_fields(row: Seq<char>) -> Seq<Seq<char>> {
    split_seq(row, ',')
}

/// A row that can be replayed: at least three fields, the third a number.
pub open spec fn row_ok(row: Seq<char>) -> bool {
    csv_fields(row).len() >= 3 && parse_u64_seq(csv_fields(row)[2]) is Some
}

/// Row `k` is the first row that cannot be replayed.
pub open spec fn first_bad_row(rows: Seq<Seq<char>>, k: int) -> bool {
    &&& 0 <= k < rows.len()
    &&& !row_ok(rows[k])
    &&& forall|j: int| 0 <= j < k ==> row_ok(#[trigger] rows[j])
}

/// One data row of a recorded chat.
#[derive(Debug)]
pub struct CsvRow {
    pub username: String,
    pub message: String,
    /// Seconds after the start at which the message is due.
    pub delay_secs: u64,
}

/// `s` is the schedule of `rows` from `start`: each row's message in row
/// order, due its delay after `start`.
pub open spec fn scheduled_from(s: CsvMessageStream, rows: Seq<CsvRow>, start: Instant) -> bool {
    &&& s.start == start
    &&& s.messages@.len() == rows.len()
    &&& forall|j: int|
        0 <= j < rows.len() ==> entry_of_row(#[trigger] s.messages@[j], rows[j])
            && s.messages@[j].timestamp == instant_after(
            start,
            secs_duration(rows[j].delay_secs),
        )
}

/// `r` holds what `row` says: its first field is the user name, the second
/// the text, the third the delay.
pub open spec fn row_parsed(r: CsvRow, row: Seq<char>) -> bool {
    let f = csv_fields(row);
    &&& r.username@ == f[0]
    &&& r.message@ == f[1]
    &&& Some(r.delay_secs) == parse_u64_seq(f[2])
}

/// What `parse_csv_rows` yields for a CSV text: every row when all can be
/// replayed, otherwise the error of the first row that cannot.
pub open spec fn csv_rows_result(contents: Seq<char>, r: Result<Vec<CsvRow>, CsvError>) -> bool {
    let rows = csv_rows(contents);
    &&& r is Ok <==> (forall|j: int| 0 <= j < rows.len() ==> row_ok(#[trigger] rows[j]))
    &&& match r {
        Ok(v) => {
            &&& v@.len() == rows.len()
            &&& forall|j: int| 0 <= j < rows.len() ==> row_parsed(#[trigger] v@[j], rows[j])
        },
        Err(CsvError::MissingFields(l)) => exists|k: int|
            first_bad_row(rows, k) && csv_fields(rows[k]).len() < 3 && l@ == rows[k],
        Err(CsvError::InvalidNumber(l)) => exists|k: int|
            first_bad_row(rows, k) && csv_fields(rows[k]).len() >= 3 && l@ == rows[k],
        Err(CsvError::TimestampOverflow) => false,
    }
}

/// The message built from a row: the user name is also the user id, and
/// the broadcast fields hold placeholders.
pub open spec fn entry_of_row(e: UserMessage, r: CsvRow) -> bool {
    &&& e.user_id@ == r.username@
    &&& e.username@ == r.username@
    &&& e.message@ == r.message@
    &&& e.broadcast_id@ == "placeholder_id"@
    &&& e.broadcaster_name@ == "placeholder_name"@
}

/// Reads the data rows of a CSV text (its first line is a header). Fails on
/// the first row with fewer than three fields or whose third field is not a
/// number.
pub fn parse_csv_rows(contents: &str) -> (r: Result<Vec<CsvRow>, CsvError>)
    ensures
        csv_rows_result(contents@, r),
{
    let ls = lines(contents);
    let ghost lv = views(ls@);
    let ghost rows = csv_rows(contents@);
    let mut out: Vec<CsvRow> = Vec::new();
    if ls.len() == 0 {
        return Ok(out);
    }
    proof {
        assert(rows == lv.skip(1));
    }
    let mut k: usize = 1;
    while k < ls.len()
        invariant
            lv == views(ls@),
            lv == lines_seq(contents@),
            rows == lv.skip(1),
            rows == csv_rows(contents@),
            1 <= k <= ls@.len(),
            out@.len() == k - 1,
            forall|j: int| 0 <= j < k - 1 ==> row_ok(#[trigger] rows[j]),
            forall|j: int| 0 <= j < k - 1 ==> row_parsed(#[trigger] out@[j], rows[j]),
        decreases ls@.len() - k,
    {
        let line = &ls[k];
        assert(rows[k - 1] == line@);
        let parts = split(line.as_str(), ',');
        proof {
            assert(views(parts@) == csv_fields(rows[k - 1]));
        }
        if parts.len() < 3 {
            let l = line.clone();
            proof {
                let kk = k - 1;
                assert(first_bad_row(rows, kk as int));
                assert(!row_ok(rows[kk as int]));
                assert(exists|j: int|
                    first_bad_row(rows, j) && csv_fields(rows[j]).len() < 3 && l@ == rows[j]);
            }
            return Err(CsvError::MissingFields(l));
        }
        assert(parts@[2]@ == csv_fields(rows[k - 1])[2]);
        let delay_secs = match parse_u64(parts[2].as_str()) {
            Some(v) => v,
            None => {
                let l = line.clone();
                proof {
                    let kk = k - 1;
                    assert(first_bad_row(rows, kk as int));
                    assert(!row_ok(rows[kk as int]));
                    assert(exists|j: int|
                        first_bad_row(rows, j) && csv_fields(rows[j]).len() >= 3 && l@ == rows[j]);
                }
                return Err(CsvError::InvalidNumber(l));
            },
        };
        assert(parts@[0]@ == csv_fields(rows[k - 1])[0]);
        assert(parts@[1]@ == csv_fields(rows[k - 1])[1]);
        let row = CsvRow {
            username: parts[0].clone(),
            message: parts[1].clone(),
            delay_secs,
        };
        let ghost before = out@;
        out.push(row);
        proof {
            assert(out@ == before.push(row));
            assert(row_parsed(out@[k - 1], rows[k - 1]));
        }
        k += 1;
    }
    Ok(out)
}

/// `post` and `r` are what delivering from `pre` at `now` gives: the oldest
/// message when `now` has reached its timestamp, nothing otherwise.
pub open spec fn released(
    pre: CsvMessageStream,
    now: Instant,
    r: Option<UserMessage>,
    post: CsvMessageStream,
) -> bool {
    if pre.messages@.len() > 0 && instant_reached(now, pre.messages@[0].timestamp) {
        &&& r == Some(pre.messages@[0])
        &&& post.messages@ == pre.messages@.drop_first()
        &&& post.start == pre.start
    } else {
        r is None && post == pre
    }
}

/// The message of a row, due at `due`.
pub fn scheduled_message(row: &CsvRow, due: Instant) -> (e: UserMessage)
    ensures
        entry_of_row(e, *row),
        e.timestamp == due,
{
    UserMessage::new(
        row.username.as_str(),
        row.username.as_str(),
        row.message.as_str(),
        "placeholder_id",
        "placeholder_name",
        due,
    )
}

impl CsvMessageStream {
    /// Schedules each row's message at the instant given for it, in row
    /// order, the stream starting at `start`; fails when some row has no
    /// instant (its due time cannot be represented).
    pub fn schedule_at(rows: Vec<CsvRow>, dues: Vec<Option<Instant>>, start: Instant) -> (r: Result<
        Self,
        CsvError,
    >)
        requires
            dues@.len() == rows@.len(),
        ensures
            r is Ok <==> (forall|j: int| 0 <= j < dues@.len() ==> (#[trigger] dues@[j]) is Some),
            match r {
                Ok(s) => {
                    &&& s.start == start
                    &&& s.messages@.len() == rows@.len()
                    &&& forall|j: int|
                        0 <= j < rows@.len() ==> entry_of_row(#[trigger] s.messages@[j], rows@[j])
                            && Some(s.messages@[j].timestamp) == dues@[j]
                },
                Err(e) => e is TimestampOverflow,
            },
    {
        let mut messages: VecDeque<UserMessage> = VecDeque::new();
        let mut k: usize = 0;
        while k < rows.len()
            invariant
                dues@.len() == rows@.len(),
                k <= rows@.len(),
                messages@.len() == k,
                forall|j: int| 0 <= j < k ==> (#[trigger] dues@[j]) is Some,
                forall|j: int|
                    0 <= j < k ==> entry_of_row(#[trigger] messages@[j], rows@[j]) && Some(
                        messages@[j].timestamp,
                    ) == dues@[j],
            decreases rows@.len() - k,
        {
            let due = match dues[k] {
                Some(t) => t,
                None => {
                    assert(dues@[k as int] is None);
                    return Err(CsvError::TimestampOverflow);
                },
            };
            let e = scheduled_message(&rows[k], due);
            let ghost before = messages@;
            messages.push_back(e);
            proof {
                assert(messages@ == before.push(e));
                assert(entry_of_row(messages@[k as int], rows@[k as int]));
            }
            k += 1;
        }
        Ok(CsvMessageStream { start, messages })
    }

    /// Schedules the rows' messages at `start` plus each row's delay, in row
    /// order: as `schedule_at` does with the instants that
    /// `Instant::checked_add` computes. With no rows there is nothing to
    /// compute and it succeeds.
    pub fn schedule(rows: Vec<CsvRow>, start: Instant) -> (r: Result<Self, CsvError>)
        ensures
            rows@.len() == 0 ==> r is Ok,
            match r {
                Ok(s) => scheduled_from(s, rows@, start),
                Err(e) => e is TimestampOverflow,
            },
    {
        let mut dues: Vec<Option<Instant>> = Vec::new();
        let mut k: usize = 0;
        while k < rows.len()
            invariant
                k <= rows@.len(),
                dues@.len() == k,
                forall|j: int|
                    0 <= j < k ==> (#[trigger] dues@[j] matches Some(x) ==> x == instant_after(
                        start,
                        secs_duration(rows@[j].delay_secs),
                    )),
            decreases rows@.len() - k,
        {
            dues.push(instant_checked_add(start, duration_from_secs(rows[k].delay_secs)));
            k += 1;
        }
        Self::schedule_at(rows, dues, start)
    }

    /// Reads a CSV text into messages due `start` plus each row's delay: the
    /// rows as `parse_csv_rows` reads them, scheduled as `schedule` does.
    /// Every data row must have at least three fields and a number of
    /// seconds in the third (`parse_csv_rows` tells whether they do).
    pub fn from_contents(contents: &str, start: Instant) -> (r: Result<Self, CsvError>)
        requires
            forall|j: int|
                0 <= j < csv_rows(contents@).len() ==> row_ok(#[trigger] csv_rows(contents@)[j]),
        ensures
            csv_rows(contents@).len() == 0 ==> r is Ok,
            match r {
                Ok(s) => exists|v: Vec<CsvRow>|
                    csv_rows_result(contents@, Ok(v)) && scheduled_from(s, v@, start),
                Err(e) => e is TimestampOverflow,
            },
    {
        match parse_csv_rows(contents) {
            Ok(rows) => {
                let ghost v = rows;
                let r = Self::schedule(rows, start);
                proof {
                    assert(csv_rows_result(contents@, Ok(v)));
                }
                r
            },
            Err(e) => {
                assert(false);
                Err(e)
            },
        }
    }

    /// Delivers the oldest undelivered message once it is due, that is once
    /// `now` has reached its timestamp.
    pub fn next_message(&mut self, now: Instant) -> (r: Option<UserMessage>)
        ensures
            released(*old(self), now, r, *final(self)),
    {
        if self.messages.len() > 0 && instant_at_or_after(now, self.messages[0].timestamp) {
            match self.messages.pop_front() {
                Some(e) => Some(e),
                None => None,
            }
        } else {
            None
        }
    }

    /// Number of messages not yet delivered.
    pub fn pending(&self) -> (r: usize)
        ensures
            r == self.messages@.len(),
    {
        self.messages.len()
    }
}

} // verus!
