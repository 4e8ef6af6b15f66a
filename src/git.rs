use vstd::prelude::*;

verus! {

/// When a commit was authored: seconds since the epoch, and the author's
/// offset from UTC in minutes.
#[derive(Clone, Copy, Debug, PartialEq, Eq, Structural)]
pub struct CommitTime {
    pub seconds: i64,
    pub offset_minutes: i32,
}

/// What the history list shows of a commit.
#[derive(Debug)]
pub struct CommitInfo {
    /// The commit id, in hexadecimal.
    pub oid: String,
    pub time: CommitTime,
    pub author: String,
    pub message: String,
}

/// Stands for a name or summary that is not valid UTF-8.
pub open spec fn invalid_utf8_text() -> Seq<char> {
    seq!['<', 'i', 'n', 'v', 'a', 'l', 'i', 'd', ' ', 'u', 't', 'f', '8', '>']
}

impl CommitInfo {
    /// A commit's summary; a missing author name or summary line (one that is
    /// not valid UTF-8) reads as `<invalid utf8>`.
    pub fn new(
        oid: String,
        time: CommitTime,
        author: Option<String>,
        message: Option<String>,
    ) -> (r: CommitInfo)
        ensures
            r.oid@ == oid@,
            r.time == time,
            r.author@ == match author {
                Some(a) => a@,
                None => invalid_utf8_text(),
            },
            r.message@ == match message {
                Some(m) => m@,
                None => invalid_utf8_text(),
            },
    {
        let author = match author {
            Some(a) => a,
            None => invalid_utf8(),
        };
        let message = match message {
            Some(m) => m,
            None => invalid_utf8(),
        };
        CommitInfo { oid, time, author, message }
    }

    /// A copy of this commit's summary.
    pub fn duplicate(&self) -> (r: CommitInfo)
        ensures
            r == *self,
    {
        CommitInfo {
            oid: self.oid.clone(),
            time: self.time,
            author: self.author.clone(),
            message: self.message.clone(),
        }
    }
}

fn invalid_utf8() -> (r: String)
    ensures
        r@ == invalid_utf8_text(),
{
    proof {
        reveal_strlit("<invalid utf8>");
    }
    let r = String::from_str("<invalid utf8>");
    assert(r@ =~= invalid_utf8_text());
    r
}

} // verus!
