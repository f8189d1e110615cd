use vstd::prelude::*;

verus! {

/// An instant, as seconds since the Unix epoch and nanoseconds past that
/// second (the nanoseconds exceed 999,999,999 only inside a leap second).
#[derive(Clone, Copy, Debug, PartialEq, Eq)]
pub struct Timestamp {
    pub secs: i64,
    pub nanos: u32,
}

impl Timestamp {
    /// Nanoseconds since the Unix epoch.
    pub open spec fn total_nanos(self) -> int {
        self.secs * 1_000_000_000 + self.nanos
    }

    /// Whether this instant comes after `other`: instants are ordered by
    /// their second first, then by the nanoseconds past it.
    pub open spec fn is_after(self, other: Timestamp) -> bool {
        self.secs > other.secs || (self.secs == other.secs && self.nanos > other.nanos)
    }

    /// Whether this instant comes after `other`.
    pub fn later_than(&self, other: &Timestamp) -> (r: bool)
        ensures
            r == self.is_after(*other),
    {
        self.secs > other.secs || (self.secs == other.secs && self.nanos > other.nanos)
    }
}

/// One command of the shell history.
#[derive(Debug, PartialEq, Eq)]
pub struct HistoryEntry {
    pub id: String,
    /// When the command started.
    pub timestamp: Timestamp,
    /// How long the command ran, in nanoseconds (`-1` when unknown).
    pub duration: i64,
    /// The command's exit status.
    pub exit: i64,
    pub command: String,
    /// The directory the command ran in.
    pub cwd: String,
    pub session: String,
    pub hostname: String,
}

impl HistoryEntry {
    /// A copy of this entry, field for field.
    pub fn duplicate(&self) -> (r: HistoryEntry)
        ensures
            r == *self,
    {
        HistoryEntry {
            id: self.id.clone(),
            timestamp: Timestamp { secs: self.timestamp.secs, nanos: self.timestamp.nanos },
            duration: self.duration,
            exit: self.exit,
            command: self.command.clone(),
            cwd: self.cwd.clone(),
            session: self.session.clone(),
            hostname: self.hostname.clone(),
        }
    }
}

} // verus!
