//! Naming and bookkeeping of the files a launched process's output is
//! captured into.
//!
//! A capture lives under a per-game directory, named by the moment it was
//! taken; a run-time capture can later be copied to a persistent home. All
//! path text is computed and specified here; creating, writing and copying
//! the files is the caller's work.

use crate::text::dec_str;
use chrono::Datelike;
use chrono::Timelike;
use vstd::prelude::*;
use vstd::string::StrSliceExecFns;
use vstd::string::StringExecFns;

verus! {

/// Which of a process's output streams a log holds.
#[derive(Debug, PartialEq, Eq, Structural, Clone, Copy)]
pub enum ProcessOutputLogKind {
    Stderr,
    Stdout,
}

impl ProcessOutputLogKind {
    /// The file extension a capture of this stream is stored under.
    pub fn as_file_extension(&self) -> (r: &str)
        ensures
            r@ == file_extension(*self),
    {
        match self {
            ProcessOutputLogKind::Stderr => "errlog",
            ProcessOutputLogKind::Stdout => "outlog",
        }
    }
}

/// The file extension for a capture of the given stream.
pub open spec fn file_extension(kind: ProcessOutputLogKind) -> Seq<char> {
    match kind {
        ProcessOutputLogKind::Stderr => "errlog"@,
        ProcessOutputLogKind::Stdout => "outlog"@,
    }
}

/// How creating or copying an output log failed; each variant holds the
/// failure's description and the paths involved.
#[derive(Debug, Clone, PartialEq, Eq)]
pub enum ProcessOutputLogError {
    CreateUniqueLogDirectory(String, String),
    CreateOutputLogFile(String, String),
    CreateStdioFromOutputLog(String, String),
    CopyRuntimeToPersistent(String, String, String),
}

/// A wall-clock moment, split into calendar and clock fields.
#[derive(Debug, PartialEq, Eq, Structural, Clone, Copy)]
pub struct Timestamp {
    pub year: i32,
    pub month: u8,
    pub day: u8,
    pub hour: u8,
    pub minute: u8,
    pub second: u8,
}

impl Timestamp {
    /// The field ranges a calendar timestamp satisfies.
    pub open spec fn wf(self) -> bool {
        &&& 1 <= self.month <= 12
        &&& 1 <= self.day <= 31
        &&& self.hour <= 23
        &&& self.minute <= 59
        &&& self.second <= 59
    }
}

/// The current local wall-clock time.
///
/// Relies on `chrono::Local::now` for the moment, and on chrono's `Datelike`
/// and `Timelike` accessors, whose documentation bounds the month to 1..=12,
/// the day to 1..=31, the hour to 0..=23, and the minute and second to
/// 0..=59.
#[verifier::external_body]
fn timestamp_now() -> (t: Timestamp)
    ensures
        t.wf(),
{
    let now = chrono::Local::now().naive_local();
    Timestamp {
        year: now.year(),
        month: now.month() as u8,
        day: now.day() as u8,
        hour: now.hour() as u8,
        minute: now.minute() as u8,
        second: now.second() as u8,
    }
}

/// A number rendered in decimal, zero-padded to at least two digits.
pub open spec fn pad2(n: nat) -> Seq<char> {
    if n < 10 {
        seq!['0'] + dec_str(n)
    } else {
        dec_str(n)
    }
}

/// A number rendered in decimal, zero-padded to at least four digits.
pub open spec fn pad4(n: nat) -> Seq<char> {
    if n < 10 {
        "000"@ + dec_str(n)
    } else if n < 100 {
        "00"@ + dec_str(n)
    } else if n < 1000 {
        "0"@ + dec_str(n)
    } else {
        dec_str(n)
    }
}

/// A year rendered to at least four digits, with a sign when negative.
pub open spec fn year_str(y: int) -> Seq<char> {
    if y < 0 {
        seq!['-'] + pad4((-y) as nat)
    } else {
        pad4(y as nat)
    }
}

/// A timestamp rendered for file names: year, month and day joined by `-`,
/// an underscore, then hour, minute and second joined by `:`.
pub open spec fn timestamp_str(t: Timestamp) -> Seq<char> {
    year_str(t.year as int) + seq!['-'] + pad2(t.month as nat) + seq!['-'] + pad2(t.day as nat)
        + seq!['_'] + pad2(t.hour as nat) + seq![':'] + pad2(t.minute as nat) + seq![':'] + pad2(
        t.second as nat,
    )
}

/// Appends `n` zero-padded to at least two digits.
fn append_pad2(out: &mut String, n: u64)
    ensures
        final(out)@ == old(out)@ + pad2(n as nat),
{
    if n < 10 {
        proof {
            reveal_strlit("0");
        }
        out.append("0");
    }
    crate::text::append_dec_u64(out, n);
    proof {
        assert(out@ =~= old(out)@ + pad2(n as nat));
    }
}

/// Appends `n` zero-padded to at least four digits.
fn append_pad4(out: &mut String, n: u64)
    ensures
        final(out)@ == old(out)@ + pad4(n as nat),
{
    if n < 10 {
        proof {
            reveal_strlit("000");
        }
        out.append("000");
    } else if n < 100 {
        proof {
            reveal_strlit("00");
        }
        out.append("00");
    } else if n < 1000 {
        proof {
            reveal_strlit("0");
        }
        out.append("0");
    }
    crate::text::append_dec_u64(out, n);
    proof {
        assert(out@ =~= old(out)@ + pad4(n as nat));
    }
}

/// Appends the rendering of `t` for file names.
pub fn append_timestamp(out: &mut String, t: &Timestamp)
    ensures
        final(out)@ == old(out)@ + timestamp_str(*t),
{
    if t.year < 0 {
        proof {
            reveal_strlit("-");
        }
        out.append("-");
        let m: i64 = -(t.year as i64);
        append_pad4(out, m as u64);
    } else {
        append_pad4(out, t.year as u64);
    }
    proof {
        reveal_strlit("-");
        reveal_strlit("_");
        reveal_strlit(":");
    }
    out.append("-");
    append_pad2(out, t.month as u64);
    out.append("-");
    append_pad2(out, t.day as u64);
    out.append("_");
    append_pad2(out, t.hour as u64);
    out.append(":");
    append_pad2(out, t.minute as u64);
    out.append(":");
    append_pad2(out, t.second as u64);
    proof {
        assert(out@ =~= old(out)@ + timestamp_str(*t));
    }
}

/// The rendering of `t` for file names.
pub fn readable_timestamp(t: &Timestamp) -> (r: String)
    ensures
        r@ == timestamp_str(*t),
{
    let mut out = String::new();
    append_timestamp(&mut out, t);
    proof {
        assert(out@ =~= timestamp_str(*t));
    }
    out
}

/// The path of a capture: the base directory, the identifier as a
/// subdirectory, and the timestamp with the stream's extension as the file
/// name.
pub open spec fn output_log_file_path(
    identifier: Seq<char>,
    t: Timestamp,
    kind: ProcessOutputLogKind,
    base: Seq<char>,
) -> Seq<char> {
    base + "/"@ + identifier + "/"@ + timestamp_str(t) + "."@ + file_extension(kind)
}

/// The path a capture is stored at.
pub fn generate_output_log_file_path(
    identifier: &str,
    timestamp: &Timestamp,
    kind: &ProcessOutputLogKind,
    base_log_directory: &str,
) -> (r: String)
    ensures
        r@ == output_log_file_path(identifier@, *timestamp, *kind, base_log_directory@),
{
    proof {
        reveal_strlit("/");
        reveal_strlit(".");
    }
    let mut out = base_log_directory.to_owned();
    out.append("/");
    out.append(identifier);
    out.append("/");
    append_timestamp(&mut out, timestamp);
    out.append(".");
    out.append(kind.as_file_extension());
    proof {
        assert(out@ =~= output_log_file_path(
            identifier@,
            *timestamp,
            *kind,
            base_log_directory@,
        ));
    }
    out
}

/// The run-time capture directory of the user with the given id:
/// `/run/user/<uid>/gtnkr/process-output-logs`.
pub open spec fn runtime_log_directory_spec(uid: nat) -> Seq<char> {
    "/run/user/"@ + dec_str(uid) + "/gtnkr/process-output-logs"@
}

/// The run-time capture directory of the user with the given id.
pub fn runtime_log_directory(uid: u32) -> (r: String)
    ensures
        r@ == runtime_log_directory_spec(uid as nat),
{
    proof {
        reveal_strlit("/run/user/");
        reveal_strlit("/gtnkr/process-output-logs");
    }
    let mut out = "/run/user/".to_owned();
    crate::text::append_dec_u64(&mut out, uid as u64);
    out.append("/gtnkr/process-output-logs");
    proof {
        assert(out@ =~= runtime_log_directory_spec(uid as nat));
    }
    out
}

/// The persistent capture directory under the user's home:
/// `<home>/gtnkr/process-output-logs`.
pub open spec fn persistent_log_directory_spec(home: Seq<char>) -> Seq<char> {
    home + "/gtnkr/process-output-logs"@
}

/// The persistent capture directory under the user's home.
pub fn persistent_log_directory(home_directory: &str) -> (r: String)
    ensures
        r@ == persistent_log_directory_spec(home_directory@),
{
    proof {
        reveal_strlit("/gtnkr/process-output-logs");
    }
    let mut out = home_directory.to_owned();
    out.append("/gtnkr/process-output-logs");
    out
}

/// A capture being written during the current launch.
#[derive(Debug, Clone)]
pub struct ActiveOutputLog {
    pub identifier: String,
    pub timestamp: Timestamp,
    pub kind: ProcessOutputLogKind,
    pub base_log_directory_path: String,
}

/// A capture copied to persistent storage after a launch.
#[derive(Debug, Clone)]
pub struct PersistentOutputLog {
    pub identifier: String,
    pub timestamp: Timestamp,
    pub kind: ProcessOutputLogKind,
    pub base_log_directory_path: String,
}

impl ActiveOutputLog {
    /// A capture of `kind` for `identifier`, stamped with the present
    /// moment, under the run-time directory `base_log_directory_path`.
    /// Creating the file it names is the caller's work.
    pub fn create(
        identifier: String,
        kind: ProcessOutputLogKind,
        base_log_directory_path: String,
    ) -> (r: ActiveOutputLog)
        ensures
            r.identifier@ == identifier@,
            r.timestamp.wf(),
            r.kind == kind,
            r.base_log_directory_path@ == base_log_directory_path@,
    {
        ActiveOutputLog { identifier, timestamp: timestamp_now(), kind, base_log_directory_path }
    }

    /// A capture of `kind` for `identifier`, taken at `timestamp`, under the
    /// run-time directory `base_log_directory_path`.
    pub fn new(
        identifier: String,
        timestamp: Timestamp,
        kind: ProcessOutputLogKind,
        base_log_directory_path: String,
    ) -> (r: ActiveOutputLog)
        ensures
            r.identifier@ == identifier@,
            r.timestamp == timestamp,
            r.kind == kind,
            r.base_log_directory_path@ == base_log_directory_path@,
    {
        ActiveOutputLog { identifier, timestamp, kind, base_log_directory_path }
    }

    /// The path this capture is stored at.
    pub fn as_path(&self) -> (r: String)
        ensures
            r@ == output_log_file_path(
                self.identifier@,
                self.timestamp,
                self.kind,
                self.base_log_directory_path@,
            ),
    {
        generate_output_log_file_path(
            self.identifier.as_str(),
            &self.timestamp,
            &self.kind,
            self.base_log_directory_path.as_str(),
        )
    }
}

impl PersistentOutputLog {
    /// The persistent capture a finished run-time capture is copied to: the
    /// same game and stream, stamped with the moment of the copy, under the
    /// persistent directory.
    pub fn from_active_output_log(active_log: &ActiveOutputLog, persistent_base: String) -> (r:
        PersistentOutputLog)
        ensures
            r.identifier@ == active_log.identifier@,
            r.timestamp.wf(),
            r.kind == active_log.kind,
            r.base_log_directory_path@ == persistent_base@,
    {
        PersistentOutputLog {
            identifier: active_log.identifier.clone(),
            timestamp: timestamp_now(),
            kind: active_log.kind,
            base_log_directory_path: persistent_base,
        }
    }

    /// A capture of `kind` for `identifier`, taken at `timestamp`, under the
    /// persistent directory `base_log_directory_path`.
    pub fn new(
        identifier: String,
        timestamp: Timestamp,
        kind: ProcessOutputLogKind,
        base_log_directory_path: String,
    ) -> (r: PersistentOutputLog)
        ensures
            r.identifier@ == identifier@,
            r.timestamp == timestamp,
            r.kind == kind,
            r.base_log_directory_path@ == base_log_directory_path@,
    {
        PersistentOutputLog { identifier, timestamp, kind, base_log_directory_path }
    }

    /// The path this capture is stored at.
    pub fn as_path(&self) -> (r: String)
        ensures
            r@ == output_log_file_path(
                self.identifier@,
                self.timestamp,
                self.kind,
                self.base_log_directory_path@,
            ),
    {
        generate_output_log_file_path(
            self.identifier.as_str(),
            &self.timestamp,
            &self.kind,
            self.base_log_directory_path.as_str(),
        )
    }
}

} // verus!
