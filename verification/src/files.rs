//! The output file of a test: its name, its header, its records, and the
//! buffer that collects records until ten are written at once. The caller
//! owns the file handle and writes what is returned here.

use vstd::prelude::*;
use crate::host::{BatteryID, Event, FileCmd, SaveData};

verus! {

/// Records are written to the file in batches of this many.
pub const FLUSH_EVERY: u8 = 10;

/// The decimal digits of `n`, as ASCII.
pub open spec fn decimal(n: nat) -> Seq<u8>
    decreases n,
{
    if n < 10 {
        seq![(48 + n) as u8]
    } else {
        decimal(n / 10).push((48 + n % 10) as u8)
    }
}

/// The header line: `dt`, `duration`, `millivolts`, `milliamps`, separated
/// by tabs and ended by a line feed.
pub open spec fn header_bytes() -> Seq<u8> {
    seq![
        100u8, 116, 9,
        100, 117, 114, 97, 116, 105, 111, 110, 9,
        109, 105, 108, 108, 105, 118, 111, 108, 116, 115, 9,
        109, 105, 108, 108, 105, 97, 109, 112, 115, 10,
    ]
}

/// The line of a record: time, duration, millivolts and milliamperes in
/// decimal, separated by tabs and ended by a line feed.
pub open spec fn record_line(data: SaveData) -> Seq<u8> {
    decimal(data.dt as nat) + seq![9u8] + decimal(data.duration as nat) + seq![9u8] + decimal(
        data.millivolts.0 as nat,
    ) + seq![9u8] + decimal(data.milliamps.0 as nat) + seq![10u8]
}

/// The name of a battery's output file: year, index and the time stamp,
/// joined by hyphens, with the extension `.tsv`.
pub open spec fn file_name_bytes(id: BatteryID, stamp: Seq<u8>) -> Seq<u8> {
    decimal(id.year as nat) + seq![45u8] + decimal(id.index as nat) + seq![45u8] + stamp
        + seq![46u8, 116, 115, 118]
}

/// Appends the decimal digits of `n`.
pub fn put_decimal(out: &mut Vec<u8>, n: u64)
    ensures
        final(out)@ == old(out)@ + decimal(n as nat),
    decreases n,
{
    if n >= 10 {
        put_decimal(out, n / 10);
    }
    out.push((48 + n % 10) as u8);
    proof {
        assert(out@ =~= old(out)@ + decimal(n as nat));
    }
}

/// Appends every byte of `bytes`.
pub fn put_bytes(out: &mut Vec<u8>, bytes: &[u8])
    ensures
        final(out)@ == old(out)@ + bytes@,
{
    let mut i: usize = 0;
    while i < bytes.len()
        invariant
            i <= bytes.len(),
            out@ == old(out)@ + bytes@.take(i as int),
        decreases bytes.len() - i,
    {
        out.push(bytes[i]);
        proof {
            assert(bytes@.take(i + 1) =~= bytes@.take(i as int).push(bytes@[i as int]));
            assert(out@ =~= old(out)@ + bytes@.take(i + 1));
        }
        i += 1;
    }
    proof {
        assert(bytes@.take(i as int) =~= bytes@);
    }
}

/// The header line.
pub fn header() -> (r: Vec<u8>)
    ensures
        r@ == header_bytes(),
{
    let r = vec![
        100u8, 116, 9,
        100, 117, 114, 97, 116, 105, 111, 110, 9,
        109, 105, 108, 108, 105, 118, 111, 108, 116, 115, 9,
        109, 105, 108, 108, 105, 97, 109, 112, 115, 10,
    ];
    proof {
        assert(r@ =~= header_bytes());
    }
    r
}

/// Appends the line of a record.
pub fn put_record(out: &mut Vec<u8>, data: &SaveData)
    ensures
        final(out)@ == old(out)@ + record_line(*data),
{
    put_decimal(out, data.dt);
    out.push(9);
    put_decimal(out, data.duration);
    out.push(9);
    put_decimal(out, data.millivolts.0 as u64);
    out.push(9);
    put_decimal(out, data.milliamps.0 as u64);
    out.push(10);
    proof {
        assert(out@ =~= old(out)@ + record_line(*data));
    }
}

/// The name of a battery's output file, for a time stamp that the caller
/// took from its clock.
pub fn file_name(id: BatteryID, stamp: &[u8]) -> (name: Vec<u8>)
    ensures
        name@ == file_name_bytes(id, stamp@),
{
    let mut name: Vec<u8> = Vec::new();
    put_decimal(&mut name, id.year as u64);
    name.push(45);
    put_decimal(&mut name, id.index as u64);
    name.push(45);
    put_bytes(&mut name, stamp);
    name.push(46);
    name.push(116);
    name.push(115);
    name.push(118);
    proof {
        assert(name@ =~= file_name_bytes(id, stamp@));
    }
    name
}

/// Reads the local time as a stamp for a file name: a call of
/// `chrono::Local::now`, formatted with `%Y%m%d_%TUTC%Z`, which is the
/// date, an underscore, the time of day, the letters `UTC` and the zone's
/// offset. Nothing is claimed of the stamp.
#[verifier::external_body]
fn local_stamp() -> (stamp: Vec<u8>) {
    chrono::Local::now().format("%Y%m%d_%TUTC%Z").to_string().into_bytes()
}

/// The name of a battery's output file, stamped with the local time: what
/// [`file_name`] gives for some stamp.
pub fn new_file_name(id: BatteryID) -> (name: Vec<u8>)
    ensures
        exists|stamp: Seq<u8>| name@ == #[trigger] file_name_bytes(id, stamp),
{
    let stamp = local_stamp();
    file_name(id, stamp.as_slice())
}

/// The records that wait to be written, and how many records were added
/// since a batch was last written or the file closed.
#[derive(Debug, Clone, PartialEq, Eq)]
pub struct DataPersistance {
    out_buf: Vec<u8>,
    buffered_records: u8,
}

/// What a [`DataPersistance`] holds.
pub struct DataPersistanceView {
    pub out_buf: Seq<u8>,
    pub buffered_records: int,
}

impl DataPersistanceView {
    /// Nothing waits to be written.
    pub open spec fn empty() -> DataPersistanceView {
        DataPersistanceView { out_buf: Seq::empty(), buffered_records: 0 }
    }

    /// Whether one more record completes a batch.
    pub open spec fn fills(self) -> bool {
        self.buffered_records + 1 >= FLUSH_EVERY
    }

    /// The buffer after a record is added, and what is handed out to be
    /// written: everything that waits, when the record completes a batch.
    pub open spec fn added(self, data: SaveData) -> (DataPersistanceView, Option<Seq<u8>>) {
        if self.fills() {
            (DataPersistanceView::empty(), Some(self.out_buf + record_line(data)))
        } else {
            (
                DataPersistanceView {
                    out_buf: self.out_buf + record_line(data),
                    buffered_records: self.buffered_records + 1,
                },
                None,
            )
        }
    }

    /// The buffer after the records are added one by one, and everything
    /// that was handed out on the way, in order.
    pub open spec fn added_all(self, records: Seq<SaveData>) -> (DataPersistanceView, Seq<u8>)
        decreases records.len(),
    {
        if records.len() == 0 {
            (self, Seq::empty())
        } else {
            let (before, written) = self.added_all(records.drop_last());
            let (after, batch) = before.added(records.last());
            (
                after,
                match batch {
                    Some(bytes) => written + bytes,
                    None => written,
                },
            )
        }
    }
}

/// The lines of some records, one after another.
pub open spec fn record_lines(records: Seq<SaveData>) -> Seq<u8>
    decreases records.len(),
{
    if records.len() == 0 {
        Seq::empty()
    } else {
        record_lines(records.drop_last()) + record_line(records.last())
    }
}

/// No record is lost and none is written twice: whatever was handed out
/// while records were added, followed by what still waits, is what waited
/// before followed by the records' lines, in order.
pub proof fn lemma_no_record_lost(dp: DataPersistanceView, records: Seq<SaveData>)
    ensures
        ({
            let (after, written) = dp.added_all(records);
            written + after.out_buf == dp.out_buf + record_lines(records)
        }),
    decreases records.len(),
{
    let (after, written) = dp.added_all(records);
    if records.len() == 0 {
        assert(written + after.out_buf =~= dp.out_buf + record_lines(records));
    } else {
        lemma_no_record_lost(dp, records.drop_last());
        let (before, earlier) = dp.added_all(records.drop_last());
        let line = record_line(records.last());
        assert(earlier + before.out_buf == dp.out_buf + record_lines(records.drop_last()));
        assert(written + after.out_buf =~= (earlier + before.out_buf) + line);
        assert(dp.out_buf + record_lines(records) =~= (dp.out_buf + record_lines(
            records.drop_last(),
        )) + line);
    }
}

impl View for DataPersistance {
    type V = DataPersistanceView;

    closed spec fn view(&self) -> DataPersistanceView {
        DataPersistanceView {
            out_buf: self.out_buf@,
            buffered_records: self.buffered_records as int,
        }
    }
}

impl DataPersistance {
    /// Starts on a fresh file: returns the empty buffer and the header to
    /// write to the file at once.
    pub fn new() -> (r: (Self, Vec<u8>))
        ensures
            r.0@ == DataPersistanceView::empty(),
            r.1@ == header_bytes(),
    {
        (DataPersistance { out_buf: Vec::new(), buffered_records: 0 }, header())
    }

    /// Changes to a new file: returns what still goes to the old file, and
    /// the header that goes to the new one. Nothing waits afterwards; the
    /// count of records towards the next batch goes on.
    pub fn new_file(&mut self) -> (r: (Vec<u8>, Vec<u8>))
        ensures
            r.0@ == old(self)@.out_buf,
            r.1@ == header_bytes(),
            final(self)@ == (DataPersistanceView { out_buf: Seq::empty(), ..old(self)@ }),
    {
        let pending = self.write_all();
        (pending, header())
    }

    /// Takes everything that waits, to be written now; the count stays.
    fn write_all(&mut self) -> (pending: Vec<u8>)
        ensures
            pending@ == old(self)@.out_buf,
            final(self)@ == (DataPersistanceView { out_buf: Seq::empty(), ..old(self)@ }),
    {
        let mut pending: Vec<u8> = Vec::new();
        let ghost before = self.out_buf@;
        pending.append(&mut self.out_buf);
        proof {
            assert(pending@ =~= before);
        }
        pending
    }

    /// Takes everything that waits, to be written now, and starts a batch.
    pub fn flush_reset(&mut self) -> (pending: Vec<u8>)
        ensures
            pending@ == old(self)@.out_buf,
            final(self)@ == DataPersistanceView::empty(),
    {
        self.buffered_records = 0;
        self.write_all()
    }

    /// Adds a record. The tenth record counted returns everything that
    /// waits, to be written now; the others return nothing and wait.
    pub fn new_data(&mut self, data: &SaveData) -> (batch: Option<Vec<u8>>)
        ensures
            final(self)@ == old(self)@.added(*data).0,
            match batch {
                Some(bytes) => old(self)@.added(*data).1 == Some(bytes@),
                None => old(self)@.added(*data).1 is None,
            },
            batch is Some <==> old(self)@.fills(),
    {
        put_record(&mut self.out_buf, data);
        if self.buffered_records >= FLUSH_EVERY - 1 {
            Some(self.flush_reset())
        } else {
            self.buffered_records = self.buffered_records + 1;
            None
        }
    }
}

/// What the file task does for one command.
#[derive(Debug, Clone, PartialEq, Eq)]
pub struct FileOutput {
    /// Bytes for the file that was open when the command came; write and
    /// flush them first.
    pub write_before: Vec<u8>,
    /// Whether the handle that came with the command replaces the open one.
    pub swap: bool,
    /// Bytes for the file that is open after the swap; write and flush them.
    pub write_after: Vec<u8>,
    /// Whether the file is closed afterwards.
    pub close: bool,
    /// Whether the task ends.
    pub stop: bool,
    /// An event for the session.
    pub event: Option<Event>,
}

/// A [`FileOutput`] with its bytes as sequences.
pub struct FileOutputView {
    pub write_before: Seq<u8>,
    pub swap: bool,
    pub write_after: Seq<u8>,
    pub close: bool,
    pub stop: bool,
    pub event: Option<Event>,
}

impl View for FileOutput {
    type V = FileOutputView;

    open spec fn view(&self) -> FileOutputView {
        FileOutputView {
            write_before: self.write_before@,
            swap: self.swap,
            write_after: self.write_after@,
            close: self.close,
            stop: self.stop,
            event: self.event,
        }
    }
}

/// Nothing to write, nothing to change.
pub open spec fn idle_output() -> FileOutputView {
    FileOutputView {
        write_before: Seq::empty(),
        swap: false,
        write_after: Seq::empty(),
        close: false,
        stop: false,
        event: None,
    }
}

/// What a command amounts to for a file task whose open file has the
/// buffer `open`, or that has no file open: the buffer afterwards and what
/// to do.
pub open spec fn file_task_spec(open: Option<DataPersistanceView>, cmd: FileCmd) -> (
    Option<DataPersistanceView>,
    FileOutputView,
) {
    match cmd {
        FileCmd::Push(data) => match open {
            Some(dp) => (
                Some(dp.added(data).0),
                FileOutputView {
                    write_before: match dp.added(data).1 {
                        Some(bytes) => bytes,
                        None => Seq::empty(),
                    },
                    ..idle_output()
                },
            ),
            None => (None, FileOutputView { event: Some(Event::FileError), ..idle_output() }),
        },
        FileCmd::NewFile => (
            match open {
                Some(dp) => Some(DataPersistanceView { out_buf: Seq::empty(), ..dp }),
                None => Some(DataPersistanceView::empty()),
            },
            FileOutputView {
                write_before: match open {
                    Some(dp) => dp.out_buf,
                    None => Seq::empty(),
                },
                swap: true,
                write_after: header_bytes(),
                ..idle_output()
            },
        ),
        FileCmd::CloseFile => (
            None,
            match open {
                Some(dp) => FileOutputView {
                    write_before: dp.out_buf,
                    close: true,
                    ..idle_output()
                },
                None => idle_output(),
            },
        ),
        FileCmd::Shutdown => (
            None,
            match open {
                Some(dp) => FileOutputView {
                    write_before: dp.out_buf,
                    close: true,
                    stop: true,
                    ..idle_output()
                },
                None => FileOutputView { stop: true, ..idle_output() },
            },
        ),
    }
}

/// The file task's memory: the buffer of the open file, if one is open.
#[derive(Debug, Clone, PartialEq, Eq)]
pub struct FileWriter {
    persistance: Option<DataPersistance>,
}

impl View for FileWriter {
    type V = Option<DataPersistanceView>;

    closed spec fn view(&self) -> Option<DataPersistanceView> {
        match self.persistance {
            Some(dp) => Some(dp@),
            None => None,
        }
    }
}

impl FileWriter {
    /// A file task with no file open.
    pub fn new() -> (w: Self)
        ensures
            w@ is None,
    {
        FileWriter { persistance: None }
    }

    /// Whether a file is open.
    pub fn is_open(&self) -> (r: bool)
        ensures
            r == self@.is_some(),
    {
        self.persistance.is_some()
    }

    /// Takes one command and returns what to write, and what to do with the
    /// file handle.
    pub fn file_task(&mut self, cmd: FileCmd) -> (out: FileOutput)
        ensures
            (final(self)@, out@) == file_task_spec(old(self)@, cmd),
    {
        let mut out = FileOutput {
            write_before: Vec::new(),
            swap: false,
            write_after: Vec::new(),
            close: false,
            stop: false,
            event: None,
        };
        let open = self.persistance.take();
        match cmd {
            FileCmd::Push(data) => match open {
                Some(mut dp) => {
                    match dp.new_data(&data) {
                        Some(batch) => {
                            out.write_before = batch;
                        },
                        None => {},
                    }
                    self.persistance = Some(dp);
                },
                None => {
                    out.event = Some(Event::FileError);
                },
            },
            FileCmd::NewFile => {
                out.swap = true;
                match open {
                    Some(mut dp) => {
                        let (before, after) = dp.new_file();
                        out.write_before = before;
                        out.write_after = after;
                        self.persistance = Some(dp);
                    },
                    None => {
                        let (dp, after) = DataPersistance::new();
                        out.write_after = after;
                        self.persistance = Some(dp);
                    },
                }
            },
            FileCmd::CloseFile => match open {
                Some(mut dp) => {
                    out.write_before = dp.flush_reset();
                    out.close = true;
                },
                None => {},
            },
            FileCmd::Shutdown => {
                out.stop = true;
                match open {
                    Some(mut dp) => {
                        out.write_before = dp.flush_reset();
                        out.close = true;
                    },
                    None => {},
                }
            },
        }
        out
    }
}

} // verus!
