//! File access over the firmware's simple file system: opening by name,
//! classifying what was opened, reading, seeking and file metadata.

use vstd::prelude::*;
use crate::bytes::{read_u64, le_value};
use crate::console::{encode_utf16, utf16_of};
use crate::protocol::Protocol;
use crate::status::{Guid, Status, Time, time_at};

verus! {

/// The identifier of the file-information record, handed to the metadata
/// query.
pub fn file_info_guid() -> (r: Guid)
    ensures
        r == Guid(0x09576E92, 0x6D3F, 0x11D2, 0x8E, 0x39, 0x00, 0xA0, 0xC9, 0x69, 0x72, 0x3B),
{
    Guid(0x09576E92, 0x6D3F, 0x11D2, 0x8E, 0x39, 0x00, 0xA0, 0xC9, 0x69, 0x72, 0x3B)
}

/// The open mode "read" (opening an existing file).
pub const MODE_READ: u64 = 1;

/// The attribute bit that marks a directory.
pub const ATTRIBUTE_DIRECTORY: u64 = 0x10;

/// The size of the fixed part of a file-information record, before the name.
pub const FILE_INFO_FIXED_SIZE: usize = 80;

/// The fixed part of a file-information record.
#[derive(Clone, Copy, Debug, PartialEq, Eq, Structural)]
pub struct FileInfo {
    pub size: u64,
    pub file_size: u64,
    pub physical_size: u64,
    pub created: Time,
    pub last_access: Time,
    pub last_modified: Time,
    pub attributes: u64,
}

/// The file-information record that `b` begins with.
pub open spec fn file_info_of(b: Seq<u8>) -> FileInfo {
    FileInfo {
        size: le_value(b, 0, 8) as u64,
        file_size: le_value(b, 8, 8) as u64,
        physical_size: le_value(b, 16, 8) as u64,
        created: time_at(b, 24),
        last_access: time_at(b, 40),
        last_modified: time_at(b, 56),
        attributes: le_value(b, 72, 8) as u64,
    }
}

/// The directory bit (`ATTRIBUTE_DIRECTORY`) of `attributes` is set.
pub open spec fn is_directory(attributes: u64) -> bool {
    (attributes / 0x10) % 2 == 1
}

impl FileInfo {
    /// Reads the record that the firmware wrote into `b`; nothing when `b`
    /// is shorter than its fixed part.
    pub fn parse(b: &[u8]) -> (r: Option<FileInfo>)
        ensures
            r.is_some() <==> b@.len() >= FILE_INFO_FIXED_SIZE,
            r matches Some(i) ==> i == file_info_of(b@),
    {
        if b.len() < FILE_INFO_FIXED_SIZE {
            return None;
        }
        Some(FileInfo {
            size: read_u64(b, 0),
            file_size: read_u64(b, 8),
            physical_size: read_u64(b, 16),
            created: Time::read(b, 24),
            last_access: Time::read(b, 40),
            last_modified: Time::read(b, 56),
            attributes: read_u64(b, 72),
        })
    }

    pub fn is_directory(&self) -> (r: bool)
        ensures
            r == is_directory(self.attributes),
    {
        let a = self.attributes;
        assert((a & 0x10u64 != 0) == ((a / 0x10) % 2 == 1)) by (bit_vector);
        a & ATTRIBUTE_DIRECTORY != 0
    }
}

/// The file-system capability of a volume.
#[derive(Clone, Copy, Debug, PartialEq, Eq, Structural)]
pub struct SimpleFileSystem {
    interface: u64,
}

impl Protocol for SimpleFileSystem {
    open spec fn spec_guid() -> Guid {
        Guid(0x964E5B22, 0x6459, 0x11D2, 0x8E, 0x39, 0x00, 0xA0, 0xC9, 0x69, 0x72, 0x3B)
    }

    closed spec fn spec_interface(&self) -> u64 {
        self.interface
    }

    fn guid() -> (r: Guid) {
        Guid(0x964E5B22, 0x6459, 0x11D2, 0x8E, 0x39, 0x00, 0xA0, 0xC9, 0x69, 0x72, 0x3B)
    }

    fn from_interface(address: u64) -> (r: Self) {
        SimpleFileSystem { interface: address }
    }
}

impl SimpleFileSystem {
    pub fn interface(&self) -> (r: u64)
        ensures
            r == self.spec_interface(),
    {
        self.interface
    }

    /// Takes the firmware's reply to opening the volume: its root directory
    /// on success, nothing otherwise.
    pub fn open(&self, status: Status, root: u64) -> (r: Option<Directory>)
        ensures
            r.is_some() <==> status == Status::Success,
            r matches Some(d) ==> d.spec_protocol() == root,
    {
        if status.is_success() {
            Some(Directory { protocol: root })
        } else {
            None
        }
    }
}

/// What opening a name yields.
#[derive(Debug)]
pub enum OpenResult {
    File(File),
    Directory(Directory),
    /// The firmware could not open the name.
    NotFound,
}

/// The arguments of one firmware open call.
#[derive(Debug)]
pub struct OpenRequest {
    /// The directory the name is relative to.
    pub directory: u64,
    /// The name in UTF-16, ending in a zero unit.
    pub path: Vec<u16>,
    pub mode: u64,
    pub attributes: u64,
}

/// An open directory.
#[derive(Debug)]
pub struct Directory {
    protocol: u64,
}

impl Directory {
    pub closed spec fn spec_protocol(&self) -> u64 {
        self.protocol
    }

    pub fn protocol(&self) -> (r: u64)
        ensures
            r == self.spec_protocol(),
    {
        self.protocol
    }

    /// The call that opens `path`, relative to this directory, for reading.
    pub fn open_request(&self, path: &str) -> (r: OpenRequest)
        ensures
            r.directory == self.spec_protocol(),
            r.path@ == utf16_of(path@).push(0u16),
            r.mode == MODE_READ,
            r.attributes == 0,
    {
        let n = path.unicode_len();
        let mut units: Vec<u16> = Vec::new();
        let mut i: usize = 0;
        while i < n
            invariant
                n == path@.len(),
                i <= n,
                units@ == utf16_of(path@.subrange(0, i as int)),
            decreases n - i,
        {
            let c = path.get_char(i);
            proof {
                let s = path@.subrange(0, i as int + 1);
                assert(s.drop_last() == path@.subrange(0, i as int));
                assert(s.last() == c);
            }
            encode_utf16(c, &mut units);
            i = i + 1;
        }
        assert(path@.subrange(0, n as int) == path@);
        units.push(0);
        OpenRequest { directory: self.protocol, path: units, mode: MODE_READ, attributes: 0 }
    }

    /// Takes the firmware's reply to the open call and, after a success, the
    /// information record of what was opened: a directory when its
    /// directory bit is set, a file otherwise, and `NotFound` after a failure.
    pub fn open(&self, status: Status, opened: u64, info: Option<&FileInfo>) -> (r: OpenResult)
        requires
            status == Status::Success ==> info.is_some(),
        ensures
            status != Status::Success ==> r is NotFound,
            status == Status::Success && is_directory(info.unwrap().attributes) ==> (r matches OpenResult::Directory(d) && d.spec_protocol() == opened),
            status == Status::Success && !is_directory(info.unwrap().attributes) ==> (r matches OpenResult::File(f) && f.spec_protocol() == opened),
    {
        if !status.is_success() {
            return OpenResult::NotFound;
        }
        match info {
            Some(i) => {
                if i.is_directory() {
                    OpenResult::Directory(Directory { protocol: opened })
                } else {
                    OpenResult::File(File { protocol: opened })
                }
            },
            None => OpenResult::NotFound,
        }
    }

    /// The entries of this directory. Listing is not offered by this layer:
    /// the walk is empty.
    pub fn files(&mut self) -> (r: DirectoryFiles)
        ensures
            r.spec_protocol() == old(self).spec_protocol(),
            *final(self) == *old(self),
    {
        DirectoryFiles { protocol: self.protocol }
    }
}

/// A walk over the entries of a directory.
#[derive(Debug)]
pub struct DirectoryFiles {
    protocol: u64,
}

impl DirectoryFiles {
    pub closed spec fn spec_protocol(&self) -> u64 {
        self.protocol
    }

    pub fn next(&mut self) -> (r: Option<()>)
        ensures
            r.is_none(),
            *final(self) == *old(self),
    {
        None
    }
}

/// The end of a file was reached (or the firmware failed the read).
#[derive(Clone, Copy, Debug, PartialEq, Eq, Structural)]
pub struct EndOfFile;

/// Where a seek is measured from.
#[derive(Clone, Copy, Debug, PartialEq, Eq, Structural)]
pub enum SeekFrom {
    Start(u64),
    End(i64),
    Current(i64),
}

/// The position that a seek from `from` names, in a file of `size` bytes
/// whose position is `current`.
pub open spec fn seek_target(from: SeekFrom, size: u64, current: u64) -> int {
    match from {
        SeekFrom::Start(o) => o as int,
        SeekFrom::End(o) => size + o,
        SeekFrom::Current(o) => current + o,
    }
}

/// What a read reply means: the number of bytes read, or the end of the
/// file when none were read, the firmware failed, or it claims more than the
/// buffer of `capacity` bytes holds.
pub open spec fn read_outcome(status: Status, length: usize, capacity: usize) -> Result<usize, EndOfFile> {
    if status == Status::Success && 0 < length <= capacity {
        Ok(length)
    } else {
        Err(EndOfFile)
    }
}

/// How many bytes a firmware read of `request` bytes delivers at `position`
/// in a file of `size` bytes: as many as asked for, but no more than remain.
pub open spec fn delivered(size: nat, position: nat, request: nat) -> nat {
    if position >= size {
        0
    } else if request <= size - position {
        request
    } else {
        (size - position) as nat
    }
}

/// The lengths that a run of reads of `requests` bytes yields from
/// `position` in a file of `size` bytes, up to the first end-of-file.
pub open spec fn chunked_reads(size: nat, position: nat, requests: Seq<usize>) -> Seq<usize>
    decreases requests.len(),
{
    if requests.len() == 0 {
        seq![]
    } else {
        let n = delivered(size, position, requests[0] as nat) as usize;
        match read_outcome(Status::Success, n, requests[0]) {
            Ok(k) => seq![k] + chunked_reads(size, (position + k) as nat, requests.drop_first()),
            Err(_) => seq![],
        }
    }
}

/// The sum of a sequence of lengths.
pub open spec fn total(s: Seq<usize>) -> nat
    decreases s.len(),
{
    if s.len() == 0 {
        0
    } else {
        (s[0] + total(s.drop_first())) as nat
    }
}

/// Every length fits in what remained of the file when it was read.
pub open spec fn within(remaining: nat, s: Seq<usize>) -> bool
    decreases s.len(),
{
    s.len() == 0 || (s[0] <= remaining && within((remaining - s[0]) as nat, s.drop_first()))
}

/// Reading a file from `position` in chunks of any non-zero sizes that add
/// up to at least what remains yields exactly the remaining bytes, and no
/// chunk is longer than what remained when it was read.
pub proof fn lemma_chunked_read_round_trip(size: nat, position: nat, requests: Seq<usize>)
    requires
        position <= size,
        forall|i: int| 0 <= i < requests.len() ==> requests[i] > 0,
        total(requests) >= size - position,
    ensures
        total(chunked_reads(size, position, requests)) == size - position,
        within((size - position) as nat, chunked_reads(size, position, requests)),
    decreases requests.len(),
{
    if requests.len() > 0 && position < size {
        let r0 = requests[0];
        let n = delivered(size, position, r0 as nat);
        let rest = requests.drop_first();
        assert forall|i: int| 0 <= i < rest.len() implies rest[i] > 0 by {
            assert(rest[i] == requests[i + 1]);
        }
        lemma_chunked_read_round_trip(size, (position + n) as nat, rest);
        let tail = chunked_reads(size, (position + n) as nat, rest);
        let c = chunked_reads(size, position, requests);
        assert(c == seq![n as usize] + tail);
        assert(c[0] == n);
        assert(c.drop_first() =~= tail);
    }
}

/// A read at the end of a file delivers nothing, which is the end-of-file
/// outcome and not a failure of the program.
pub proof fn lemma_read_at_end_is_end_of_file(size: nat, request: usize)
    ensures
        delivered(size, size, request as nat) == 0,
        read_outcome(Status::Success, delivered(size, size, request as nat) as usize, request)
            == Err::<usize, EndOfFile>(EndOfFile),
{
}

/// What a reply to a position query or a set-position call means: the
/// position on success, an error otherwise.
pub open spec fn position_outcome(status: Status, position: u64) -> Result<u64, ()> {
    if status == Status::Success {
        Ok(position)
    } else {
        Err(())
    }
}

/// After a successful seek from `from`, a firmware that reports the position
/// last set makes the next position query return the position that `from`
/// names: the one the seek itself returned.
pub proof fn lemma_tell_after_seek(from: SeekFrom, size: u64, current: u64, p: u64)
    requires
        p == seek_target(from, size, current),
    ensures
        position_outcome(Status::Success, p) == Ok::<u64, ()>(p),
        position_outcome(Status::Success, p) matches Ok(t) && t == seek_target(from, size, current),
{
}

/// An open plain file.
#[derive(Debug)]
pub struct File {
    protocol: u64,
}

impl File {
    pub closed spec fn spec_protocol(&self) -> u64 {
        self.protocol
    }

    pub fn protocol(&self) -> (r: u64)
        ensures
            r == self.spec_protocol(),
    {
        self.protocol
    }

    /// Takes the successful reply to the metadata query: the file's size in
    /// bytes, or nothing when its record is too short. A failed query is
    /// fatal and is left to the caller, which halts first.
    pub fn size(&self, status: Status, info: &[u8]) -> (r: Option<u64>)
        requires
            status == Status::Success,
        ensures
            r.is_some() <==> info@.len() >= FILE_INFO_FIXED_SIZE,
            r matches Some(n) ==> n == file_info_of(info@).file_size,
    {
        match FileInfo::parse(info) {
            Some(i) => Some(i.file_size),
            None => None,
        }
    }

    /// Takes the reply to a read into a buffer of `capacity` bytes: the
    /// number of bytes read, or the end of the file when none were read, the
    /// firmware failed, or it claims more than the buffer holds.
    pub fn read(&mut self, status: Status, length: usize, capacity: usize) -> (r: Result<usize, EndOfFile>)
        ensures
            *final(self) == *old(self),
            r == read_outcome(status, length, capacity),
    {
        if status.is_success() && length > 0 && length <= capacity {
            Ok(length)
        } else {
            Err(EndOfFile)
        }
    }

    /// Takes the reply to a position query.
    pub fn tell(&mut self, status: Status, position: u64) -> (r: Result<u64, ()>)
        ensures
            *final(self) == *old(self),
            r == position_outcome(status, position),
    {
        if status.is_success() {
            Ok(position)
        } else {
            Err(())
        }
    }

    /// The position a seek from `from` moves to: `size` is read only for
    /// `End`, `current` only for `Current`. Nothing when it falls outside
    /// the range of positions.
    pub fn seek_position(&self, from: SeekFrom, size: u64, current: u64) -> (r: Option<u64>)
        ensures
            r.is_some() <==> 0 <= seek_target(from, size, current) <= u64::MAX,
            r matches Some(p) ==> p == seek_target(from, size, current),
    {
        match from {
            SeekFrom::Start(o) => Some(o),
            SeekFrom::End(o) => offset(size, o),
            SeekFrom::Current(o) => offset(current, o),
        }
    }

    /// Takes the reply to the set-position call made for `position`.
    pub fn seek(&mut self, status: Status, position: u64) -> (r: Result<u64, ()>)
        ensures
            *final(self) == *old(self),
            r == position_outcome(status, position),
    {
        if status.is_success() {
            Ok(position)
        } else {
            Err(())
        }
    }
}

fn offset(base: u64, delta: i64) -> (r: Option<u64>)
    ensures
        r.is_some() <==> 0 <= base + delta <= u64::MAX,
        r matches Some(p) ==> p == base + delta,
{
    if delta >= 0 {
        base.checked_add(delta as u64)
    } else {
        let back = (-(delta as i128)) as u64;
        if back <= base {
            Some(base - back)
        } else {
            None
        }
    }
}

/// A seek to an absolute offset names that offset whatever the file's size
/// and position, so seeking to it twice leaves the file there both times.
pub proof fn lemma_seek_start_is_idempotent(o: u64, size: u64, first: u64, second: u64)
    ensures
        seek_target(SeekFrom::Start(o), size, first) == o,
        seek_target(SeekFrom::Start(o), size, second) == seek_target(
            SeekFrom::Start(o),
            size,
            first,
        ),
{
}

} // verus!
