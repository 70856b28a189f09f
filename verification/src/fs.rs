//! Read-only traversal of a firmware filesystem: open the root directory,
//! read its entries one after another, compare and print their names.

use crate::firmware::{Call, CallView};
use crate::status::{Status, INVALID_PARAMETER, SUCCESS};
use crate::text::{
    hex4, lemma_wide_len, lemma_wide_len_is, push_hex4, wide_len, wide_str, LINE_FEED,
};
use vstd::prelude::*;

verus! {

/// The number of 16-bit code units the name field of an entry holds.
pub const NAME_CAPACITY: usize = 256;

/// The largest code unit that is printed as itself.
pub const ASCII_MAX: u16 = 0x7f;

/// Whether `candidate` names the entry whose name field is `stored`.
///
/// Both are read up to their first terminator, a zero unit. They match when
/// that terminator sits at the same place in both, within the capacity of a
/// name field, and every unit before it is the same. What follows the
/// terminator plays no part, and a sequence that ends before it reaches a
/// terminator matches nothing.
pub open spec fn names_match(stored: Seq<u16>, candidate: Seq<u16>) -> bool {
    exists|k: int| #[trigger] ends_match(stored, candidate, k)
}

/// Whether both names end at index `k` and agree before it.
pub open spec fn ends_match(stored: Seq<u16>, candidate: Seq<u16>, k: int) -> bool {
    &&& 0 <= k < NAME_CAPACITY
    &&& k < stored.len()
    &&& k < candidate.len()
    &&& stored[k] == 0
    &&& candidate[k] == 0
    &&& forall|j: int| 0 <= j < k ==> stored[j] == #[trigger] candidate[j] && candidate[j] != 0
}

/// Names that end at `k` and agree before it match.
proof fn lemma_ends_at(stored: Seq<u16>, candidate: Seq<u16>, k: usize)
    requires
        ends_match(stored, candidate, k as int),
    ensures
        names_match(stored, candidate),
{
}

/// An exact terminated match: names that end at the same place and hold the
/// same units before it match.
pub proof fn lemma_exact_match(stored: Seq<u16>, candidate: Seq<u16>, k: int)
    requires
        0 <= k < NAME_CAPACITY,
        k < stored.len(),
        k < candidate.len(),
        stored[k] == 0,
        candidate[k] == 0,
        forall|j: int| 0 <= j < k ==> stored[j] == candidate[j] && stored[j] != 0,
    ensures
        names_match(stored, candidate),
{
    assert(ends_match(stored, candidate, k));
}

/// A unit that differs before either name has ended rules a match out.
pub proof fn lemma_differing_unit(stored: Seq<u16>, candidate: Seq<u16>, j: int)
    requires
        0 <= j < stored.len(),
        j < candidate.len(),
        stored[j] != candidate[j],
        forall|i: int| 0 <= i < j ==> stored[i] != 0 && candidate[i] != 0,
    ensures
        !names_match(stored, candidate),
{
    assert forall|k: int| !ends_match(stored, candidate, k) by {
        if ends_match(stored, candidate, k) {
            if k < j {
                assert(candidate[k] == 0);
            } else if k > j {
                assert(stored[j] == candidate[j]);
            }
        }
    }
}

/// Two empty names, each terminated at once, match.
pub proof fn lemma_empty_names(stored: Seq<u16>, candidate: Seq<u16>)
    requires
        stored.len() > 0,
        candidate.len() > 0,
        stored[0] == 0,
        candidate[0] == 0,
    ensures
        names_match(stored, candidate),
{
    assert(ends_match(stored, candidate, 0));
}

/// Only the terminated prefix counts: two name fields that agree up to the
/// terminator of one match the same candidates, whatever follows it.
pub proof fn lemma_tail_ignored(stored: Seq<u16>, other: Seq<u16>, candidate: Seq<u16>, k: int)
    requires
        0 <= k < stored.len(),
        k < other.len(),
        stored[k] == 0,
        forall|j: int| 0 <= j <= k ==> stored[j] == other[j],
    ensures
        names_match(stored, candidate) == names_match(other, candidate),
{
    assert forall|e: int| ends_match(stored, candidate, e) == ends_match(
        other,
        candidate,
        e,
    ) by {
        if ends_match(stored, candidate, e) {
            if e > k {
                assert(stored[k] == candidate[k]);
            }
        }
        if ends_match(other, candidate, e) {
            if e > k {
                assert(other[k] == candidate[k]);
            }
        }
    }
    if names_match(stored, candidate) {
        let e = choose|e: int| ends_match(stored, candidate, e);
        assert(ends_match(other, candidate, e));
    }
    if names_match(other, candidate) {
        let e = choose|e: int| ends_match(other, candidate, e);
        assert(ends_match(stored, candidate, e));
    }
}

/// Matching is equality of terminated strings: two names match exactly when
/// both are terminated, the stored one within the capacity of a name field,
/// and the strings before the terminators are the same.
pub proof fn lemma_match_is_equality(stored: Seq<u16>, candidate: Seq<u16>)
    ensures
        names_match(stored, candidate) <==> {
            &&& wide_len(stored) < stored.len()
            &&& wide_len(stored) < NAME_CAPACITY
            &&& wide_len(candidate) < candidate.len()
            &&& wide_str(stored) == wide_str(candidate)
        },
{
    lemma_wide_len(stored);
    lemma_wide_len(candidate);
    if names_match(stored, candidate) {
        let k = choose|k: int| ends_match(stored, candidate, k);
        assert forall|j: int| 0 <= j < k implies stored[j] != 0 by {
            assert(stored[j] == candidate[j]);
        }
        lemma_wide_len_is(stored, k);
        lemma_wide_len_is(candidate, k);
        assert(wide_str(stored) =~= wide_str(candidate)) by {
            assert forall|j: int| 0 <= j < k implies wide_str(stored)[j] == wide_str(
                candidate,
            )[j] by {
                assert(stored[j] == candidate[j]);
            }
        }
    }
    if wide_len(stored) < stored.len() && wide_len(stored) < NAME_CAPACITY && wide_len(candidate)
        < candidate.len() && wide_str(stored) == wide_str(candidate) {
        let k = wide_len(stored);
        assert(wide_str(stored).len() == k);
        assert(wide_str(candidate).len() == wide_len(candidate));
        assert forall|j: int| 0 <= j < k implies stored[j] == #[trigger] candidate[j]
            && candidate[j] != 0 by {
            assert(wide_str(stored)[j] == stored[j]);
            assert(wide_str(candidate)[j] == candidate[j]);
        }
        assert(ends_match(stored, candidate, k));
    }
}

/// Matching does not depend on which of the two names is the stored one.
pub proof fn lemma_match_symmetric(a: Seq<u16>, b: Seq<u16>)
    ensures
        names_match(a, b) == names_match(b, a),
{
    if names_match(a, b) {
        let k = choose|k: int| ends_match(a, b, k);
        assert(ends_match(b, a, k));
    }
    if names_match(b, a) {
        let k = choose|k: int| ends_match(b, a, k);
        assert(ends_match(a, b, k));
    }
}

/// The text one unit of a name is printed as.
///
/// A line feed becomes carriage return and line feed, a unit of the ASCII
/// range its character, and any other unit a backslash, `u` and its four
/// hexadecimal digits.
pub open spec fn unit_text(unit: u16) -> Seq<char> {
    if unit == LINE_FEED as u16 {
        seq!['\r', '\n']
    } else if unit <= ASCII_MAX {
        seq![unit as u8 as char]
    } else {
        seq!['\\', 'u'] + hex4(unit)
    }
}

/// The text a name is printed as: the text of each unit before the first
/// terminator, in order.
pub open spec fn name_text(units: Seq<u16>) -> Seq<char>
    decreases units.len(),
{
    if units.len() == 0 || units[0] == 0 {
        Seq::empty()
    } else {
        unit_text(units[0]) + name_text(units.drop_first())
    }
}

/// The text of a name is the text of its terminated string: what follows
/// the terminator is not printed.
pub proof fn lemma_text_of_string(units: Seq<u16>)
    ensures
        name_text(units) == name_text(wide_str(units)),
    decreases units.len(),
{
    lemma_wide_len(units);
    if units.len() == 0 || units[0] == 0 {
        assert(wide_str(units).len() == 0);
    } else {
        let rest = units.drop_first();
        lemma_wide_len(rest);
        lemma_text_of_string(rest);
        assert(wide_str(units).drop_first() == wide_str(rest));
        assert(wide_str(units)[0] == units[0]);
    }
}

/// The description of one directory entry, of which only the name is kept.
pub struct FileInfoObject {
    file_name: [u16; 256],
}

impl View for FileInfoObject {
    type V = Seq<u16>;

    /// The units of the name field, terminator and what follows it included.
    closed spec fn view(&self) -> Seq<u16> {
        self.file_name@
    }
}

impl FileInfoObject {
    /// Takes the name field of an entry-info record.
    pub fn new(file_name: [u16; 256]) -> (info: FileInfoObject)
        ensures
            info@ == file_name@,
    {
        FileInfoObject { file_name }
    }

    /// The name field, as stored.
    pub fn name(&self) -> (units: [u16; 256])
        ensures
            units@ == self@,
    {
        self.file_name
    }

    /// Whether `rhs` is this entry's name.
    pub fn cmp_name(&self, rhs: &[u16]) -> (same: bool)
        ensures
            same == names_match(self@, rhs@),
    {
        let mut i: usize = 0;
        while i < NAME_CAPACITY
            invariant
                i <= NAME_CAPACITY,
                forall|j: int|
                    0 <= j < i ==> j < rhs@.len() && self@[j] == #[trigger] rhs@[j] && rhs@[j] != 0,
            decreases NAME_CAPACITY - i,
        {
            if i >= rhs.len() {
                return false;
            }
            if rhs[i] != self.file_name[i] {
                return false;
            }
            if rhs[i] == 0 {
                proof {
                    lemma_ends_at(self@, rhs@, i);
                }
                return true;
            }
            i += 1;
        }
        false
    }

    /// The name as text.
    pub fn render(&self) -> (text: String)
        ensures
            text@ == name_text(self@),
    {
        let mut text = String::new();
        let mut i: usize = 0;
        assert(self@.skip(0) == self@);
        while i < NAME_CAPACITY
            invariant
                i <= NAME_CAPACITY,
                text@ + name_text(self@.skip(i as int)) == name_text(self@),
            decreases NAME_CAPACITY - i,
        {
            let unit = self.file_name[i];
            proof {
                assert(self@.skip(i as int)[0] == unit);
                assert(self@.skip(i as int).drop_first() == self@.skip(i + 1));
            }
            if unit == 0 {
                return text;
            }
            let ghost before = text@;
            if unit == LINE_FEED as u16 {
                text.push('\r');
                text.push('\n');
            } else if unit <= ASCII_MAX {
                text.push(unit as u8 as char);
            } else {
                text.push('\\');
                text.push('u');
                push_hex4(&mut text, unit);
            }
            assert(text@ == before + unit_text(unit));
            assert(text@ + name_text(self@.skip(i + 1)) == before + (unit_text(unit) + name_text(
                self@.skip(i + 1),
            )));
            i += 1;
        }
        text
    }
}

/// A located filesystem protocol, by the address the firmware gave for it.
pub struct FileSystem {
    protocol: usize,
}

impl View for FileSystem {
    type V = usize;

    /// The address of the protocol.
    closed spec fn view(&self) -> usize {
        self.protocol
    }
}

/// An open file, by the handle the firmware gave for it.
#[derive(Clone, Copy, Debug, PartialEq, Eq, Structural)]
pub struct FileObject(pub usize);

/// An open directory as a value: the handle the firmware gave for it.
pub struct Directory {
    pub handle: usize,
}

/// An open directory.
///
/// The firmware keeps the read position, and nothing of it is kept here:
/// every read asks the firmware, and what it answers is all that decides.
/// There is no going back; to enumerate once more, the root is opened anew.
pub struct DirObject {
    file: FileObject,
}

impl View for DirObject {
    type V = Directory;

    closed spec fn view(&self) -> Directory {
        Directory { handle: self.file.0 }
    }
}

/// What opening the volume gave: the directory when the firmware reported
/// success and a handle; "invalid parameter" when it
/// reported success and no handle; and its own status otherwise.
pub open spec fn root_outcome(status: Status, handle: usize) -> Result<Directory, Status> {
    if status != Status(SUCCESS) {
        Err(status)
    } else if handle == 0 {
        Err(Status(INVALID_PARAMETER))
    } else {
        Ok(Directory { handle })
    }
}

/// What one read of an open directory gave.
///
/// A status other than success is handed on. A successful read of zero bytes
/// is the end of the enumeration. A successful read of more is one entry,
/// whose name field is `name`.
pub open spec fn read_outcome(status: Status, len: usize, name: Seq<u16>) -> Result<
    Option<Seq<u16>>,
    Status,
> {
    if status != Status(SUCCESS) {
        Err(status)
    } else if len == 0 {
        Ok(None)
    } else {
        Ok(Some(name))
    }
}

/// The directory in a result of [`FileSystem::root`], as a value.
pub open spec fn root_view(dir: Result<DirObject, Status>) -> Result<Directory, Status> {
    match dir {
        Ok(dir) => Ok(dir@),
        Err(status) => Err(status),
    }
}

/// The name field in a result of [`DirObject::next_entry`].
pub open spec fn entry_view(entry: Result<Option<FileInfoObject>, Status>) -> Result<
    Option<Seq<u16>>,
    Status,
> {
    match entry {
        Ok(Some(info)) => Ok(Some(info@)),
        Ok(None) => Ok(None),
        Err(status) => Err(status),
    }
}

impl FileSystem {
    /// Wraps the address of a located filesystem protocol.
    pub fn new(protocol: usize) -> (fs: FileSystem)
        ensures
            fs@ == protocol,
    {
        FileSystem { protocol }
    }

    /// The address of the protocol.
    pub fn protocol(&self) -> (protocol: usize)
        ensures
            protocol == self@,
    {
        self.protocol
    }

    /// The request that opens the volume.
    pub fn root_request(&self) -> (call: Call)
        ensures
            call@ == (CallView::OpenVolume { protocol: self@ }),
    {
        Call::OpenVolume { protocol: self.protocol }
    }

    /// Reads the firmware's reply to [`FileSystem::root_request`]: its status
    /// and the handle it stored.
    pub fn root(&self, status: Status, handle: usize) -> (dir: Result<DirObject, Status>)
        ensures
            root_view(dir) == root_outcome(status, handle),
    {
        if status.0 != SUCCESS {
            Err(status)
        } else if handle == 0 {
            Err(Status::invalid_parameter())
        } else {
            Ok(DirObject::new(handle))
        }
    }
}

impl DirObject {
    /// The directory behind `handle`.
    pub fn new(handle: usize) -> (dir: DirObject)
        ensures
            dir@ == (Directory { handle }),
    {
        DirObject { file: FileObject(handle) }
    }

    /// The open file under the directory.
    pub fn file(&self) -> (file: FileObject)
        ensures
            file.0 == self@.handle,
    {
        self.file
    }

    /// The request that reads the next entry: one read of the directory's
    /// own handle, whatever was read before.
    pub fn read_request(&self) -> (call: Call)
        ensures
            call@ == (CallView::Read { file: self@.handle }),
    {
        Call::Read { file: self.file.0 }
    }

    /// Reads the firmware's reply to [`DirObject::read_request`]: its status,
    /// the number of bytes it wrote and the name field of the record it
    /// filled. The reply alone decides, and the directory stays as it is.
    pub fn next_entry(&self, status: Status, len: usize, name: [u16; 256]) -> (entry: Result<
        Option<FileInfoObject>,
        Status,
    >)
        ensures
            entry_view(entry) == read_outcome(status, len, name@),
    {
        if status.0 != SUCCESS {
            Err(status)
        } else if len == 0 {
            Ok(None)
        } else {
            Ok(Some(FileInfoObject::new(name)))
        }
    }
}

/// A read that succeeds with a positive number of bytes yields the entry it
/// filled.
pub proof fn lemma_entry_read(len: usize, name: Seq<u16>)
    requires
        len > 0,
    ensures
        read_outcome(Status(SUCCESS), len, name) == Ok::<Option<Seq<u16>>, Status>(Some(name)),
{
}

/// A read that fails hands the status on unchanged, whatever else it
/// reports.
pub proof fn lemma_entry_failed(status: Status, len: usize, name: Seq<u16>)
    requires
        status != Status(SUCCESS),
    ensures
        read_outcome(status, len, name) == Err::<Option<Seq<u16>>, Status>(status),
{
}

/// A read that succeeds with zero bytes is the end of the enumeration: it
/// yields no entry, whatever the buffer holds.
pub proof fn lemma_entry_end(name: Seq<u16>)
    ensures
        read_outcome(Status(SUCCESS), 0, name) == Ok::<Option<Seq<u16>>, Status>(None),
{
}

} // verus!
