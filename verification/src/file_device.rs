use vstd::prelude::*;
use vstd::string::StringExecFns;
use crate::dltx::{DLAllocatorRef, DLCharacterSet, DLString, decoded};

verus! {

/// Bitfield that tracks the state of a file operator: bit 0 is set while the file is open,
/// bits 1 and 2 are changed by `set_path` and `set_state`.
#[derive(Clone, Copy)]
pub struct DLFileOperatorIOState(pub u32);

impl Default for DLFileOperatorIOState {
    fn default() -> (r: Self)
        ensures
            r.0 == 0,
    {
        DLFileOperatorIOState(0)
    }
}

/// The text of a boolean.
pub open spec fn bool_text(b: bool) -> Seq<char> {
    if b {
        "true"@
    } else {
        "false"@
    }
}

fn push_bool(s: &mut String, b: bool)
    ensures
        final(s)@ == old(s)@ + bool_text(b),
{
    if b {
        s.append("true");
    } else {
        s.append("false");
    }
}

impl DLFileOperatorIOState {
    pub fn is_open(&self) -> (r: bool)
        ensures
            r == (self.0 & 0x1 != 0),
    {
        self.0 & 0x1 != 0
    }

    pub fn unk1(&self) -> (r: bool)
        ensures
            r == (self.0 & 0x2 != 0),
    {
        self.0 & 0x2 != 0
    }

    pub fn unk2(&self) -> (r: bool)
        ensures
            r == (self.0 & 0x4 != 0),
    {
        self.0 & 0x4 != 0
    }

    /// The state's description: the three flags by name.
    pub fn to_string(&self) -> (r: String)
        ensures
            r@ == "DLFileOperatorIOState { is_open: "@ + bool_text(self.0 & 0x1 != 0) + ", unk1: "@
                + bool_text(self.0 & 0x2 != 0) + ", unk2: "@ + bool_text(self.0 & 0x4 != 0)
                + " }"@,
    {
        let mut s = String::new();
        s.append("DLFileOperatorIOState { is_open: ");
        push_bool(&mut s, self.is_open());
        s.append(", unk1: ");
        push_bool(&mut s, self.unk1());
        s.append(", unk2: ");
        push_bool(&mut s, self.unk2());
        s.append(" }");
        s
    }
}

/// The state after `set_path` or `set_state`: bits 1 and 2 become the two flags, the others
/// stay.
pub open spec fn with_path_flags(state: u32, first: bool, second: bool) -> u32 {
    (state & 0xfffffff9) | (if first { 2u32 } else { 0u32 }) | (if second { 4u32 } else { 0u32 })
}

/// Setting the path flags sets `unk1` and `unk2` to them and keeps whether the file is open.
pub proof fn lemma_path_flags(state: u32, first: bool, second: bool)
    ensures
        (with_path_flags(state, first, second) & 0x2 != 0) == first,
        (with_path_flags(state, first, second) & 0x4 != 0) == second,
        (with_path_flags(state, first, second) & 0x1) == (state & 0x1),
{
    let a: u32 = if first { 2 } else { 0 };
    let b: u32 = if second { 4 } else { 0 };
    assert({
        let r = (state & 0xfffffff9) | a | b;
        &&& (r & 0x2 != 0) == (a == 2)
        &&& (r & 0x4 != 0) == (b == 4)
        &&& r & 0x1 == state & 0x1
    }) by (bit_vector)
        requires
            a == 0 || a == 2,
            b == 0 || b == 4,
    ;
}

/// Computes the state that `set_path` and `set_state` store.
fn path_flags(state: u32, first: bool, second: bool) -> (r: u32)
    ensures
        r == with_path_flags(state, first, second),
{
    let masked = state & 0xfffffff9;
    let s1: u32 = second as u32 & 1;
    let f1: u32 = first as u32 & 1;
    proof {
        let sv = second as u32;
        let fv = first as u32;
        assert(sv & 1 <= 1 && fv & 1 <= 1) by (bit_vector);
        assert(((s1 * 2) as u32 | f1) <= 3) by (bit_vector)
            requires
                s1 <= 1,
                f1 <= 1,
        ;
    }
    let bits: u32 = ((s1 * 2) | f1) * 2;
    proof {
        let f: u32 = if first { 1 } else { 0 };
        let s: u32 = if second { 1 } else { 0 };
        assert(first as u32 == f);
        assert(second as u32 == s);
        assert(s1 == (s & 1) && f1 == (f & 1));
        assert((((((s & 1) * 2) as u32) | (f & 1)) * 2) as u32 == (if f == 1 { 2u32 } else { 0u32 }) | (if s == 1 {
            4u32
        } else {
            0u32
        })) by (bit_vector)
            requires
                f <= 1,
                s <= 1,
        ;
        assert(masked | ((if f == 1 { 2u32 } else { 0u32 }) | (if s == 1 { 4u32 } else { 0u32 }))
            == (masked | (if f == 1 { 2u32 } else { 0u32 })) | (if s == 1 { 4u32 } else { 0u32 }))
            by (bit_vector);
    }
    masked | bits
}

/// Result of the latest operation of a file operator.
#[derive(Clone, Copy, Debug, PartialEq, Eq, Structural)]
pub enum DLIOResult {
    Success,
    /// Any other result, by the code the game stores.
    Code(i32),
}

/// The state a file operator shares with every implementation.
pub struct DLFileOperatorBase {
    /// Address of the operator's method table; 0 for operators whose methods are this
    /// crate's own.
    pub vftable: usize,
    /// Address of the allocator passed to the constructor, used for all memory operations.
    pub allocator: usize,
    /// Result of latest operation involving this file operator
    pub result: DLIOResult,
    /// Address of the file operator container that owns this file operator.
    pub owning_operator_container: usize,
    /// Bitfield that tracks the state of the file operator.
    pub io_state: DLFileOperatorIOState,
    /// Address of the file device that created this file operator.
    pub owning_file_device: usize,
    /// Virtual or real path this operator is bound to.
    pub path: DLString,
}

impl DLFileOperatorBase {
    /// A file operator for `path`, whose text is copied into a new string; the state starts
    /// at zero and the result at success.
    pub fn new(
        vftable: usize,
        allocator: &DLAllocatorRef,
        path: &DLString,
        operator_container: usize,
        file_device: usize,
    ) -> (r: Self)
        requires
            decoded(DLCharacterSet::UTF16, path@) is Ok,
        ensures
            r.vftable == vftable,
            r.allocator == allocator.address,
            r.result == DLIOResult::Success,
            r.owning_operator_container == operator_container,
            r.owning_file_device == file_device,
            r.io_state.0 == 0,
            r.path@ == path@,
            r.path.recorded_charset() == DLCharacterSet::UTF16,
            r.path.allocator_address() == allocator.address,
    {
        proof {
            crate::dltx::lemma_utf16_decode_encode(path@);
        }
        let copied = match DLString::copy(allocator, path) {
            Ok(s) => s,
            Err(_) => {
                // A UTF-16 string that decodes is encoded again without error.
                return vstd::pervasive::unreached();
            },
        };
        Self {
            vftable,
            allocator: allocator.address,
            result: DLIOResult::Success,
            owning_operator_container: operator_container,
            io_state: DLFileOperatorIOState::default(),
            owning_file_device: file_device,
            path: copied,
        }
    }
}

/// A file operator that serves a file from a byte buffer, read through a cursor.
pub struct AdapterFileOperator {
    pub base: DLFileOperatorBase,
    /// The file's bytes.
    pub buffer: Vec<u8>,
    /// The cursor's position in the buffer.
    pub position: usize,
}

/// How many bytes a read of `length` bytes at `position` of a `total`-byte file reads: what
/// is left of the file, at most `length`.
pub open spec fn read_count(total: nat, position: nat, length: nat) -> nat {
    if position >= total {
        0
    } else if length <= total - position {
        length
    } else {
        (total - position) as nat
    }
}

impl AdapterFileOperator {
    /// An adapter over `buffer`, with its cursor at the start.
    pub fn new(
        allocator: &DLAllocatorRef,
        path: &DLString,
        operator_container: usize,
        file_device: usize,
        buffer: Vec<u8>,
    ) -> (r: Self)
        requires
            decoded(DLCharacterSet::UTF16, path@) is Ok,
        ensures
            r.base.vftable == 0,
            r.base.allocator == allocator.address,
            r.base.result == DLIOResult::Success,
            r.base.owning_operator_container == operator_container,
            r.base.owning_file_device == file_device,
            r.base.io_state.0 == 0,
            r.base.path@ == path@,
            r.base.path.recorded_charset() == DLCharacterSet::UTF16,
            r.base.path.allocator_address() == allocator.address,
            r.buffer@ == buffer@,
            r.position == 0,
    {
        Self {
            base: DLFileOperatorBase::new(0, allocator, path, operator_container, file_device),
            buffer,
            position: 0,
        }
    }

    /// Sets the path of the operator to a copy of `path`, made with the operator's allocator,
    /// and the path flags of the state: bit 1 to `param_3` and bit 2 to `param_4`.
    pub fn set_path(&mut self, path: &DLString, param_3: bool, param_4: bool) -> (r: bool)
        ensures
            r,
            final(self).base.io_state.0 == with_path_flags(old(self).base.io_state.0, param_3, param_4),
            final(self).base.path@ == path@,
            final(self).base.path.recorded_charset() == path.recorded_charset(),
            final(self).base.path.allocator_address() == old(self).base.allocator,
            final(self).base.vftable == old(self).base.vftable,
            final(self).base.allocator == old(self).base.allocator,
            final(self).base.result == old(self).base.result,
            final(self).base.owning_operator_container == old(self).base.owning_operator_container,
            final(self).base.owning_file_device == old(self).base.owning_file_device,
            final(self).buffer@ == old(self).buffer@,
            final(self).position == old(self).position,
    {
        let allocator = DLAllocatorRef { address: self.base.allocator };
        self.base.path = path.copy_in(&allocator);
        self.base.io_state.0 = path_flags(self.base.io_state.0, param_3, param_4);
        true
    }

    /// Sets the path flags of the state: bit 1 to `param_2` and bit 2 to `param_3`. Nothing
    /// else changes.
    pub fn set_state(&mut self, param_2: bool, param_3: bool) -> (r: bool)
        ensures
            r,
            final(self).base.io_state.0 == with_path_flags(old(self).base.io_state.0, param_2, param_3),
            final(self).base.path == old(self).base.path,
            final(self).base.vftable == old(self).base.vftable,
            final(self).base.allocator == old(self).base.allocator,
            final(self).base.result == old(self).base.result,
            final(self).base.owning_operator_container == old(self).base.owning_operator_container,
            final(self).base.owning_file_device == old(self).base.owning_file_device,
            final(self).buffer@ == old(self).buffer@,
            final(self).position == old(self).position,
    {
        self.base.io_state.0 = path_flags(self.base.io_state.0, param_2, param_3);
        true
    }

    /// The size of the file: the end of the buffer; the cursor is left where it was.
    pub fn file_size(&mut self) -> (r: usize)
        ensures
            r == old(self).buffer@.len(),
            *final(self) == *old(self),
    {
        let current = self.position;
        let end = self.buffer.len();
        self.position = current;
        end
    }

    pub fn is_open(&self) -> (r: bool)
        ensures
            r,
    {
        true
    }

    pub fn close(&mut self) -> (r: bool)
        ensures
            r,
            *final(self) == *old(self),
    {
        true
    }

    /// Reads up to `length` bytes at the cursor into the start of `output`, moves the cursor
    /// past them and returns how many were read: fewer than `length` when the file ends
    /// first. The result becomes success.
    pub fn read(&mut self, output: &mut [u8], length: usize) -> (r: i32)
        requires
            length <= old(output)@.len(),
        ensures
            ({
                let n = read_count(
                    old(self).buffer@.len(),
                    old(self).position as nat,
                    length as nat,
                );
                &&& r == n as i32
                &&& final(output)@ == Seq::new(
                    n,
                    |j: int| old(self).buffer@[old(self).position + j],
                ) + old(output)@.skip(n as int)
                &&& final(self).position == old(self).position + n
            }),
            final(self).buffer@ == old(self).buffer@,
            final(self).base.result == DLIOResult::Success,
            final(self).base.io_state == old(self).base.io_state,
            final(self).base.path == old(self).base.path,
            final(self).base.vftable == old(self).base.vftable,
            final(self).base.allocator == old(self).base.allocator,
            final(self).base.owning_operator_container == old(self).base.owning_operator_container,
            final(self).base.owning_file_device == old(self).base.owning_file_device,
    {
        let start = self.position;
        let total = self.buffer.len();
        let count: usize = if start >= total {
            0
        } else if length <= total - start {
            length
        } else {
            total - start
        };
        let mut i: usize = 0;
        while i < count
            invariant
                i <= count,
                count <= length,
                count > 0 ==> start + count <= total,
                start == self.position,
                total == self.buffer@.len(),
                length <= output@.len(),
                output@.len() == old(output)@.len(),
                forall|j: int| 0 <= j < i ==> #[trigger] output@[j] == self.buffer@[start + j],
                forall|j: int| i <= j < output@.len() ==> #[trigger] output@[j] == old(output)@[j],
            decreases count - i,
        {
            output[i] = self.buffer[start + i];
            i = i + 1;
        }
        self.position = start + count;
        self.base.result = DLIOResult::Success;
        proof {
            assert(output@ =~= Seq::new(count as nat, |j: int| old(self).buffer@[start + j]) + old(
                output,
            )@.skip(count as int));
        }
        count as i32
    }
}

} // verus!
