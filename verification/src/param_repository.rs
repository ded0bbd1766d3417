use vstd::prelude::*;
use vstd::string::StringExecFns;
use vstd::utf8::{decode_utf8, valid_utf8};
use crate::unicode::{u32_from_ne, u32_from_ne_bytes, u64_from_ne, u64_from_ne_bytes};

verus! {

pub struct ParamTypeDescriptor {
    pub unk0: u32,
    /// Offset of the param type's name from the start of the param file.
    pub name_offset: u32,
    /// String will be stored here if it fits.
    pub _pad8: [u8; 24],
}

pub struct ParamFileHeader {
    pub strings_offset: u32,
    pub short_data_offset: u16,
    pub unk6: u16,
    pub paramdef_version: u16,
    pub row_count: u16,
    pub param_type: ParamTypeDescriptor,
    pub endianness: u8,
    pub flags_2d: u8,
    pub flags_2e: u8,
    pub paramdef_format_version: u8,
    pub unk30: [u8; 0x10],
}

/// Size of the param file header; the row descriptors follow it.
pub const PARAM_FILE_HEADER_SIZE: usize = 0x40;

/// Size of a row descriptor: id, padding, data offset and name offset.
pub const PARAM_ROW_DESCRIPTOR_SIZE: usize = 24;

/// A row descriptor of a param file.
#[derive(Clone, Copy)]
pub struct ParamRowDescriptor {
    pub id: u32,
    pub _pad4: u32,
    pub data_offset: u64,
    pub name_offset: u64,
}

/// A loaded param file: its header and all of its bytes, the header's included.
pub struct ParamData {
    pub header: ParamFileHeader,
    pub bytes: Vec<u8>,
}

/// The native-order 32-bit value at `at`.
pub open spec fn u32_at(bytes: Seq<u8>, at: int) -> u32 {
    u32_from_ne(bytes[at], bytes[at + 1], bytes[at + 2], bytes[at + 3])
}

/// The row descriptor stored at position `i` of a param file.
pub open spec fn row_at(bytes: Seq<u8>, i: int) -> ParamRowDescriptor {
    let at = PARAM_FILE_HEADER_SIZE + PARAM_ROW_DESCRIPTOR_SIZE * i;
    ParamRowDescriptor {
        id: u32_at(bytes, at),
        _pad4: u32_at(bytes, at + 4),
        data_offset: u64_from_ne(bytes.subrange(at + 8, at + 16)),
        name_offset: u64_from_ne(bytes.subrange(at + 16, at + 24)),
    }
}

/// The position of the first NUL byte at or after `from`.
pub open spec fn first_nul_from(bytes: Seq<u8>, from: int) -> Option<int> {
    if exists|i: int| from <= i < bytes.len() && bytes[i] == 0 {
        Some(
            choose|i: int|
                from <= i < bytes.len() && bytes[i] == 0 && forall|j: int|
                    from <= j < i ==> #[trigger] bytes[j] != 0,
        )
    } else {
        None
    }
}

/// The position of the first row with the given id.
pub open spec fn first_row_with_id(rows: Seq<ParamRowDescriptor>, id: u32) -> Option<int> {
    if exists|k: int| 0 <= k < rows.len() && (#[trigger] rows[k]).id == id {
        Some(
            choose|k: int|
                0 <= k < rows.len() && (#[trigger] rows[k]).id == id && forall|j: int|
                    0 <= j < k ==> (#[trigger] rows[j]).id != id,
        )
    } else {
        None
    }
}

fn read_u32(bytes: &Vec<u8>, at: usize) -> (r: u32)
    requires
        at + 4 <= bytes@.len(),
    ensures
        r == u32_at(bytes@, at as int),
{
    let total = bytes.len();
    assert(at + 4 <= total);
    u32_from_ne_bytes([bytes[at], bytes[at + 1], bytes[at + 2], bytes[at + 3]])
}

fn read_u64(bytes: &Vec<u8>, at: usize) -> (r: u64)
    requires
        at + 8 <= bytes@.len(),
    ensures
        r == u64_from_ne(bytes@.subrange(at as int, at + 8)),
{
    let total = bytes.len();
    assert(at + 8 <= total);
    let b = [
        bytes[at],
        bytes[at + 1],
        bytes[at + 2],
        bytes[at + 3],
        bytes[at + 4],
        bytes[at + 5],
        bytes[at + 6],
        bytes[at + 7],
    ];
    proof {
        assert(b@ =~= bytes@.subrange(at as int, at + 8));
    }
    u64_from_ne_bytes(b)
}

/// `str::from_utf8`: the text of valid UTF-8 bytes, none for others.
#[verifier::external_body]
fn str_from_utf8(bytes: &[u8]) -> (r: Option<&str>)
    ensures
        r is Some <==> valid_utf8(bytes@),
        r matches Some(s) ==> s@ == decode_utf8(bytes@),
{
    std::str::from_utf8(bytes).ok()
}

impl ParamData {
    /// Whether the param type's name ends with a NUL inside the file and is valid UTF-8.
    pub open spec fn name_readable(&self) -> bool {
        match first_nul_from(self.bytes@, self.header.param_type.name_offset as int) {
            Some(end) => valid_utf8(
                self.bytes@.subrange(self.header.param_type.name_offset as int, end),
            ),
            None => false,
        }
    }

    /// The param type's name: the UTF-8 text from its offset to the next NUL.
    pub open spec fn spec_name(&self) -> Seq<char> {
        let start = self.header.param_type.name_offset as int;
        decode_utf8(self.bytes@.subrange(start, first_nul_from(self.bytes@, start).unwrap()))
    }

    /// Whether all row descriptors lie inside the file.
    pub open spec fn rows_readable(&self) -> bool {
        PARAM_FILE_HEADER_SIZE + PARAM_ROW_DESCRIPTOR_SIZE * self.header.row_count <= self.bytes@.len()
    }

    /// The row descriptors, right after the header.
    pub open spec fn rows(&self) -> Seq<ParamRowDescriptor> {
        Seq::new(self.header.row_count as nat, |i: int| row_at(self.bytes@, i))
    }

    pub fn name(&self) -> (r: String)
        requires
            self.name_readable(),
        ensures
            r@ == self.spec_name(),
    {
        let start = self.header.param_type.name_offset as usize;
        let mut end = start;
        let ghost nul = first_nul_from(self.bytes@, start as int).unwrap();
        proof {
            let c = nul;
            assert(start <= c < self.bytes@.len() && self.bytes@[c] == 0 && forall|j: int| start <= j < c ==> #[trigger] self.bytes@[j] != 0) by {
                let w = choose|i: int| start <= i < self.bytes@.len() && self.bytes@[i] == 0;
                lemma_least_nul(self.bytes@, start as int, w);
            }
        }
        let total = self.bytes.len();
        while self.bytes[end] != 0
            invariant
                total == self.bytes@.len(),
                start <= end <= nul,
                nul < self.bytes@.len(),
                self.bytes@[nul] == 0,
                forall|j: int| start <= j < nul ==> #[trigger] self.bytes@[j] != 0,
            decreases nul - end,
        {
            end = end + 1;
        }
        let text = str_from_utf8(vstd::slice::slice_subrange(self.bytes.as_slice(), start, end));
        text.unwrap().to_owned()
    }

    fn row_descriptors(&self) -> (r: Vec<ParamRowDescriptor>)
        requires
            self.rows_readable(),
        ensures
            r@ == self.rows(),
    {
        let count = self.header.row_count as usize;
        let mut rows: Vec<ParamRowDescriptor> = Vec::new();
        let mut i: usize = 0;
        while i < count
            invariant
                count == self.header.row_count,
                self.rows_readable(),
                i <= count,
                rows@.len() == i,
                forall|j: int| 0 <= j < i ==> #[trigger] rows@[j] == row_at(self.bytes@, j),
            decreases count - i,
        {
            let at = PARAM_FILE_HEADER_SIZE + PARAM_ROW_DESCRIPTOR_SIZE * i;
            let row = ParamRowDescriptor {
                id: read_u32(&self.bytes, at),
                _pad4: read_u32(&self.bytes, at + 4),
                data_offset: read_u64(&self.bytes, at + 8),
                name_offset: read_u64(&self.bytes, at + 16),
            };
            rows.push(row);
            i = i + 1;
        }
        proof {
            assert(rows@ =~= self.rows());
        }
        rows
    }

    /// Retrieves the data of the first row with the given id: the file's bytes from the row's
    /// data offset on.
    pub fn get(&self, id: u32) -> (r: Option<&[u8]>)
        requires
            self.rows_readable(),
            forall|k: int| 0 <= k < self.rows().len() ==> (#[trigger] self.rows()[k]).data_offset <= self.bytes@.len(),
        ensures
            match first_row_with_id(self.rows(), id) {
                Some(k) => r matches Some(d) && d@ == self.bytes@.skip(self.rows()[k].data_offset as int),
                None => r is None,
            },
    {
        let offset = match self.find_row(id) {
            Some(offset) => offset,
            None => {
                return None;
            },
        };
        let total = self.bytes.len();
        proof {
            assert(self.bytes@.subrange(offset as int, total as int) =~= self.bytes@.skip(offset as int));
        }
        Some(vstd::slice::slice_subrange(self.bytes.as_slice(), offset, total))
    }
}

/// The bytes from `offset` on, for changing them.
fn bytes_from_mut(bytes: &mut Vec<u8>, offset: usize) -> (r: &mut [u8])
    requires
        offset <= old(bytes)@.len(),
    ensures
        r@ == old(bytes)@.skip(offset as int),
        final(bytes)@ == old(bytes)@.take(offset as int) + final(r)@,
{
    let ghost before = bytes@;
    proof {
        assert(before.skip(offset as int) =~= before.subrange(offset as int, before.len() as int));
        assert(before.take(offset as int) =~= before.subrange(0, offset as int));
    }
    let all = bytes.as_mut_slice();
    let (_head, data) = all.split_at_mut(offset);
    data
}

impl ParamData {
    /// The position of the first row with the given id, and its data offset.
    fn find_row(&self, id: u32) -> (r: Option<usize>)
        requires
            self.rows_readable(),
            forall|k: int| 0 <= k < self.rows().len() ==> (#[trigger] self.rows()[k]).data_offset <= self.bytes@.len(),
        ensures
            match first_row_with_id(self.rows(), id) {
                Some(k) => r matches Some(o) && o as int == self.rows()[k].data_offset as int,
                None => r is None,
            },
            r matches Some(o) ==> o <= self.bytes@.len(),
    {
        let rows = self.row_descriptors();
        let mut k: usize = 0;
        while k < rows.len()
            invariant
                rows@ == self.rows(),
                k <= rows@.len(),
                forall|j: int| 0 <= j < k ==> (#[trigger] rows@[j]).id != id,
                forall|j: int| 0 <= j < rows@.len() ==> (#[trigger] rows@[j]).data_offset <= self.bytes@.len(),
            decreases rows@.len() - k,
        {
            if rows[k].id == id {
                proof {
                    lemma_first_row(rows@, id, k as int);
                }
                let total = self.bytes.len();
                assert(rows@[k as int].data_offset <= total);
                return Some(rows[k].data_offset as usize);
            }
            k = k + 1;
        }
        proof {
            if first_row_with_id(rows@, id) is Some {
                let w = choose|w: int| 0 <= w < rows@.len() && (#[trigger] rows@[w]).id == id;
                assert(rows@[w].id != id);
            }
        }
        None
    }

    /// Retrieves the data of the first row with the given id for changing it: the file's
    /// bytes from the row's data offset on. What is written through the slice lands in the
    /// file's bytes.
    pub fn get_mut(&mut self, id: u32) -> (r: Option<&mut [u8]>)
        requires
            old(self).rows_readable(),
            forall|k: int| 0 <= k < old(self).rows().len() ==> (#[trigger] old(self).rows()[k]).data_offset <= old(self).bytes@.len(),
        ensures
            match first_row_with_id(old(self).rows(), id) {
                Some(k) => {
                    let offset = old(self).rows()[k].data_offset as int;
                    r matches Some(d) && d@ == old(self).bytes@.skip(offset)
                        && final(self).bytes@ == old(self).bytes@.take(offset) + final(d)@
                },
                None => r is None && final(self).bytes@ == old(self).bytes@,
            },
            final(self).header == old(self).header,
    {
        let offset = match self.find_row(id) {
            Some(offset) => offset,
            None => {
                return None;
            },
        };
        Some(bytes_from_mut(&mut self.bytes, offset))
    }
}

proof fn lemma_least_nul(bytes: Seq<u8>, from: int, w: int)
    requires
        from <= w < bytes.len(),
        bytes[w] == 0,
    ensures
        first_nul_from(bytes, from) matches Some(c) && from <= c < bytes.len() && bytes[c] == 0
            && forall|j: int| from <= j < c ==> #[trigger] bytes[j] != 0,
    decreases w - from,
{
    if exists|j: int| from <= j < w && bytes[j] == 0 {
        let j = choose|j: int| from <= j < w && bytes[j] == 0;
        lemma_least_nul(bytes, from, j);
    } else {
        assert(from <= w < bytes.len() && bytes[w] == 0 && forall|j: int| from <= j < w ==> #[trigger] bytes[j] != 0);
    }
}

proof fn lemma_first_row(rows: Seq<ParamRowDescriptor>, id: u32, k: int)
    requires
        0 <= k < rows.len(),
        rows[k].id == id,
        forall|j: int| 0 <= j < k ==> (#[trigger] rows[j]).id != id,
    ensures
        first_row_with_id(rows, id) == Some(k),
{
    let c = choose|c: int|
        0 <= c < rows.len() && (#[trigger] rows[c]).id == id && forall|j: int|
            0 <= j < c ==> (#[trigger] rows[j]).id != id;
    assert(0 <= k < rows.len() && rows[k].id == id && forall|j: int| 0 <= j < k ==> (#[trigger] rows[j]).id != id);
    if c < k {
        assert(rows[c].id != id);
    } else if c > k {
        assert(rows[k].id != id);
    }
}

/// A param file resource and its size.
pub struct FD4ParamResCap {
    /// Size of data at pointer.
    pub size: u64,
    /// Raw row data for this param file.
    pub data: Box<ParamData>,
}

/// The param repository: the param file resources it holds, in the order it holds them.
pub struct FD4ParamRepository {
    /// Resource capsules of the param files.
    pub res_caps: Vec<FD4ParamResCap>,
    pub allocator: usize,
}

/// The position of the first resource whose param type is named `name`.
pub open spec fn first_with_name(caps: Seq<FD4ParamResCap>, name: Seq<char>) -> Option<int> {
    if exists|k: int| 0 <= k < caps.len() && (#[trigger] caps[k]).data.spec_name() == name {
        Some(
            choose|k: int|
                0 <= k < caps.len() && (#[trigger] caps[k]).data.spec_name() == name && forall|
                    j: int,
                | 0 <= j < k ==> (#[trigger] caps[j]).data.spec_name() != name,
        )
    } else {
        None
    }
}

proof fn lemma_first_with_name(caps: Seq<FD4ParamResCap>, name: Seq<char>, k: int)
    requires
        0 <= k < caps.len(),
        caps[k].data.spec_name() == name,
        forall|j: int| 0 <= j < k ==> (#[trigger] caps[j]).data.spec_name() != name,
    ensures
        first_with_name(caps, name) == Some(k),
{
    let c = choose|c: int|
        0 <= c < caps.len() && (#[trigger] caps[c]).data.spec_name() == name && forall|j: int|
            0 <= j < c ==> (#[trigger] caps[j]).data.spec_name() != name;
    assert(0 <= k < caps.len() && caps[k].data.spec_name() == name && forall|j: int| 0 <= j < k ==> (#[trigger] caps[j]).data.spec_name() != name);
    if c < k {
        assert(caps[c].data.spec_name() != name);
    } else if c > k {
        assert(caps[k].data.spec_name() != name);
    }
}

impl FD4ParamRepository {
    /// Whether no param file before position `k` is named `name`.
    pub open spec fn names_differ_before(&self, name: Seq<char>, k: int) -> bool {
        forall|j: int| 0 <= j < k ==> (#[trigger] self.res_caps@[j]).data.spec_name() != name
    }

    /// Whether a lookup of `name` can read what it reads: the name of every param file it
    /// reaches (each one up to the first named `name`), and the rows of that file.
    pub open spec fn readable_for(&self, name: Seq<char>) -> bool {
        &&& forall|k: int|
            0 <= k < self.res_caps@.len() && #[trigger] self.names_differ_before(name, k)
                ==> self.res_caps@[k].data.name_readable()
        &&& match first_with_name(self.res_caps@, name) {
            Some(k) => {
                let d = self.res_caps@[k].data;
                &&& d.rows_readable()
                &&& forall|r: int| 0 <= r < d.rows().len() ==> (#[trigger] d.rows()[r]).data_offset <= d.bytes@.len()
            },
            None => true,
        }
    }

    /// The position of the first param file whose type is named `name`.
    fn find_cap(&self, name: &str) -> (r: Option<usize>)
        requires
            self.readable_for(name@),
        ensures
            match first_with_name(self.res_caps@, name@) {
                Some(k) => r matches Some(i) && i as int == k,
                None => r is None,
            },
            r matches Some(k) ==> k < self.res_caps@.len(),
    {
        let wanted = String::from_str(name);
        let mut k: usize = 0;
        while k < self.res_caps.len()
            invariant
                self.readable_for(name@),
                wanted@ == name@,
                k <= self.res_caps@.len(),
                self.names_differ_before(name@, k as int),
            decreases self.res_caps@.len() - k,
        {
            let cap = &self.res_caps[k];
            assert(cap.data.name_readable());
            let cap_name = cap.data.name();
            if cap_name == wanted {
                proof {
                    lemma_first_with_name(self.res_caps@, name@, k as int);
                }
                return Some(k);
            }
            k = k + 1;
            proof {
                assert(self.names_differ_before(name@, k as int));
            }
        }
        proof {
            if first_with_name(self.res_caps@, name@) is Some {
                let w = choose|w: int| 0 <= w < self.res_caps@.len() && (#[trigger] self.res_caps@[w]).data.spec_name() == name@;
                assert(self.res_caps@[w].data.spec_name() != name@);
            }
        }
        None
    }

    /// The data of row `id` of the first param file whose type is named `name`.
    pub fn get(&self, name: &str, id: u32) -> (r: Option<&[u8]>)
        requires
            self.readable_for(name@),
        ensures
            match first_with_name(self.res_caps@, name@) {
                Some(k) => {
                    let d = self.res_caps@[k].data;
                    match first_row_with_id(d.rows(), id) {
                        Some(row) => r matches Some(b) && b@ == d.bytes@.skip(d.rows()[row].data_offset as int),
                        None => r is None,
                    }
                },
                None => r is None,
            },
    {
        match self.find_cap(name) {
            Some(k) => {
                let data: &ParamData = &self.res_caps[k].data;
                data.get(id)
            },
            None => None,
        }
    }

    /// The data of row `id` of the first param file whose type is named `name`, for changing
    /// it. What is written through the slice lands in that file's bytes; every other param
    /// file stays as it was.
    pub fn get_mut(&mut self, name: &str, id: u32) -> (r: Option<&mut [u8]>)
        requires
            old(self).readable_for(name@),
        ensures
            final(self).allocator == old(self).allocator,
            final(self).res_caps@.len() == old(self).res_caps@.len(),
            match first_with_name(old(self).res_caps@, name@) {
                Some(k) => {
                    let d = old(self).res_caps@[k].data;
                    &&& forall|j: int| 0 <= j < old(self).res_caps@.len() && j != k ==> #[trigger] final(self).res_caps@[j] == old(self).res_caps@[j]
                    &&& final(self).res_caps@[k].size == old(self).res_caps@[k].size
                    &&& final(self).res_caps@[k].data.header == d.header
                    &&& match first_row_with_id(d.rows(), id) {
                        Some(row) => {
                            let offset = d.rows()[row].data_offset as int;
                            r matches Some(b) && b@ == d.bytes@.skip(offset)
                                && final(self).res_caps@[k].data.bytes@ == d.bytes@.take(offset) + final(b)@
                        },
                        None => r is None && final(self).res_caps@[k].data.bytes@ == d.bytes@,
                    }
                },
                None => r is None && final(self).res_caps@ == old(self).res_caps@,
            },
    {
        let k = match self.find_cap(name) {
            Some(k) => k,
            None => {
                return None;
            },
        };
        let cap = &mut self.res_caps[k];
        cap.data.get_mut(id)
    }
}

} // verus!
