//! The 64 KiB flat address space and its memory-mapped ports.
use vstd::prelude::*;

verus! {

/// Number of addressable bytes.
pub const MEM_SIZE: usize = 65536;

/// Writing a byte here prints it.
pub const CHROUT: usize = 0xFE00;

/// The input poll stores the last key here.
pub const CHRIN: usize = 0xFE01;

pub const BACKSPACE: u8 = 0x08;

pub const CARRIAGE_RETURN: u8 = 0x0d;

pub const LINE_FEED: u8 = 0x0a;

pub const SPACE: u8 = 0x20;

/// Bytes per row of a memory dump.
pub const DUMP_ROW: usize = 16;

/// The memory-mapped ports, looked up on every write.
#[derive(Clone, Copy, Debug, PartialEq, Eq, Structural)]
pub enum MemMap {
    Chrout,
    Chrin,
    NoMap,
}

/// Which port, if any, sits at an address.
pub open spec fn port_at(index: int) -> MemMap {
    if index == CHROUT {
        MemMap::Chrout
    } else if index == CHRIN {
        MemMap::Chrin
    } else {
        MemMap::NoMap
    }
}

/// What the terminal receives when `v` is written to the output port:
/// nothing for 0, a destructive backspace for 0x08, CR/LF for 0x0D, and the
/// byte itself otherwise.
pub open spec fn chrout_output(v: u8) -> Seq<u8> {
    if v == 0 {
        Seq::empty()
    } else if v == BACKSPACE {
        seq![BACKSPACE, SPACE, BACKSPACE]
    } else if v == CARRIAGE_RETURN {
        seq![CARRIAGE_RETURN, LINE_FEED]
    } else {
        seq![v]
    }
}

/// What the terminal receives when `v` is written at `index`.
pub open spec fn mmio_output(index: int, v: u8) -> Seq<u8> {
    match port_at(index) {
        MemMap::Chrout => chrout_output(v),
        _ => Seq::empty(),
    }
}

/// One line of a memory dump: a row of 16 bytes starting at an address, or
/// the marker that stands for a run of all-zero rows.
#[derive(Clone, Copy, Debug, PartialEq, Eq, Structural)]
pub enum DumpLine {
    Row(usize),
    Gap,
}

/// Whether the 16-byte row `r` of `mem` holds a byte other than zero.
pub open spec fn row_nonzero(mem: Seq<u8>, r: int) -> bool {
    exists|j: int| 0 <= j < DUMP_ROW && #[trigger] mem[r * DUMP_ROW + j] != 0
}

/// Whether row `r` is printed in full.
pub open spec fn row_shown(mem: Seq<u8>, print_all: bool, r: int) -> bool {
    print_all || row_nonzero(mem, r)
}

/// The lines of a dump of the first `n` rows: shown rows in order, and one
/// marker after each run of hidden rows that follows a shown row.
pub open spec fn dump_spec(mem: Seq<u8>, print_all: bool, n: nat) -> Seq<DumpLine>
    decreases n,
{
    if n == 0 {
        Seq::empty()
    } else {
        let r = n - 1;
        let prev = dump_spec(mem, print_all, r as nat);
        if row_shown(mem, print_all, r) {
            prev.push(DumpLine::Row((r * DUMP_ROW) as usize))
        } else if r > 0 && row_shown(mem, print_all, r - 1) {
            prev.push(DumpLine::Gap)
        } else {
            prev
        }
    }
}

/// The character shown for a byte in the text column of a dump: printable
/// ASCII as itself, anything else as a dot.
pub open spec fn dump_char_spec(b: u8) -> u8 {
    if 0x21 <= b <= 0x7e {
        b
    } else {
        0x2e
    }
}

pub fn dump_char(b: u8) -> (r: u8)
    ensures
        r == dump_char_spec(b),
{
    if 0x21 <= b && b <= 0x7e {
        b
    } else {
        0x2e
    }
}

impl MemMap {
    pub fn from_index(index: usize) -> (r: MemMap)
        ensures
            r == port_at(index as int),
    {
        if index == CHROUT {
            MemMap::Chrout
        } else if index == CHRIN {
            MemMap::Chrin
        } else {
            MemMap::NoMap
        }
    }

    /// The address of a port; `None` for plain storage.
    pub fn address(&self) -> (r: Option<usize>)
        ensures
            r == match *self {
                MemMap::Chrout => Some(CHROUT),
                MemMap::Chrin => Some(CHRIN),
                MemMap::NoMap => None::<usize>,
            },
    {
        match self {
            MemMap::Chrout => Some(CHROUT),
            MemMap::Chrin => Some(CHRIN),
            MemMap::NoMap => None,
        }
    }
}

/// The bytes sent to the terminal for a write of `val` to the output port.
pub fn chrout_bytes(val: u8) -> (r: Vec<u8>)
    ensures
        r@ == chrout_output(val),
{
    let mut r: Vec<u8> = Vec::new();
    if val == 0 {
    } else if val == BACKSPACE {
        r.push(BACKSPACE);
        r.push(SPACE);
        r.push(BACKSPACE);
    } else if val == CARRIAGE_RETURN {
        r.push(CARRIAGE_RETURN);
        r.push(LINE_FEED);
    } else {
        r.push(val);
    }
    proof {
        if val == BACKSPACE {
            assert(r@ =~= seq![BACKSPACE, SPACE, BACKSPACE]);
        } else if val == CARRIAGE_RETURN {
            assert(r@ =~= seq![CARRIAGE_RETURN, LINE_FEED]);
        } else if val != 0 {
            assert(r@ =~= seq![val]);
        } else {
            assert(r@ =~= Seq::<u8>::empty());
        }
    }
    r
}

/// The address space.
pub struct Mem {
    memory: Vec<u8>,
}

impl View for Mem {
    type V = Seq<u8>;

    closed spec fn view(&self) -> Seq<u8> {
        self.memory@
    }
}

impl Mem {
    /// Whether the memory spans exactly the 64 KiB address space.
    pub open spec fn wf(&self) -> bool {
        self@.len() == MEM_SIZE
    }

    /// All 64 KiB, zeroed.
    pub fn init_mem() -> (r: Mem)
        ensures
            r.wf(),
            forall|i: int| 0 <= i < MEM_SIZE ==> #[trigger] r@[i] == 0,
    {
        Mem { memory: vec![0; MEM_SIZE] }
    }

    /// Stores `val` at `index` and returns what the write sends to the
    /// terminal, if `index` is the output port.
    pub fn set_byte(&mut self, index: usize, val: u8) -> (emitted: Vec<u8>)
        requires
            index < old(self)@.len(),
        ensures
            final(self)@ == old(self)@.update(index as int, val),
            emitted@ == mmio_output(index as int, val),
    {
        self.memory.set(index, val);
        match MemMap::from_index(index) {
            MemMap::Chrout => chrout_bytes(val),
            MemMap::Chrin => Vec::new(),
            MemMap::NoMap => Vec::new(),
        }
    }

    pub fn get_byte(&self, index: usize) -> (r: u8)
        requires
            index < self@.len(),
        ensures
            r == self@[index as int],
    {
        self.memory[index]
    }

    pub fn get(&self, index: usize) -> (r: Option<&u8>)
        ensures
            r == if index < self@.len() {
                Some(&self@[index as int])
            } else {
                None::<&u8>
            },
    {
        if index < self.memory.len() {
            Some(&self.memory[index])
        } else {
            None
        }
    }

    /// Decrements the byte at `index`, wrapping from 0 to 0xFF.
    pub fn decrement_mem(&mut self, index: usize) -> (emitted: Vec<u8>)
        requires
            index < old(self)@.len(),
        ensures
            final(self)@ == old(self)@.update(
                index as int,
                (if old(self)@[index as int] == 0 { 0xff } else { old(self)@[index as int] - 1 }) as u8,
            ),
            emitted@ == mmio_output(
                index as int,
                (if old(self)@[index as int] == 0 { 0xff } else { old(self)@[index as int] - 1 }) as u8,
            ),
    {
        let v = self.memory[index].wrapping_sub(1);
        self.set_byte(index, v)
    }

    /// Overwrites memory from address 0 with an image; bytes past the end of
    /// the address space are dropped.
    pub fn set_all(&mut self, new_mem: Vec<u8>)
        requires
            old(self).wf(),
        ensures
            final(self).wf(),
            forall|i: int|
                0 <= i < MEM_SIZE ==> #[trigger] final(self)@[i] == if i < new_mem@.len() {
                    new_mem@[i]
                } else {
                    old(self)@[i]
                },
    {
        let mut i: usize = 0;
        while i < new_mem.len() && i < MEM_SIZE
            invariant
                self.wf(),
                old(self).wf(),
                i <= MEM_SIZE,
                i <= new_mem@.len(),
                forall|k: int|
                    0 <= k < MEM_SIZE ==> #[trigger] self@[k] == if k < i {
                        new_mem@[k]
                    } else {
                        old(self)@[k]
                    },
            decreases MEM_SIZE - i,
        {
            self.memory.set(i, new_mem[i]);
            i = i + 1;
        }
    }

    /// Whether row `row` has a non-zero byte.
    fn row_has_data(&self, row: usize) -> (r: bool)
        requires
            self.wf(),
            row < MEM_SIZE / DUMP_ROW,
        ensures
            r == row_nonzero(self@, row as int),
    {
        let start = row * DUMP_ROW;
        let mut j: usize = 0;
        while j < DUMP_ROW
            invariant
                j <= DUMP_ROW,
                start == row * DUMP_ROW,
                self.wf(),
                row < MEM_SIZE / DUMP_ROW,
                forall|k: int| 0 <= k < j ==> #[trigger] self@[row * DUMP_ROW + k] == 0,
            decreases DUMP_ROW - j,
        {
            if self.memory[start + j] != 0 {
                return true;
            }
            j = j + 1;
        }
        false
    }

    /// The lines of a dump of the whole memory: every row when `print_all`,
    /// else the rows with data, each run of zero rows after one of them
    /// collapsed to a single marker.
    pub fn dump_lines(&self, print_all: bool) -> (r: Vec<DumpLine>)
        requires
            self.wf(),
        ensures
            r@ == dump_spec(self@, print_all, (MEM_SIZE / DUMP_ROW) as nat),
    {
        let rows = MEM_SIZE / DUMP_ROW;
        let mut lines: Vec<DumpLine> = Vec::new();
        let mut new_zero_line = true;
        let mut row: usize = 0;
        while row < rows
            invariant
                self.wf(),
                rows == MEM_SIZE / DUMP_ROW,
                row <= rows,
                lines@ == dump_spec(self@, print_all, row as nat),
                new_zero_line == (row == 0 || !row_shown(self@, print_all, row - 1)),
            decreases rows - row,
        {
            let shown = print_all || self.row_has_data(row);
            if shown {
                lines.push(DumpLine::Row(row * DUMP_ROW));
                new_zero_line = false;
            } else if !new_zero_line {
                lines.push(DumpLine::Gap);
                new_zero_line = true;
            }
            row = row + 1;
        }
        lines
    }
}

} // verus!
