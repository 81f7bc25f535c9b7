//! The memory as text: one line for each row of sixteen bytes that holds
//! anything but zeros, with the address of the row, its bytes in hexadecimal,
//! and its bytes as characters.

use vstd::prelude::*;
use crate::memory::ram::Ram;
use crate::util::types::{Address, Byte};

verus! {

/// Number of bytes in a row.
pub const ROW_SIZE: usize = 16;

/// Number of rows in the memory.
pub const ROWS: usize = 4096;

/// The hexadecimal digit, in upper case, for a number below 16.
pub open spec fn hex_digit(n: int) -> u8 {
    if n < 10 {
        (0x30 + n) as u8
    } else {
        (0x41 + n - 10) as u8
    }
}

/// The two hexadecimal digits of a byte.
pub open spec fn hex_byte(byte: Byte) -> Seq<u8> {
    seq![hex_digit(byte as int / 16), hex_digit(byte as int % 16)]
}

/// The four hexadecimal digits of an address.
pub open spec fn hex_word(address: Address) -> Seq<u8> {
    hex_byte((address / 256) as Byte) + hex_byte((address % 256) as Byte)
}

/// The character that shows a byte: itself where it is a printable ASCII
/// character, else a full stop.
pub open spec fn printable(byte: Byte) -> u8 {
    if 32 <= byte <= 126 {
        byte
    } else {
        0x2E
    }
}

/// Whether the `count` bytes from `start` on are all zero.
pub open spec fn all_zero(memory: Seq<Byte>, start: int, count: int) -> bool {
    forall|i: int| start <= i < start + count ==> memory[i] == 0
}

/// The `count` bytes from `start` on in hexadecimal, a space after each.
pub open spec fn hex_bytes(memory: Seq<Byte>, start: int, count: int) -> Seq<u8>
    decreases count,
{
    if count <= 0 {
        Seq::empty()
    } else {
        hex_bytes(memory, start, count - 1) + hex_byte(memory[start + count - 1]) + seq![0x20u8]
    }
}

/// The `count` bytes from `start` on as characters.
pub open spec fn printables(memory: Seq<Byte>, start: int, count: int) -> Seq<u8>
    decreases count,
{
    if count <= 0 {
        Seq::empty()
    } else {
        printables(memory, start, count - 1).push(printable(memory[start + count - 1]))
    }
}

/// The line for row `row`: the address, two spaces, the bytes in hexadecimal
/// with a space after each, two spaces, the bytes as characters, a newline.
pub open spec fn dump_line(memory: Seq<Byte>, row: int) -> Seq<u8> {
    hex_word((ROW_SIZE * row) as Address) + seq![0x20u8, 0x20u8] + hex_bytes(
        memory,
        ROW_SIZE * row,
        ROW_SIZE as int,
    ) + seq![0x20u8, 0x20u8] + printables(memory, ROW_SIZE * row, ROW_SIZE as int) + seq![0x0Au8]
}

/// The lines for the first `rows` rows, a row of zeros having none.
pub open spec fn dump_text(memory: Seq<Byte>, rows: int) -> Seq<u8>
    decreases rows,
{
    if rows <= 0 {
        Seq::empty()
    } else if all_zero(memory, ROW_SIZE * (rows - 1), ROW_SIZE as int) {
        dump_text(memory, rows - 1)
    } else {
        dump_text(memory, rows - 1) + dump_line(memory, rows - 1)
    }
}

/// The hexadecimal digit for a number below 16.
fn digit(n: u8) -> (d: u8)
    requires
        n < 16,
    ensures
        d == hex_digit(n as int),
{
    if n < 10 {
        0x30 + n
    } else {
        0x41 + (n - 10)
    }
}

/// Appends `bytes` to `text`.
pub fn push_all(text: &mut Vec<u8>, bytes: &[u8])
    ensures
        final(text)@ == old(text)@ + bytes@,
{
    let mut i: usize = 0;
    while i < bytes.len()
        invariant
            i <= bytes.len(),
            text@ == old(text)@ + bytes@.take(i as int),
        decreases bytes.len() - i,
    {
        text.push(bytes[i]);
        i += 1;
        assert(text@ =~= old(text)@ + bytes@.take(i as int));
    }
    assert(bytes@.take(bytes.len() as int) =~= bytes@);
}

/// Appends the two hexadecimal digits of `byte` to `text`.
pub fn push_hex_byte(text: &mut Vec<u8>, byte: Byte)
    ensures
        final(text)@ == old(text)@ + hex_byte(byte),
{
    text.push(digit(byte / 16));
    text.push(digit(byte % 16));
    assert(text@ =~= old(text)@ + hex_byte(byte));
}

/// Appends the four hexadecimal digits of `address` to `text`.
pub fn push_hex_word(text: &mut Vec<u8>, address: Address)
    ensures
        final(text)@ == old(text)@ + hex_word(address),
{
    push_hex_byte(text, (address / 256) as Byte);
    push_hex_byte(text, (address % 256) as Byte);
    assert(text@ =~= old(text)@ + hex_word(address));
}

impl Ram {
    /// Whether row `row` holds nothing but zeros.
    fn row_is_blank(&self, row: usize) -> (blank: bool)
        requires
            row < ROWS,
        ensures
            blank == all_zero(self@, ROW_SIZE * row, ROW_SIZE as int),
    {
        proof {
            self.lemma_size();
        }
        let start: usize = ROW_SIZE * row;
        let mut i: usize = 0;
        while i < ROW_SIZE
            invariant
                i <= ROW_SIZE,
                start == ROW_SIZE * row,
                row < ROWS,
                all_zero(self@, start as int, i as int),
            decreases ROW_SIZE - i,
        {
            if self.read((start + i) as Address) != 0 {
                return false;
            }
            i += 1;
        }
        true
    }

    /// Appends the line for row `row` to `text`.
    fn push_line(&self, text: &mut Vec<u8>, row: usize)
        requires
            row < ROWS,
        ensures
            final(text)@ == old(text)@ + dump_line(self@, row as int),
    {
        let start: usize = ROW_SIZE * row;
        let address: Address = start as Address;
        push_hex_word(text, address);
        text.push(0x20);
        text.push(0x20);
        let ghost head = old(text)@ + hex_word(address) + seq![0x20u8, 0x20u8];
        assert(text@ =~= head);
        let mut i: usize = 0;
        while i < ROW_SIZE
            invariant
                i <= ROW_SIZE,
                start == ROW_SIZE * row,
                row < ROWS,
                text@ == head + hex_bytes(self@, start as int, i as int),
            decreases ROW_SIZE - i,
        {
            push_hex_byte(text, self.read((start + i) as Address));
            text.push(0x20);
            i += 1;
            assert(text@ =~= head + hex_bytes(self@, start as int, i as int));
        }
        text.push(0x20);
        text.push(0x20);
        let ghost middle = head + hex_bytes(self@, start as int, ROW_SIZE as int) + seq![
            0x20u8,
            0x20u8,
        ];
        assert(text@ =~= middle);
        let mut i: usize = 0;
        while i < ROW_SIZE
            invariant
                i <= ROW_SIZE,
                start == ROW_SIZE * row,
                row < ROWS,
                text@ == middle + printables(self@, start as int, i as int),
            decreases ROW_SIZE - i,
        {
            let byte = self.read((start + i) as Address);
            if 32 <= byte && byte <= 126 {
                text.push(byte);
            } else {
                text.push(0x2E);
            }
            i += 1;
            assert(text@ =~= middle + printables(self@, start as int, i as int));
        }
        text.push(0x0A);
        assert(text@ =~= old(text)@ + dump_line(self@, row as int));
    }

    /// The memory as text, in ASCII: a line for each row of sixteen bytes
    /// that are not all zero, in the order of their addresses.
    pub fn hexdump(&self) -> (text: Vec<u8>)
        ensures
            text@ == dump_text(self@, ROWS as int),
    {
        let mut text: Vec<u8> = Vec::new();
        let mut row: usize = 0;
        while row < ROWS
            invariant
                row <= ROWS,
                text@ == dump_text(self@, row as int),
            decreases ROWS - row,
        {
            if !self.row_is_blank(row) {
                self.push_line(&mut text, row);
            }
            row += 1;
        }
        text
    }
}

} // verus!
