//! The assembler: from assembly source to the bytes that the processor runs.
//!
//! A line of source is blank, or defines a label (`loop:`), or holds an
//! operation, its addressing mode and, where the mode takes one, an operand
//! (`LDA immediate $01`). An operand is a hexadecimal number after `$`, or the
//! name of a label.

pub mod text;
pub mod operand;

use vstd::prelude::*;
use vstd::slice::slice_subrange;
use crate::assembler::operand::{parse_hex, parsed_hex};
use crate::assembler::text::{chars_of, lines_of, same, split_lines, split_words, words_of};
use crate::cpu::addressing_mode::AddressingMode;
use crate::cpu::instruction::{find_instruction, first_written, Instruction};

verus! {

/// The character that ends the word that defines a label.
pub const COLON: char = ':';

/// The character that starts a number.
pub const DOLLAR: char = '$';

/// What a line of source says.
pub enum Statement {
    /// Nothing.
    Blank,
    /// That the label of this name stands for the address reached.
    Label(Seq<char>),
    /// An instruction and, where the line has a third word, that word.
    Operation(Instruction, Option<Seq<char>>),
    /// Nothing that the assembler knows.
    Unknown,
}

/// What a line of source says, as the assembler holds it.
pub enum Parsed<'a> {
    Blank,
    Label(&'a [char]),
    Operation(Instruction, Option<&'a [char]>),
    Unknown,
}

impl<'a> View for Parsed<'a> {
    type V = Statement;

    open spec fn view(&self) -> Statement {
        match *self {
            Parsed::Blank => Statement::Blank,
            Parsed::Label(name) => Statement::Label(name@),
            Parsed::Operation(found, None) => Statement::Operation(found, None),
            Parsed::Operation(found, Some(operand)) => Statement::Operation(found, Some(operand@)),
            Parsed::Unknown => Statement::Unknown,
        }
    }
}

/// `word` without the colons at its end.
pub open spec fn without_colons(word: Seq<char>) -> Seq<char>
    decreases word.len(),
{
    if word.len() > 0 && word.last() == COLON {
        without_colons(word.drop_last())
    } else {
        word
    }
}

/// What `line` says. A line whose first word ends in a colon defines the
/// label that the word names. Any other line with words holds an operation:
/// its first word names the operation and its second the mode, and a line
/// whose two words name no instruction, or that has no second word, says
/// nothing known.
pub open spec fn statement_of(line: Seq<char>) -> Statement {
    let words = words_of(line);
    if words.len() == 0 {
        Statement::Blank
    } else if words[0].len() > 0 && words[0].last() == COLON {
        Statement::Label(without_colons(words[0]))
    } else if words.len() < 2 {
        Statement::Unknown
    } else {
        match first_written(words[0], words[1], 0) {
            None => Statement::Unknown,
            Some(found) => Statement::Operation(
                found,
                if words.len() > 2 {
                    Some(words[2])
                } else {
                    None
                },
            ),
        }
    }
}

/// What each line of `source` says.
pub open spec fn statements_of(source: Seq<char>) -> Seq<Statement> {
    Seq::new(lines_of(source).len(), |i: int| statement_of(lines_of(source)[i]))
}

/// The number of bytes that a statement adds to the program.
pub open spec fn size_of(statement: Statement) -> int {
    match statement {
        Statement::Operation(found, _) => found.length as int,
        _ => 0,
    }
}

/// The address reached after `statements`, as a 16-bit number.
pub open spec fn address_after(statements: Seq<Statement>) -> int
    decreases statements.len(),
{
    if statements.len() == 0 {
        0
    } else {
        (address_after(statements.drop_last()) + size_of(statements.last())) % 0x10000
    }
}

/// The labels that `statements` define, each with its address, in the order
/// of their definitions.
pub open spec fn definitions(statements: Seq<Statement>) -> Seq<(Seq<char>, int)>
    decreases statements.len(),
{
    if statements.len() == 0 {
        Seq::empty()
    } else {
        let before = definitions(statements.drop_last());
        match statements.last() {
            Statement::Label(name) => before.push((name, address_after(statements.drop_last()))),
            _ => before,
        }
    }
}

/// The address of the label `name`: that of its last definition.
pub open spec fn resolved(labels: Seq<(Seq<char>, int)>, name: Seq<char>) -> Option<int>
    decreases labels.len(),
{
    if labels.len() == 0 {
        None
    } else if labels.last().0 == name {
        Some(labels.last().1)
    } else {
        resolved(labels.drop_last(), name)
    }
}

/// The number of bytes that the assembler writes for the operand of an
/// instruction in `mode`: one for an immediate operand, an address in page 0
/// or a displacement; two for an absolute address and for a pointer that is
/// used with an index; none in the other modes, a pointer without an index
/// among them.
pub open spec fn operand_width(mode: AddressingMode) -> int {
    match mode {
        AddressingMode::Immediate
        | AddressingMode::ZeroPage
        | AddressingMode::ZeroPageX
        | AddressingMode::ZeroPageY
        | AddressingMode::Relative => 1,
        AddressingMode::Absolute
        | AddressingMode::AbsoluteX
        | AddressingMode::AbsoluteY
        | AddressingMode::IndirectX
        | AddressingMode::IndirectY => 2,
        AddressingMode::Indirect | AddressingMode::Accumulator | AddressingMode::Implied => 0,
    }
}

/// The value of an operand that is `width` bytes wide. A number after `$` is
/// its own value where it fits. A label stands for its address where the
/// operand is two bytes wide, and for the low byte of its distance from
/// `end`, the address after the whole program, where it is one byte wide.
pub open spec fn operand_value(
    operand: Seq<char>,
    width: int,
    labels: Seq<(Seq<char>, int)>,
    end: int,
) -> Option<int> {
    if operand.len() > 0 && operand[0] == DOLLAR {
        parsed_hex(
            operand.skip(1),
            if width == 1 {
                0x100
            } else {
                0x10000
            },
        )
    } else {
        match resolved(labels, operand) {
            None => None,
            Some(address) => Some(
                if width == 1 {
                    (address - end) % 0x100
                } else {
                    address
                },
            ),
        }
    }
}

/// The bytes that the assembler writes for a statement: none for a blank line
/// or a label; for an operation the opcode and then the operand, low byte
/// first. It writes nothing for a line that it does not know, nor for an
/// operation whose operand is missing or has no value.
pub open spec fn encoded(statement: Statement, labels: Seq<(Seq<char>, int)>, end: int) -> Option<
    Seq<u8>,
> {
    match statement {
        Statement::Blank | Statement::Label(_) => Some(Seq::empty()),
        Statement::Unknown => None,
        Statement::Operation(found, operand) => {
            let width = operand_width(found.addressing_mode);
            if width == 0 {
                Some(seq![found.opcode])
            } else {
                match operand {
                    None => None,
                    Some(word) => match operand_value(word, width, labels, end) {
                        None => None,
                        Some(value) => Some(
                            if width == 1 {
                                seq![found.opcode, value as u8]
                            } else {
                                seq![found.opcode, (value % 0x100) as u8, (value / 0x100) as u8]
                            },
                        ),
                    },
                }
            }
        },
    }
}

/// The bytes that the assembler writes for the first `count` of `statements`,
/// if it can write them all.
pub open spec fn code_of(
    statements: Seq<Statement>,
    count: int,
    labels: Seq<(Seq<char>, int)>,
    end: int,
) -> Option<Seq<u8>>
    decreases count,
{
    if count <= 0 {
        Some(Seq::empty())
    } else {
        match (
            code_of(statements, count - 1, labels, end),
            encoded(statements[count - 1], labels, end),
        ) {
            (Some(head), Some(tail)) => Some(head + tail),
            _ => None,
        }
    }
}

/// The machine code of `source`, if all of it can be assembled. The labels
/// are collected from the whole source first, so that an operand can name a
/// label that is defined further down.
pub open spec fn assembled(source: Seq<char>) -> Option<Seq<u8>> {
    let statements = statements_of(source);
    code_of(
        statements,
        statements.len() as int,
        definitions(statements),
        address_after(statements),
    )
}

/// A label and its address.
pub struct Definition<'a> {
    pub name: &'a [char],
    pub address: u16,
}

/// The labels that `table` holds, in its order.
pub open spec fn labels_of(table: Seq<Definition>) -> Seq<(Seq<char>, int)> {
    Seq::new(table.len(), |i: int| (table[i].name@, table[i].address as int))
}

/// What the `parsed` lines say, line by line.
pub open spec fn said(parsed: Seq<Parsed>) -> Seq<Statement> {
    Seq::new(parsed.len(), |i: int| parsed[i]@)
}

/// Takes the colons off the end of `word`.
fn strip_colons(word: &[char]) -> (name: &[char])
    ensures
        name@ == without_colons(word@),
{
    let mut end = word.len();
    assert(word@.take(end as int) =~= word@);
    while end > 0 && word[end - 1] == COLON
        invariant
            end <= word.len(),
            without_colons(word@) == without_colons(word@.take(end as int)),
        decreases end,
    {
        assert(word@.take(end as int).drop_last() =~= word@.take(end - 1));
        end -= 1;
    }
    slice_subrange(word, 0, end)
}

/// Reads a line of source.
pub fn parse_line<'a>(line: &'a [char]) -> (parsed: Parsed<'a>)
    ensures
        parsed@ == statement_of(line@),
{
    let words = split_words(line);
    if words.len() == 0 {
        return Parsed::Blank;
    }
    let first = words[0];
    if first.len() > 0 && first[first.len() - 1] == COLON {
        return Parsed::Label(strip_colons(first));
    }
    if words.len() < 2 {
        return Parsed::Unknown;
    }
    match find_instruction(first, words[1]) {
        None => Parsed::Unknown,
        Some(found) => {
            if words.len() > 2 {
                Parsed::Operation(found, Some(words[2]))
            } else {
                Parsed::Operation(found, None)
            }
        },
    }
}

/// Reads every line of a source text.
pub fn parse<'a>(source: &'a [char]) -> (parsed: Vec<Parsed<'a>>)
    ensures
        parsed@.len() == statements_of(source@).len(),
        forall|i: int|
            0 <= i < parsed@.len() ==> (#[trigger] parsed@[i])@ == statements_of(source@)[i],
{
    let lines = split_lines(source);
    let mut parsed: Vec<Parsed<'a>> = Vec::new();
    let mut i: usize = 0;
    while i < lines.len()
        invariant
            i <= lines.len(),
            parsed@.len() == i,
            lines@.len() == lines_of(source@).len(),
            forall|k: int|
                0 <= k < lines@.len() ==> (#[trigger] lines@[k])@ == lines_of(source@)[k],
            forall|k: int| 0 <= k < i ==> (#[trigger] parsed@[k])@ == statements_of(source@)[k],
        decreases lines.len() - i,
    {
        parsed.push(parse_line(lines[i]));
        i += 1;
    }
    parsed
}

/// The first pass: collects the labels and counts the bytes of the program.
pub fn collect<'a>(parsed: &Vec<Parsed<'a>>) -> (found: (Vec<Definition<'a>>, u16))
    ensures
        labels_of(found.0@) == definitions(said(parsed@)),
        found.1 == address_after(said(parsed@)),
{
    let mut table: Vec<Definition<'a>> = Vec::new();
    let mut address: u16 = 0;
    let mut i: usize = 0;
    assert(labels_of(table@) =~= definitions(said(parsed@).take(0)));
    while i < parsed.len()
        invariant
            i <= parsed.len(),
            labels_of(table@) == definitions(said(parsed@).take(i as int)),
            address == address_after(said(parsed@).take(i as int)),
        decreases parsed.len() - i,
    {
        let ghost before = said(parsed@).take(i as int);
        let ghost longer = said(parsed@).take(i + 1);
        assert(longer.drop_last() =~= before);
        assert(longer.last() == parsed@[i as int]@);
        match parsed[i] {
            Parsed::Label(name) => {
                let ghost old_table = table@;
                table.push(Definition { name, address });
                assert(labels_of(table@) =~= labels_of(old_table).push((name@, address as int)));
            },
            Parsed::Operation(found, _) => {
                address = address.wrapping_add(found.length as u16);
            },
            _ => {},
        }
        i += 1;
    }
    assert(said(parsed@).take(parsed.len() as int) =~= said(parsed@));
    (table, address)
}

/// Looks up the address of a label: that of its last definition.
pub fn resolve(table: &Vec<Definition>, name: &[char]) -> (address: Option<u16>)
    ensures
        match address {
            Some(a) => resolved(labels_of(table@), name@) == Some(a as int),
            None => resolved(labels_of(table@), name@) is None,
        },
{
    let mut i: usize = table.len();
    assert(labels_of(table@).take(i as int) =~= labels_of(table@));
    while i > 0
        invariant
            i <= table.len(),
            resolved(labels_of(table@), name@) == resolved(
                labels_of(table@).take(i as int),
                name@,
            ),
        decreases i,
    {
        let ghost labels = labels_of(table@).take(i as int);
        assert(labels.drop_last() =~= labels_of(table@).take(i - 1));
        assert(labels.last() == (table@[i - 1].name@, table@[i - 1].address as int));
        i -= 1;
        if same(table[i].name, name) {
            return Some(table[i].address);
        }
    }
    None
}

/// The number of bytes that the assembler writes for the operand of an
/// instruction in `mode`.
pub fn width_of(mode: AddressingMode) -> (width: u8)
    ensures
        width == operand_width(mode),
{
    match mode {
        AddressingMode::Immediate
        | AddressingMode::ZeroPage
        | AddressingMode::ZeroPageX
        | AddressingMode::ZeroPageY
        | AddressingMode::Relative => 1,
        AddressingMode::Absolute
        | AddressingMode::AbsoluteX
        | AddressingMode::AbsoluteY
        | AddressingMode::IndirectX
        | AddressingMode::IndirectY => 2,
        AddressingMode::Indirect | AddressingMode::Accumulator | AddressingMode::Implied => 0,
    }
}

/// The value of an operand that is `width` bytes wide.
pub fn evaluate(operand: &[char], width: u8, table: &Vec<Definition>, end: u16) -> (value: Option<
    u16,
>)
    requires
        width == 1 || width == 2,
    ensures
        match value {
            Some(v) => operand_value(operand@, width as int, labels_of(table@), end as int)
                == Some(v as int) && (width == 1 ==> v < 0x100),
            None => operand_value(operand@, width as int, labels_of(table@), end as int) is None,
        },
{
    if operand.len() > 0 && operand[0] == DOLLAR {
        let digits = slice_subrange(operand, 1, operand.len());
        assert(digits@ == operand@.skip(1));
        let limit: u32 = if width == 1 {
            0x100
        } else {
            0x10000
        };
        match parse_hex(digits, limit) {
            None => None,
            Some(number) => Some(number as u16),
        }
    } else {
        match resolve(table, operand) {
            None => None,
            Some(address) => {
                if width == 1 {
                    Some(address.wrapping_sub(end) % 0x100)
                } else {
                    Some(address)
                }
            },
        }
    }
}

/// Writes the bytes of a statement at the end of `code`. Says whether it
/// could; where it could not, `code` is as it was.
pub fn encode(parsed: &Parsed, table: &Vec<Definition>, end: u16, code: &mut Vec<u8>) -> (done:
    bool)
    ensures
        match encoded(parsed@, labels_of(table@), end as int) {
            Some(bytes) => done && final(code)@ == old(code)@ + bytes,
            None => !done && final(code)@ == old(code)@,
        },
{
    match parsed {
        Parsed::Blank => {
            assert(code@ =~= old(code)@ + Seq::<u8>::empty());
            true
        },
        Parsed::Label(_) => {
            assert(code@ =~= old(code)@ + Seq::<u8>::empty());
            true
        },
        Parsed::Unknown => false,
        Parsed::Operation(found, operand) => {
            let width = width_of(found.addressing_mode);
            if width == 0 {
                code.push(found.opcode);
                assert(code@ =~= old(code)@ + seq![found.opcode]);
                return true;
            }
            match operand {
                None => false,
                Some(word) => match evaluate(word, width, table, end) {
                    None => false,
                    Some(value) => {
                        code.push(found.opcode);
                        if width == 1 {
                            code.push(value as u8);
                            assert(code@ =~= old(code)@ + seq![found.opcode, value as u8]);
                        } else {
                            code.push((value % 0x100) as u8);
                            code.push((value / 0x100) as u8);
                            assert(code@ =~= old(code)@ + seq![
                                found.opcode,
                                (value % 0x100) as u8,
                                (value / 0x100) as u8,
                            ]);
                        }
                        true
                    },
                },
            }
        },
    }
}

/// Once the assembler cannot go on, it cannot for any longer program.
proof fn lemma_code_fails(
    statements: Seq<Statement>,
    failed: int,
    count: int,
    labels: Seq<(Seq<char>, int)>,
    end: int,
)
    requires
        0 <= failed <= count,
        code_of(statements, failed, labels, end) is None,
    ensures
        code_of(statements, count, labels, end) is None,
    decreases count - failed,
{
    if failed < count {
        lemma_code_fails(statements, failed, count - 1, labels, end);
    }
}

/// The second pass: writes the bytes of every statement.
pub fn emit(parsed: &Vec<Parsed>, table: &Vec<Definition>, end: u16) -> (code: Option<Vec<u8>>)
    ensures
        match code {
            Some(bytes) => code_of(
                said(parsed@),
                parsed@.len() as int,
                labels_of(table@),
                end as int,
            ) == Some(bytes@),
            None => code_of(said(parsed@), parsed@.len() as int, labels_of(table@), end as int)
                is None,
        },
{
    let mut code: Vec<u8> = Vec::new();
    let mut i: usize = 0;
    while i < parsed.len()
        invariant
            i <= parsed.len(),
            code_of(said(parsed@), i as int, labels_of(table@), end as int) == Some(code@),
        decreases parsed.len() - i,
    {
        if !encode(&parsed[i], table, end, &mut code) {
            proof {
                lemma_code_fails(
                    said(parsed@),
                    i + 1,
                    parsed@.len() as int,
                    labels_of(table@),
                    end as int,
                );
            }
            return None;
        }
        i += 1;
    }
    Some(code)
}

/// Assembles `source_code`, if all of it can be assembled.
pub fn try_assemble(source_code: &str) -> (machine_code: Option<Vec<u8>>)
    ensures
        match machine_code {
            Some(code) => assembled(source_code@) == Some(code@),
            None => assembled(source_code@) is None,
        },
{
    let source = chars_of(source_code);
    let parsed = parse(source.as_slice());
    assert(said(parsed@) =~= statements_of(source_code@));
    let (table, end) = collect(&parsed);
    emit(&parsed, &table, end)
}

/// Assembles `source_code`, every line of which must be one that the
/// assembler knows, with the operand that its mode asks for.
pub fn assemble(source_code: &str) -> (machine_code: Vec<u8>)
    requires
        assembled(source_code@) is Some,
    ensures
        Some(machine_code@) == assembled(source_code@),
{
    match try_assemble(source_code) {
        Some(code) => code,
        None => Vec::new(),
    }
}

} // verus!
