//! The layout of a class file, as functions from bytes to values.
//!
//! Every multi-byte number is big-endian. A position is an offset into the
//! file; each function that reads an item gives the item and the position
//! after it.

use crate::class::{
    text_at, AttributeView, ClassView, ConstPoolView, ConstView, FieldView, LoadError,
};
use vstd::prelude::*;
use vstd::utf8::{decode_utf8, valid_utf8};

verus! {

/// The magic number at the start of every class file.
pub const MAGIC: u32 = 0xCAFE_BABE;

pub const CONSTANT_UTF8: u8 = 1;

pub const CONSTANT_INTEGER: u8 = 3;

pub const CONSTANT_FLOAT: u8 = 4;

pub const CONSTANT_LONG: u8 = 5;

pub const CONSTANT_DOUBLE: u8 = 6;

pub const CONSTANT_CLASS: u8 = 7;

pub const CONSTANT_STRING: u8 = 8;

pub const CONSTANT_FIELDREF: u8 = 9;

pub const CONSTANT_METHODREF: u8 = 10;

pub const CONSTANT_NAMEANDTYPE: u8 = 12;

/// The number that two bytes at `at` spell.
pub open spec fn be_u16(b: Seq<u8>, at: int) -> u16 {
    (b[at] * 0x100 + b[at + 1]) as u16
}

/// The number that four bytes at `at` spell.
pub open spec fn be_u32(b: Seq<u8>, at: int) -> u32 {
    (be_u16(b, at) * 0x1_0000 + be_u16(b, at + 2)) as u32
}

/// The number that eight bytes at `at` spell.
pub open spec fn be_u64(b: Seq<u8>, at: int) -> u64 {
    (be_u32(b, at) * 0x1_0000_0000 + be_u32(b, at + 4)) as u64
}

/// The signed number with the two's complement bit pattern `bits`.
pub open spec fn signed_32(bits: u32) -> i32 {
    if bits < 0x8000_0000 {
        bits as i32
    } else {
        (bits - 0x1_0000_0000) as i32
    }
}

/// The signed number with the two's complement bit pattern `bits`.
pub open spec fn signed_64(bits: u64) -> i64 {
    if bits < 0x8000_0000_0000_0000 {
        bits as i64
    } else {
        (bits - 0x1_0000_0000_0000_0000) as i64
    }
}

/// A result of reading one item: the item and the position after it.
pub type Read<T> = Result<(T, int), LoadError>;

/// How many bytes follow the tag of a constant whose size the tag fixes.
/// An unknown tag is followed by nothing.
pub open spec fn payload_width(tag: u8) -> int {
    if tag == CONSTANT_CLASS || tag == CONSTANT_STRING {
        2
    } else if tag == CONSTANT_FIELDREF || tag == CONSTANT_METHODREF || tag
        == CONSTANT_NAMEANDTYPE || tag == CONSTANT_INTEGER || tag == CONSTANT_FLOAT {
        4
    } else if tag == CONSTANT_LONG || tag == CONSTANT_DOUBLE {
        8
    } else {
        0
    }
}

/// The constant with a tag other than that of text, whose payload starts at `at`.
pub open spec fn sized_const(tag: u8, b: Seq<u8>, at: int) -> ConstView {
    if tag == CONSTANT_CLASS {
        ConstView::ClassIndex(be_u16(b, at))
    } else if tag == CONSTANT_STRING {
        ConstView::StringIndex(be_u16(b, at))
    } else if tag == CONSTANT_FIELDREF || tag == CONSTANT_METHODREF {
        ConstView::FieldMethod(be_u16(b, at), be_u16(b, at + 2))
    } else if tag == CONSTANT_NAMEANDTYPE {
        ConstView::NameType(be_u16(b, at), be_u16(b, at + 2))
    } else if tag == CONSTANT_INTEGER {
        ConstView::Integer(signed_32(be_u32(b, at)))
    } else if tag == CONSTANT_FLOAT {
        ConstView::Float(be_u32(b, at))
    } else if tag == CONSTANT_LONG {
        ConstView::Long(signed_64(be_u64(b, at)))
    } else if tag == CONSTANT_DOUBLE {
        ConstView::Double(be_u64(b, at))
    } else {
        ConstView::Unknown
    }
}

/// The text of `n` bytes at `at`.
pub open spec fn string_at(b: Seq<u8>, at: int, n: int) -> Read<Seq<char>> {
    if at + n > b.len() {
        Err(LoadError::Truncated)
    } else if !valid_utf8(b.subrange(at, at + n)) {
        Err(LoadError::InvalidText)
    } else {
        Ok((decode_utf8(b.subrange(at, at + n)), at + n))
    }
}

/// The constant at `at`: a tag byte, then what the tag calls for. Text is a
/// two-byte length and that many bytes of UTF-8.
pub open spec fn const_at(b: Seq<u8>, at: int) -> Read<ConstView> {
    if at + 1 > b.len() {
        Err(LoadError::Truncated)
    } else if b[at] == CONSTANT_UTF8 {
        if at + 3 > b.len() {
            Err(LoadError::Truncated)
        } else {
            match string_at(b, at + 3, be_u16(b, at + 1) as int) {
                Err(e) => Err(e),
                Ok((s, next)) => Ok((ConstView::StringLiteral(s), next)),
            }
        }
    } else if at + 1 + payload_width(b[at]) > b.len() {
        Err(LoadError::Truncated)
    } else {
        Ok((sized_const(b[at], b, at + 1), at + 1 + payload_width(b[at])))
    }
}

/// The rest of a constant pool: the entries from index `i` up to the
/// declared count `size`, read from `at` and put behind those in `table`.
/// A `Long` or a `Double` takes two indices and is followed in the table by
/// an `Unusable` entry that takes no bytes.
pub open spec fn pool_from(b: Seq<u8>, at: int, i: int, size: int, table: Seq<ConstView>) -> Read<
    Seq<ConstView>,
>
    decreases
        (if i < size {
            size - i
        } else {
            0
        }),
{
    if i >= size {
        Ok((table, at))
    } else {
        match const_at(b, at) {
            Err(e) => Err(e),
            Ok((c, next)) => if c.is_wide() {
                pool_from(b, next, i + 2, size, table.push(c).push(ConstView::Unusable))
            } else {
                pool_from(b, next, i + 1, size, table.push(c))
            },
        }
    }
}

/// The constant pool at `at`: the declared count, then the entries with the
/// indices from 1 up to the count.
pub open spec fn pool_at(b: Seq<u8>, at: int) -> Read<ConstPoolView> {
    if at + 2 > b.len() {
        Err(LoadError::Truncated)
    } else {
        match pool_from(b, at + 2, 1, be_u16(b, at) as int, Seq::empty()) {
            Err(e) => Err(e),
            Ok((table, next)) => Ok((ConstPoolView { size: be_u16(b, at), table }, next)),
        }
    }
}

/// The name that the two-byte pool index at `at` stands for.
pub open spec fn name_at(b: Seq<u8>, at: int, pool: Seq<ConstView>) -> Read<Seq<char>> {
    if at + 2 > b.len() {
        Err(LoadError::Truncated)
    } else {
        match text_at(pool, be_u16(b, at) as int) {
            Err(e) => Err(LoadError::Name(e)),
            Ok(s) => Ok((s, at + 2)),
        }
    }
}

/// The attribute at `at`: the index of its name, a four-byte length and
/// that many bytes of data.
pub open spec fn attribute_at(b: Seq<u8>, at: int, pool: Seq<ConstView>) -> Read<AttributeView> {
    match name_at(b, at, pool) {
        Err(e) => Err(e),
        Ok((name, p)) => if p + 4 > b.len() {
            Err(LoadError::Truncated)
        } else if p + 4 + be_u32(b, p) > b.len() {
            Err(LoadError::Truncated)
        } else {
            Ok(
                (
                    AttributeView { name, data: b.subrange(p + 4, p + 4 + be_u32(b, p)) },
                    p + 4 + be_u32(b, p),
                ),
            )
        },
    }
}

/// `left` more attributes, read from `at` and put behind those in `done`.
pub open spec fn attributes_from(
    b: Seq<u8>,
    at: int,
    pool: Seq<ConstView>,
    left: nat,
    done: Seq<AttributeView>,
) -> Read<Seq<AttributeView>>
    decreases left,
{
    if left == 0 {
        Ok((done, at))
    } else {
        match attribute_at(b, at, pool) {
            Err(e) => Err(e),
            Ok((a, next)) => attributes_from(b, next, pool, (left - 1) as nat, done.push(a)),
        }
    }
}

/// The attribute table at `at`: a two-byte count and that many attributes.
pub open spec fn attribute_table_at(b: Seq<u8>, at: int, pool: Seq<ConstView>) -> Read<
    Seq<AttributeView>,
> {
    if at + 2 > b.len() {
        Err(LoadError::Truncated)
    } else {
        attributes_from(b, at + 2, pool, be_u16(b, at) as nat, Seq::empty())
    }
}

/// The field or method at `at`: flags, the index of the name, the index of
/// the descriptor and an attribute table.
pub open spec fn field_at(b: Seq<u8>, at: int, pool: Seq<ConstView>) -> Read<FieldView> {
    if at + 2 > b.len() {
        Err(LoadError::Truncated)
    } else {
        match name_at(b, at + 2, pool) {
            Err(e) => Err(e),
            Ok((name, p)) => match name_at(b, p, pool) {
                Err(e) => Err(e),
                Ok((descriptor, q)) => match attribute_table_at(b, q, pool) {
                    Err(e) => Err(e),
                    Ok((attributes, next)) => Ok(
                        (FieldView { flags: be_u16(b, at), name, descriptor, attributes }, next),
                    ),
                },
            },
        }
    }
}

/// `left` more fields or methods, read from `at` and put behind those in `done`.
pub open spec fn fields_from(
    b: Seq<u8>,
    at: int,
    pool: Seq<ConstView>,
    left: nat,
    done: Seq<FieldView>,
) -> Read<Seq<FieldView>>
    decreases left,
{
    if left == 0 {
        Ok((done, at))
    } else {
        match field_at(b, at, pool) {
            Err(e) => Err(e),
            Ok((f, next)) => fields_from(b, next, pool, (left - 1) as nat, done.push(f)),
        }
    }
}

/// The table of fields or of methods at `at`: a two-byte count and that many entries.
pub open spec fn field_table_at(b: Seq<u8>, at: int, pool: Seq<ConstView>) -> Read<
    Seq<FieldView>,
> {
    if at + 2 > b.len() {
        Err(LoadError::Truncated)
    } else {
        fields_from(b, at + 2, pool, be_u16(b, at) as nat, Seq::empty())
    }
}

/// `left` more interface names, read from `at` and put behind those in `done`.
pub open spec fn interfaces_from(
    b: Seq<u8>,
    at: int,
    pool: Seq<ConstView>,
    left: nat,
    done: Seq<Seq<char>>,
) -> Read<Seq<Seq<char>>>
    decreases left,
{
    if left == 0 {
        Ok((done, at))
    } else {
        match name_at(b, at, pool) {
            Err(e) => Err(e),
            Ok((s, next)) => interfaces_from(b, next, pool, (left - 1) as nat, done.push(s)),
        }
    }
}

/// The interface table at `at`: a two-byte count and that many pool indices.
pub open spec fn interface_table_at(b: Seq<u8>, at: int, pool: Seq<ConstView>) -> Read<
    Seq<Seq<char>>,
> {
    if at + 2 > b.len() {
        Err(LoadError::Truncated)
    } else {
        interfaces_from(b, at + 2, pool, be_u16(b, at) as nat, Seq::empty())
    }
}

/// What follows the constant pool, from `at`: the access flags, the names
/// of the class and of its super class, and the tables of interfaces,
/// fields, methods and attributes.
pub open spec fn class_body_at(
    b: Seq<u8>,
    at: int,
    version_minor: u16,
    version_major: u16,
    const_pool: ConstPoolView,
) -> Result<ClassView, LoadError> {
    let pool = const_pool.table;
    if at + 4 > b.len() {
        Err(LoadError::Truncated)
    } else {
        match text_at(pool, be_u16(b, at + 2) as int) {
            Err(e) => Err(LoadError::ClassName(e)),
            Ok(name) => if at + 6 > b.len() {
                Err(LoadError::Truncated)
            } else {
                match text_at(pool, be_u16(b, at + 4) as int) {
                    Err(e) => Err(LoadError::SuperClassName(e)),
                    Ok(super_class) => match interface_table_at(b, at + 6, pool) {
                        Err(e) => Err(e),
                        Ok((interfaces, p)) => match field_table_at(b, p, pool) {
                            Err(e) => Err(e),
                            Ok((fields, q)) => match field_table_at(b, q, pool) {
                                Err(e) => Err(e),
                                Ok((methods, r)) => match attribute_table_at(b, r, pool) {
                                    Err(e) => Err(e),
                                    Ok((attributes, _)) => Ok(
                                        ClassView {
                                            version_major,
                                            version_minor,
                                            const_pool,
                                            name,
                                            super_class,
                                            flags: be_u16(b, at),
                                            interfaces,
                                            fields,
                                            methods,
                                            attributes,
                                        },
                                    ),
                                },
                            },
                        },
                    },
                }
            },
        }
    }
}

/// The class that the bytes of a class file describe: the magic number, the
/// minor and the major version, the constant pool, and what follows it.
/// Bytes after the last attribute are not looked at.
pub open spec fn class_of(b: Seq<u8>) -> Result<ClassView, LoadError> {
    if b.len() < 4 {
        Err(LoadError::Truncated)
    } else if be_u32(b, 0) != MAGIC {
        Err(LoadError::NotAClassFile)
    } else if b.len() < 8 {
        Err(LoadError::Truncated)
    } else {
        match pool_at(b, 8) {
            Err(e) => Err(e),
            Ok((const_pool, next)) => class_body_at(
                b,
                next,
                be_u16(b, 4),
                be_u16(b, 6),
                const_pool,
            ),
        }
    }
}

} // verus!
