//! Class files: the constant pool, the class record and the loader.

use crate::class::format::{
    attribute_at, attribute_table_at, attributes_from, class_body_at, class_of, const_at,
    field_at, field_table_at, fields_from, interface_table_at, interfaces_from, name_at, pool_at,
    pool_from, CONSTANT_CLASS, CONSTANT_DOUBLE, CONSTANT_FIELDREF, CONSTANT_FLOAT,
    CONSTANT_INTEGER, CONSTANT_LONG, CONSTANT_METHODREF, CONSTANT_NAMEANDTYPE, CONSTANT_STRING,
    CONSTANT_UTF8, MAGIC,
};
use crate::class::reader::ClassFileReader;
use std::rc::Rc;
use vstd::prelude::*;

pub mod format;
pub mod laws;
pub mod reader;

verus! {

/// The mathematical values of the items of a sequence, one for one.
pub open spec fn views<T: View>(items: Seq<T>) -> Seq<T::V> {
    Seq::new(items.len(), |i: int| items[i]@)
}

/// Putting an item behind a sequence puts its value behind the values.
pub proof fn lemma_views_push<T: View>(items: Seq<T>, item: T)
    ensures
        views(items.push(item)) == views(items).push(item@),
{
}

/// Why a constant-pool query failed. Each variant but `Circular` carries the
/// index of the entry that was not what the query needed.
#[derive(Debug, Clone, Copy, PartialEq, Eq, Structural)]
pub enum PoolError {
    /// The index is zero or past the end of the table.
    UnknownIndex(usize),
    /// The entry is neither text nor a class reference.
    NotText(usize),
    /// The entry is missing or is not a class reference.
    NotClassRef(usize),
    /// The entry is missing or is not a name-and-type pair.
    NotNameAndType(usize),
    /// The entry is missing or is not a field or method reference.
    NotMemberRef(usize),
    /// Class references lead from one to the next without ever reaching text.
    Circular,
}

/// Why a class file could not be loaded.
#[derive(Debug, Clone, Copy, PartialEq, Eq, Structural)]
pub enum LoadError {
    /// The file does not start with the magic number `0xCAFEBABE`.
    NotAClassFile,
    /// The file ends in the middle of an item.
    Truncated,
    /// A text constant is not valid UTF-8.
    InvalidText,
    /// The name of the class could not be resolved.
    ClassName(PoolError),
    /// The name of the super class could not be resolved.
    SuperClassName(PoolError),
    /// Another name or descriptor could not be resolved.
    Name(PoolError),
}

/// The class name, member name and descriptor that a field or method
/// reference resolves to.
#[derive(Debug)]
pub struct StaticMethod {
    pub class_name: String,
    pub method_name: String,
    pub method_desc: String,
}

/// The mathematical value of a `StaticMethod`.
pub struct StaticMethodView {
    pub class_name: Seq<char>,
    pub method_name: Seq<char>,
    pub method_desc: Seq<char>,
}

impl View for StaticMethod {
    type V = StaticMethodView;

    open spec fn view(&self) -> StaticMethodView {
        StaticMethodView {
            class_name: self.class_name@,
            method_name: self.method_name@,
            method_desc: self.method_desc@,
        }
    }
}

/// One entry of a constant pool. `Float` and `Double` hold the bit pattern
/// of the number as it stands in the file.
#[derive(Debug)]
pub enum Const {
    ClassIndex(u16),
    StringLiteral(String),
    StringIndex(u16),
    NameType(u16, u16),
    FieldMethod(u16, u16),
    Integer(i32),
    Long(i64),
    Double(u64),
    Float(u32),
    /// The slot after a `Long` or a `Double`, which take two indices.
    Unusable,
    /// An entry with a tag that the loader does not know.
    Unknown,
}

/// The mathematical value of a `Const`.
pub enum ConstView {
    ClassIndex(u16),
    StringLiteral(Seq<char>),
    StringIndex(u16),
    NameType(u16, u16),
    FieldMethod(u16, u16),
    Integer(i32),
    Long(i64),
    Double(u64),
    Float(u32),
    Unusable,
    Unknown,
}

impl ConstView {
    /// A `Long` or a `Double`: an entry that takes two indices.
    pub open spec fn is_wide(self) -> bool {
        self is Long || self is Double
    }
}

impl View for Const {
    type V = ConstView;

    open spec fn view(&self) -> ConstView {
        match self {
            Const::ClassIndex(i) => ConstView::ClassIndex(*i),
            Const::StringLiteral(s) => ConstView::StringLiteral(s@),
            Const::StringIndex(i) => ConstView::StringIndex(*i),
            Const::NameType(n, t) => ConstView::NameType(*n, *t),
            Const::FieldMethod(c, n) => ConstView::FieldMethod(*c, *n),
            Const::Integer(x) => ConstView::Integer(*x),
            Const::Long(x) => ConstView::Long(*x),
            Const::Double(x) => ConstView::Double(*x),
            Const::Float(x) => ConstView::Float(*x),
            Const::Unusable => ConstView::Unusable,
            Const::Unknown => ConstView::Unknown,
        }
    }
}

/// The entry with the 1-based index `idx`, if the table has one.
pub open spec fn entry_at(table: Seq<ConstView>, idx: int) -> Option<ConstView> {
    if 1 <= idx <= table.len() {
        Some(table[idx - 1])
    } else {
        None
    }
}

/// The text that the entry `idx` stands for, following at most `hops` class
/// references: the text of a text entry, or the text that a class reference
/// leads to.
pub open spec fn text_within(table: Seq<ConstView>, idx: int, hops: nat) -> Result<
    Seq<char>,
    PoolError,
>
    decreases hops,
{
    match entry_at(table, idx) {
        None => Err(PoolError::UnknownIndex(idx as usize)),
        Some(ConstView::StringLiteral(s)) => Ok(s),
        Some(ConstView::ClassIndex(i)) => if hops == 0 {
            Err(PoolError::Circular)
        } else {
            text_within(table, i as int, (hops - 1) as nat)
        },
        Some(_) => Err(PoolError::NotText(idx as usize)),
    }
}

/// The text that the entry `idx` stands for. A chain of class references
/// that does not end within as many steps as the table has entries runs in
/// a circle.
pub open spec fn text_at(table: Seq<ConstView>, idx: int) -> Result<Seq<char>, PoolError> {
    text_within(table, idx, table.len())
}

/// The text of the entry `idx`, which has to be a text entry itself.
pub open spec fn literal_at(table: Seq<ConstView>, idx: int) -> Option<Seq<char>> {
    match entry_at(table, idx) {
        Some(ConstView::StringLiteral(s)) => Some(s),
        _ => None,
    }
}

/// What a field or method reference at `idx` resolves to: the class name
/// through its class reference, the member name and the descriptor through
/// its name-and-type pair.
pub open spec fn member_at(table: Seq<ConstView>, idx: int) -> Result<StaticMethodView, PoolError> {
    match entry_at(table, idx) {
        Some(ConstView::FieldMethod(class_idx, name_type_idx)) => match entry_at(
            table,
            class_idx as int,
        ) {
            Some(ConstView::ClassIndex(text_idx)) => match literal_at(table, text_idx as int) {
                None => Err(PoolError::NotText(text_idx as usize)),
                Some(class_name) => match entry_at(table, name_type_idx as int) {
                    Some(ConstView::NameType(name_idx, type_idx)) => match literal_at(
                        table,
                        name_idx as int,
                    ) {
                        None => Err(PoolError::NotText(name_idx as usize)),
                        Some(method_name) => match literal_at(table, type_idx as int) {
                            None => Err(PoolError::NotText(type_idx as usize)),
                            Some(method_desc) => Ok(
                                StaticMethodView { class_name, method_name, method_desc },
                            ),
                        },
                    },
                    _ => Err(PoolError::NotNameAndType(name_type_idx as usize)),
                },
            },
            _ => Err(PoolError::NotClassRef(class_idx as usize)),
        },
        _ => Err(PoolError::NotMemberRef(idx as usize)),
    }
}

/// The constant pool of a class: the declared count and the entries. The
/// entry with index `i` stands at position `i - 1` of the table.
#[derive(Debug)]
pub struct ConstPool {
    pub size: u16,
    pub table: Vec<Const>,
}

/// The mathematical value of a `ConstPool`.
pub struct ConstPoolView {
    pub size: u16,
    pub table: Seq<ConstView>,
}

impl View for ConstPool {
    type V = ConstPoolView;

    open spec fn view(&self) -> ConstPoolView {
        ConstPoolView {
            size: self.size,
            table: views(self.table@),
        }
    }
}

/// The two's complement reading of 32 bits.
fn to_i32(bits: u32) -> (r: i32)
    ensures
        r == format::signed_32(bits),
{
    if bits < 0x8000_0000 {
        bits as i32
    } else {
        (bits as i64 - 0x1_0000_0000) as i32
    }
}

/// The two's complement reading of 64 bits.
fn to_i64(bits: u64) -> (r: i64)
    ensures
        r == format::signed_64(bits),
{
    if bits < 0x8000_0000_0000_0000 {
        bits as i64
    } else {
        (bits as i128 - 0x1_0000_0000_0000_0000) as i64
    }
}

/// Reads one constant: its tag, then what the tag calls for.
fn read_const(r: &mut ClassFileReader) -> (c: Result<Const, LoadError>)
    ensures
        final(r).source() == old(r).source(),
        match const_at(old(r).source(), old(r).position()) {
            Ok((v, next)) => c is Ok && c->Ok_0@ == v && final(r).position() == next,
            Err(e) => c == Err::<Const, LoadError>(e),
        },
{
    let tag = r.u1()?;
    if tag == CONSTANT_UTF8 {
        let size = r.u2()?;
        Ok(Const::StringLiteral(r.string(size as usize)?))
    } else if tag == CONSTANT_CLASS {
        Ok(Const::ClassIndex(r.u2()?))
    } else if tag == CONSTANT_STRING {
        Ok(Const::StringIndex(r.u2()?))
    } else if tag == CONSTANT_FIELDREF || tag == CONSTANT_METHODREF {
        let class_idx = r.u2()?;
        let name_type_idx = r.u2()?;
        Ok(Const::FieldMethod(class_idx, name_type_idx))
    } else if tag == CONSTANT_NAMEANDTYPE {
        let name_idx = r.u2()?;
        let type_idx = r.u2()?;
        Ok(Const::NameType(name_idx, type_idx))
    } else if tag == CONSTANT_DOUBLE {
        Ok(Const::Double(r.u8()?))
    } else if tag == CONSTANT_FLOAT {
        Ok(Const::Float(r.u4()?))
    } else if tag == CONSTANT_LONG {
        Ok(Const::Long(to_i64(r.u8()?)))
    } else if tag == CONSTANT_INTEGER {
        Ok(Const::Integer(to_i32(r.u4()?)))
    } else {
        Ok(Const::Unknown)
    }
}

impl ConstPool {
    /// Reads a constant pool: the declared count, then the entries with the
    /// indices from 1 up to the count. A `Long` or a `Double` takes two
    /// indices; an `Unusable` entry is put behind it.
    pub fn load(r: &mut ClassFileReader) -> (pool: Result<ConstPool, LoadError>)
        ensures
            final(r).source() == old(r).source(),
            match pool_at(old(r).source(), old(r).position()) {
                Ok((v, next)) => pool is Ok && pool->Ok_0@ == v && final(r).position() == next,
                Err(e) => pool == Err::<ConstPool, LoadError>(e),
            },
    {
        let ghost b = r.source();
        let ghost start = r.position();
        let size = r.u2()?;
        let mut table: Vec<Const> = Vec::new();
        let mut i: u32 = 1;
        assert(views(table@) =~= Seq::<ConstView>::empty());
        while i < size as u32
            invariant
                1 <= i <= size + 1,
                r.source() == b,
                b == old(r).source(),
                start == old(r).position(),
                start + 2 <= b.len(),
                size == format::be_u16(b, start),
                pool_from(b, start + 2, 1, size as int, Seq::empty()) == pool_from(
                    b,
                    r.position(),
                    i as int,
                    size as int,
                    views(table@),
                ),
            decreases size + 1 - i,
        {
            let c = read_const(r)?;
            let wide = match c {
                Const::Double(_) | Const::Long(_) => true,
                _ => false,
            };
            proof {
                lemma_views_push(table@, c);
            }
            table.push(c);
            if wide {
                proof {
                    lemma_views_push(table@, Const::Unusable);
                }
                table.push(Const::Unusable);
                i = i + 2;
            } else {
                i = i + 1;
            }
        }
        Ok(ConstPool { size, table })
    }

    /// The entry with the 1-based index `idx`.
    pub fn resolve(&self, idx: usize) -> (r: Result<&Const, PoolError>)
        ensures
            match entry_at(self@.table, idx as int) {
                Some(c) => r is Ok && r->Ok_0@ == c,
                None => r == Err::<&Const, PoolError>(PoolError::UnknownIndex(idx)),
            },
    {
        if idx == 0 || idx > self.table.len() {
            Err(PoolError::UnknownIndex(idx))
        } else {
            Ok(&self.table[idx - 1])
        }
    }

    /// The text of the entry `idx`, which has to be a text entry itself.
    fn literal(&self, idx: u16) -> (r: Option<&String>)
        ensures
            match literal_at(self@.table, idx as int) {
                Some(s) => r is Some && r->Some_0@ == s,
                None => r is None,
            },
    {
        let at = idx as usize;
        if at == 0 || at > self.table.len() {
            None
        } else {
            match &self.table[at - 1] {
                Const::StringLiteral(s) => Some(s),
                _ => None,
            }
        }
    }

    /// The text that the entry `idx` stands for: the text of a text entry, or
    /// the text that a class reference leads to.
    pub fn resolve_str(&self, idx: usize) -> (r: Result<String, PoolError>)
        ensures
            match text_at(self@.table, idx as int) {
                Ok(s) => r is Ok && r->Ok_0@ == s,
                Err(e) => r == Err::<String, PoolError>(e),
            },
    {
        let mut at = idx;
        let mut hops = self.table.len();
        loop
            invariant
                text_at(self@.table, idx as int) == text_within(
                    self@.table,
                    at as int,
                    hops as nat,
                ),
            decreases hops,
        {
            if at == 0 || at > self.table.len() {
                return Err(PoolError::UnknownIndex(at));
            }
            match &self.table[at - 1] {
                Const::StringLiteral(s) => {
                    return Ok(s.clone());
                },
                Const::ClassIndex(i) => {
                    if hops == 0 {
                        return Err(PoolError::Circular);
                    }
                    at = *i as usize;
                    hops = hops - 1;
                },
                _ => {
                    return Err(PoolError::NotText(at));
                },
            }
        }
    }

    /// Resolves the field or method reference at `idx` to its class name,
    /// member name and descriptor.
    pub fn resolve_static_method(&self, idx: usize) -> (r: Result<StaticMethod, PoolError>)
        ensures
            match member_at(self@.table, idx as int) {
                Ok(m) => r is Ok && r->Ok_0@ == m,
                Err(e) => r == Err::<StaticMethod, PoolError>(e),
            },
    {
        if idx == 0 || idx > self.table.len() {
            return Err(PoolError::NotMemberRef(idx));
        }
        let (class_idx, name_type_idx) = match &self.table[idx - 1] {
            Const::FieldMethod(c, n) => (*c, *n),
            _ => {
                return Err(PoolError::NotMemberRef(idx));
            },
        };
        let class_at = class_idx as usize;
        if class_at == 0 || class_at > self.table.len() {
            return Err(PoolError::NotClassRef(class_at));
        }
        let text_idx = match &self.table[class_at - 1] {
            Const::ClassIndex(i) => *i,
            _ => {
                return Err(PoolError::NotClassRef(class_at));
            },
        };
        let class_name = match self.literal(text_idx) {
            Some(s) => s,
            None => {
                return Err(PoolError::NotText(text_idx as usize));
            },
        };
        let pair_at = name_type_idx as usize;
        if pair_at == 0 || pair_at > self.table.len() {
            return Err(PoolError::NotNameAndType(pair_at));
        }
        let (name_idx, type_idx) = match &self.table[pair_at - 1] {
            Const::NameType(n, t) => (*n, *t),
            _ => {
                return Err(PoolError::NotNameAndType(pair_at));
            },
        };
        let method_name = match self.literal(name_idx) {
            Some(s) => s,
            None => {
                return Err(PoolError::NotText(name_idx as usize));
            },
        };
        let method_desc = match self.literal(type_idx) {
            Some(s) => s,
            None => {
                return Err(PoolError::NotText(type_idx as usize));
            },
        };
        Ok(
            StaticMethod {
                class_name: class_name.clone(),
                method_name: method_name.clone(),
                method_desc: method_desc.clone(),
            },
        )
    }
}

/// A named block of bytes attached to a class, a field or a method.
#[derive(Debug)]
pub struct Attribute {
    pub name: String,
    pub data: Vec<u8>,
}

/// The mathematical value of an `Attribute`.
pub struct AttributeView {
    pub name: Seq<char>,
    pub data: Seq<u8>,
}

impl View for Attribute {
    type V = AttributeView;

    open spec fn view(&self) -> AttributeView {
        AttributeView { name: self.name@, data: self.data@ }
    }
}

/// A field or a method of a class: both have the same layout.
#[derive(Debug)]
pub struct Field {
    pub flags: u16,
    pub name: String,
    pub descriptor: String,
    pub attributes: Vec<Attribute>,
}

/// The mathematical value of a `Field`.
pub struct FieldView {
    pub flags: u16,
    pub name: Seq<char>,
    pub descriptor: Seq<char>,
    pub attributes: Seq<AttributeView>,
}

impl View for Field {
    type V = FieldView;

    open spec fn view(&self) -> FieldView {
        FieldView {
            flags: self.flags,
            name: self.name@,
            descriptor: self.descriptor@,
            attributes: views(self.attributes@),
        }
    }
}

/// A loaded class.
#[derive(Debug)]
pub struct Class {
    pub version_major: u16,
    pub version_minor: u16,
    pub const_pool: ConstPool,
    pub name: String,
    pub super_class: String,
    pub flags: u16,
    pub interfaces: Vec<String>,
    pub fields: Vec<Field>,
    pub methods: Vec<Field>,
    pub attributes: Vec<Attribute>,
}

/// The mathematical value of a `Class`.
pub struct ClassView {
    pub version_major: u16,
    pub version_minor: u16,
    pub const_pool: ConstPoolView,
    pub name: Seq<char>,
    pub super_class: Seq<char>,
    pub flags: u16,
    pub interfaces: Seq<Seq<char>>,
    pub fields: Seq<FieldView>,
    pub methods: Seq<FieldView>,
    pub attributes: Seq<AttributeView>,
}

impl View for Class {
    type V = ClassView;

    open spec fn view(&self) -> ClassView {
        ClassView {
            version_major: self.version_major,
            version_minor: self.version_minor,
            const_pool: self.const_pool@,
            name: self.name@,
            super_class: self.super_class@,
            flags: self.flags,
            interfaces: views(self.interfaces@),
            fields: views(self.fields@),
            methods: views(self.methods@),
            attributes: views(self.attributes@),
        }
    }
}

/// Another handle on a class, made with `Rc::clone`. Trusted: the new
/// handle stands for the very class that the given one stands for.
#[verifier::external_body]
pub(crate) fn share(class: &Rc<Class>) -> (r: Rc<Class>)
    ensures
        r == *class,
{
    Rc::clone(class)
}

/// Reads the two-byte index of a name and resolves it.
fn read_name(r: &mut ClassFileReader, const_pool: &ConstPool) -> (name: Result<String, LoadError>)
    ensures
        final(r).source() == old(r).source(),
        match name_at(old(r).source(), old(r).position(), const_pool@.table) {
            Ok((v, next)) => name is Ok && name->Ok_0@ == v && final(r).position() == next,
            Err(e) => name == Err::<String, LoadError>(e),
        },
{
    let idx = r.u2()?;
    match const_pool.resolve_str(idx as usize) {
        Ok(s) => Ok(s),
        Err(e) => Err(LoadError::Name(e)),
    }
}

/// Reads an interface table: a count, then that many names.
fn interfaces(r: &mut ClassFileReader, const_pool: &ConstPool) -> (v: Result<
    Vec<String>,
    LoadError,
>)
    ensures
        final(r).source() == old(r).source(),
        match interface_table_at(old(r).source(), old(r).position(), const_pool@.table) {
            Ok((seq, next)) => v is Ok && views(v->Ok_0@) == seq && final(r).position() == next,
            Err(e) => v == Err::<Vec<String>, LoadError>(e),
        },
{
    let ghost b = r.source();
    let ghost start = r.position();
    let count = r.u2()?;
    let mut v: Vec<String> = Vec::new();
    let mut i: u16 = 0;
    assert(views(v@) =~= Seq::<Seq<char>>::empty());
    while i < count
        invariant
            i <= count,
            r.source() == b,
            b == old(r).source(),
            start == old(r).position(),
            start + 2 <= b.len(),
            count == format::be_u16(b, start),
            interfaces_from(b, start + 2, const_pool@.table, count as nat, Seq::empty())
                == interfaces_from(
                b,
                r.position(),
                const_pool@.table,
                (count - i) as nat,
                views(v@),
            ),
        decreases count - i,
    {
        let name = read_name(r, const_pool)?;
        proof {
            lemma_views_push(v@, name);
        }
        v.push(name);
        i = i + 1;
    }
    Ok(v)
}

/// Reads one attribute: its name, the length of its data and the data.
fn read_attribute(r: &mut ClassFileReader, const_pool: &ConstPool) -> (a: Result<
    Attribute,
    LoadError,
>)
    ensures
        final(r).source() == old(r).source(),
        match attribute_at(old(r).source(), old(r).position(), const_pool@.table) {
            Ok((v, next)) => a is Ok && a->Ok_0@ == v && final(r).position() == next,
            Err(e) => a == Err::<Attribute, LoadError>(e),
        },
{
    let name = read_name(r, const_pool)?;
    let data_size = r.u4()?;
    let data = r.bytes(data_size as usize)?;
    Ok(Attribute { name, data })
}

/// Reads an attribute table: a count, then that many attributes.
fn attr(r: &mut ClassFileReader, const_pool: &ConstPool) -> (v: Result<Vec<Attribute>, LoadError>)
    ensures
        final(r).source() == old(r).source(),
        match attribute_table_at(old(r).source(), old(r).position(), const_pool@.table) {
            Ok((seq, next)) => v is Ok && views(v->Ok_0@) == seq && final(r).position() == next,
            Err(e) => v == Err::<Vec<Attribute>, LoadError>(e),
        },
{
    let ghost b = r.source();
    let ghost start = r.position();
    let count = r.u2()?;
    let mut v: Vec<Attribute> = Vec::new();
    let mut i: u16 = 0;
    assert(views(v@) =~= Seq::<AttributeView>::empty());
    while i < count
        invariant
            i <= count,
            r.source() == b,
            b == old(r).source(),
            start == old(r).position(),
            start + 2 <= b.len(),
            count == format::be_u16(b, start),
            attributes_from(b, start + 2, const_pool@.table, count as nat, Seq::empty())
                == attributes_from(
                b,
                r.position(),
                const_pool@.table,
                (count - i) as nat,
                views(v@),
            ),
        decreases count - i,
    {
        let a = read_attribute(r, const_pool)?;
        proof {
            lemma_views_push(v@, a);
        }
        v.push(a);
        i = i + 1;
    }
    Ok(v)
}

/// Reads one field or method: flags, name, descriptor and attributes.
fn read_field(r: &mut ClassFileReader, const_pool: &ConstPool) -> (f: Result<Field, LoadError>)
    ensures
        final(r).source() == old(r).source(),
        match field_at(old(r).source(), old(r).position(), const_pool@.table) {
            Ok((v, next)) => f is Ok && f->Ok_0@ == v && final(r).position() == next,
            Err(e) => f == Err::<Field, LoadError>(e),
        },
{
    let flags = r.u2()?;
    let name = read_name(r, const_pool)?;
    let descriptor = read_name(r, const_pool)?;
    let attributes = attr(r, const_pool)?;
    Ok(Field { flags, name, descriptor, attributes })
}

/// Reads a table of fields or of methods: a count, then that many entries.
fn fields(r: &mut ClassFileReader, const_pool: &ConstPool) -> (v: Result<Vec<Field>, LoadError>)
    ensures
        final(r).source() == old(r).source(),
        match field_table_at(old(r).source(), old(r).position(), const_pool@.table) {
            Ok((seq, next)) => v is Ok && views(v->Ok_0@) == seq && final(r).position() == next,
            Err(e) => v == Err::<Vec<Field>, LoadError>(e),
        },
{
    let ghost b = r.source();
    let ghost start = r.position();
    let count = r.u2()?;
    let mut v: Vec<Field> = Vec::new();
    let mut i: u16 = 0;
    assert(views(v@) =~= Seq::<FieldView>::empty());
    while i < count
        invariant
            i <= count,
            r.source() == b,
            b == old(r).source(),
            start == old(r).position(),
            start + 2 <= b.len(),
            count == format::be_u16(b, start),
            fields_from(b, start + 2, const_pool@.table, count as nat, Seq::empty())
                == fields_from(
                b,
                r.position(),
                const_pool@.table,
                (count - i) as nat,
                views(v@),
            ),
        decreases count - i,
    {
        let f = read_field(r, const_pool)?;
        proof {
            lemma_views_push(v@, f);
        }
        v.push(f);
        i = i + 1;
    }
    Ok(v)
}

/// Reads what follows the constant pool of a class file.
fn read_class_body(
    r: &mut ClassFileReader,
    version_minor: u16,
    version_major: u16,
    const_pool: ConstPool,
) -> (class: Result<Class, LoadError>)
    ensures
        match class_body_at(
            old(r).source(),
            old(r).position(),
            version_minor,
            version_major,
            const_pool@,
        ) {
            Ok(v) => class is Ok && class->Ok_0@ == v,
            Err(e) => class == Err::<Class, LoadError>(e),
        },
{
    let flags = r.u2()?;
    let this_idx = r.u2()?;
    let name = match const_pool.resolve_str(this_idx as usize) {
        Ok(s) => s,
        Err(e) => {
            return Err(LoadError::ClassName(e));
        },
    };
    let super_idx = r.u2()?;
    let super_class = match const_pool.resolve_str(super_idx as usize) {
        Ok(s) => s,
        Err(e) => {
            return Err(LoadError::SuperClassName(e));
        },
    };
    let interfaces = interfaces(r, &const_pool)?;
    let fields = fields(r, &const_pool)?;
    let methods = self::fields(r, &const_pool)?;
    let attributes = attr(r, &const_pool)?;
    Ok(
        Class {
            version_major,
            version_minor,
            const_pool,
            name,
            super_class,
            flags,
            interfaces,
            fields,
            methods,
            attributes,
        },
    )
}

/// Loads a class from the bytes of a class file: the magic number, the
/// minor and the major version, the constant pool, the access flags, the
/// names of the class and of its super class, and the tables of interfaces,
/// fields, methods and attributes.
pub fn load(bytes: &[u8]) -> (class: Result<Class, LoadError>)
    ensures
        match class_of(bytes@) {
            Ok(v) => class is Ok && class->Ok_0@ == v,
            Err(e) => class == Err::<Class, LoadError>(e),
        },
{
    let mut r = ClassFileReader::new(bytes);
    if r.u4()? != MAGIC {
        return Err(LoadError::NotAClassFile);
    }
    let version_minor = r.u2()?;
    let version_major = r.u2()?;
    let const_pool = ConstPool::load(&mut r)?;
    read_class_body(&mut r, version_minor, version_major, const_pool)
}

} // verus!
