//! The decoding engine: spec-level parsers over byte sequences, the exec
//! decoders proved against them, and the laws that hold of the format.

use vstd::prelude::*;

use crate::cursor::{
    spec_bytes_at, spec_u16_at, spec_u32_at, spec_u8_at, Cursor, Parsed,
};
use crate::structure::{
    entries_view, indices_view, valid_flag_bits, AccessFlags, ClassFile, ClassFileModel,
    ConstantPoolInfo, CpEntry, DecodeError, Version,
};

verus! {

/// The four signature bytes at position `i`, which every buffer must open
/// with; too short a buffer is `Truncated`, any other four bytes `BadMagic`.
pub open spec fn spec_magic_at(s: Seq<u8>, i: int) -> Parsed<()> {
    if !(0 <= i && i + 4 <= s.len()) {
        Parsed::Failed(DecodeError::Truncated)
    } else if s[i] == 0xCA && s[i + 1] == 0xFE && s[i + 2] == 0xBA && s[i + 3] == 0xBE {
        Parsed::Found((), i + 4)
    } else {
        Parsed::Failed(DecodeError::BadMagic)
    }
}

pub fn parse_magic(c: &mut Cursor) -> (r: Result<(), DecodeError>)
    requires
        old(c).well_formed(),
    ensures
        final(c).well_formed(),
        final(c).data() == old(c).data(),
        (match r {
            Ok(u) => spec_magic_at(old(c).data(), old(c).position())
                == Parsed::Found((), final(c).position()),
            Err(e) => spec_magic_at(old(c).data(), old(c).position())
                == Parsed::<()>::Failed(e),
        }),
{
    if c.remaining() < 4 {
        return Err(DecodeError::Truncated);
    }
    let b0 = match c.read_u8() { Ok(b) => b, Err(e) => return Err(e) };
    let b1 = match c.read_u8() { Ok(b) => b, Err(e) => return Err(e) };
    let b2 = match c.read_u8() { Ok(b) => b, Err(e) => return Err(e) };
    let b3 = match c.read_u8() { Ok(b) => b, Err(e) => return Err(e) };
    if b0 == 0xCA && b1 == 0xFE && b2 == 0xBA && b3 == 0xBE {
        Ok(())
    } else {
        Err(DecodeError::BadMagic)
    }
}

/// A 1-based pool index: a big-endian u16 widened to an unbounded integer.
pub open spec fn spec_index_at(s: Seq<u8>, i: int) -> Parsed<int> {
    match spec_u16_at(s, i) {
        Parsed::Found(v, j) => Parsed::Found(v as int, j),
        Parsed::Failed(e) => Parsed::Failed(e),
    }
}

pub fn parse_index(c: &mut Cursor) -> (r: Result<usize, DecodeError>)
    requires
        old(c).well_formed(),
    ensures
        final(c).well_formed(),
        final(c).data() == old(c).data(),
        (match r {
            Ok(v) => spec_index_at(old(c).data(), old(c).position())
                == Parsed::Found(v as int, final(c).position()),
            Err(e) => spec_index_at(old(c).data(), old(c).position())
                == Parsed::<int>::Failed(e),
        }),
{
    match c.read_u16_be() {
        Ok(v) => Ok(v as usize),
        Err(e) => Err(e),
    }
}

/// The two version fields, in their on-wire order: minor first, then major.
pub open spec fn spec_version(s: Seq<u8>, i: int) -> Parsed<Version> {
    match spec_u16_at(s, i) {
        Parsed::Found(minor, j) => match spec_u16_at(s, j) {
            Parsed::Found(major, k) => Parsed::Found(Version { major, minor }, k),
            Parsed::Failed(e) => Parsed::Failed(e),
        },
        Parsed::Failed(e) => Parsed::Failed(e),
    }
}

pub fn parse_version(c: &mut Cursor) -> (r: Result<Version, DecodeError>)
    requires
        old(c).well_formed(),
    ensures
        final(c).well_formed(),
        final(c).data() == old(c).data(),
        (match r {
            Ok(v) => spec_version(old(c).data(), old(c).position())
                == Parsed::Found(v, final(c).position()),
            Err(e) => spec_version(old(c).data(), old(c).position())
                == Parsed::<Version>::Failed(e),
        }),
{
    let minor = match c.read_u16_be() { Ok(v) => v, Err(e) => return Err(e) };
    let major = match c.read_u16_be() { Ok(v) => v, Err(e) => return Err(e) };
    Ok(Version { major, minor })
}

pub open spec fn spec_class_info(s: Seq<u8>, i: int) -> Parsed<CpEntry> {
    match spec_index_at(s, i) {
        Parsed::Found(ni, j) => Parsed::Found(CpEntry::Class { name_index: ni }, j),
        Parsed::Failed(e) => Parsed::Failed(e),
    }
}

pub open spec fn spec_fieldref_info(s: Seq<u8>, i: int) -> Parsed<CpEntry> {
    match spec_index_at(s, i) {
        Parsed::Found(ci, j) => match spec_index_at(s, j) {
            Parsed::Found(nti, k) => Parsed::Found(
                CpEntry::FieldRef { class_index: ci, name_and_type_index: nti },
                k,
            ),
            Parsed::Failed(e) => Parsed::Failed(e),
        },
        Parsed::Failed(e) => Parsed::Failed(e),
    }
}

pub open spec fn spec_methodref_info(s: Seq<u8>, i: int) -> Parsed<CpEntry> {
    match spec_index_at(s, i) {
        Parsed::Found(ci, j) => match spec_index_at(s, j) {
            Parsed::Found(nti, k) => Parsed::Found(
                CpEntry::MethodRef { class_index: ci, name_and_type_index: nti },
                k,
            ),
            Parsed::Failed(e) => Parsed::Failed(e),
        },
        Parsed::Failed(e) => Parsed::Failed(e),
    }
}

pub open spec fn spec_interfacemethodref_info(s: Seq<u8>, i: int) -> Parsed<CpEntry> {
    match spec_index_at(s, i) {
        Parsed::Found(ci, j) => match spec_index_at(s, j) {
            Parsed::Found(nti, k) => Parsed::Found(
                CpEntry::InterfaceMethodRef { class_index: ci, name_and_type_index: nti },
                k,
            ),
            Parsed::Failed(e) => Parsed::Failed(e),
        },
        Parsed::Failed(e) => Parsed::Failed(e),
    }
}

pub open spec fn spec_string_info(s: Seq<u8>, i: int) -> Parsed<CpEntry> {
    match spec_index_at(s, i) {
        Parsed::Found(si, j) => Parsed::Found(CpEntry::String { string_index: si }, j),
        Parsed::Failed(e) => Parsed::Failed(e),
    }
}

pub open spec fn spec_integer_info(s: Seq<u8>, i: int) -> Parsed<CpEntry> {
    match spec_u32_at(s, i) {
        Parsed::Found(b, j) => Parsed::Found(CpEntry::Integer { bits: b }, j),
        Parsed::Failed(e) => Parsed::Failed(e),
    }
}

pub open spec fn spec_float_info(s: Seq<u8>, i: int) -> Parsed<CpEntry> {
    match spec_u32_at(s, i) {
        Parsed::Found(b, j) => Parsed::Found(CpEntry::Float { bits: b }, j),
        Parsed::Failed(e) => Parsed::Failed(e),
    }
}

pub open spec fn spec_long_info(s: Seq<u8>, i: int) -> Parsed<CpEntry> {
    match spec_u32_at(s, i) {
        Parsed::Found(h, j) => match spec_u32_at(s, j) {
            Parsed::Found(l, k) => Parsed::Found(CpEntry::Long { high: h, low: l }, k),
            Parsed::Failed(e) => Parsed::Failed(e),
        },
        Parsed::Failed(e) => Parsed::Failed(e),
    }
}

pub open spec fn spec_double_info(s: Seq<u8>, i: int) -> Parsed<CpEntry> {
    match spec_u32_at(s, i) {
        Parsed::Found(h, j) => match spec_u32_at(s, j) {
            Parsed::Found(l, k) => Parsed::Found(CpEntry::Double { high: h, low: l }, k),
            Parsed::Failed(e) => Parsed::Failed(e),
        },
        Parsed::Failed(e) => Parsed::Failed(e),
    }
}

pub open spec fn spec_nameandtype_info(s: Seq<u8>, i: int) -> Parsed<CpEntry> {
    match spec_index_at(s, i) {
        Parsed::Found(ni, j) => match spec_index_at(s, j) {
            Parsed::Found(di, k) => Parsed::Found(
                CpEntry::NameAndType { name_index: ni, descriptor_index: di },
                k,
            ),
            Parsed::Failed(e) => Parsed::Failed(e),
        },
        Parsed::Failed(e) => Parsed::Failed(e),
    }
}

/// A declared length, then exactly that many payload bytes.
pub open spec fn spec_utf_info(s: Seq<u8>, i: int) -> Parsed<CpEntry> {
    match spec_u16_at(s, i) {
        Parsed::Found(n, j) => match spec_bytes_at(s, j, n as int) {
            Parsed::Found(bs, k) => Parsed::Found(CpEntry::Utf { length: n, bytes: bs }, k),
            Parsed::Failed(e) => Parsed::Failed(e),
        },
        Parsed::Failed(e) => Parsed::Failed(e),
    }
}

pub open spec fn spec_method_handle_info(s: Seq<u8>, i: int) -> Parsed<CpEntry> {
    match spec_u8_at(s, i) {
        Parsed::Found(kind, j) => match spec_index_at(s, j) {
            Parsed::Found(ri, k) => Parsed::Found(
                CpEntry::MethodHandle { kind, reference_index: ri },
                k,
            ),
            Parsed::Failed(e) => Parsed::Failed(e),
        },
        Parsed::Failed(e) => Parsed::Failed(e),
    }
}

pub open spec fn spec_method_type_info(s: Seq<u8>, i: int) -> Parsed<CpEntry> {
    match spec_index_at(s, i) {
        Parsed::Found(di, j) => Parsed::Found(CpEntry::MethodType { descriptor_index: di }, j),
        Parsed::Failed(e) => Parsed::Failed(e),
    }
}

pub open spec fn spec_dynamic_info(s: Seq<u8>, i: int) -> Parsed<CpEntry> {
    match spec_index_at(s, i) {
        Parsed::Found(bi, j) => match spec_index_at(s, j) {
            Parsed::Found(nti, k) => Parsed::Found(
                CpEntry::Dynamic { bootstrap_method_attr_index: bi, name_and_type_index: nti },
                k,
            ),
            Parsed::Failed(e) => Parsed::Failed(e),
        },
        Parsed::Failed(e) => Parsed::Failed(e),
    }
}

pub open spec fn spec_invoke_dynamic_info(s: Seq<u8>, i: int) -> Parsed<CpEntry> {
    match spec_index_at(s, i) {
        Parsed::Found(bi, j) => match spec_index_at(s, j) {
            Parsed::Found(nti, k) => Parsed::Found(
                CpEntry::InvokeDynamic { bootstrap_method_attr_index: bi, name_and_type_index: nti },
                k,
            ),
            Parsed::Failed(e) => Parsed::Failed(e),
        },
        Parsed::Failed(e) => Parsed::Failed(e),
    }
}

pub open spec fn spec_module_info(s: Seq<u8>, i: int) -> Parsed<CpEntry> {
    match spec_index_at(s, i) {
        Parsed::Found(ni, j) => Parsed::Found(CpEntry::Module { name_index: ni }, j),
        Parsed::Failed(e) => Parsed::Failed(e),
    }
}

pub open spec fn spec_package_info(s: Seq<u8>, i: int) -> Parsed<CpEntry> {
    match spec_index_at(s, i) {
        Parsed::Found(ni, j) => Parsed::Found(CpEntry::Package { name_index: ni }, j),
        Parsed::Failed(e) => Parsed::Failed(e),
    }
}

/// The tag bytes that name a constant-pool record kind.
pub open spec fn tag_known(tag: u8) -> bool {
    tag == 1 || tag == 3 || tag == 4 || tag == 5 || tag == 6 || tag == 7 || tag == 8
        || tag == 9 || tag == 10 || tag == 11 || tag == 12 || tag == 15 || tag == 16
        || tag == 17 || tag == 18 || tag == 19 || tag == 20
}

/// One constant-pool entry: a tag byte, then the payload that tag dictates.
/// A tag outside the known set fails with `UnknownConstantTag`.
pub open spec fn spec_entry(s: Seq<u8>, i: int) -> Parsed<CpEntry> {
    match spec_u8_at(s, i) {
        Parsed::Failed(e) => Parsed::Failed(e),
        Parsed::Found(tag, j) => if tag == 1 {
            spec_utf_info(s, j)
        } else if tag == 3 {
            spec_integer_info(s, j)
        } else if tag == 4 {
            spec_float_info(s, j)
        } else if tag == 5 {
            spec_long_info(s, j)
        } else if tag == 6 {
            spec_double_info(s, j)
        } else if tag == 7 {
            spec_class_info(s, j)
        } else if tag == 8 {
            spec_string_info(s, j)
        } else if tag == 9 {
            spec_fieldref_info(s, j)
        } else if tag == 10 {
            spec_methodref_info(s, j)
        } else if tag == 11 {
            spec_interfacemethodref_info(s, j)
        } else if tag == 12 {
            spec_nameandtype_info(s, j)
        } else if tag == 15 {
            spec_method_handle_info(s, j)
        } else if tag == 16 {
            spec_method_type_info(s, j)
        } else if tag == 17 {
            spec_dynamic_info(s, j)
        } else if tag == 18 {
            spec_invoke_dynamic_info(s, j)
        } else if tag == 19 {
            spec_module_info(s, j)
        } else if tag == 20 {
            spec_package_info(s, j)
        } else {
            Parsed::Failed(DecodeError::UnknownConstantTag(tag))
        },
    }
}

pub fn parse_class_info(c: &mut Cursor) -> (r: Result<ConstantPoolInfo, DecodeError>)
    requires
        old(c).well_formed(),
    ensures
        final(c).well_formed(),
        final(c).data() == old(c).data(),
        (match r {
            Ok(e) => spec_class_info(old(c).data(), old(c).position())
                == Parsed::Found(e@, final(c).position()),
            Err(err) => spec_class_info(old(c).data(), old(c).position())
                == Parsed::<CpEntry>::Failed(err),
        }),
{
    let name_index = match parse_index(c) { Ok(v) => v, Err(e) => return Err(e) };
    Ok(ConstantPoolInfo::Class(name_index))
}

pub fn parse_fieldref_info(c: &mut Cursor) -> (r: Result<ConstantPoolInfo, DecodeError>)
    requires
        old(c).well_formed(),
    ensures
        final(c).well_formed(),
        final(c).data() == old(c).data(),
        (match r {
            Ok(e) => spec_fieldref_info(old(c).data(), old(c).position())
                == Parsed::Found(e@, final(c).position()),
            Err(err) => spec_fieldref_info(old(c).data(), old(c).position())
                == Parsed::<CpEntry>::Failed(err),
        }),
{
    let class_index = match parse_index(c) { Ok(v) => v, Err(e) => return Err(e) };
    let name_and_type_index = match parse_index(c) { Ok(v) => v, Err(e) => return Err(e) };
    Ok(ConstantPoolInfo::FieldRef(class_index, name_and_type_index))
}

pub fn parse_methodref_info(c: &mut Cursor) -> (r: Result<ConstantPoolInfo, DecodeError>)
    requires
        old(c).well_formed(),
    ensures
        final(c).well_formed(),
        final(c).data() == old(c).data(),
        (match r {
            Ok(e) => spec_methodref_info(old(c).data(), old(c).position())
                == Parsed::Found(e@, final(c).position()),
            Err(err) => spec_methodref_info(old(c).data(), old(c).position())
                == Parsed::<CpEntry>::Failed(err),
        }),
{
    let class_index = match parse_index(c) { Ok(v) => v, Err(e) => return Err(e) };
    let name_and_type_index = match parse_index(c) { Ok(v) => v, Err(e) => return Err(e) };
    Ok(ConstantPoolInfo::MethodRef(class_index, name_and_type_index))
}

pub fn parse_interfacemethodref_info(c: &mut Cursor) -> (r: Result<ConstantPoolInfo, DecodeError>)
    requires
        old(c).well_formed(),
    ensures
        final(c).well_formed(),
        final(c).data() == old(c).data(),
        (match r {
            Ok(e) => spec_interfacemethodref_info(old(c).data(), old(c).position())
                == Parsed::Found(e@, final(c).position()),
            Err(err) => spec_interfacemethodref_info(old(c).data(), old(c).position())
                == Parsed::<CpEntry>::Failed(err),
        }),
{
    let class_index = match parse_index(c) { Ok(v) => v, Err(e) => return Err(e) };
    let name_and_type_index = match parse_index(c) { Ok(v) => v, Err(e) => return Err(e) };
    Ok(ConstantPoolInfo::InterfaceMethodRef(class_index, name_and_type_index))
}

pub fn parse_string_info(c: &mut Cursor) -> (r: Result<ConstantPoolInfo, DecodeError>)
    requires
        old(c).well_formed(),
    ensures
        final(c).well_formed(),
        final(c).data() == old(c).data(),
        (match r {
            Ok(e) => spec_string_info(old(c).data(), old(c).position())
                == Parsed::Found(e@, final(c).position()),
            Err(err) => spec_string_info(old(c).data(), old(c).position())
                == Parsed::<CpEntry>::Failed(err),
        }),
{
    let string_index = match parse_index(c) { Ok(v) => v, Err(e) => return Err(e) };
    Ok(ConstantPoolInfo::String(string_index))
}

pub fn parse_integer_info(c: &mut Cursor) -> (r: Result<ConstantPoolInfo, DecodeError>)
    requires
        old(c).well_formed(),
    ensures
        final(c).well_formed(),
        final(c).data() == old(c).data(),
        (match r {
            Ok(e) => spec_integer_info(old(c).data(), old(c).position())
                == Parsed::Found(e@, final(c).position()),
            Err(err) => spec_integer_info(old(c).data(), old(c).position())
                == Parsed::<CpEntry>::Failed(err),
        }),
{
    let bits = match c.read_u32_be() { Ok(v) => v, Err(e) => return Err(e) };
    Ok(ConstantPoolInfo::Integer(bits))
}

pub fn parse_float_info(c: &mut Cursor) -> (r: Result<ConstantPoolInfo, DecodeError>)
    requires
        old(c).well_formed(),
    ensures
        final(c).well_formed(),
        final(c).data() == old(c).data(),
        (match r {
            Ok(e) => spec_float_info(old(c).data(), old(c).position())
                == Parsed::Found(e@, final(c).position()),
            Err(err) => spec_float_info(old(c).data(), old(c).position())
                == Parsed::<CpEntry>::Failed(err),
        }),
{
    let bits = match c.read_u32_be() { Ok(v) => v, Err(e) => return Err(e) };
    Ok(ConstantPoolInfo::Float(bits))
}

pub fn parse_long_info(c: &mut Cursor) -> (r: Result<ConstantPoolInfo, DecodeError>)
    requires
        old(c).well_formed(),
    ensures
        final(c).well_formed(),
        final(c).data() == old(c).data(),
        (match r {
            Ok(e) => spec_long_info(old(c).data(), old(c).position())
                == Parsed::Found(e@, final(c).position()),
            Err(err) => spec_long_info(old(c).data(), old(c).position())
                == Parsed::<CpEntry>::Failed(err),
        }),
{
    let high_bytes = match c.read_u32_be() { Ok(v) => v, Err(e) => return Err(e) };
    let low_bytes = match c.read_u32_be() { Ok(v) => v, Err(e) => return Err(e) };
    Ok(ConstantPoolInfo::Long(high_bytes, low_bytes))
}

pub fn parse_double_info(c: &mut Cursor) -> (r: Result<ConstantPoolInfo, DecodeError>)
    requires
        old(c).well_formed(),
    ensures
        final(c).well_formed(),
        final(c).data() == old(c).data(),
        (match r {
            Ok(e) => spec_double_info(old(c).data(), old(c).position())
                == Parsed::Found(e@, final(c).position()),
            Err(err) => spec_double_info(old(c).data(), old(c).position())
                == Parsed::<CpEntry>::Failed(err),
        }),
{
    let high_bytes = match c.read_u32_be() { Ok(v) => v, Err(e) => return Err(e) };
    let low_bytes = match c.read_u32_be() { Ok(v) => v, Err(e) => return Err(e) };
    Ok(ConstantPoolInfo::Double(high_bytes, low_bytes))
}

pub fn parse_nameandtype_info(c: &mut Cursor) -> (r: Result<ConstantPoolInfo, DecodeError>)
    requires
        old(c).well_formed(),
    ensures
        final(c).well_formed(),
        final(c).data() == old(c).data(),
        (match r {
            Ok(e) => spec_nameandtype_info(old(c).data(), old(c).position())
                == Parsed::Found(e@, final(c).position()),
            Err(err) => spec_nameandtype_info(old(c).data(), old(c).position())
                == Parsed::<CpEntry>::Failed(err),
        }),
{
    let name_index = match parse_index(c) { Ok(v) => v, Err(e) => return Err(e) };
    let descriptor_index = match parse_index(c) { Ok(v) => v, Err(e) => return Err(e) };
    Ok(ConstantPoolInfo::NameAndType(name_index, descriptor_index))
}

pub fn parse_utf_info(c: &mut Cursor) -> (r: Result<ConstantPoolInfo, DecodeError>)
    requires
        old(c).well_formed(),
    ensures
        final(c).well_formed(),
        final(c).data() == old(c).data(),
        (match r {
            Ok(e) => spec_utf_info(old(c).data(), old(c).position())
                == Parsed::Found(e@, final(c).position()),
            Err(err) => spec_utf_info(old(c).data(), old(c).position())
                == Parsed::<CpEntry>::Failed(err),
        }),
{
    let length = match c.read_u16_be() { Ok(v) => v, Err(e) => return Err(e) };
    let utf_bytes = match c.read_exact(length as usize) { Ok(v) => v, Err(e) => return Err(e) };
    Ok(ConstantPoolInfo::Utf(length, utf_bytes))
}

pub fn parse_method_handle_info(c: &mut Cursor) -> (r: Result<ConstantPoolInfo, DecodeError>)
    requires
        old(c).well_formed(),
    ensures
        final(c).well_formed(),
        final(c).data() == old(c).data(),
        (match r {
            Ok(e) => spec_method_handle_info(old(c).data(), old(c).position())
                == Parsed::Found(e@, final(c).position()),
            Err(err) => spec_method_handle_info(old(c).data(), old(c).position())
                == Parsed::<CpEntry>::Failed(err),
        }),
{
    let reference_kind = match c.read_u8() { Ok(v) => v, Err(e) => return Err(e) };
    let reference_index = match parse_index(c) { Ok(v) => v, Err(e) => return Err(e) };
    Ok(ConstantPoolInfo::MethodHandle(reference_kind, reference_index))
}

pub fn parse_method_type_info(c: &mut Cursor) -> (r: Result<ConstantPoolInfo, DecodeError>)
    requires
        old(c).well_formed(),
    ensures
        final(c).well_formed(),
        final(c).data() == old(c).data(),
        (match r {
            Ok(e) => spec_method_type_info(old(c).data(), old(c).position())
                == Parsed::Found(e@, final(c).position()),
            Err(err) => spec_method_type_info(old(c).data(), old(c).position())
                == Parsed::<CpEntry>::Failed(err),
        }),
{
    let descriptor_index = match parse_index(c) { Ok(v) => v, Err(e) => return Err(e) };
    Ok(ConstantPoolInfo::MethodType(descriptor_index))
}

pub fn parse_dynamic_info(c: &mut Cursor) -> (r: Result<ConstantPoolInfo, DecodeError>)
    requires
        old(c).well_formed(),
    ensures
        final(c).well_formed(),
        final(c).data() == old(c).data(),
        (match r {
            Ok(e) => spec_dynamic_info(old(c).data(), old(c).position())
                == Parsed::Found(e@, final(c).position()),
            Err(err) => spec_dynamic_info(old(c).data(), old(c).position())
                == Parsed::<CpEntry>::Failed(err),
        }),
{
    let bootstrap_method_attr_index = match parse_index(c) { Ok(v) => v, Err(e) => return Err(e) };
    let name_and_type_index = match parse_index(c) { Ok(v) => v, Err(e) => return Err(e) };
    Ok(ConstantPoolInfo::Dynamic(bootstrap_method_attr_index, name_and_type_index))
}

pub fn parse_invoke_dynamic_info(c: &mut Cursor) -> (r: Result<ConstantPoolInfo, DecodeError>)
    requires
        old(c).well_formed(),
    ensures
        final(c).well_formed(),
        final(c).data() == old(c).data(),
        (match r {
            Ok(e) => spec_invoke_dynamic_info(old(c).data(), old(c).position())
                == Parsed::Found(e@, final(c).position()),
            Err(err) => spec_invoke_dynamic_info(old(c).data(), old(c).position())
                == Parsed::<CpEntry>::Failed(err),
        }),
{
    let bootstrap_method_attr_index = match parse_index(c) { Ok(v) => v, Err(e) => return Err(e) };
    let name_and_type_index = match parse_index(c) { Ok(v) => v, Err(e) => return Err(e) };
    Ok(ConstantPoolInfo::InvokeDynamic(bootstrap_method_attr_index, name_and_type_index))
}

pub fn parse_module_info(c: &mut Cursor) -> (r: Result<ConstantPoolInfo, DecodeError>)
    requires
        old(c).well_formed(),
    ensures
        final(c).well_formed(),
        final(c).data() == old(c).data(),
        (match r {
            Ok(e) => spec_module_info(old(c).data(), old(c).position())
                == Parsed::Found(e@, final(c).position()),
            Err(err) => spec_module_info(old(c).data(), old(c).position())
                == Parsed::<CpEntry>::Failed(err),
        }),
{
    let name_index = match parse_index(c) { Ok(v) => v, Err(e) => return Err(e) };
    Ok(ConstantPoolInfo::Module(name_index))
}

pub fn parse_package_info(c: &mut Cursor) -> (r: Result<ConstantPoolInfo, DecodeError>)
    requires
        old(c).well_formed(),
    ensures
        final(c).well_formed(),
        final(c).data() == old(c).data(),
        (match r {
            Ok(e) => spec_package_info(old(c).data(), old(c).position())
                == Parsed::Found(e@, final(c).position()),
            Err(err) => spec_package_info(old(c).data(), old(c).position())
                == Parsed::<CpEntry>::Failed(err),
        }),
{
    let name_index = match parse_index(c) { Ok(v) => v, Err(e) => return Err(e) };
    Ok(ConstantPoolInfo::Package(name_index))
}

/// Reads one tag byte and dispatches to the decoder that tag names.
pub fn parse_constant_pool_info(c: &mut Cursor) -> (r: Result<ConstantPoolInfo, DecodeError>)
    requires
        old(c).well_formed(),
    ensures
        final(c).well_formed(),
        final(c).data() == old(c).data(),
        (match r {
            Ok(e) => spec_entry(old(c).data(), old(c).position())
                == Parsed::Found(e@, final(c).position()),
            Err(err) => spec_entry(old(c).data(), old(c).position())
                == Parsed::<CpEntry>::Failed(err),
        }),
{
    let tag = match c.read_u8() { Ok(v) => v, Err(e) => return Err(e) };
    match tag {
        1 => parse_utf_info(c),
        3 => parse_integer_info(c),
        4 => parse_float_info(c),
        5 => parse_long_info(c),
        6 => parse_double_info(c),
        7 => parse_class_info(c),
        8 => parse_string_info(c),
        9 => parse_fieldref_info(c),
        10 => parse_methodref_info(c),
        11 => parse_interfacemethodref_info(c),
        12 => parse_nameandtype_info(c),
        15 => parse_method_handle_info(c),
        16 => parse_method_type_info(c),
        17 => parse_dynamic_info(c),
        18 => parse_invoke_dynamic_info(c),
        19 => parse_module_info(c),
        20 => parse_package_info(c),
        _ => Err(DecodeError::UnknownConstantTag(tag)),
    }
}

/// Glues a decoded prefix onto the outcome of decoding the rest.
pub open spec fn prepend<T>(prefix: Seq<T>, p: Parsed<Seq<T>>) -> Parsed<Seq<T>> {
    match p {
        Parsed::Found(rest, end) => Parsed::Found(prefix + rest, end),
        Parsed::Failed(e) => Parsed::Failed(e),
    }
}

/// Exactly `n` constant-pool entries in file order, starting at `i`.
pub open spec fn spec_pool_entries(s: Seq<u8>, i: int, n: nat) -> Parsed<Seq<CpEntry>>
    decreases n,
{
    if n == 0 {
        Parsed::Found(Seq::empty(), i)
    } else {
        match spec_entry(s, i) {
            Parsed::Found(e, j) => prepend(seq![e], spec_pool_entries(s, j, (n - 1) as nat)),
            Parsed::Failed(err) => Parsed::Failed(err),
        }
    }
}

/// The declared entry count, then `count - 1` entries. A declared count of
/// zero is undefined by the wire format and fails with `InvalidPoolCount`.
///
/// Known gap: the canonical format makes a Long or Double entry occupy two
/// consecutive pool slots, the second unusable. Here every entry takes exactly
/// one slot, so pool indices that follow such an entry differ from the
/// canonical numbering. Kept deliberately, not corrected quietly.
pub open spec fn spec_pool(s: Seq<u8>, i: int) -> Parsed<Seq<CpEntry>> {
    match spec_u16_at(s, i) {
        Parsed::Found(cp_count, j) => if cp_count == 0 {
            Parsed::Failed(DecodeError::InvalidPoolCount)
        } else {
            spec_pool_entries(s, j, (cp_count - 1) as nat)
        },
        Parsed::Failed(e) => Parsed::Failed(e),
    }
}

/// A 16-bit mask whose every set bit must be a recognized access flag.
pub open spec fn spec_flags(s: Seq<u8>, i: int) -> Parsed<u16> {
    match spec_u16_at(s, i) {
        Parsed::Found(bits, j) => if valid_flag_bits(bits) {
            Parsed::Found(bits, j)
        } else {
            Parsed::Failed(DecodeError::InvalidAccessFlags(bits))
        },
        Parsed::Failed(e) => Parsed::Failed(e),
    }
}

/// Exactly `n` pool indices, starting at `i`.
pub open spec fn spec_indices_at(s: Seq<u8>, i: int, n: nat) -> Parsed<Seq<int>>
    decreases n,
{
    if n == 0 {
        Parsed::Found(Seq::empty(), i)
    } else {
        match spec_index_at(s, i) {
            Parsed::Found(v, j) => prepend(seq![v], spec_indices_at(s, j, (n - 1) as nat)),
            Parsed::Failed(e) => Parsed::Failed(e),
        }
    }
}

/// The declared interface count, then that many pool indices.
pub open spec fn spec_interfaces(s: Seq<u8>, i: int) -> Parsed<Seq<int>> {
    match spec_u16_at(s, i) {
        Parsed::Found(cnt, j) => spec_indices_at(s, j, cnt as nat),
        Parsed::Failed(e) => Parsed::Failed(e),
    }
}

/// The whole container: signature, version, constant pool, access flags,
/// the two class indices, and the interface list. Trailing bytes are left
/// unread and do not affect the outcome.
pub open spec fn spec_classfile(s: Seq<u8>) -> Parsed<ClassFileModel> {
    match spec_magic_at(s, 0) {
        Parsed::Failed(e) => Parsed::Failed(e),
        Parsed::Found(m, i1) => match spec_version(s, i1) {
            Parsed::Failed(e) => Parsed::Failed(e),
            Parsed::Found(version, i2) => match spec_pool(s, i2) {
                Parsed::Failed(e) => Parsed::Failed(e),
                Parsed::Found(constant_pool, i3) => match spec_flags(s, i3) {
                    Parsed::Failed(e) => Parsed::Failed(e),
                    Parsed::Found(access_flags, i4) => match spec_index_at(s, i4) {
                        Parsed::Failed(e) => Parsed::Failed(e),
                        Parsed::Found(this_class, i5) => match spec_index_at(s, i5) {
                            Parsed::Failed(e) => Parsed::Failed(e),
                            Parsed::Found(super_class, i6) => match spec_interfaces(s, i6) {
                                Parsed::Failed(e) => Parsed::Failed(e),
                                Parsed::Found(interfaces, i7) => Parsed::Found(
                                    ClassFileModel {
                                        version,
                                        constant_pool,
                                        access_flags,
                                        this_class,
                                        super_class,
                                        interfaces,
                                    },
                                    i7,
                                ),
                            },
                        },
                    },
                },
            },
        },
    }
}

/// Reads the declared count, then decodes exactly `count - 1` entries in
/// file order.
#[verifier::loop_isolation(false)]
pub fn parse_constant_pool(c: &mut Cursor) -> (r: Result<Vec<ConstantPoolInfo>, DecodeError>)
    requires
        old(c).well_formed(),
    ensures
        final(c).well_formed(),
        final(c).data() == old(c).data(),
        (match r {
            Ok(v) => spec_pool(old(c).data(), old(c).position())
                == Parsed::Found(entries_view(v@), final(c).position()),
            Err(e) => spec_pool(old(c).data(), old(c).position())
                == Parsed::<Seq<CpEntry>>::Failed(e),
        }),
{
    let ghost s = c.data();
    let cp_count = match c.read_u16_be() { Ok(v) => v, Err(e) => return Err(e) };
    if cp_count == 0 {
        return Err(DecodeError::InvalidPoolCount);
    }
    let n = cp_count - 1;
    let ghost j0 = c.position();
    let mut entries: Vec<ConstantPoolInfo> = Vec::new();
    proof {
        assert(entries_view(entries@) =~= Seq::<CpEntry>::empty());
        if spec_pool_entries(s, j0, n as nat) is Found {
            let rest = spec_pool_entries(s, j0, n as nat)->Found_0;
            assert(Seq::<CpEntry>::empty() + rest =~= rest);
        }
    }
    let mut k: u16 = 0;
    while k < n
        invariant
            c.well_formed(),
            c.data() == s,
            k <= n,
            entries@.len() == k as int,
            spec_pool_entries(s, j0, n as nat) == prepend(
                entries_view(entries@),
                spec_pool_entries(s, c.position(), (n - k) as nat),
            ),
        decreases n - k,
    {
        let ghost p_cur = c.position();
        let ghost prefix = entries_view(entries@);
        let e = match parse_constant_pool_info(c) {
            Ok(e) => e,
            Err(err) => {
                return Err(err);
            },
        };
        entries.push(e);
        k = k + 1;
        proof {
            assert(entries_view(entries@) =~= prefix + seq![e@]);
            let tail = spec_pool_entries(s, c.position(), (n - k) as nat);
            if tail is Found {
                let rest = tail->Found_0;
                assert(prefix + (seq![e@] + rest) =~= (prefix + seq![e@]) + rest);
            }
        }
    }
    proof {
        let prefix = entries_view(entries@);
        assert(prefix + Seq::<CpEntry>::empty() =~= prefix);
    }
    Ok(entries)
}

/// Reads the 16-bit mask and rejects any unrecognized bit.
pub fn parse_flags(c: &mut Cursor) -> (r: Result<AccessFlags, DecodeError>)
    requires
        old(c).well_formed(),
    ensures
        final(c).well_formed(),
        final(c).data() == old(c).data(),
        (match r {
            Ok(f) => spec_flags(old(c).data(), old(c).position())
                == Parsed::Found(f.spec_bits(), final(c).position()) && f.well_formed(),
            Err(e) => spec_flags(old(c).data(), old(c).position())
                == Parsed::<u16>::Failed(e),
        }),
{
    let bits = match c.read_u16_be() { Ok(v) => v, Err(e) => return Err(e) };
    match AccessFlags::from_bits(bits) {
        Some(flags) => Ok(flags),
        None => Err(DecodeError::InvalidAccessFlags(bits)),
    }
}

/// Reads the declared interface count, then that many pool indices.
#[verifier::loop_isolation(false)]
pub fn parse_interfaces(c: &mut Cursor) -> (r: Result<Vec<usize>, DecodeError>)
    requires
        old(c).well_formed(),
    ensures
        final(c).well_formed(),
        final(c).data() == old(c).data(),
        (match r {
            Ok(v) => spec_interfaces(old(c).data(), old(c).position())
                == Parsed::Found(indices_view(v@), final(c).position()),
            Err(e) => spec_interfaces(old(c).data(), old(c).position())
                == Parsed::<Seq<int>>::Failed(e),
        }),
{
    let ghost s = c.data();
    let interface_count = match c.read_u16_be() { Ok(v) => v, Err(e) => return Err(e) };
    let ghost j0 = c.position();
    let mut interfaces: Vec<usize> = Vec::new();
    proof {
        assert(indices_view(interfaces@) =~= Seq::<int>::empty());
        if spec_indices_at(s, j0, interface_count as nat) is Found {
            let rest = spec_indices_at(s, j0, interface_count as nat)->Found_0;
            assert(Seq::<int>::empty() + rest =~= rest);
        }
    }
    let mut k: u16 = 0;
    while k < interface_count
        invariant
            c.well_formed(),
            c.data() == s,
            k <= interface_count,
            interfaces@.len() == k as int,
            spec_indices_at(s, j0, interface_count as nat) == prepend(
                indices_view(interfaces@),
                spec_indices_at(s, c.position(), (interface_count - k) as nat),
            ),
        decreases interface_count - k,
    {
        let ghost prefix = indices_view(interfaces@);
        let v = match parse_index(c) {
            Ok(v) => v,
            Err(err) => {
                return Err(err);
            },
        };
        interfaces.push(v);
        k = k + 1;
        proof {
            assert(indices_view(interfaces@) =~= prefix + seq![v as int]);
            let tail = spec_indices_at(s, c.position(), (interface_count - k) as nat);
            if tail is Found {
                let rest = tail->Found_0;
                assert(prefix + (seq![v as int] + rest) =~= (prefix + seq![v as int]) + rest);
            }
        }
    }
    proof {
        let prefix = indices_view(interfaces@);
        assert(prefix + Seq::<int>::empty() =~= prefix);
    }
    Ok(interfaces)
}

/// Decodes a whole classfile from the front of `bytes`. On success the
/// returned count says how many bytes were consumed; trailing bytes (field,
/// method and attribute tables) are deliberately left unread. On failure the
/// first error aborts the decode and is returned as it arose.
pub fn parse_classfile(bytes: &[u8]) -> (r: Result<(ClassFile, usize), DecodeError>)
    ensures
        (match r {
            Ok((cf, consumed)) => spec_classfile(bytes@)
                == Parsed::Found(cf@, consumed as int) && consumed <= bytes@.len(),
            Err(e) => spec_classfile(bytes@) == Parsed::<ClassFileModel>::Failed(e),
        }),
{
    let mut c = Cursor::new(bytes);
    match parse_magic(&mut c) {
        Ok(u) => u,
        Err(e) => return Err(e),
    };
    let version = match parse_version(&mut c) { Ok(v) => v, Err(e) => return Err(e) };
    let constant_pool = match parse_constant_pool(&mut c) { Ok(v) => v, Err(e) => return Err(e) };
    let access_flags = match parse_flags(&mut c) { Ok(v) => v, Err(e) => return Err(e) };
    let this_class = match parse_index(&mut c) { Ok(v) => v, Err(e) => return Err(e) };
    let super_class = match parse_index(&mut c) { Ok(v) => v, Err(e) => return Err(e) };
    let interfaces = match parse_interfaces(&mut c) { Ok(v) => v, Err(e) => return Err(e) };
    let consumed = c.offset();
    Ok((
        ClassFile { version, constant_pool, access_flags, this_class, super_class, interfaces },
        consumed,
    ))
}

/// However the remaining bytes read, a buffer whose 4-byte prefix is not the
/// signature fails with `BadMagic`, before any other field is examined.
pub proof fn lemma_bad_magic(s: Seq<u8>)
    requires
        s.len() >= 4,
        s.subrange(0, 4) != seq![0xCAu8, 0xFEu8, 0xBAu8, 0xBEu8],
    ensures
        spec_classfile(s) == Parsed::<ClassFileModel>::Failed(DecodeError::BadMagic),
{
    if s[0] == 0xCA && s[1] == 0xFE && s[2] == 0xBA && s[3] == 0xBE {
        assert(s.subrange(0, 4) =~= seq![0xCAu8, 0xFEu8, 0xBAu8, 0xBEu8]);
    }
}

/// A run of `n` entries, when it succeeds, yields exactly `n` records.
proof fn lemma_pool_entries_len(s: Seq<u8>, i: int, n: nat)
    ensures
        spec_pool_entries(s, i, n) matches Parsed::Found(es, end) ==> es.len() == n,
    decreases n,
{
    if n > 0 {
        match spec_entry(s, i) {
            Parsed::Found(e, j) => {
                lemma_pool_entries_len(s, j, (n - 1) as nat);
            },
            Parsed::Failed(_) => {},
        }
    }
}

/// A decoded classfile holds exactly one entry fewer than the declared
/// `constant_pool_count`, which sits at byte offset 8.
pub proof fn lemma_pool_count(s: Seq<u8>)
    ensures
        spec_classfile(s) matches Parsed::Found(m, end) ==> ({
            &&& spec_u16_at(s, 8) matches Parsed::Found(k, j)
            &&& 1 <= k
            &&& m.constant_pool.len() == k - 1
        }),
{
    if spec_classfile(s) is Found {
        assert(spec_u16_at(s, 8) is Found);
        let k = spec_u16_at(s, 8)->Found_0;
        lemma_pool_entries_len(s, 10, (k - 1) as nat);
    }
}

/// A Utf8 entry with declared length `n` consumes exactly the `n` bytes after
/// the length field as its payload; when fewer than `n` remain it fails with
/// `Truncated`.
pub proof fn lemma_utf_payload(s: Seq<u8>, i: int, n: u16)
    requires
        0 <= i < s.len(),
        s[i] == 1,
        spec_u16_at(s, i + 1) == Parsed::<u16>::Found(n, i + 3),
    ensures
        i + 3 + n <= s.len() ==> spec_entry(s, i) == Parsed::<CpEntry>::Found(
            CpEntry::Utf { length: n, bytes: s.subrange(i + 3, i + 3 + n) },
            i + 3 + n,
        ),
        i + 3 + n > s.len() ==> spec_entry(s, i)
            == Parsed::<CpEntry>::Failed(DecodeError::Truncated),
{
}

/// Decoding reads nothing but the bytes: byte-for-byte equal buffers decode
/// to the same outcome, so decoding the same input twice gives structurally
/// equal results.
pub proof fn lemma_decode_deterministic(s1: Seq<u8>, s2: Seq<u8>)
    requires
        s1 =~= s2,
    ensures
        spec_classfile(s1) == spec_classfile(s2),
{
}

/// Only masks made of recognized bits ever come out of a decode: an
/// unrecognized bit is rejected at the constructor, so no invalid flag set
/// exists in memory.
pub proof fn lemma_flags_valid(s: Seq<u8>)
    ensures
        spec_classfile(s) matches Parsed::Found(m, end) ==> valid_flag_bits(m.access_flags),
{
}

/// Any tag byte outside the known set yields `UnknownConstantTag` carrying
/// that byte — a recoverable error, never an abort.
pub proof fn lemma_unknown_tag(s: Seq<u8>, i: int)
    requires
        0 <= i < s.len(),
        !tag_known(s[i]),
    ensures
        spec_entry(s, i) == Parsed::<CpEntry>::Failed(DecodeError::UnknownConstantTag(s[i])),
{
}

} // verus!
