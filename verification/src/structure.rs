//! The decoded shapes: version, access flags, constant-pool entries and the
//! classfile aggregate, together with their mathematical models.

use vstd::prelude::*;

verus! {

/// Why a decode failed. Every failure is deterministic: the same bytes give
/// the same error again.
#[derive(Clone, Copy, Debug, PartialEq, Eq, Structural)]
pub enum DecodeError {
    /// The first four bytes are not the classfile signature.
    BadMagic,
    /// Fewer bytes remain than a required field needs.
    Truncated,
    /// A constant-pool tag byte outside the known set.
    UnknownConstantTag(u8),
    /// An access-flag mask with a bit outside the known set.
    InvalidAccessFlags(u16),
    /// A declared constant-pool count of zero, which the wire format leaves
    /// undefined.
    InvalidPoolCount,
}

/// The two 16-bit version fields. Unknown majors are tolerated; only the
/// label falls back to "unknown".
#[derive(Clone, Copy, Debug, PartialEq, Eq, Structural)]
pub struct Version {
    pub major: u16,
    pub minor: u16,
}

impl Version {
    /// The conventional release name for a major version number.
    pub fn label(&self) -> (r: &'static str)
        ensures
            self.major == 45 ==> r@ == "JDK 1.1"@,
            self.major == 46 ==> r@ == "JDK 1.2"@,
            self.major == 47 ==> r@ == "JDK 1.3"@,
            self.major == 48 ==> r@ == "JDK 1.4"@,
            self.major == 49 ==> r@ == "SE 5"@,
            self.major == 50 ==> r@ == "SE 6"@,
            self.major == 51 ==> r@ == "SE 7"@,
            self.major == 52 ==> r@ == "SE 8"@,
            self.major == 53 ==> r@ == "SE 9"@,
            self.major == 54 ==> r@ == "SE 10"@,
            self.major == 55 ==> r@ == "SE 11"@,
            self.major == 56 ==> r@ == "SE 12"@,
            self.major == 57 ==> r@ == "SE 13"@,
            self.major == 58 ==> r@ == "SE 14"@,
            self.major == 59 ==> r@ == "SE 15"@,
            self.major == 60 ==> r@ == "SE 16"@,
            self.major == 61 ==> r@ == "SE 17"@,
            self.major == 62 ==> r@ == "SE 18"@,
            self.major == 63 ==> r@ == "SE 19"@,
            !(45 <= self.major <= 63) ==> r@ == "unknown"@,
    {
        match self.major {
            45 => "JDK 1.1",
            46 => "JDK 1.2",
            47 => "JDK 1.3",
            48 => "JDK 1.4",
            49 => "SE 5",
            50 => "SE 6",
            51 => "SE 7",
            52 => "SE 8",
            53 => "SE 9",
            54 => "SE 10",
            55 => "SE 11",
            56 => "SE 12",
            57 => "SE 13",
            58 => "SE 14",
            59 => "SE 15",
            60 => "SE 16",
            61 => "SE 17",
            62 => "SE 18",
            63 => "SE 19",
            _ => "unknown",
        }
    }
}

pub const ACC_PUBLIC: u16 = 0x0001;
pub const ACC_FINAL: u16 = 0x0010;
pub const ACC_SUPER: u16 = 0x0020;
pub const ACC_INTERFACE: u16 = 0x0200;
pub const ACC_ABSTRACT: u16 = 0x0400;
pub const ACC_SYNTHETIC: u16 = 0x1000;
pub const ACC_ANNOTATION: u16 = 0x2000;
pub const ACC_ENUM: u16 = 0x4000;
pub const ACC_MODULE: u16 = 0x8000;

/// The union of every recognized access-flag bit.
pub const ACC_ALL: u16 = ACC_PUBLIC | ACC_FINAL | ACC_SUPER | ACC_INTERFACE
    | ACC_ABSTRACT | ACC_SYNTHETIC | ACC_ANNOTATION | ACC_ENUM | ACC_MODULE;

/// A mask is acceptable when every set bit is a recognized flag.
pub open spec fn valid_flag_bits(bits: u16) -> bool {
    bits & !ACC_ALL == 0
}

/// A class-level capability set backed by a 16-bit mask. The checked
/// constructor keeps the invariant that only recognized bits are ever set.
#[derive(Clone, Copy, Debug, PartialEq, Eq, Structural)]
pub struct AccessFlags {
    bits: u16,
}

impl AccessFlags {
    /// The raw mask behind the set.
    pub closed spec fn spec_bits(&self) -> u16 {
        self.bits
    }

    pub open spec fn well_formed(&self) -> bool {
        valid_flag_bits(self.spec_bits())
    }

    /// Checked constructor: succeeds exactly on masks made of recognized bits.
    pub fn from_bits(bits: u16) -> (r: Option<AccessFlags>)
        ensures
            r is Some <==> valid_flag_bits(bits),
            r matches Some(f) ==> f.spec_bits() == bits && f.well_formed(),
    {
        if bits & !ACC_ALL == 0 {
            Some(AccessFlags { bits })
        } else {
            None
        }
    }

    pub fn bits(&self) -> (r: u16)
        ensures
            r == self.spec_bits(),
    {
        self.bits
    }

    /// Whether every bit of `mask` is set.
    pub fn contains(&self, mask: u16) -> (r: bool)
        ensures
            r == (self.spec_bits() & mask == mask),
    {
        self.bits & mask == mask
    }
}

/// One constant-pool record, discriminated on the wire by its tag byte.
/// Index payloads are 1-based references into the pool itself; numeric
/// payloads are kept as raw big-endian bit patterns, not reinterpreted.
#[derive(Clone, Debug, PartialEq, Eq)]
pub enum ConstantPoolInfo {
    /// name index
    Class(usize),
    /// class index, name_and_type index
    FieldRef(usize, usize),
    /// class index, name_and_type index
    MethodRef(usize, usize),
    /// class index, name_and_type index
    InterfaceMethodRef(usize, usize),
    /// index of the Utf8 value
    String(usize),
    Integer(u32),
    Float(u32),
    /// high bytes, low bytes
    Long(u32, u32),
    /// high bytes, low bytes
    Double(u32, u32),
    /// name index, descriptor index
    NameAndType(usize, usize),
    /// declared byte length, then exactly that many payload bytes
    Utf(u16, Vec<u8>),
    /// reference kind, reference index
    MethodHandle(u8, usize),
    /// descriptor index
    MethodType(usize),
    /// bootstrap method attribute index, name_and_type index
    Dynamic(usize, usize),
    /// bootstrap method attribute index, name_and_type index
    InvokeDynamic(usize, usize),
    /// name index
    Module(usize),
    /// name index
    Package(usize),
}

/// The mathematical model of a constant-pool record: indices as unbounded
/// integers, the Utf8 payload as a byte sequence.
pub enum CpEntry {
    Class { name_index: int },
    FieldRef { class_index: int, name_and_type_index: int },
    MethodRef { class_index: int, name_and_type_index: int },
    InterfaceMethodRef { class_index: int, name_and_type_index: int },
    String { string_index: int },
    Integer { bits: u32 },
    Float { bits: u32 },
    Long { high: u32, low: u32 },
    Double { high: u32, low: u32 },
    NameAndType { name_index: int, descriptor_index: int },
    Utf { length: u16, bytes: Seq<u8> },
    MethodHandle { kind: u8, reference_index: int },
    MethodType { descriptor_index: int },
    Dynamic { bootstrap_method_attr_index: int, name_and_type_index: int },
    InvokeDynamic { bootstrap_method_attr_index: int, name_and_type_index: int },
    Module { name_index: int },
    Package { name_index: int },
}

impl View for ConstantPoolInfo {
    type V = CpEntry;

    open spec fn view(&self) -> CpEntry {
        match self {
            ConstantPoolInfo::Class(ni) => CpEntry::Class { name_index: *ni as int },
            ConstantPoolInfo::FieldRef(ci, nti) => CpEntry::FieldRef {
                class_index: *ci as int,
                name_and_type_index: *nti as int,
            },
            ConstantPoolInfo::MethodRef(ci, nti) => CpEntry::MethodRef {
                class_index: *ci as int,
                name_and_type_index: *nti as int,
            },
            ConstantPoolInfo::InterfaceMethodRef(ci, nti) => CpEntry::InterfaceMethodRef {
                class_index: *ci as int,
                name_and_type_index: *nti as int,
            },
            ConstantPoolInfo::String(si) => CpEntry::String { string_index: *si as int },
            ConstantPoolInfo::Integer(b) => CpEntry::Integer { bits: *b },
            ConstantPoolInfo::Float(b) => CpEntry::Float { bits: *b },
            ConstantPoolInfo::Long(h, l) => CpEntry::Long { high: *h, low: *l },
            ConstantPoolInfo::Double(h, l) => CpEntry::Double { high: *h, low: *l },
            ConstantPoolInfo::NameAndType(ni, di) => CpEntry::NameAndType {
                name_index: *ni as int,
                descriptor_index: *di as int,
            },
            ConstantPoolInfo::Utf(len, bytes) => CpEntry::Utf {
                length: *len,
                bytes: bytes@,
            },
            ConstantPoolInfo::MethodHandle(k, ri) => CpEntry::MethodHandle {
                kind: *k,
                reference_index: *ri as int,
            },
            ConstantPoolInfo::MethodType(di) => CpEntry::MethodType {
                descriptor_index: *di as int,
            },
            ConstantPoolInfo::Dynamic(bi, nti) => CpEntry::Dynamic {
                bootstrap_method_attr_index: *bi as int,
                name_and_type_index: *nti as int,
            },
            ConstantPoolInfo::InvokeDynamic(bi, nti) => CpEntry::InvokeDynamic {
                bootstrap_method_attr_index: *bi as int,
                name_and_type_index: *nti as int,
            },
            ConstantPoolInfo::Module(ni) => CpEntry::Module { name_index: *ni as int },
            ConstantPoolInfo::Package(ni) => CpEntry::Package { name_index: *ni as int },
        }
    }
}

/// The model of a pool: each exec record replaced by its model.
pub open spec fn entries_view(v: Seq<ConstantPoolInfo>) -> Seq<CpEntry> {
    v.map_values(|e: ConstantPoolInfo| e@)
}

/// The model of an interface list: each index as an unbounded integer.
pub open spec fn indices_view(v: Seq<usize>) -> Seq<int> {
    v.map_values(|i: usize| i as int)
}

/// The decoded aggregate. Array position `i` of `constant_pool` holds the
/// entry with 1-based pool index `i + 1`; pool index 0 is never materialized
/// and conventionally means "absent" (relevant for `super_class == 0`).
#[derive(Clone, Debug, PartialEq, Eq)]
pub struct ClassFile {
    pub version: Version,
    pub constant_pool: Vec<ConstantPoolInfo>,
    pub access_flags: AccessFlags,
    pub this_class: usize,
    pub super_class: usize,
    pub interfaces: Vec<usize>,
}

/// The mathematical model of a decoded classfile.
pub struct ClassFileModel {
    pub version: Version,
    pub constant_pool: Seq<CpEntry>,
    pub access_flags: u16,
    pub this_class: int,
    pub super_class: int,
    pub interfaces: Seq<int>,
}

impl View for ClassFile {
    type V = ClassFileModel;

    open spec fn view(&self) -> ClassFileModel {
        ClassFileModel {
            version: self.version,
            constant_pool: entries_view(self.constant_pool@),
            access_flags: self.access_flags.spec_bits(),
            this_class: self.this_class as int,
            super_class: self.super_class as int,
            interfaces: indices_view(self.interfaces@),
        }
    }
}

} // verus!
