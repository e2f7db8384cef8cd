//! MAX dtypes.
//!
//! `DType` codes follow `max/include/max/c/types.h`: bit 0x40 marks a float,
//! bit 0x80 an integer, and bit 0x01 of an integer code its signedness.

use vstd::prelude::*;

verus! {

/// MAX dtype.
#[derive(Debug, Clone, Copy, PartialEq, Eq, Hash, Structural)]
pub enum DType {
    Unknown,
    Bool,
    Float4E2M1FN,
    Float8E8M0FNU,
    Float8E3M4,
    Float8E4M3FN,
    Float8E4M3FNUZ,
    Float8E5M2,
    Float8E5M2FNUZ,
    Float16,
    BFloat16,
    Float32,
    Float64,
    UInt8,
    UInt16,
    UInt32,
    UInt64,
    Int8,
    Int16,
    Int32,
    Int64,
}

impl DType {
    /// The MAX C API code of the dtype.
    pub open spec fn spec_code(self) -> u8 {
        match self {
            DType::Unknown => 0,
            DType::Bool => 1,
            DType::Float4E2M1FN => 64,
            DType::Float8E8M0FNU => 73,
            DType::Float8E3M4 => 74,
            DType::Float8E4M3FN => 75,
            DType::Float8E4M3FNUZ => 76,
            DType::Float8E5M2 => 77,
            DType::Float8E5M2FNUZ => 78,
            DType::Float16 => 79,
            DType::BFloat16 => 80,
            DType::Float32 => 81,
            DType::Float64 => 82,
            DType::UInt8 => 134,
            DType::UInt16 => 136,
            DType::UInt32 => 138,
            DType::UInt64 => 140,
            DType::Int8 => 135,
            DType::Int16 => 137,
            DType::Int32 => 139,
            DType::Int64 => 141,
        }
    }

    /// The number of bytes one element of this dtype occupies.
    pub open spec fn spec_byte_width(self) -> usize {
        match self {
            DType::Int16 | DType::UInt16 | DType::Float16 | DType::BFloat16 => 2,
            DType::Int32 | DType::UInt32 | DType::Float32 => 4,
            DType::Int64 | DType::UInt64 | DType::Float64 => 8,
            _ => 1,
        }
    }

    pub open spec fn spec_is_float(self) -> bool {
        self.spec_code() & 0x40u8 != 0
    }

    pub open spec fn spec_is_integer(self) -> bool {
        self.spec_code() & 0x80u8 != 0
    }

    pub open spec fn spec_is_signed(self) -> bool {
        self.spec_is_integer() && self.spec_code() & 0x01u8 != 0
    }

    /// The MAX C API code (the `u8` discriminant of the C enum).
    pub fn as_u8(self) -> (code: u8)
        ensures
            code == self.spec_code(),
    {
        match self {
            DType::Unknown => 0,
            DType::Bool => 1,
            DType::Float4E2M1FN => 64,
            DType::Float8E8M0FNU => 73,
            DType::Float8E3M4 => 74,
            DType::Float8E4M3FN => 75,
            DType::Float8E4M3FNUZ => 76,
            DType::Float8E5M2 => 77,
            DType::Float8E5M2FNUZ => 78,
            DType::Float16 => 79,
            DType::BFloat16 => 80,
            DType::Float32 => 81,
            DType::Float64 => 82,
            DType::UInt8 => 134,
            DType::UInt16 => 136,
            DType::UInt32 => 138,
            DType::UInt64 => 140,
            DType::Int8 => 135,
            DType::Int16 => 137,
            DType::Int32 => 139,
            DType::Int64 => 141,
        }
    }

    pub fn byte_width(self) -> (width: usize)
        ensures
            width == self.spec_byte_width(),
    {
        match self {
            DType::Int16 | DType::UInt16 | DType::Float16 | DType::BFloat16 => 2,
            DType::Int32 | DType::UInt32 | DType::Float32 => 4,
            DType::Int64 | DType::UInt64 | DType::Float64 => 8,
            DType::Unknown
            | DType::Bool
            | DType::Float4E2M1FN
            | DType::Float8E8M0FNU
            | DType::Float8E3M4
            | DType::Float8E4M3FN
            | DType::Float8E4M3FNUZ
            | DType::Float8E5M2
            | DType::Float8E5M2FNUZ
            | DType::Int8
            | DType::UInt8 => 1,
        }
    }

    pub fn is_float(self) -> (b: bool)
        ensures
            b == self.spec_is_float(),
    {
        self.as_u8() & 0x40 != 0
    }

    pub fn is_integer(self) -> (b: bool)
        ensures
            b == self.spec_is_integer(),
    {
        self.as_u8() & 0x80 != 0
    }

    pub fn is_signed(self) -> (b: bool)
        ensures
            b == self.spec_is_signed(),
    {
        self.is_integer() && self.as_u8() & 0x01 != 0
    }
}

/// The bit facts behind the classification of the dtype codes.
proof fn lemma_code_bits()
    by (bit_vector)
    ensures
        0u8 & 0x40u8 == 0,
        0u8 & 0x80u8 == 0,
        0u8 & 0x1u8 == 0,
        1u8 & 0x40u8 == 0,
        1u8 & 0x80u8 == 0,
        1u8 & 0x1u8 != 0,
        64u8 & 0x40u8 != 0,
        64u8 & 0x80u8 == 0,
        64u8 & 0x1u8 == 0,
        73u8 & 0x40u8 != 0,
        73u8 & 0x80u8 == 0,
        73u8 & 0x1u8 != 0,
        74u8 & 0x40u8 != 0,
        74u8 & 0x80u8 == 0,
        74u8 & 0x1u8 == 0,
        75u8 & 0x40u8 != 0,
        75u8 & 0x80u8 == 0,
        75u8 & 0x1u8 != 0,
        76u8 & 0x40u8 != 0,
        76u8 & 0x80u8 == 0,
        76u8 & 0x1u8 == 0,
        77u8 & 0x40u8 != 0,
        77u8 & 0x80u8 == 0,
        77u8 & 0x1u8 != 0,
        78u8 & 0x40u8 != 0,
        78u8 & 0x80u8 == 0,
        78u8 & 0x1u8 == 0,
        79u8 & 0x40u8 != 0,
        79u8 & 0x80u8 == 0,
        79u8 & 0x1u8 != 0,
        80u8 & 0x40u8 != 0,
        80u8 & 0x80u8 == 0,
        80u8 & 0x1u8 == 0,
        81u8 & 0x40u8 != 0,
        81u8 & 0x80u8 == 0,
        81u8 & 0x1u8 != 0,
        82u8 & 0x40u8 != 0,
        82u8 & 0x80u8 == 0,
        82u8 & 0x1u8 == 0,
        134u8 & 0x40u8 == 0,
        134u8 & 0x80u8 != 0,
        134u8 & 0x1u8 == 0,
        136u8 & 0x40u8 == 0,
        136u8 & 0x80u8 != 0,
        136u8 & 0x1u8 == 0,
        138u8 & 0x40u8 == 0,
        138u8 & 0x80u8 != 0,
        138u8 & 0x1u8 == 0,
        140u8 & 0x40u8 == 0,
        140u8 & 0x80u8 != 0,
        140u8 & 0x1u8 == 0,
        135u8 & 0x40u8 == 0,
        135u8 & 0x80u8 != 0,
        135u8 & 0x1u8 != 0,
        137u8 & 0x40u8 == 0,
        137u8 & 0x80u8 != 0,
        137u8 & 0x1u8 != 0,
        139u8 & 0x40u8 == 0,
        139u8 & 0x80u8 != 0,
        139u8 & 0x1u8 != 0,
        141u8 & 0x40u8 == 0,
        141u8 & 0x80u8 != 0,
        141u8 & 0x1u8 != 0,
{
}

/// The float dtypes are exactly the `Float*` and `BFloat16` variants, the
/// integer dtypes exactly the `Int*` and `UInt*` variants, and the signed
/// dtypes exactly the `Int*` variants; no dtype is both a float and an
/// integer, every signed dtype is an integer, and every element is 1, 2, 4
/// or 8 bytes wide.
pub proof fn lemma_dtype_classes(d: DType)
    ensures
        d.spec_is_float() <==> ({
            ||| d is Float4E2M1FN
            ||| d is Float8E8M0FNU
            ||| d is Float8E3M4
            ||| d is Float8E4M3FN
            ||| d is Float8E4M3FNUZ
            ||| d is Float8E5M2
            ||| d is Float8E5M2FNUZ
            ||| d is Float16
            ||| d is BFloat16
            ||| d is Float32
            ||| d is Float64
        }),
        d.spec_is_integer() <==> ({
            ||| d is UInt8
            ||| d is UInt16
            ||| d is UInt32
            ||| d is UInt64
            ||| d is Int8
            ||| d is Int16
            ||| d is Int32
            ||| d is Int64
        }),
        d.spec_is_signed() <==> ({
            ||| d is Int8
            ||| d is Int16
            ||| d is Int32
            ||| d is Int64
        }),
        !(d.spec_is_float() && d.spec_is_integer()),
        d.spec_is_signed() ==> d.spec_is_integer(),
        d.spec_byte_width() == 1 || d.spec_byte_width() == 2 || d.spec_byte_width() == 4
            || d.spec_byte_width() == 8,
{
    lemma_code_bits();
}

/// The integer codes of the MAX C header are built from the element width:
/// an integer dtype's code is `0x80 | 2 * log2(bits) | signed`, so the code
/// names the bit width `8 * byte_width` as a power of two, and its low bit
/// is the signedness.
pub proof fn lemma_integer_code_layout(d: DType)
    requires
        d.spec_is_integer(),
    ensures
        0x80 <= d.spec_code() <= 0x8f,
        vstd::arithmetic::power2::pow2(((d.spec_code() - 0x80) / 2) as nat) == 8
            * d.spec_byte_width(),
        (d.spec_code() % 2 == 1) <==> d.spec_is_signed(),
        d.spec_code() == 0x80 + 2 * (((d.spec_code() - 0x80) / 2) as int) + (if d.spec_is_signed() {
            1int
        } else {
            0int
        }),
{
    lemma_dtype_classes(d);
    vstd::arithmetic::power2::lemma2_to64();
    lemma_code_bits();
}

/// Element widths follow the bit count in each dtype's name: the 16-bit
/// dtypes take 2 bytes, the 32-bit ones 4, the 64-bit ones 8, and the 8-bit
/// ones, `Bool`, the sub-byte `Float4E2M1FN` and `Unknown` one byte.
pub proof fn lemma_dtype_widths(d: DType)
    ensures
        (d is Int16 || d is UInt16 || d is Float16 || d is BFloat16) ==> d.spec_byte_width() == 2,
        (d is Int32 || d is UInt32 || d is Float32) ==> d.spec_byte_width() == 4,
        (d is Int64 || d is UInt64 || d is Float64) ==> d.spec_byte_width() == 8,
        (d is Int8 || d is UInt8 || d is Bool || d is Unknown || d is Float4E2M1FN || d is Float8E8M0FNU
            || d is Float8E3M4 || d is Float8E4M3FN || d is Float8E4M3FNUZ || d is Float8E5M2
            || d is Float8E5M2FNUZ) ==> d.spec_byte_width() == 1,
{
}

/// Among the float dtypes, a larger code never has a narrower element: the
/// header numbers the float formats from the narrowest to the widest.
pub proof fn lemma_float_codes_order_widths(a: DType, b: DType)
    requires
        a.spec_is_float(),
        b.spec_is_float(),
        a.spec_code() <= b.spec_code(),
    ensures
        a.spec_byte_width() <= b.spec_byte_width(),
{
    lemma_dtype_classes(a);
    lemma_dtype_classes(b);
}

/// The codes that the MAX C header gives the dtypes that are not integers:
/// `Unknown` is 0, `Bool` 1, the sub-byte float 0x40 (the float bit alone),
/// the six 8-bit floats 73 to 78 in the header's order, then `Float16`,
/// `BFloat16`, `Float32` and `Float64` at 79 to 82.
pub proof fn lemma_dtype_header_codes(d: DType)
    ensures
        d is Unknown ==> d.spec_code() == 0,
        d is Bool ==> d.spec_code() == 1,
        d is Float4E2M1FN ==> d.spec_code() == 0x40,
        d is Float8E8M0FNU ==> d.spec_code() == 73,
        d is Float8E3M4 ==> d.spec_code() == 74,
        d is Float8E4M3FN ==> d.spec_code() == 75,
        d is Float8E4M3FNUZ ==> d.spec_code() == 76,
        d is Float8E5M2 ==> d.spec_code() == 77,
        d is Float8E5M2FNUZ ==> d.spec_code() == 78,
        d is Float16 ==> d.spec_code() == 79,
        d is BFloat16 ==> d.spec_code() == 80,
        d is Float32 ==> d.spec_code() == 81,
        d is Float64 ==> d.spec_code() == 82,
{
}

/// Distinct dtypes have distinct codes.
pub proof fn lemma_dtype_code_injective(a: DType, b: DType)
    ensures
        a.spec_code() == b.spec_code() <==> a == b,
{
}

/// The device a tensor lives on.
#[derive(Debug, Clone, Copy, PartialEq, Eq, Hash, Structural)]
pub enum DeviceType {
    Host,
    Accelerator,
}

impl DeviceType {
    /// The `u8` code of the device kind.
    pub open spec fn spec_code(self) -> u8 {
        match self {
            DeviceType::Host => 0,
            DeviceType::Accelerator => 1,
        }
    }

    /// The `u8` code of the device kind (the discriminant of the C enum).
    pub fn as_u8(self) -> (code: u8)
        ensures
            code == self.spec_code(),
    {
        match self {
            DeviceType::Host => 0,
            DeviceType::Accelerator => 1,
        }
    }
}


impl DType {
    /// The name of the dtype, as `Display` writes it.
    pub open spec fn spec_name(self) -> Seq<char> {
        match self {
            DType::Unknown => "Unknown"@,
            DType::Bool => "Bool"@,
            DType::Float4E2M1FN => "Float4E2M1FN"@,
            DType::Float8E8M0FNU => "Float8E8M0FNU"@,
            DType::Float8E3M4 => "Float8E3M4"@,
            DType::Float8E4M3FN => "Float8E4M3FN"@,
            DType::Float8E4M3FNUZ => "Float8E4M3FNUZ"@,
            DType::Float8E5M2 => "Float8E5M2"@,
            DType::Float8E5M2FNUZ => "Float8E5M2FNUZ"@,
            DType::Float16 => "Float16"@,
            DType::BFloat16 => "BFloat16"@,
            DType::Float32 => "Float32"@,
            DType::Float64 => "Float64"@,
            DType::UInt8 => "UInt8"@,
            DType::UInt16 => "UInt16"@,
            DType::UInt32 => "UInt32"@,
            DType::UInt64 => "UInt64"@,
            DType::Int8 => "Int8"@,
            DType::Int16 => "Int16"@,
            DType::Int32 => "Int32"@,
            DType::Int64 => "Int64"@,
        }
    }

    pub(crate) fn name(self) -> (s: &'static str)
        ensures
            s@ == self.spec_name(),
    {
        match self {
            DType::Unknown => "Unknown",
            DType::Bool => "Bool",
            DType::Float4E2M1FN => "Float4E2M1FN",
            DType::Float8E8M0FNU => "Float8E8M0FNU",
            DType::Float8E3M4 => "Float8E3M4",
            DType::Float8E4M3FN => "Float8E4M3FN",
            DType::Float8E4M3FNUZ => "Float8E4M3FNUZ",
            DType::Float8E5M2 => "Float8E5M2",
            DType::Float8E5M2FNUZ => "Float8E5M2FNUZ",
            DType::Float16 => "Float16",
            DType::BFloat16 => "BFloat16",
            DType::Float32 => "Float32",
            DType::Float64 => "Float64",
            DType::UInt8 => "UInt8",
            DType::UInt16 => "UInt16",
            DType::UInt32 => "UInt32",
            DType::UInt64 => "UInt64",
            DType::Int8 => "Int8",
            DType::Int16 => "Int16",
            DType::Int32 => "Int32",
            DType::Int64 => "Int64",
        }
    }

    /// The name of the dtype, as `Float32`.
    pub fn to_string(&self) -> (text: String)
        ensures
            text@ == self.spec_name(),
    {
        let mut out = String::new();
        crate::text::push_str(&mut out, self.name());
        out
    }
}

} // verus!
