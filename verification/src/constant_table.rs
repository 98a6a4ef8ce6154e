//! The big-endian constant table that a shader container carries.
//!
//! Every multi-byte field of the table is stored big-endian. A `Be<T>` holds
//! such a field exactly as it lies in memory, read as a host integer; `get`
//! turns it into the value it stands for. What the stored image means depends
//! on the byte order of the host: on a big-endian host it is the value, on a
//! little-endian host its bytes are reversed. The contracts below therefore
//! name the host order as a `bool` (`little`, true on a little-endian host)
//! and promise the result for one of the two orders.

use vstd::prelude::*;

verus! {

/// `x` with its two bytes exchanged.
pub open spec fn swap16(x: u16) -> u16 {
    ((x % 0x100) * 0x100 + x / 0x100) as u16
}

/// `x` with its four bytes in reverse order.
pub open spec fn swap32(x: u32) -> u32 {
    ((x % 0x100) * 0x1000000 + ((x / 0x100) % 0x100) * 0x10000 + ((x / 0x10000) % 0x100) * 0x100
        + x / 0x1000000) as u32
}

/// Exchanging the bytes of a 16-bit value twice gives the value back.
pub proof fn lemma_swap16_involutive(x: u16)
    ensures
        swap16(swap16(x)) == x,
{
    assert(((((x % 0x100) * 0x100 + x / 0x100) as u16 % 0x100) * 0x100 + ((x % 0x100) * 0x100 + x
        / 0x100) as u16 / 0x100) as u16 == x) by (bit_vector);
}

/// Reversing the bytes of a 32-bit value twice gives the value back.
pub proof fn lemma_swap32_involutive(x: u32)
    ensures
        swap32(swap32(x)) == x,
{
    let y = swap32(x);
    assert(y == ((x % 0x100) * 0x1000000 + ((x / 0x100) % 0x100) * 0x10000 + ((x / 0x10000)
        % 0x100) * 0x100 + x / 0x1000000) as u32);
    assert(y == ((x % 0x100) * 0x1000000 + ((x / 0x100) % 0x100) * 0x10000 + ((x / 0x10000)
        % 0x100) * 0x100 + x / 0x1000000) as u32 ==> ((y % 0x100) * 0x1000000 + ((y / 0x100)
        % 0x100) * 0x10000 + ((y / 0x10000) % 0x100) * 0x100 + y / 0x1000000) as u32 == x)
        by (bit_vector);
}

/// The value a 16-bit big-endian image stands for on a host of the given byte order.
pub open spec fn u16_from_be_image(value: u16, little: bool) -> u16 {
    if little {
        swap16(value)
    } else {
        value
    }
}

/// The value a 32-bit big-endian image stands for on a host of the given byte order.
pub open spec fn u32_from_be_image(value: u32, little: bool) -> u32 {
    if little {
        swap32(value)
    } else {
        value
    }
}

/// `u16::from_be`: the std documentation says it is a no-op on a big-endian
/// target and swaps the bytes on a little-endian one; the contract says that
/// the result is one of the two.
#[verifier::external_body]
fn u16_from_be(x: u16) -> (r: u16)
    ensures
        r == x || r == swap16(x),
{
    u16::from_be(x)
}

/// `u16::to_be`: the std documentation says it is a no-op on a big-endian
/// target and swaps the bytes on a little-endian one; the contract says that
/// the result is one of the two.
#[verifier::external_body]
fn u16_to_be(x: u16) -> (r: u16)
    ensures
        r == x || r == swap16(x),
{
    x.to_be()
}

/// `u32::from_be`: the std documentation says it is a no-op on a big-endian
/// target and swaps the bytes on a little-endian one; the contract says that
/// the result is one of the two.
#[verifier::external_body]
fn u32_from_be(x: u32) -> (r: u32)
    ensures
        r == x || r == swap32(x),
{
    u32::from_be(x)
}

/// `u32::to_be`: the std documentation says it is a no-op on a big-endian
/// target and swaps the bytes on a little-endian one; the contract says that
/// the result is one of the two.
#[verifier::external_body]
fn u32_to_be(x: u32) -> (r: u32)
    ensures
        r == x || r == swap32(x),
{
    x.to_be()
}

/// A type that a big-endian field of the constant table decodes to.
pub trait BeType: Copy + Sized {
    /// The host integer type that holds the stored image.
    type Repr: Copy;

    /// The value that the image `value` stands for on a host of the given byte order.
    spec fn be_decode(value: Self::Repr, little: bool) -> Self;

    /// The image that stores `self` on a host of the given byte order.
    spec fn be_encode(self, little: bool) -> Self::Repr;

    /// Decodes a stored image on this host.
    fn from_be(value: Self::Repr) -> (r: Self)
        ensures
            r == Self::be_decode(value, false) || r == Self::be_decode(value, true),
    ;

    /// Encodes a value as its stored image on this host.
    fn to_be(self) -> (r: Self::Repr)
        ensures
            r == self.be_encode(false) || r == self.be_encode(true),
    ;

    /// On either byte order, decoding the image of a value gives the value.
    proof fn lemma_decode_encode(v: Self, little: bool)
        ensures
            Self::be_decode(v.be_encode(little), little) == v,
    ;
}

impl BeType for u16 {
    type Repr = u16;

    open spec fn be_decode(value: u16, little: bool) -> u16 {
        u16_from_be_image(value, little)
    }

    open spec fn be_encode(self, little: bool) -> u16 {
        u16_from_be_image(self, little)
    }

    fn from_be(value: u16) -> (r: u16) {
        u16_from_be(value)
    }

    fn to_be(self) -> (r: u16) {
        u16_to_be(self)
    }

    proof fn lemma_decode_encode(v: u16, little: bool) {
        lemma_swap16_involutive(v);
    }
}

impl BeType for u32 {
    type Repr = u32;

    open spec fn be_decode(value: u32, little: bool) -> u32 {
        u32_from_be_image(value, little)
    }

    open spec fn be_encode(self, little: bool) -> u32 {
        u32_from_be_image(self, little)
    }

    fn from_be(value: u32) -> (r: u32) {
        u32_from_be(value)
    }

    fn to_be(self) -> (r: u32) {
        u32_to_be(self)
    }

    proof fn lemma_decode_encode(v: u32, little: bool) {
        lemma_swap32_involutive(v);
    }
}

/// A big-endian field, held as its stored image.
#[derive(Clone, Copy, Debug, PartialEq, Eq)]
pub struct Be<T: BeType>(pub T::Repr);

impl<T: BeType> Be<T> {
    /// The value the field stands for on this host.
    pub fn get(self) -> (r: T)
        ensures
            r == T::be_decode(self.0, false) || r == T::be_decode(self.0, true),
    {
        T::from_be(self.0)
    }
}

/// How a constant's data is shaped.
#[derive(Clone, Copy, Debug, PartialEq, Eq, Structural)]
pub enum ParameterClass {
    Scalar,
    Vector,
    MatrixRows,
    MatrixColumns,
    Object,
    Struct,
}

impl ParameterClass {
    /// The number that stands for `self` in a table: its position in the declaration.
    pub open spec fn code_of(self) -> u16 {
        match self {
            ParameterClass::Scalar => 0,
            ParameterClass::Vector => 1,
            ParameterClass::MatrixRows => 2,
            ParameterClass::MatrixColumns => 3,
            ParameterClass::Object => 4,
            ParameterClass::Struct => 5,
        }
    }

    /// The variant that the number `n` stands for; a number past the last
    /// variant, which no well-formed table holds, stands for the last one.
    pub open spec fn of_code(n: u16) -> ParameterClass {
        if n == 0 {
            ParameterClass::Scalar
        } else if n == 1 {
            ParameterClass::Vector
        } else if n == 2 {
            ParameterClass::MatrixRows
        } else if n == 3 {
            ParameterClass::MatrixColumns
        } else if n == 4 {
            ParameterClass::Object
        } else {
            ParameterClass::Struct
        }
    }

    fn code(self) -> (r: u16)
        ensures
            r == self.code_of(),
    {
        match self {
            ParameterClass::Scalar => 0,
            ParameterClass::Vector => 1,
            ParameterClass::MatrixRows => 2,
            ParameterClass::MatrixColumns => 3,
            ParameterClass::Object => 4,
            ParameterClass::Struct => 5,
        }
    }

    fn from_code(n: u16) -> (r: ParameterClass)
        ensures
            r == ParameterClass::of_code(n),
    {
        if n == 0 {
            ParameterClass::Scalar
        } else if n == 1 {
            ParameterClass::Vector
        } else if n == 2 {
            ParameterClass::MatrixRows
        } else if n == 3 {
            ParameterClass::MatrixColumns
        } else if n == 4 {
            ParameterClass::Object
        } else {
            ParameterClass::Struct
        }
    }
}

impl BeType for ParameterClass {
    type Repr = u16;

    open spec fn be_decode(value: u16, little: bool) -> ParameterClass {
        ParameterClass::of_code(u16_from_be_image(value, little))
    }

    open spec fn be_encode(self, little: bool) -> u16 {
        u16_from_be_image(self.code_of(), little)
    }

    fn from_be(value: u16) -> (r: ParameterClass) {
        ParameterClass::from_code(u16_from_be(value))
    }

    fn to_be(self) -> (r: u16) {
        u16_to_be(self.code())
    }

    proof fn lemma_decode_encode(v: ParameterClass, little: bool) {
        lemma_swap16_involutive(v.code_of());
    }
}

/// The element type of a constant.
#[derive(Clone, Copy, Debug, PartialEq, Eq, Structural)]
pub enum ParameterType {
    Void,
    Bool,
    Int,
    Float,
    String,
    Texture,
    Texture1D,
    Texture2D,
    Texture3D,
    TextureCube,
    Sampler,
    Sampler1D,
    Sampler2D,
    Sampler3D,
    SamplerCube,
    PixelShader,
    VertexShader,
    PixelFragment,
    VertexFragment,
    Unsupported,
}

impl ParameterType {
    /// The number that stands for `self` in a table: its position in the declaration.
    pub open spec fn code_of(self) -> u16 {
        match self {
            ParameterType::Void => 0,
            ParameterType::Bool => 1,
            ParameterType::Int => 2,
            ParameterType::Float => 3,
            ParameterType::String => 4,
            ParameterType::Texture => 5,
            ParameterType::Texture1D => 6,
            ParameterType::Texture2D => 7,
            ParameterType::Texture3D => 8,
            ParameterType::TextureCube => 9,
            ParameterType::Sampler => 10,
            ParameterType::Sampler1D => 11,
            ParameterType::Sampler2D => 12,
            ParameterType::Sampler3D => 13,
            ParameterType::SamplerCube => 14,
            ParameterType::PixelShader => 15,
            ParameterType::VertexShader => 16,
            ParameterType::PixelFragment => 17,
            ParameterType::VertexFragment => 18,
            ParameterType::Unsupported => 19,
        }
    }

    /// The variant that the number `n` stands for; a number past the last
    /// variant, which no well-formed table holds, stands for the last one.
    pub open spec fn of_code(n: u16) -> ParameterType {
        if n == 0 {
            ParameterType::Void
        } else if n == 1 {
            ParameterType::Bool
        } else if n == 2 {
            ParameterType::Int
        } else if n == 3 {
            ParameterType::Float
        } else if n == 4 {
            ParameterType::String
        } else if n == 5 {
            ParameterType::Texture
        } else if n == 6 {
            ParameterType::Texture1D
        } else if n == 7 {
            ParameterType::Texture2D
        } else if n == 8 {
            ParameterType::Texture3D
        } else if n == 9 {
            ParameterType::TextureCube
        } else if n == 10 {
            ParameterType::Sampler
        } else if n == 11 {
            ParameterType::Sampler1D
        } else if n == 12 {
            ParameterType::Sampler2D
        } else if n == 13 {
            ParameterType::Sampler3D
        } else if n == 14 {
            ParameterType::SamplerCube
        } else if n == 15 {
            ParameterType::PixelShader
        } else if n == 16 {
            ParameterType::VertexShader
        } else if n == 17 {
            ParameterType::PixelFragment
        } else if n == 18 {
            ParameterType::VertexFragment
        } else {
            ParameterType::Unsupported
        }
    }

    fn code(self) -> (r: u16)
        ensures
            r == self.code_of(),
    {
        match self {
            ParameterType::Void => 0,
            ParameterType::Bool => 1,
            ParameterType::Int => 2,
            ParameterType::Float => 3,
            ParameterType::String => 4,
            ParameterType::Texture => 5,
            ParameterType::Texture1D => 6,
            ParameterType::Texture2D => 7,
            ParameterType::Texture3D => 8,
            ParameterType::TextureCube => 9,
            ParameterType::Sampler => 10,
            ParameterType::Sampler1D => 11,
            ParameterType::Sampler2D => 12,
            ParameterType::Sampler3D => 13,
            ParameterType::SamplerCube => 14,
            ParameterType::PixelShader => 15,
            ParameterType::VertexShader => 16,
            ParameterType::PixelFragment => 17,
            ParameterType::VertexFragment => 18,
            ParameterType::Unsupported => 19,
        }
    }

    fn from_code(n: u16) -> (r: ParameterType)
        ensures
            r == ParameterType::of_code(n),
    {
        if n == 0 {
            ParameterType::Void
        } else if n == 1 {
            ParameterType::Bool
        } else if n == 2 {
            ParameterType::Int
        } else if n == 3 {
            ParameterType::Float
        } else if n == 4 {
            ParameterType::String
        } else if n == 5 {
            ParameterType::Texture
        } else if n == 6 {
            ParameterType::Texture1D
        } else if n == 7 {
            ParameterType::Texture2D
        } else if n == 8 {
            ParameterType::Texture3D
        } else if n == 9 {
            ParameterType::TextureCube
        } else if n == 10 {
            ParameterType::Sampler
        } else if n == 11 {
            ParameterType::Sampler1D
        } else if n == 12 {
            ParameterType::Sampler2D
        } else if n == 13 {
            ParameterType::Sampler3D
        } else if n == 14 {
            ParameterType::SamplerCube
        } else if n == 15 {
            ParameterType::PixelShader
        } else if n == 16 {
            ParameterType::VertexShader
        } else if n == 17 {
            ParameterType::PixelFragment
        } else if n == 18 {
            ParameterType::VertexFragment
        } else {
            ParameterType::Unsupported
        }
    }
}

impl BeType for ParameterType {
    type Repr = u16;

    open spec fn be_decode(value: u16, little: bool) -> ParameterType {
        ParameterType::of_code(u16_from_be_image(value, little))
    }

    open spec fn be_encode(self, little: bool) -> u16 {
        u16_from_be_image(self.code_of(), little)
    }

    fn from_be(value: u16) -> (r: ParameterType) {
        ParameterType::from_code(u16_from_be(value))
    }

    fn to_be(self) -> (r: u16) {
        u16_to_be(self.code())
    }

    proof fn lemma_decode_encode(v: ParameterType, little: bool) {
        lemma_swap16_involutive(v.code_of());
    }
}

/// The register file a constant lives in.
#[derive(Clone, Copy, Debug, PartialEq, Eq, Structural)]
pub enum RegisterSet {
    Bool,
    Int4,
    Float4,
    Sampler,
}

impl RegisterSet {
    /// The number that stands for `self` in a table: its position in the declaration.
    pub open spec fn code_of(self) -> u16 {
        match self {
            RegisterSet::Bool => 0,
            RegisterSet::Int4 => 1,
            RegisterSet::Float4 => 2,
            RegisterSet::Sampler => 3,
        }
    }

    /// The variant that the number `n` stands for; a number past the last
    /// variant, which no well-formed table holds, stands for the last one.
    pub open spec fn of_code(n: u16) -> RegisterSet {
        if n == 0 {
            RegisterSet::Bool
        } else if n == 1 {
            RegisterSet::Int4
        } else if n == 2 {
            RegisterSet::Float4
        } else {
            RegisterSet::Sampler
        }
    }

    fn code(self) -> (r: u16)
        ensures
            r == self.code_of(),
    {
        match self {
            RegisterSet::Bool => 0,
            RegisterSet::Int4 => 1,
            RegisterSet::Float4 => 2,
            RegisterSet::Sampler => 3,
        }
    }

    fn from_code(n: u16) -> (r: RegisterSet)
        ensures
            r == RegisterSet::of_code(n),
    {
        if n == 0 {
            RegisterSet::Bool
        } else if n == 1 {
            RegisterSet::Int4
        } else if n == 2 {
            RegisterSet::Float4
        } else {
            RegisterSet::Sampler
        }
    }
}

impl BeType for RegisterSet {
    type Repr = u16;

    open spec fn be_decode(value: u16, little: bool) -> RegisterSet {
        RegisterSet::of_code(u16_from_be_image(value, little))
    }

    open spec fn be_encode(self, little: bool) -> u16 {
        u16_from_be_image(self.code_of(), little)
    }

    fn from_be(value: u16) -> (r: RegisterSet) {
        RegisterSet::from_code(u16_from_be(value))
    }

    fn to_be(self) -> (r: u16) {
        u16_to_be(self.code())
    }

    proof fn lemma_decode_encode(v: RegisterSet, little: bool) {
        lemma_swap16_involutive(v.code_of());
    }
}

/// One member of a struct-typed constant: offsets of its name and type.
#[derive(Clone, Copy, Debug, PartialEq, Eq)]
pub struct StructMemberInfo {
    pub name: Be<u32>,
    pub type_info: Be<u32>,
}

/// The type record of a constant.
#[derive(Clone, Copy, Debug, PartialEq, Eq)]
pub struct TypeInfo {
    pub parameter_class: Be<ParameterClass>,
    pub parameter_type: Be<ParameterType>,
    pub rows: Be<u16>,
    pub columns: Be<u16>,
    pub elements: Be<u16>,
    pub struct_members: Be<u16>,
    pub struct_member_info: Be<u32>,
}

/// One constant of the table.
#[derive(Clone, Copy, Debug, PartialEq, Eq)]
pub struct ConstantInfo {
    pub name: Be<u32>,
    pub register_set: Be<RegisterSet>,
    pub register_index: Be<u16>,
    pub register_count: Be<u16>,
    pub reserved: Be<u16>,
    pub type_info: Be<u32>,
    pub default_value: Be<u32>,
}

/// The header of a constant table.
#[derive(Clone, Copy, Debug, PartialEq, Eq)]
pub struct ConstantTable {
    pub size: Be<u32>,
    pub creator: Be<u32>,
    pub version: Be<u32>,
    pub constants: Be<u32>,
    pub constant_info: Be<u32>,
    pub flags: Be<u32>,
    pub target: Be<u32>,
}

/// A constant table preceded by its size.
#[derive(Clone, Copy, Debug, PartialEq, Eq)]
pub struct ConstantTableContainer {
    pub size: Be<u32>,
    pub constant_table: ConstantTable,
}

/// The stored code of each `ParameterClass` is its position in the declaration
/// (Scalar = 0, Vector = 1, MatrixRows = 2, MatrixColumns = 3, Object = 4, Struct = 5):
/// on either byte order, the image of code `i` decodes to the `i`-th
/// variant and each variant encodes to the image of its position; codes
/// from 6 up decode to `Struct`.
pub proof fn lemma_parameter_class_codes(little: bool, n: u16)
    ensures
        ParameterClass::be_decode(u16_from_be_image(0, little), little) == ParameterClass::Scalar,
        ParameterClass::Scalar.be_encode(little) == u16_from_be_image(0, little),
        ParameterClass::be_decode(u16_from_be_image(1, little), little) == ParameterClass::Vector,
        ParameterClass::Vector.be_encode(little) == u16_from_be_image(1, little),
        ParameterClass::be_decode(u16_from_be_image(2, little), little) == ParameterClass::MatrixRows,
        ParameterClass::MatrixRows.be_encode(little) == u16_from_be_image(2, little),
        ParameterClass::be_decode(u16_from_be_image(3, little), little) == ParameterClass::MatrixColumns,
        ParameterClass::MatrixColumns.be_encode(little) == u16_from_be_image(3, little),
        ParameterClass::be_decode(u16_from_be_image(4, little), little) == ParameterClass::Object,
        ParameterClass::Object.be_encode(little) == u16_from_be_image(4, little),
        ParameterClass::be_decode(u16_from_be_image(5, little), little) == ParameterClass::Struct,
        ParameterClass::Struct.be_encode(little) == u16_from_be_image(5, little),
        n >= 6 ==> ParameterClass::be_decode(u16_from_be_image(n, little), little) == ParameterClass::Struct,
{
    lemma_swap16_involutive(n);
    lemma_swap16_involutive(0);
    lemma_swap16_involutive(1);
    lemma_swap16_involutive(2);
    lemma_swap16_involutive(3);
    lemma_swap16_involutive(4);
    lemma_swap16_involutive(5);
}

/// The stored code of each `ParameterType` is its position in the declaration
/// (Void = 0, Bool = 1, Int = 2, Float = 3, String = 4, Texture = 5, Texture1D = 6, Texture2D = 7, Texture3D = 8, TextureCube = 9, Sampler = 10, Sampler1D = 11, Sampler2D = 12, Sampler3D = 13, SamplerCube = 14, PixelShader = 15, VertexShader = 16, PixelFragment = 17, VertexFragment = 18, Unsupported = 19):
/// on either byte order, the image of code `i` decodes to the `i`-th
/// variant and each variant encodes to the image of its position; codes
/// from 20 up decode to `Unsupported`.
pub proof fn lemma_parameter_type_codes(little: bool, n: u16)
    ensures
        ParameterType::be_decode(u16_from_be_image(0, little), little) == ParameterType::Void,
        ParameterType::Void.be_encode(little) == u16_from_be_image(0, little),
        ParameterType::be_decode(u16_from_be_image(1, little), little) == ParameterType::Bool,
        ParameterType::Bool.be_encode(little) == u16_from_be_image(1, little),
        ParameterType::be_decode(u16_from_be_image(2, little), little) == ParameterType::Int,
        ParameterType::Int.be_encode(little) == u16_from_be_image(2, little),
        ParameterType::be_decode(u16_from_be_image(3, little), little) == ParameterType::Float,
        ParameterType::Float.be_encode(little) == u16_from_be_image(3, little),
        ParameterType::be_decode(u16_from_be_image(4, little), little) == ParameterType::String,
        ParameterType::String.be_encode(little) == u16_from_be_image(4, little),
        ParameterType::be_decode(u16_from_be_image(5, little), little) == ParameterType::Texture,
        ParameterType::Texture.be_encode(little) == u16_from_be_image(5, little),
        ParameterType::be_decode(u16_from_be_image(6, little), little) == ParameterType::Texture1D,
        ParameterType::Texture1D.be_encode(little) == u16_from_be_image(6, little),
        ParameterType::be_decode(u16_from_be_image(7, little), little) == ParameterType::Texture2D,
        ParameterType::Texture2D.be_encode(little) == u16_from_be_image(7, little),
        ParameterType::be_decode(u16_from_be_image(8, little), little) == ParameterType::Texture3D,
        ParameterType::Texture3D.be_encode(little) == u16_from_be_image(8, little),
        ParameterType::be_decode(u16_from_be_image(9, little), little) == ParameterType::TextureCube,
        ParameterType::TextureCube.be_encode(little) == u16_from_be_image(9, little),
        ParameterType::be_decode(u16_from_be_image(10, little), little) == ParameterType::Sampler,
        ParameterType::Sampler.be_encode(little) == u16_from_be_image(10, little),
        ParameterType::be_decode(u16_from_be_image(11, little), little) == ParameterType::Sampler1D,
        ParameterType::Sampler1D.be_encode(little) == u16_from_be_image(11, little),
        ParameterType::be_decode(u16_from_be_image(12, little), little) == ParameterType::Sampler2D,
        ParameterType::Sampler2D.be_encode(little) == u16_from_be_image(12, little),
        ParameterType::be_decode(u16_from_be_image(13, little), little) == ParameterType::Sampler3D,
        ParameterType::Sampler3D.be_encode(little) == u16_from_be_image(13, little),
        ParameterType::be_decode(u16_from_be_image(14, little), little) == ParameterType::SamplerCube,
        ParameterType::SamplerCube.be_encode(little) == u16_from_be_image(14, little),
        ParameterType::be_decode(u16_from_be_image(15, little), little) == ParameterType::PixelShader,
        ParameterType::PixelShader.be_encode(little) == u16_from_be_image(15, little),
        ParameterType::be_decode(u16_from_be_image(16, little), little) == ParameterType::VertexShader,
        ParameterType::VertexShader.be_encode(little) == u16_from_be_image(16, little),
        ParameterType::be_decode(u16_from_be_image(17, little), little) == ParameterType::PixelFragment,
        ParameterType::PixelFragment.be_encode(little) == u16_from_be_image(17, little),
        ParameterType::be_decode(u16_from_be_image(18, little), little) == ParameterType::VertexFragment,
        ParameterType::VertexFragment.be_encode(little) == u16_from_be_image(18, little),
        ParameterType::be_decode(u16_from_be_image(19, little), little) == ParameterType::Unsupported,
        ParameterType::Unsupported.be_encode(little) == u16_from_be_image(19, little),
        n >= 20 ==> ParameterType::be_decode(u16_from_be_image(n, little), little) == ParameterType::Unsupported,
{
    lemma_swap16_involutive(n);
    lemma_swap16_involutive(0);
    lemma_swap16_involutive(1);
    lemma_swap16_involutive(2);
    lemma_swap16_involutive(3);
    lemma_swap16_involutive(4);
    lemma_swap16_involutive(5);
    lemma_swap16_involutive(6);
    lemma_swap16_involutive(7);
    lemma_swap16_involutive(8);
    lemma_swap16_involutive(9);
    lemma_swap16_involutive(10);
    lemma_swap16_involutive(11);
    lemma_swap16_involutive(12);
    lemma_swap16_involutive(13);
    lemma_swap16_involutive(14);
    lemma_swap16_involutive(15);
    lemma_swap16_involutive(16);
    lemma_swap16_involutive(17);
    lemma_swap16_involutive(18);
    lemma_swap16_involutive(19);
}

/// The stored code of each `RegisterSet` is its position in the declaration
/// (Bool = 0, Int4 = 1, Float4 = 2, Sampler = 3):
/// on either byte order, the image of code `i` decodes to the `i`-th
/// variant and each variant encodes to the image of its position; codes
/// from 4 up decode to `Sampler`.
pub proof fn lemma_register_set_codes(little: bool, n: u16)
    ensures
        RegisterSet::be_decode(u16_from_be_image(0, little), little) == RegisterSet::Bool,
        RegisterSet::Bool.be_encode(little) == u16_from_be_image(0, little),
        RegisterSet::be_decode(u16_from_be_image(1, little), little) == RegisterSet::Int4,
        RegisterSet::Int4.be_encode(little) == u16_from_be_image(1, little),
        RegisterSet::be_decode(u16_from_be_image(2, little), little) == RegisterSet::Float4,
        RegisterSet::Float4.be_encode(little) == u16_from_be_image(2, little),
        RegisterSet::be_decode(u16_from_be_image(3, little), little) == RegisterSet::Sampler,
        RegisterSet::Sampler.be_encode(little) == u16_from_be_image(3, little),
        n >= 4 ==> RegisterSet::be_decode(u16_from_be_image(n, little), little) == RegisterSet::Sampler,
{
    lemma_swap16_involutive(n);
    lemma_swap16_involutive(0);
    lemma_swap16_involutive(1);
    lemma_swap16_involutive(2);
    lemma_swap16_involutive(3);
}

/// On either byte order, a field that holds the image of `v` stands for `v`.
pub proof fn lemma_be_decode_encode<T: BeType>(v: T, little: bool)
    ensures
        T::be_decode(v.be_encode(little), little) == v,
{
    T::lemma_decode_encode(v, little);
}

} // verus!
