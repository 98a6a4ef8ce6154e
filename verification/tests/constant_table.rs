use xenos_recomp::constant_table::{
    Be, BeType, ConstantInfo, ConstantTable, ConstantTableContainer, ParameterClass,
    ParameterType, RegisterSet, StructMemberInfo, TypeInfo,
};

/// The stored image of a big-endian field whose bytes are `bytes`.
fn image16(bytes: [u8; 2]) -> u16 {
    u16::from_ne_bytes(bytes)
}

fn image32(bytes: [u8; 4]) -> u32 {
    u32::from_ne_bytes(bytes)
}

#[test]
fn be_u16_reads_big_endian_bytes() {
    assert_eq!(Be::<u16>(image16([0x12, 0x34])).get(), 0x1234);
    assert_eq!(Be::<u16>(image16([0x00, 0x01])).get(), 1);
}

#[test]
fn be_u32_reads_big_endian_bytes() {
    assert_eq!(Be::<u32>(image32([0x12, 0x34, 0x56, 0x78])).get(), 0x12345678);
    assert_eq!(Be::<u32>(image32([0, 0, 0, 60])).get(), 60);
}

#[test]
fn u16_and_u32_encode_to_their_big_endian_image() {
    assert_eq!(<u16 as BeType>::to_be(0x1234).to_ne_bytes(), [0x12, 0x34]);
    assert_eq!(<u32 as BeType>::to_be(0x12345678).to_ne_bytes(), [0x12, 0x34, 0x56, 0x78]);
    assert_eq!(<u16 as BeType>::from_be(<u16 as BeType>::to_be(0xBEEF)), 0xBEEF);
    assert_eq!(<u32 as BeType>::from_be(<u32 as BeType>::to_be(0xDEADBEEF)), 0xDEADBEEF);
}

#[test]
fn enums_decode_from_their_position() {
    assert_eq!(Be::<ParameterClass>(image16([0, 1])).get(), ParameterClass::Vector);
    assert_eq!(Be::<ParameterClass>(image16([0, 5])).get(), ParameterClass::Struct);
    assert_eq!(Be::<ParameterType>(image16([0, 3])).get(), ParameterType::Float);
    assert_eq!(Be::<ParameterType>(image16([0, 12])).get(), ParameterType::Sampler2D);
    assert_eq!(Be::<RegisterSet>(image16([0, 2])).get(), RegisterSet::Float4);
    assert_eq!(Be::<RegisterSet>(image16([0, 0])).get(), RegisterSet::Bool);
}

#[test]
fn unknown_enum_codes_decode_to_the_last_variant() {
    assert_eq!(Be::<ParameterClass>(image16([0, 6])).get(), ParameterClass::Struct);
    assert_eq!(Be::<ParameterType>(image16([0x01, 0x00])).get(), ParameterType::Unsupported);
    assert_eq!(Be::<RegisterSet>(image16([0xFF, 0xFF])).get(), RegisterSet::Sampler);
}

#[test]
fn enums_round_trip_through_their_image() {
    let classes = [
        ParameterClass::Scalar,
        ParameterClass::Vector,
        ParameterClass::MatrixRows,
        ParameterClass::MatrixColumns,
        ParameterClass::Object,
        ParameterClass::Struct,
    ];
    for (i, c) in classes.iter().enumerate() {
        assert_eq!(c.to_be().to_ne_bytes(), [0, i as u8]);
        assert_eq!(ParameterClass::from_be(c.to_be()), *c);
    }
    let sets = [RegisterSet::Bool, RegisterSet::Int4, RegisterSet::Float4, RegisterSet::Sampler];
    for (i, r) in sets.iter().enumerate() {
        assert_eq!(r.to_be().to_ne_bytes(), [0, i as u8]);
        assert_eq!(Be::<RegisterSet>(r.to_be()).get(), *r);
    }
    assert_eq!(ParameterType::Unsupported.to_be().to_ne_bytes(), [0, 19]);
    assert_eq!(ParameterType::from_be(ParameterType::VertexFragment.to_be()), ParameterType::VertexFragment);
}

#[test]
fn table_records_hold_their_fields() {
    let info = TypeInfo {
        parameter_class: Be(image16([0, 1])),
        parameter_type: Be(image16([0, 3])),
        rows: Be(image16([0, 1])),
        columns: Be(image16([0, 4])),
        elements: Be(image16([0, 1])),
        struct_members: Be(image16([0, 0])),
        struct_member_info: Be(image32([0, 0, 0, 0])),
    };
    assert_eq!(info.parameter_class.get(), ParameterClass::Vector);
    assert_eq!(info.parameter_type.get(), ParameterType::Float);
    assert_eq!(info.columns.get(), 4);

    let constant = ConstantInfo {
        name: Be(image32([0, 0, 1, 0])),
        register_set: Be(image16([0, 2])),
        register_index: Be(image16([0, 7])),
        register_count: Be(image16([0, 4])),
        reserved: Be(image16([0, 0])),
        type_info: Be(image32([0, 0, 0, 0x40])),
        default_value: Be(image32([0, 0, 0, 0])),
    };
    assert_eq!(constant.name.get(), 0x100);
    assert_eq!(constant.register_set.get(), RegisterSet::Float4);
    assert_eq!(constant.register_index.get(), 7);
    assert_eq!(constant.type_info.get(), 0x40);

    let member = StructMemberInfo { name: Be(image32([0, 0, 0, 8])), type_info: Be(image32([0, 0, 0, 16])) };
    assert_eq!(member.name.get(), 8);
    assert_eq!(member.type_info.get(), 16);

    let table = ConstantTable {
        size: Be(image32([0, 0, 0, 28])),
        creator: Be(image32([0, 0, 0, 0])),
        version: Be(image32([0xFF, 0xFE, 0x03, 0x00])),
        constants: Be(image32([0, 0, 0, 2])),
        constant_info: Be(image32([0, 0, 0, 28])),
        flags: Be(image32([0, 0, 0, 0])),
        target: Be(image32([0, 0, 0, 0])),
    };
    let container = ConstantTableContainer { size: Be(image32([0, 0, 0, 32])), constant_table: table };
    assert_eq!(container.size.get(), 32);
    assert_eq!(container.constant_table.version.get(), 0xFFFE0300);
    assert_eq!(container.constant_table.constants.get(), 2);
}
