use netfw::variant_type::{
    VT_ARRAY, VT_BSTR, VT_DISPATCH, VT_EMPTY, VT_NULL, VT_VARIANT, VT_VARIANT_ARRAY,
};
use netfw::VariantType;

#[test]
fn named_tags_decode_to_their_variants() {
    assert_eq!(VariantType::from(0u16), VariantType::Empty);
    assert_eq!(VariantType::from(1u16), VariantType::Null);
    assert_eq!(VariantType::from(8u16), VariantType::BStr);
    assert_eq!(VariantType::from(9u16), VariantType::Dispatch);
    assert_eq!(VariantType::from(12u16), VariantType::Variant);
    assert_eq!(VariantType::from(0x200Cu16), VariantType::VariantArray);
    assert_eq!(VT_VARIANT_ARRAY, VT_ARRAY | VT_VARIANT);
}

#[test]
fn variants_encode_to_their_raw_tags() {
    assert_eq!(u16::from(VariantType::Empty), VT_EMPTY);
    assert_eq!(u16::from(VariantType::Null), VT_NULL);
    assert_eq!(u16::from(VariantType::BStr), VT_BSTR);
    assert_eq!(u16::from(VariantType::Dispatch), VT_DISPATCH);
    assert_eq!(u16::from(VariantType::Variant), VT_VARIANT);
    assert_eq!(u16::from(VariantType::VariantArray), 0x200C);
    assert_eq!(u16::from(VariantType::Unknown(0x1234)), 0x1234);
    let raw: u16 = VariantType::Dispatch.into();
    assert_eq!(raw, 9);
}

#[test]
fn unnamed_tags_are_kept_as_they_are() {
    assert_eq!(VariantType::from(3u16), VariantType::Unknown(3));
    assert_eq!(VariantType::from(0x2008u16), VariantType::Unknown(0x2008));
    assert_eq!(VariantType::from(0xFFFFu16), VariantType::Unknown(0xFFFF));
}

#[test]
fn every_raw_tag_survives_decoding_and_encoding() {
    let mut raw: u32 = 0;
    while raw <= 0xFFFF {
        let tag = raw as u16;
        let decoded = VariantType::from(tag);
        assert_eq!(u16::from(decoded), tag);
        assert_eq!(VariantType::from(u16::from(decoded)), decoded);
        assert_eq!(decoded.is_array(), tag & VT_ARRAY != 0);
        raw += 1;
    }
}

#[test]
fn array_bit_decides_is_array() {
    assert!(VariantType::VariantArray.is_array());
    assert!(VariantType::Unknown(0x2008).is_array());
    assert!(VariantType::Unknown(0x2000).is_array());
    assert!(!VariantType::Variant.is_array());
    assert!(!VariantType::Empty.is_array());
    assert!(!VariantType::BStr.is_array());
    assert!(!VariantType::Unknown(0x1FFF).is_array());
}

#[test]
fn array_type_takes_the_array_bit_off() {
    assert_eq!(VariantType::VariantArray.array_type(), Some(VariantType::Variant));
    assert_eq!(VariantType::Unknown(0x2008).array_type(), Some(VariantType::BStr));
    assert_eq!(VariantType::Unknown(0x2009).array_type(), Some(VariantType::Dispatch));
    assert_eq!(VariantType::Unknown(0x2000).array_type(), Some(VariantType::Empty));
    assert_eq!(VariantType::Unknown(0x2003).array_type(), Some(VariantType::Unknown(3)));
    assert_eq!(VariantType::Variant.array_type(), None);
    assert_eq!(VariantType::Empty.array_type(), None);
    assert_eq!(VariantType::Unknown(3).array_type(), None);
}

#[test]
fn element_tag_with_the_array_bit_is_the_array_tag() {
    let mut raw: u32 = 0;
    while raw <= 0xFFFF {
        let tag = raw as u16;
        let t = VariantType::from(tag);
        match t.array_type() {
            Some(element) => {
                assert!(tag & VT_ARRAY != 0);
                assert_eq!(u16::from(element) | VT_ARRAY, tag);
                assert_eq!(u16::from(element) & VT_ARRAY, 0);
            }
            None => assert_eq!(tag & VT_ARRAY, 0),
        }
        raw += 1;
    }
}

#[test]
fn unknown_over_a_named_tag_decodes_to_the_named_variant() {
    let odd = VariantType::Unknown(0x200C);
    assert!(odd.is_array());
    assert_eq!(VariantType::from(u16::from(odd)), VariantType::VariantArray);
}
