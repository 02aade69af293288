use dicom_core::{PrimitiveValue, Tag, VR};
use dicom_modules::helper::{
    as_float64, as_signed16, as_string, as_string_list, as_unsigned16, as_us_ss,
    element_opt_to_str, element_to_str, lookup_optional, lookup_required, optional_float64,
    optional_str, optional_string, optional_strings, optional_us_ss,
};
use dicom_modules::tags::{
    PIXEL_PADDING_VALUE, SOFTWARE_VERSIONS, SPATIAL_RESOLUTION, STUDY_DATE, STUDY_ID,
};
use dicom_modules::{Error, Float64, UsSs, Vr};
use dicom_object::mem::InMemElement;
use dicom_object::InMemDicomObject;

fn data_set(elements: Vec<InMemElement>) -> InMemDicomObject {
    let mut obj = InMemDicomObject::new_empty();
    for element in elements {
        let _ = obj.put_element(element);
    }
    obj
}

fn text(tag: (u16, u16), vr: VR, value: &str) -> InMemElement {
    InMemElement::new(Tag::from(tag), vr, value)
}

fn value(tag: (u16, u16), vr: VR, value: PrimitiveValue) -> InMemElement {
    InMemElement::new(Tag::from(tag), vr, value)
}

fn strings(items: &[&str]) -> PrimitiveValue {
    let list: Vec<String> = items.iter().map(|s| s.to_string()).collect();
    PrimitiveValue::Strs(list.into())
}

#[test]
fn lookup_optional_tells_present_from_absent() {
    let obj = data_set(vec![text(STUDY_DATE, VR::DA, "20230729")]);
    let found = lookup_optional(&obj, STUDY_DATE).unwrap();
    assert_eq!(found.unwrap().string().unwrap(), "20230729");
    assert!(lookup_optional(&obj, STUDY_ID).unwrap().is_none());
}

#[test]
fn lookup_required_fails_on_absent() {
    let obj = data_set(vec![text(STUDY_DATE, VR::DA, "20230729")]);
    assert_eq!(lookup_required(&obj, STUDY_DATE).unwrap().string().unwrap(), "20230729");
    assert_eq!(
        lookup_required(&obj, STUDY_ID).err(),
        Some(Error::NotFound { tag: STUDY_ID })
    );
}

#[test]
fn as_string_reads_single_string() {
    let elem = text(STUDY_DATE, VR::DA, "20230729");
    assert_eq!(as_string(&elem, STUDY_DATE), Ok("20230729"));
}

#[test]
fn as_string_gives_first_of_many() {
    let elem = value(SOFTWARE_VERSIONS, VR::LO, strings(&["1.0", "2.0"]));
    assert_eq!(as_string(&elem, SOFTWARE_VERSIONS), Ok("1.0"));
}

#[test]
fn as_string_keeps_surrounding_spaces() {
    let elem = text(STUDY_ID, VR::SH, " 13 ");
    assert_eq!(as_string(&elem, STUDY_ID), Ok(" 13 "));
}

#[test]
fn as_string_rejects_number() {
    let elem = value(STUDY_DATE, VR::US, PrimitiveValue::from(7u16));
    assert_eq!(
        as_string(&elem, STUDY_DATE),
        Err(Error::CastFailure { tag: STUDY_DATE })
    );
}

#[test]
fn as_string_rejects_empty_value() {
    let elem = value(STUDY_DATE, VR::DA, PrimitiveValue::Empty);
    assert_eq!(
        as_string(&elem, STUDY_DATE),
        Err(Error::CastFailure { tag: STUDY_DATE })
    );
}

#[test]
fn as_string_list_reads_all() {
    let elem = value(SOFTWARE_VERSIONS, VR::LO, strings(&["1.0", "2.0", "3.0"]));
    assert_eq!(
        as_string_list(&elem, SOFTWARE_VERSIONS),
        Ok(vec!["1.0".to_string(), "2.0".to_string(), "3.0".to_string()])
    );
}

#[test]
fn as_string_list_of_single_string() {
    let elem = text(SOFTWARE_VERSIONS, VR::LO, "1.2.3.4");
    assert_eq!(
        as_string_list(&elem, SOFTWARE_VERSIONS),
        Ok(vec!["1.2.3.4".to_string()])
    );
}

#[test]
fn as_string_list_rejects_number() {
    let elem = value(SOFTWARE_VERSIONS, VR::US, PrimitiveValue::from(7u16));
    assert_eq!(
        as_string_list(&elem, SOFTWARE_VERSIONS),
        Err(Error::CastFailure { tag: SOFTWARE_VERSIONS })
    );
}

#[test]
fn as_float64_parses_decimal_string() {
    let elem = text(SPATIAL_RESOLUTION, VR::DS, "12.34");
    let number = as_float64(&elem, SPATIAL_RESOLUTION).unwrap();
    assert_eq!(number, Float64 { bits: 0x4028_AE14_7AE1_47AE });
    assert_eq!(f64::from_bits(number.bits), 12.34);
}

#[test]
fn as_float64_trims_spaces() {
    let elem = text(SPATIAL_RESOLUTION, VR::DS, "-6.75 ");
    let number = as_float64(&elem, SPATIAL_RESOLUTION).unwrap();
    assert_eq!(f64::from_bits(number.bits), -6.75);
}

#[test]
fn as_float64_converts_integer() {
    let elem = value(SPATIAL_RESOLUTION, VR::US, PrimitiveValue::from(5u16));
    let number = as_float64(&elem, SPATIAL_RESOLUTION).unwrap();
    assert_eq!(f64::from_bits(number.bits), 5.0);
}

#[test]
fn as_float64_rejects_text() {
    let elem = text(SPATIAL_RESOLUTION, VR::DS, "wide");
    assert_eq!(
        as_float64(&elem, SPATIAL_RESOLUTION),
        Err(Error::DecodeFailure { tag: SPATIAL_RESOLUTION })
    );
}

#[test]
fn as_unsigned16_reads_first_value() {
    let elem = value(PIXEL_PADDING_VALUE, VR::US, PrimitiveValue::from([300u16, 7u16]));
    assert_eq!(as_unsigned16(&elem, PIXEL_PADDING_VALUE), Ok(300));
}

#[test]
fn as_unsigned16_rejects_signed() {
    let elem = value(PIXEL_PADDING_VALUE, VR::US, PrimitiveValue::from(-1i16));
    assert_eq!(
        as_unsigned16(&elem, PIXEL_PADDING_VALUE),
        Err(Error::CastFailure { tag: PIXEL_PADDING_VALUE })
    );
}

#[test]
fn as_signed16_reads_first_value() {
    let elem = value(PIXEL_PADDING_VALUE, VR::SS, PrimitiveValue::from([-1234i16, 7i16]));
    assert_eq!(as_signed16(&elem, PIXEL_PADDING_VALUE), Ok(-1234));
}

#[test]
fn as_signed16_rejects_unsigned() {
    let elem = value(PIXEL_PADDING_VALUE, VR::SS, PrimitiveValue::from(1u16));
    assert_eq!(
        as_signed16(&elem, PIXEL_PADDING_VALUE),
        Err(Error::CastFailure { tag: PIXEL_PADDING_VALUE })
    );
}

#[test]
fn us_ss_from_unsigned_short() {
    let elem = value(PIXEL_PADDING_VALUE, VR::US, PrimitiveValue::from(300u16));
    assert_eq!(
        as_us_ss(&elem, PIXEL_PADDING_VALUE),
        Ok(UsSs { us: Some(300), ss: None })
    );
}

#[test]
fn us_ss_from_signed_short() {
    let elem = value(PIXEL_PADDING_VALUE, VR::SS, PrimitiveValue::from(-1234i16));
    assert_eq!(
        as_us_ss(&elem, PIXEL_PADDING_VALUE),
        Ok(UsSs { us: None, ss: Some(-1234) })
    );
}

#[test]
fn us_ss_from_other_vr_is_an_error() {
    let elem = text(PIXEL_PADDING_VALUE, VR::LO, "300");
    assert_eq!(
        as_us_ss(&elem, PIXEL_PADDING_VALUE),
        Err(Error::UnexpectedVr {
            tag: PIXEL_PADDING_VALUE,
            vr: Vr { first: b'L', second: b'O' },
        })
    );
}

#[test]
fn us_ss_other_vr_with_integer_value_is_an_error() {
    let elem = value(PIXEL_PADDING_VALUE, VR::UL, PrimitiveValue::from(300u16));
    assert_eq!(
        as_us_ss(&elem, PIXEL_PADDING_VALUE),
        Err(Error::UnexpectedVr {
            tag: PIXEL_PADDING_VALUE,
            vr: Vr { first: b'U', second: b'L' },
        })
    );
}

#[test]
fn us_ss_value_must_match_vr() {
    let elem = value(PIXEL_PADDING_VALUE, VR::US, PrimitiveValue::from(-1234i16));
    assert_eq!(
        as_us_ss(&elem, PIXEL_PADDING_VALUE),
        Err(Error::CastFailure { tag: PIXEL_PADDING_VALUE })
    );
    let elem = value(PIXEL_PADDING_VALUE, VR::SS, PrimitiveValue::from(300u16));
    assert_eq!(
        as_us_ss(&elem, PIXEL_PADDING_VALUE),
        Err(Error::CastFailure { tag: PIXEL_PADDING_VALUE })
    );
}

#[test]
fn element_to_str_present_absent_malformed() {
    let obj = data_set(vec![
        text(STUDY_DATE, VR::DA, "20230729"),
        value(STUDY_ID, VR::US, PrimitiveValue::from(13u16)),
    ]);
    assert_eq!(element_to_str(&obj, STUDY_DATE), Ok("20230729"));
    assert_eq!(
        element_to_str(&obj, SOFTWARE_VERSIONS),
        Err(Error::NotFound { tag: SOFTWARE_VERSIONS })
    );
    assert_eq!(
        element_to_str(&obj, STUDY_ID),
        Err(Error::CastFailure { tag: STUDY_ID })
    );
}

#[test]
fn element_opt_to_str_present_absent_malformed() {
    let obj = data_set(vec![
        text(STUDY_DATE, VR::DA, "20230729"),
        value(STUDY_ID, VR::US, PrimitiveValue::from(13u16)),
    ]);
    assert_eq!(element_opt_to_str(&obj, STUDY_DATE, "none"), Ok("20230729"));
    assert_eq!(element_opt_to_str(&obj, SOFTWARE_VERSIONS, "none"), Ok("none"));
    assert_eq!(element_opt_to_str(&obj, SOFTWARE_VERSIONS, ""), Ok(""));
    assert_eq!(
        element_opt_to_str(&obj, STUDY_ID, "none"),
        Err(Error::CastFailure { tag: STUDY_ID })
    );
}

#[test]
fn element_opt_to_str_present_and_empty_string() {
    let obj = data_set(vec![text(STUDY_DATE, VR::DA, "")]);
    assert_eq!(element_opt_to_str(&obj, STUDY_DATE, "none"), Ok(""));
}

#[test]
fn optional_str_present_absent_malformed() {
    let obj = data_set(vec![
        text(STUDY_DATE, VR::DA, "20230729"),
        value(STUDY_ID, VR::US, PrimitiveValue::from(13u16)),
    ]);
    assert_eq!(optional_str(&obj, STUDY_DATE), Ok(Some("20230729")));
    assert_eq!(optional_str(&obj, SOFTWARE_VERSIONS), Ok(None));
    assert_eq!(
        optional_str(&obj, STUDY_ID),
        Err(Error::CastFailure { tag: STUDY_ID })
    );
}

#[test]
fn optional_string_present_absent_malformed() {
    let obj = data_set(vec![
        text(STUDY_DATE, VR::DA, "20230729"),
        value(STUDY_ID, VR::US, PrimitiveValue::from(13u16)),
    ]);
    assert_eq!(optional_string(&obj, STUDY_DATE), Ok(Some("20230729".to_string())));
    assert_eq!(optional_string(&obj, SOFTWARE_VERSIONS), Ok(None));
    assert_eq!(
        optional_string(&obj, STUDY_ID),
        Err(Error::CastFailure { tag: STUDY_ID })
    );
}

#[test]
fn optional_strings_present_absent_malformed() {
    let obj = data_set(vec![
        value(SOFTWARE_VERSIONS, VR::LO, strings(&["1.0", "2.0"])),
        value(STUDY_ID, VR::US, PrimitiveValue::from(13u16)),
    ]);
    assert_eq!(
        optional_strings(&obj, SOFTWARE_VERSIONS),
        Ok(Some(vec!["1.0".to_string(), "2.0".to_string()]))
    );
    assert_eq!(optional_strings(&obj, STUDY_DATE), Ok(None));
    assert_eq!(
        optional_strings(&obj, STUDY_ID),
        Err(Error::CastFailure { tag: STUDY_ID })
    );
}

#[test]
fn optional_float64_present_absent_malformed() {
    let obj = data_set(vec![
        text(SPATIAL_RESOLUTION, VR::DS, "0.5"),
        text(STUDY_ID, VR::SH, "thirteen"),
    ]);
    assert_eq!(
        optional_float64(&obj, SPATIAL_RESOLUTION),
        Ok(Some(Float64 { bits: 0.5f64.to_bits() }))
    );
    assert_eq!(optional_float64(&obj, STUDY_DATE), Ok(None));
    assert_eq!(
        optional_float64(&obj, STUDY_ID),
        Err(Error::DecodeFailure { tag: STUDY_ID })
    );
}

#[test]
fn optional_us_ss_present_absent_malformed() {
    let obj = data_set(vec![
        value(PIXEL_PADDING_VALUE, VR::US, PrimitiveValue::from(300u16)),
        text(STUDY_ID, VR::LO, "13"),
    ]);
    assert_eq!(
        optional_us_ss(&obj, PIXEL_PADDING_VALUE),
        Ok(Some(UsSs { us: Some(300), ss: None }))
    );
    assert_eq!(optional_us_ss(&obj, STUDY_DATE), Ok(None));
    assert_eq!(
        optional_us_ss(&obj, STUDY_ID),
        Err(Error::UnexpectedVr {
            tag: STUDY_ID,
            vr: Vr { first: b'L', second: b'O' },
        })
    );
}
