use dicom_core::Tag;
use dicom_modules::tags;
use dicom_modules::{Error, Float64, Signedness, UsSs, Vr};

#[test]
fn us_ss_default_is_unset() {
    let v = UsSs::default();
    assert_eq!(v, UsSs { us: None, ss: None });
}

#[test]
fn us_ss_unsigned_sets_only_us() {
    assert_eq!(UsSs::unsigned(300), UsSs { us: Some(300), ss: None });
    assert_eq!(UsSs::unsigned(0), UsSs { us: Some(0), ss: None });
    assert_eq!(UsSs::unsigned(u16::MAX), UsSs { us: Some(65535), ss: None });
}

#[test]
fn us_ss_signed_sets_only_ss() {
    assert_eq!(UsSs::signed(-1234), UsSs { us: None, ss: Some(-1234) });
    assert_eq!(UsSs::signed(i16::MIN), UsSs { us: None, ss: Some(-32768) });
}

#[test]
fn us_ss_is_copied_and_compared_by_value() {
    let a = UsSs::unsigned(5);
    let b = a;
    assert_eq!(a, b);
    assert_ne!(UsSs::unsigned(5), UsSs::signed(5));
}

#[test]
fn vr_signedness_of_us_and_ss() {
    assert_eq!(
        Vr { first: b'U', second: b'S' }.signedness(),
        Some(Signedness::Unsigned)
    );
    assert_eq!(
        Vr { first: b'S', second: b'S' }.signedness(),
        Some(Signedness::Signed)
    );
}

#[test]
fn vr_signedness_of_other_codes() {
    assert_eq!(Vr { first: b'L', second: b'O' }.signedness(), None);
    assert_eq!(Vr { first: b'S', second: b'U' }.signedness(), None);
    assert_eq!(Vr { first: b'U', second: b'L' }.signedness(), None);
    assert_eq!(Vr { first: b'S', second: b'L' }.signedness(), None);
    assert_eq!(Vr { first: b'u', second: b's' }.signedness(), None);
}

#[test]
fn vr_codes_are_those_of_the_value_representations() {
    let us = dicom_core::VR::US.to_bytes();
    assert_eq!(Vr { first: us[0], second: us[1] }.signedness(), Some(Signedness::Unsigned));
    let ss = dicom_core::VR::SS.to_bytes();
    assert_eq!(Vr { first: ss[0], second: ss[1] }.signedness(), Some(Signedness::Signed));
}

#[test]
fn float64_compares_by_bits() {
    assert_eq!(Float64 { bits: 1.5f64.to_bits() }, Float64 { bits: 0x3FF8_0000_0000_0000 });
    assert_ne!(Float64 { bits: 0.0f64.to_bits() }, Float64 { bits: (-0.0f64).to_bits() });
}

#[test]
fn error_tag_names_the_attribute() {
    assert_eq!(Error::NotFound { tag: (0x0020, 0x000D) }.tag(), (0x0020, 0x000D));
    assert_eq!(Error::CastFailure { tag: (0x0008, 0x0020) }.tag(), (0x0008, 0x0020));
    assert_eq!(Error::DecodeFailure { tag: (0x0018, 0x1050) }.tag(), (0x0018, 0x1050));
    assert_eq!(
        Error::UnexpectedVr {
            tag: (0x0028, 0x0120),
            vr: Vr { first: b'L', second: b'O' },
        }
        .tag(),
        (0x0028, 0x0120)
    );
}

#[test]
fn tags_are_those_of_the_standard_dictionary() {
    let pairs = [
        (tags::SOP_CLASS_UID, dicom_dictionary_std::tags::SOP_CLASS_UID),
        (tags::SOP_INSTANCE_UID, dicom_dictionary_std::tags::SOP_INSTANCE_UID),
        (tags::STUDY_DATE, dicom_dictionary_std::tags::STUDY_DATE),
        (tags::STUDY_TIME, dicom_dictionary_std::tags::STUDY_TIME),
        (tags::ACCESSION_NUMBER, dicom_dictionary_std::tags::ACCESSION_NUMBER),
        (tags::MANUFACTURER, dicom_dictionary_std::tags::MANUFACTURER),
        (tags::INSTITUTION_NAME, dicom_dictionary_std::tags::INSTITUTION_NAME),
        (tags::INSTITUTION_ADDRESS, dicom_dictionary_std::tags::INSTITUTION_ADDRESS),
        (tags::REFERRING_PHYSICIAN_NAME, dicom_dictionary_std::tags::REFERRING_PHYSICIAN_NAME),
        (tags::INSTITUTIONAL_DEPARTMENT_NAME, dicom_dictionary_std::tags::INSTITUTIONAL_DEPARTMENT_NAME),
        (tags::MANUFACTURER_MODEL_NAME, dicom_dictionary_std::tags::MANUFACTURER_MODEL_NAME),
        (tags::PATIENT_NAME, dicom_dictionary_std::tags::PATIENT_NAME),
        (tags::PATIENT_ID, dicom_dictionary_std::tags::PATIENT_ID),
        (tags::PATIENT_BIRTH_DATE, dicom_dictionary_std::tags::PATIENT_BIRTH_DATE),
        (tags::PATIENT_BIRTH_TIME, dicom_dictionary_std::tags::PATIENT_BIRTH_TIME),
        (tags::PATIENT_SEX, dicom_dictionary_std::tags::PATIENT_SEX),
        (tags::DEVICE_SERIAL_NUMBER, dicom_dictionary_std::tags::DEVICE_SERIAL_NUMBER),
        (tags::DEVICE_UID, dicom_dictionary_std::tags::DEVICE_UID),
        (tags::GANTRY_ID, dicom_dictionary_std::tags::GANTRY_ID),
        (tags::MANUFACTURER_DEVICE_CLASS_UID, dicom_dictionary_std::tags::MANUFACTURER_DEVICE_CLASS_UID),
        (tags::SOFTWARE_VERSIONS, dicom_dictionary_std::tags::SOFTWARE_VERSIONS),
        (tags::SPATIAL_RESOLUTION, dicom_dictionary_std::tags::SPATIAL_RESOLUTION),
        (tags::STUDY_INSTANCE_UID, dicom_dictionary_std::tags::STUDY_INSTANCE_UID),
        (tags::STUDY_ID, dicom_dictionary_std::tags::STUDY_ID),
        (tags::FRAME_OF_REFERENCE_UID, dicom_dictionary_std::tags::FRAME_OF_REFERENCE_UID),
        (tags::POSITION_REFERENCE_INDICATOR, dicom_dictionary_std::tags::POSITION_REFERENCE_INDICATOR),
        (tags::PIXEL_PADDING_VALUE, dicom_dictionary_std::tags::PIXEL_PADDING_VALUE),
    ];
    for (ours, theirs) in pairs {
        assert_eq!(Tag::from(ours), theirs);
    }
}
