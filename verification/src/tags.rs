//! Attribute tags, and the tags of the attributes that the modules read.

use vstd::prelude::*;

verus! {

/// An attribute tag: group number, then element number.
pub type Tag = (u16, u16);

/// SOP Class UID (0008,0016).
pub const SOP_CLASS_UID: Tag = (0x0008, 0x0016);

/// SOP Instance UID (0008,0018).
pub const SOP_INSTANCE_UID: Tag = (0x0008, 0x0018);

/// Study Date (0008,0020).
pub const STUDY_DATE: Tag = (0x0008, 0x0020);

/// Study Time (0008,0030).
pub const STUDY_TIME: Tag = (0x0008, 0x0030);

/// Accession Number (0008,0050).
pub const ACCESSION_NUMBER: Tag = (0x0008, 0x0050);

/// Manufacturer (0008,0070).
pub const MANUFACTURER: Tag = (0x0008, 0x0070);

/// Institution Name (0008,0080).
pub const INSTITUTION_NAME: Tag = (0x0008, 0x0080);

/// Institution Address (0008,0081).
pub const INSTITUTION_ADDRESS: Tag = (0x0008, 0x0081);

/// Referring Physician's Name (0008,0090).
pub const REFERRING_PHYSICIAN_NAME: Tag = (0x0008, 0x0090);

/// Institutional Department Name (0008,1040).
pub const INSTITUTIONAL_DEPARTMENT_NAME: Tag = (0x0008, 0x1040);

/// Manufacturer's Model Name (0008,1090).
pub const MANUFACTURER_MODEL_NAME: Tag = (0x0008, 0x1090);

/// Patient's Name (0010,0010).
pub const PATIENT_NAME: Tag = (0x0010, 0x0010);

/// Patient ID (0010,0020).
pub const PATIENT_ID: Tag = (0x0010, 0x0020);

/// Patient's Birth Date (0010,0030).
pub const PATIENT_BIRTH_DATE: Tag = (0x0010, 0x0030);

/// Patient's Birth Time (0010,0032).
pub const PATIENT_BIRTH_TIME: Tag = (0x0010, 0x0032);

/// Patient's Sex (0010,0040).
pub const PATIENT_SEX: Tag = (0x0010, 0x0040);

/// Device Serial Number (0018,1000).
pub const DEVICE_SERIAL_NUMBER: Tag = (0x0018, 0x1000);

/// Device UID (0018,1002).
pub const DEVICE_UID: Tag = (0x0018, 0x1002);

/// Gantry ID (0018,1008).
pub const GANTRY_ID: Tag = (0x0018, 0x1008);

/// Manufacturer's Device Class UID (0018,100B).
pub const MANUFACTURER_DEVICE_CLASS_UID: Tag = (0x0018, 0x100B);

/// Software Versions (0018,1020).
pub const SOFTWARE_VERSIONS: Tag = (0x0018, 0x1020);

/// Spatial Resolution (0018,1050).
pub const SPATIAL_RESOLUTION: Tag = (0x0018, 0x1050);

/// Study Instance UID (0020,000D).
pub const STUDY_INSTANCE_UID: Tag = (0x0020, 0x000D);

/// Study ID (0020,0010).
pub const STUDY_ID: Tag = (0x0020, 0x0010);

/// Frame of Reference UID (0020,0052).
pub const FRAME_OF_REFERENCE_UID: Tag = (0x0020, 0x0052);

/// Position Reference Indicator (0020,1040).
pub const POSITION_REFERENCE_INDICATOR: Tag = (0x0020, 0x1040);

/// Pixel Padding Value (0028,0120).
pub const PIXEL_PADDING_VALUE: Tag = (0x0028, 0x0120);

} // verus!
