//! The attribute modules.

pub mod frame_of_reference;
pub mod general_equipment;
pub mod general_study;
pub mod patient;
pub mod sop_common;

pub use frame_of_reference::{FrameOfReference, FrameOfReferenceView};
pub use general_equipment::{GeneralEquipment, GeneralEquipmentView};
pub use general_study::{GeneralStudy, GeneralStudyView};
pub use patient::{Patient, PatientView};
pub use sop_common::{SOPCommon, SOPCommonView};
