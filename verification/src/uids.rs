//! Identifiers and codes that the service uses.
//!
//! Tags are written as the pair of group number and element number.

use vstd::prelude::*;

verus! {

/// Affected SOP Class UID (0000,0002).
pub const AFFECTED_SOP_CLASS_UID: (u16, u16) = (0x0000, 0x0002);

/// Command Field (0000,0100).
pub const COMMAND_FIELD: (u16, u16) = (0x0000, 0x0100);

/// Message ID (0000,0110).
pub const MESSAGE_ID: (u16, u16) = (0x0000, 0x0110);

/// Message ID Being Responded To (0000,0120).
pub const MESSAGE_ID_BEING_RESPONDED_TO: (u16, u16) = (0x0000, 0x0120);

/// Command Data Set Type (0000,0800).
pub const COMMAND_DATA_SET_TYPE: (u16, u16) = (0x0000, 0x0800);

/// Status (0000,0900).
pub const STATUS: (u16, u16) = (0x0000, 0x0900);

/// Affected SOP Instance UID (0000,1000).
pub const AFFECTED_SOP_INSTANCE_UID: (u16, u16) = (0x0000, 0x1000);

/// SOP Class UID (0008,0016).
pub const SOP_CLASS_UID: (u16, u16) = (0x0008, 0x0016);

/// SOP Instance UID (0008,0018).
pub const SOP_INSTANCE_UID: (u16, u16) = (0x0008, 0x0018);

/// The Command Field of a C-STORE response.
pub const C_STORE_RSP: u16 = 0x8001;

/// The Command Data Set Type that says that no data set follows the command.
pub const NO_DATA_SET: u16 = 0x0101;

/// The Status of a successful operation.
pub const STATUS_SUCCESS: u16 = 0x0000;

/// The transfer syntax Implicit VR Little Endian.
pub const IMPLICIT_VR_LITTLE_ENDIAN: &'static str = "1.2.840.10008.1.2";

/// The transfer syntax Explicit VR Little Endian.
pub const EXPLICIT_VR_LITTLE_ENDIAN: &'static str = "1.2.840.10008.1.2.1";

/// The abstract syntaxes that the service accepts for storage.
pub const ABSTRACT_SYNTAXES: [&'static str; 35] = [
    // CT Image Storage
    "1.2.840.10008.5.1.4.1.1.2",
    // Enhanced CT Image Storage
    "1.2.840.10008.5.1.4.1.1.2.1",
    // Standalone Curve Storage (retired)
    "1.2.840.10008.5.1.4.1.1.9",
    // Standalone Overlay Storage (retired)
    "1.2.840.10008.5.1.4.1.1.8",
    // Secondary Capture Image Storage
    "1.2.840.10008.5.1.4.1.1.7",
    // Ultrasound Image Storage (retired)
    "1.2.840.10008.5.1.4.1.1.6",
    // Nuclear Medicine Image Storage (retired)
    "1.2.840.10008.5.1.4.1.1.5",
    // MR Image Storage
    "1.2.840.10008.5.1.4.1.1.4",
    // Enhanced MR Image Storage
    "1.2.840.10008.5.1.4.1.1.4.1",
    // MR Spectroscopy Storage
    "1.2.840.10008.5.1.4.1.1.4.2",
    // Enhanced MR Color Image Storage
    "1.2.840.10008.5.1.4.1.1.4.3",
    // Ultrasound Multi-frame Image Storage (retired)
    "1.2.840.10008.5.1.4.1.1.3",
    // Computed Radiography Image Storage
    "1.2.840.10008.5.1.4.1.1.1",
    // Digital X-Ray Image Storage - For Presentation
    "1.2.840.10008.5.1.4.1.1.1.1",
    // Digital X-Ray Image Storage - For Processing
    "1.2.840.10008.5.1.4.1.1.1.1.1",
    // Encapsulated PDF Storage
    "1.2.840.10008.5.1.4.1.1.104.1",
    // Encapsulated CDA Storage
    "1.2.840.10008.5.1.4.1.1.104.2",
    // Encapsulated STL Storage
    "1.2.840.10008.5.1.4.1.1.104.3",
    // Grayscale Softcopy Presentation State Storage
    "1.2.840.10008.5.1.4.1.1.11.1",
    // Positron Emission Tomography Image Storage
    "1.2.840.10008.5.1.4.1.1.128",
    // Breast Tomosynthesis Image Storage
    "1.2.840.10008.5.1.4.1.1.13.1.3",
    // Breast Projection X-Ray Image Storage - For Presentation
    "1.2.840.10008.5.1.4.1.1.13.1.4",
    // Breast Projection X-Ray Image Storage - For Processing
    "1.2.840.10008.5.1.4.1.1.13.1.5",
    // Enhanced PET Image Storage
    "1.2.840.10008.5.1.4.1.1.130",
    // RT Image Storage
    "1.2.840.10008.5.1.4.1.1.481.1",
    // Nuclear Medicine Image Storage
    "1.2.840.10008.5.1.4.1.1.20",
    // Ultrasound Multi-frame Image Storage
    "1.2.840.10008.5.1.4.1.1.3.1",
    // Multi-frame Single Bit Secondary Capture Image Storage
    "1.2.840.10008.5.1.4.1.1.7.1",
    // Multi-frame Grayscale Byte Secondary Capture Image Storage
    "1.2.840.10008.5.1.4.1.1.7.2",
    // Multi-frame Grayscale Word Secondary Capture Image Storage
    "1.2.840.10008.5.1.4.1.1.7.3",
    // Multi-frame True Color Secondary Capture Image Storage
    "1.2.840.10008.5.1.4.1.1.7.4",
    // Basic Text SR Storage
    "1.2.840.10008.5.1.4.1.1.88.11",
    // Enhanced SR Storage
    "1.2.840.10008.5.1.4.1.1.88.22",
    // Comprehensive SR Storage
    "1.2.840.10008.5.1.4.1.1.88.33",
    // Verification
    "1.2.840.10008.1.1",
];

} // verus!
