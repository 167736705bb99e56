//! Printer definitions for the P3D slicer, built from the Grid.Space (Kiri:Moto) device
//! descriptions and the Cura printer definitions: settings are resolved along Cura's inheritance
//! chains, start and end G-code are adapted to P3D's placeholders and completed, and the printers
//! of both sources are merged into one catalogue.

pub mod catalog;
pub mod cura;
pub mod gcode;
pub mod gridapps;
pub mod inherit;
pub mod named_map;
pub mod p3d;
pub mod text;
pub mod values;
