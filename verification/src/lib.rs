//! Verified core of a desktop screenshot tool: the capture pipeline state
//! machine, error contracts, capture-mode parsing, image cropping and
//! black-frame detection, capture file naming and human-readable file sizes.

pub mod error;
pub mod text;
pub mod capture;
pub mod notification;
pub mod image_processor;
pub mod storage;
pub mod clipboard;
pub mod orchestrator;
