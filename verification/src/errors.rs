//! Errors: every failure is a typed variant, so that callers can decide whether
//! to skip a path, log a warning or give up.

use crate::text::{hex, hex_text};
use vstd::prelude::*;

verus! {

/// What can go wrong in an audit. Where the cause is an error of the system or
/// of another library, its message is kept.
#[derive(Debug)]
pub enum AuditorError {
    /// The security descriptor of a path could not be read.
    SecurityDescriptorRead { path: String, code: u32 },
    /// A path has no DACL.
    NoDacl { path: String },
    /// The account of a SID could not be looked up.
    SidResolution { sid_string: String, code: u32 },
    /// A buffer did not hold UTF-16 text.
    Utf16Decode { path: String, source: String },
    /// A directory could not be walked.
    Traversal(String),
    /// A file could not be created, written or removed.
    Io { path: String, source: String },
    /// The findings could not be turned into JSON.
    Serialization(String),
    /// The simulation could not be set up.
    SimulatorSetup(String),
    /// Access control lists can only be read on Windows.
    NonWindowsPlatform,
}

/// What an [`AuditorError`] holds.
pub enum AuditorErrorView {
    SecurityDescriptorRead { path: Seq<char>, code: u32 },
    NoDacl { path: Seq<char> },
    SidResolution { sid_string: Seq<char>, code: u32 },
    Utf16Decode { path: Seq<char>, source: Seq<char> },
    Traversal(Seq<char>),
    Io { path: Seq<char>, source: Seq<char> },
    Serialization(Seq<char>),
    SimulatorSetup(Seq<char>),
    NonWindowsPlatform,
}

impl View for AuditorError {
    type V = AuditorErrorView;

    open spec fn view(&self) -> AuditorErrorView {
        match *self {
            AuditorError::SecurityDescriptorRead { path, code } =>
                AuditorErrorView::SecurityDescriptorRead { path: path@, code },
            AuditorError::NoDacl { path } => AuditorErrorView::NoDacl { path: path@ },
            AuditorError::SidResolution { sid_string, code } => AuditorErrorView::SidResolution {
                sid_string: sid_string@,
                code,
            },
            AuditorError::Utf16Decode { path, source } => AuditorErrorView::Utf16Decode {
                path: path@,
                source: source@,
            },
            AuditorError::Traversal(source) => AuditorErrorView::Traversal(source@),
            AuditorError::Io { path, source } => AuditorErrorView::Io {
                path: path@,
                source: source@,
            },
            AuditorError::Serialization(source) => AuditorErrorView::Serialization(source@),
            AuditorError::SimulatorSetup(reason) => AuditorErrorView::SimulatorSetup(reason@),
            AuditorError::NonWindowsPlatform => AuditorErrorView::NonWindowsPlatform,
        }
    }
}

/// The message of an error.
pub open spec fn message_of(e: AuditorErrorView) -> Seq<char> {
    match e {
        AuditorErrorView::SecurityDescriptorRead { path, code } =>
            "Failed to read security descriptor for '"@ + path + "': Win32 error 0x"@ + hex(
                code as nat,
                8,
                false,
            ),
        AuditorErrorView::NoDacl { path } => "No DACL present on '"@ + path
            + "' (implicit allow-all — critical risk)"@,
        AuditorErrorView::SidResolution { sid_string, code } => "SID resolution failed for '"@
            + sid_string + "': Win32 error 0x"@ + hex(code as nat, 8, false),
        AuditorErrorView::Utf16Decode { path, source } =>
            "Invalid UTF-16 in Win32 buffer for path '"@ + path + "': "@ + source,
        AuditorErrorView::Traversal(source) => "Directory traversal error: "@ + source,
        AuditorErrorView::Io { path, source } => "I/O error on '"@ + path + "': "@ + source,
        AuditorErrorView::Serialization(source) => "JSON serialization error: "@ + source,
        AuditorErrorView::SimulatorSetup(reason) => "Anomaly simulator setup failed: "@ + reason,
        AuditorErrorView::NonWindowsPlatform =>
            "This tool requires Windows (NTFS ACL scanning is Win32-only)"@,
    }
}

impl AuditorError {
    /// The message of an error.
    pub fn message(&self) -> (r: String)
        ensures
            r@ == message_of(self@),
    {
        match self {
            AuditorError::SecurityDescriptorRead { path, code } => {
                let mut m = "Failed to read security descriptor for '".to_owned();
                m.append(path.as_str());
                m.append("': Win32 error 0x");
                m.append(hex_text(*code, 8, false).as_str());
                m
            },
            AuditorError::NoDacl { path } => {
                let mut m = "No DACL present on '".to_owned();
                m.append(path.as_str());
                m.append("' (implicit allow-all — critical risk)");
                m
            },
            AuditorError::SidResolution { sid_string, code } => {
                let mut m = "SID resolution failed for '".to_owned();
                m.append(sid_string.as_str());
                m.append("': Win32 error 0x");
                m.append(hex_text(*code, 8, false).as_str());
                m
            },
            AuditorError::Utf16Decode { path, source } => {
                let mut m = "Invalid UTF-16 in Win32 buffer for path '".to_owned();
                m.append(path.as_str());
                m.append("': ");
                m.append(source.as_str());
                m
            },
            AuditorError::Traversal(source) => {
                let mut m = "Directory traversal error: ".to_owned();
                m.append(source.as_str());
                m
            },
            AuditorError::Io { path, source } => {
                let mut m = "I/O error on '".to_owned();
                m.append(path.as_str());
                m.append("': ");
                m.append(source.as_str());
                m
            },
            AuditorError::Serialization(source) => {
                let mut m = "JSON serialization error: ".to_owned();
                m.append(source.as_str());
                m
            },
            AuditorError::SimulatorSetup(reason) => {
                let mut m = "Anomaly simulator setup failed: ".to_owned();
                m.append(reason.as_str());
                m
            },
            AuditorError::NonWindowsPlatform => {
                "This tool requires Windows (NTFS ACL scanning is Win32-only)".to_owned()
            },
        }
    }
}

/// An error on one path, which does not stop a scan.
#[derive(Debug)]
pub struct ScanError {
    pub path: String,
    pub message: String,
}

/// What a [`ScanError`] holds.
pub struct ScanErrorView {
    pub path: Seq<char>,
    pub message: Seq<char>,
}

impl View for ScanError {
    type V = ScanErrorView;

    open spec fn view(&self) -> ScanErrorView {
        ScanErrorView { path: self.path@, message: self.message@ }
    }
}

impl ScanError {
    /// Keeps the path and the message of an error.
    pub fn new(path: String, err: &AuditorError) -> (r: Self)
        ensures
            r@ == (ScanErrorView { path: path@, message: message_of(err@) }),
    {
        let message = err.message();
        ScanError { path, message }
    }
}

} // verus!
