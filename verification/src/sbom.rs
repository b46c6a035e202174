//! Software inventories: raw bytes in a declared format.

use vstd::prelude::*;

verus! {

/// The format that an inventory declares.
#[derive(Debug, Clone, Copy, PartialEq, Eq, Structural)]
pub enum SbomFormat {
    /// CycloneDX, as JSON.
    CycloneDxJson,
    /// SPDX, as JSON.
    SpdxJson,
    /// Syft, as JSON.
    SyftJson,
}

/// One software inventory. The engine never reads its bytes.
#[derive(Debug)]
pub struct Sbom {
    pub format: SbomFormat,
    pub data: Vec<u8>,
}

impl Sbom {
    /// Tags `data` with the format it is in.
    pub fn from_bytes(format: SbomFormat, data: Vec<u8>) -> (sbom: Sbom)
        ensures
            sbom == (Sbom { format, data }),
    {
        Sbom { format, data }
    }
}

impl SbomFormat {
    /// The ending of the name of a file that holds an inventory in this
    /// format, as a specification.
    pub open spec fn spec_file_extension(&self) -> Seq<char> {
        match self {
            SbomFormat::CycloneDxJson => "cdx.json"@,
            SbomFormat::SpdxJson => "spdx.json"@,
            SbomFormat::SyftJson => "syft.json"@,
        }
    }

    /// The ending of the name of a file that holds an inventory in this
    /// format.
    pub fn file_extension(&self) -> (extension: &'static str)
        ensures
            extension@ == self.spec_file_extension(),
    {
        match self {
            SbomFormat::CycloneDxJson => "cdx.json",
            SbomFormat::SpdxJson => "spdx.json",
            SbomFormat::SyftJson => "syft.json",
        }
    }
}

} // verus!
