//! The invocation configuration: every parameter of one image-creation run,
//! captured once and never mutated afterwards.

use vstd::prelude::*;

verus! {

/// All user-supplied (or defaulted) parameters for one run.
///
/// Every field is carried through to the external utility uninterpreted; the
/// launcher itself reads none of them beyond placing them in the argument
/// vector and the redacted log line.
pub struct DmgConfig {
    /// Desired image capacity, e.g. "100m" or "1g".
    pub size: String,
    /// Label of the volume inside the image.
    pub volume_name: String,
    /// Path the image is written to.
    pub output: String,
    /// Encryption algorithm requested from the utility.
    pub encryption: String,
    /// Filesystem the volume is formatted with.
    pub filesystem: String,
    /// Disk-image container type.
    pub image_type: String,
}

impl Default for DmgConfig {
    /// The defaults of the command line: a 100m AES-256 encrypted APFS volume
    /// named "MyVolume" in a UDIF image at "myvolume.dmg".
    fn default() -> (c: DmgConfig)
        ensures
            c.size@ == "100m"@,
            c.volume_name@ == "MyVolume"@,
            c.output@ == "myvolume.dmg"@,
            c.encryption@ == "AES-256"@,
            c.filesystem@ == "APFS"@,
            c.image_type@ == "UDIF"@,
    {
        DmgConfig {
            size: String::from_str("100m"),
            volume_name: String::from_str("MyVolume"),
            output: String::from_str("myvolume.dmg"),
            encryption: String::from_str("AES-256"),
            filesystem: String::from_str("APFS"),
            image_type: String::from_str("UDIF"),
        }
    }
}

} // verus!
