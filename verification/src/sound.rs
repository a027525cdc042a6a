//! Decoded sounds, as a phonetic-notation parser hands them over.

use vstd::prelude::*;

verus! {

/// The vowel qualities that can be reduced, named by height, backness and
/// rounding.
#[derive(Clone, Copy, Debug, PartialEq, Eq, Structural)]
pub enum VowelQuality {
    CloseBackRounded,
    CloseBackUnrounded,
    CloseCentralRounded,
    CloseCentralUnrounded,
    CloseFrontRounded,
    CloseFrontUnrounded,
    CloseMidBackRounded,
    CloseMidBackUnrounded,
    CloseMidCentralRounded,
    CloseMidCentralUnrounded,
    CloseMidFrontRounded,
    CloseMidFrontUnrounded,
    MidCentral,
    NearCloseNearBackRounded,
    NearCloseNearFrontRounded,
    NearCloseNearFrontUnrounded,
    NearOpenFrontUnrounded,
    OpenBackUnrounded,
    OpenFrontUnrounded,
    OpenMidBackUnrounded,
}

/// The consonant qualities that can be reduced, named by voicing, place and
/// manner.
#[derive(Clone, Copy, Debug, PartialEq, Eq, Structural)]
pub enum ConsonantQuality {
    VoicedAlveolarNasal,
    VoicedBilabialNasal,
    VoicedPalatalApproximant,
    VoicelessBilabialPlosive,
}

/// One decoded sound. The two quality types are closed: a quality outside
/// them cannot be written down, so none has to be refused at run time.
#[allow(inconsistent_fields)]
#[derive(Clone, Copy, Debug, PartialEq, Eq, Structural)]
pub enum Sound {
    Vowel { phoneme: VowelQuality, is_long: bool },
    Consonant { phoneme: ConsonantQuality, is_long: bool, is_palatalized: bool },
    /// A word boundary. It has no length.
    Space,
}

} // verus!
