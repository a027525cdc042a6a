//! Reduction of decoded sounds to the phoneme inventory.
//!
//! Every sound becomes one phoneme, found in a fixed table. A long sound is
//! written as that phoneme twice. The phonemes of a sequence of sounds are the
//! phonemes of its sounds, in order.

use vstd::prelude::*;
use crate::phoneme::{Consonants, PalatalizedOnlyConsonants, Phoneme, PhonemeSeq, Vowels};
use crate::sound::{ConsonantQuality, Sound, VowelQuality};

verus! {

/// The vowel phoneme that stands for a vowel quality, listed by phoneme.
pub open spec fn reduced_vowel(vowel: VowelQuality) -> Vowels {
    match vowel {
        VowelQuality::CloseFrontUnrounded | VowelQuality::CloseCentralUnrounded => Vowels::I,
        VowelQuality::CloseMidFrontUnrounded
        | VowelQuality::CloseMidCentralUnrounded
        | VowelQuality::NearCloseNearFrontUnrounded => Vowels::E,
        VowelQuality::MidCentral
        | VowelQuality::NearOpenFrontUnrounded
        | VowelQuality::OpenFrontUnrounded
        | VowelQuality::OpenBackUnrounded
        | VowelQuality::OpenMidBackUnrounded => Vowels::A,
        VowelQuality::CloseMidBackRounded | VowelQuality::CloseMidFrontRounded => Vowels::O,
        VowelQuality::CloseBackRounded
        | VowelQuality::CloseBackUnrounded
        | VowelQuality::CloseCentralRounded
        | VowelQuality::CloseFrontRounded
        | VowelQuality::CloseMidBackUnrounded
        | VowelQuality::CloseMidCentralRounded
        | VowelQuality::NearCloseNearBackRounded
        | VowelQuality::NearCloseNearFrontRounded => Vowels::U,
    }
}

/// The phoneme that stands for a consonant quality. The palatal approximant
/// is soft by nature, so its flag is not kept.
pub open spec fn reduced_consonant(consonant: ConsonantQuality, is_palatalized: bool) -> Phoneme {
    match consonant {
        ConsonantQuality::VoicedAlveolarNasal => Phoneme::Consonant {
            phoneme: Consonants::N,
            is_palatalized,
        },
        ConsonantQuality::VoicedBilabialNasal => Phoneme::Consonant {
            phoneme: Consonants::M,
            is_palatalized,
        },
        ConsonantQuality::VoicedPalatalApproximant => Phoneme::PalatalizedOnlyConsonant {
            phoneme: PalatalizedOnlyConsonants::J,
        },
        ConsonantQuality::VoicelessBilabialPlosive => Phoneme::Consonant {
            phoneme: Consonants::P,
            is_palatalized,
        },
    }
}

impl Sound {
    /// The phoneme that stands for this sound.
    pub open spec fn phoneme(self) -> Phoneme {
        match self {
            Sound::Vowel { phoneme, .. } => Phoneme::Vowel { phoneme: reduced_vowel(phoneme) },
            Sound::Consonant { phoneme, is_palatalized, .. } => reduced_consonant(
                phoneme,
                is_palatalized,
            ),
            Sound::Space => Phoneme::Probel,
        }
    }

    /// Whether this sound is marked long. A word boundary never is.
    pub open spec fn is_long(self) -> bool {
        match self {
            Sound::Vowel { is_long, .. } => is_long,
            Sound::Consonant { is_long, .. } => is_long,
            Sound::Space => false,
        }
    }

    /// What this sound contributes to the phoneme sequence: its phoneme, once
    /// or twice.
    pub open spec fn expansion(self) -> Seq<Phoneme> {
        if self.is_long() {
            seq![self.phoneme(), self.phoneme()]
        } else {
            seq![self.phoneme()]
        }
    }
}

/// The phoneme sequence of a sequence of sounds: the expansions of its
/// sounds, joined in order.
pub open spec fn reduction(sounds: Seq<Sound>) -> Seq<Phoneme> {
    sounds.flat_map(|sound: Sound| sound.expansion())
}

/// Looks a vowel quality up, quality by quality.
pub fn vowels_lookup(vowel: VowelQuality) -> (reduced: Vowels)
    ensures
        reduced == reduced_vowel(vowel),
{
    match vowel {
        VowelQuality::CloseBackRounded => Vowels::U,
        VowelQuality::CloseBackUnrounded => Vowels::U,
        VowelQuality::CloseCentralRounded => Vowels::U,
        VowelQuality::CloseCentralUnrounded => Vowels::I,
        VowelQuality::CloseFrontRounded => Vowels::U,
        VowelQuality::CloseFrontUnrounded => Vowels::I,
        VowelQuality::CloseMidBackRounded => Vowels::O,
        VowelQuality::CloseMidBackUnrounded => Vowels::U,
        VowelQuality::CloseMidCentralRounded => Vowels::U,
        VowelQuality::CloseMidCentralUnrounded => Vowels::E,
        VowelQuality::CloseMidFrontRounded => Vowels::O,
        VowelQuality::CloseMidFrontUnrounded => Vowels::E,
        VowelQuality::MidCentral => Vowels::A,
        VowelQuality::NearCloseNearBackRounded => Vowels::U,
        VowelQuality::NearCloseNearFrontRounded => Vowels::U,
        VowelQuality::NearCloseNearFrontUnrounded => Vowels::E,
        VowelQuality::NearOpenFrontUnrounded => Vowels::A,
        VowelQuality::OpenBackUnrounded => Vowels::A,
        VowelQuality::OpenFrontUnrounded => Vowels::A,
        VowelQuality::OpenMidBackUnrounded => Vowels::A,
    }
}

/// Looks a consonant quality up and hands its palatalization on, where the
/// phoneme can carry one.
pub fn consonants_lookup(consonant: ConsonantQuality, is_palatalized: bool) -> (reduced: Phoneme)
    ensures
        reduced == reduced_consonant(consonant, is_palatalized),
{
    match consonant {
        ConsonantQuality::VoicedAlveolarNasal => Phoneme::Consonant {
            phoneme: Consonants::N,
            is_palatalized,
        },
        ConsonantQuality::VoicedBilabialNasal => Phoneme::Consonant {
            phoneme: Consonants::M,
            is_palatalized,
        },
        ConsonantQuality::VoicedPalatalApproximant => Phoneme::PalatalizedOnlyConsonant {
            phoneme: PalatalizedOnlyConsonants::J,
        },
        ConsonantQuality::VoicelessBilabialPlosive => Phoneme::Consonant {
            phoneme: Consonants::P,
            is_palatalized,
        },
    }
}

impl PhonemeSeq {
    /// Reduces a sequence of sounds, writing each long sound twice.
    pub fn new(sounds: Vec<Sound>) -> (phonemes: PhonemeSeq)
        ensures
            phonemes@ == reduction(sounds@),
    {
        let mut phonemes: Vec<Phoneme> = Vec::new();
        let mut i: usize = 0;
        while i < sounds.len()
            invariant
                i <= sounds@.len(),
                phonemes@ == reduction(sounds@.take(i as int)),
            decreases sounds@.len() - i,
        {
            let (phoneme, is_long) = match sounds[i] {
                Sound::Vowel { phoneme, is_long } => (
                    Phoneme::Vowel { phoneme: vowels_lookup(phoneme) },
                    is_long,
                ),
                Sound::Consonant { phoneme, is_long, is_palatalized } => (
                    consonants_lookup(phoneme, is_palatalized),
                    is_long,
                ),
                Sound::Space => (Phoneme::Probel, false),
            };
            phonemes.push(phoneme);
            if is_long {
                phonemes.push(phoneme);
            }
            proof {
                sounds@.lemma_flat_map_take_append(|sound: Sound| sound.expansion(), i as int);
            }
            i += 1;
        }
        proof {
            assert(sounds@.take(i as int) =~= sounds@);
        }
        PhonemeSeq(phonemes)
    }
}

/// A long sound is written as two equal phonemes, any other sound as one.
pub proof fn lemma_long_sound_is_doubled(sound: Sound)
    ensures
        sound.is_long() ==> reduction(seq![sound]) == seq![sound.phoneme(), sound.phoneme()],
        !sound.is_long() ==> reduction(seq![sound]) == seq![sound.phoneme()],
{
    seq![sound].lemma_flat_map_singleton(|sound: Sound| sound.expansion());
}

/// Sounds are reduced one by one and in order: the phonemes of two runs of
/// sounds put together are the phonemes of the first run, then those of the
/// second.
pub proof fn lemma_reduction_concat(a: Seq<Sound>, b: Seq<Sound>)
    ensures
        reduction(a + b) == reduction(a) + reduction(b),
    decreases b.len(),
{
    if b.len() == 0 {
        assert(a + b =~= a);
        assert(reduction(b) =~= Seq::<Phoneme>::empty());
    } else {
        let expand = |sound: Sound| sound.expansion();
        lemma_reduction_concat(a, b.drop_last());
        assert(a + b =~= (a + b.drop_last()).push(b.last()));
        (a + b.drop_last()).lemma_flat_map_push(expand, b.last());
        assert(b =~= b.drop_last().push(b.last()));
        b.drop_last().lemma_flat_map_push(expand, b.last());
    }
}

/// Every sound yields at least one phoneme and at most two.
pub proof fn lemma_reduction_len(sounds: Seq<Sound>)
    ensures
        sounds.len() <= reduction(sounds).len() <= 2 * sounds.len(),
    decreases sounds.len(),
{
    if sounds.len() == 0 {
        assert(reduction(sounds) =~= Seq::<Phoneme>::empty());
    } else {
        lemma_reduction_len(sounds.drop_last());
        assert(sounds =~= sounds.drop_last().push(sounds.last()));
        sounds.drop_last().lemma_flat_map_push(|sound: Sound| sound.expansion(), sounds.last());
    }
}

} // verus!
