//! The phoneme inventory and the sequences built from it.

use vstd::prelude::*;

verus! {

/// The five vowel phonemes. A vowel carries no palatalization of its own: it
/// receives it from the phoneme before it.
#[derive(Clone, Copy, Debug, PartialEq, Eq, Structural)]
pub enum Vowels {
    A,
    E,
    I,
    O,
    U,
}

/// The consonant phonemes that occur both plain and palatalized.
#[derive(Clone, Copy, Debug, PartialEq, Eq, Structural)]
pub enum Consonants {
    P,
    B,
    F,
    V,
    K,
    G,
    T,
    D,
    W,
    X,
    S,
    Z,
    L,
    M,
    N,
    R,
    H,
    C,
}

/// The consonant phonemes that are always palatalized.
#[derive(Clone, Copy, Debug, PartialEq, Eq, Structural)]
pub enum PalatalizedOnlyConsonants {
    J,
    Q,
}

/// One unit of the sequence that gets spelled.
#[allow(inconsistent_fields)]
#[derive(Clone, Copy, Debug, PartialEq, Eq, Structural)]
pub enum Phoneme {
    Vowel { phoneme: Vowels },
    Consonant { phoneme: Consonants, is_palatalized: bool },
    PalatalizedOnlyConsonant { phoneme: PalatalizedOnlyConsonants },
    /// A word boundary, spelled as a space.
    Probel,
}

impl Phoneme {
    /// A vowel of any quality.
    pub open spec fn spec_is_vowel(self) -> bool {
        self is Vowel
    }

    /// A consonant of either kind, palatalized or not.
    pub open spec fn spec_is_consonant(self) -> bool {
        self is Consonant || self is PalatalizedOnlyConsonant
    }

    /// A consonant that is pronounced soft: one of the always palatalized
    /// ones, or another with its flag set.
    pub open spec fn spec_is_palatalized(self) -> bool {
        match self {
            Phoneme::Consonant { is_palatalized, .. } => is_palatalized,
            Phoneme::PalatalizedOnlyConsonant { .. } => true,
            _ => false,
        }
    }

    /// One of the two soft consonants after which a vowel keeps its plain
    /// letter: palatalized `W`, and `Q`.
    pub open spec fn spec_is_hard_trigger(self) -> bool {
        self == (Phoneme::Consonant { phoneme: Consonants::W, is_palatalized: true })
            || self == (Phoneme::PalatalizedOnlyConsonant { phoneme: PalatalizedOnlyConsonants::Q })
    }

    /// Computes [`Self::spec_is_vowel`].
    #[verifier::when_used_as_spec(spec_is_vowel)]
    pub fn is_vowel(self) -> (b: bool)
        ensures
            b == self.spec_is_vowel(),
    {
        match self {
            Phoneme::Vowel { phoneme: _ } => true,
            Phoneme::Consonant { phoneme: _, is_palatalized: _ } => false,
            Phoneme::PalatalizedOnlyConsonant { phoneme: _ } => false,
            Phoneme::Probel => false,
        }
    }

    /// Computes [`Self::spec_is_consonant`].
    #[verifier::when_used_as_spec(spec_is_consonant)]
    pub fn is_consonant(self) -> (b: bool)
        ensures
            b == self.spec_is_consonant(),
    {
        match self {
            Phoneme::Vowel { phoneme: _ } => false,
            Phoneme::Consonant { phoneme: _, is_palatalized: _ } => true,
            Phoneme::PalatalizedOnlyConsonant { phoneme: _ } => true,
            Phoneme::Probel => false,
        }
    }

    /// Computes [`Self::spec_is_palatalized`].
    #[verifier::when_used_as_spec(spec_is_palatalized)]
    pub fn is_palatalized(self) -> (b: bool)
        ensures
            b == self.spec_is_palatalized(),
    {
        match self {
            Phoneme::Vowel { phoneme: _ } => false,
            Phoneme::Consonant { phoneme: _, is_palatalized } => is_palatalized,
            Phoneme::PalatalizedOnlyConsonant { phoneme: _ } => true,
            Phoneme::Probel => false,
        }
    }

    /// Computes [`Self::spec_is_hard_trigger`].
    #[verifier::when_used_as_spec(spec_is_hard_trigger)]
    pub fn is_hard_trigger(self) -> (b: bool)
        ensures
            b == self.spec_is_hard_trigger(),
    {
        match self {
            Phoneme::Vowel { phoneme: _ } => false,
            Phoneme::Consonant { phoneme, is_palatalized } => match phoneme {
                Consonants::W => is_palatalized,
                _ => false,
            },
            Phoneme::PalatalizedOnlyConsonant { phoneme } => match phoneme {
                PalatalizedOnlyConsonants::J => false,
                PalatalizedOnlyConsonants::Q => true,
            },
            Phoneme::Probel => false,
        }
    }
}

/// An ordered sequence of phonemes. Every sequence is valid; its view is the
/// sequence itself.
#[derive(Debug, PartialEq, Eq)]
pub struct PhonemeSeq(pub Vec<Phoneme>);

impl Clone for PhonemeSeq {
    fn clone(&self) -> (copy: Self)
        ensures
            copy@ == self@,
    {
        PhonemeSeq(self.0.clone())
    }
}

impl View for PhonemeSeq {
    type V = Seq<Phoneme>;

    open spec fn view(&self) -> Seq<Phoneme> {
        self.0@
    }
}

} // verus!
