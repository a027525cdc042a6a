//! The conversion as one value: sounds in, Cyrillic text out.

use vstd::prelude::*;
use vstd::std_specs::convert::FromSpecImpl;
use crate::phoneme::{Phoneme, PhonemeSeq};
use crate::reducer::reduction;
use crate::renderer::rendering;
use crate::sound::Sound;

verus! {

/// A phrase in the reduced phonology, made from decoded sounds and read back
/// as Cyrillic text. Its view is its phoneme sequence.
pub struct Ru(PhonemeSeq);

impl Clone for Ru {
    fn clone(&self) -> (copy: Self)
        ensures
            copy@ == self@,
    {
        Ru(self.0.clone())
    }
}

impl View for Ru {
    type V = Seq<Phoneme>;

    closed spec fn view(&self) -> Seq<Phoneme> {
        self.0@
    }
}

impl From<Vec<Sound>> for Ru {
    /// Reduces the sounds to phonemes.
    fn from(sounds: Vec<Sound>) -> (ru: Ru)
        ensures
            ru@ == reduction(sounds@),
    {
        Ru(PhonemeSeq::new(sounds))
    }
}

impl FromSpecImpl<Vec<Sound>> for Ru {
    open spec fn obeys_from_spec() -> bool {
        false
    }

    open spec fn from_spec(sounds: Vec<Sound>) -> Ru {
        arbitrary()
    }
}

impl Ru {
    /// Finishes a conversion that began with a parser: sounds that were
    /// parsed are reduced, and the error of a parser that failed is handed on
    /// as it came.
    pub fn from_parsed<E>(parsed: Result<Vec<Sound>, E>) -> (converted: Result<Ru, E>)
        ensures
            match parsed {
                Ok(sounds) => converted matches Ok(ru) && ru@ == reduction(sounds@),
                Err(error) => converted == Err::<Ru, E>(error),
            },
    {
        match parsed {
            Ok(sounds) => Ok(Ru::from(sounds)),
            Err(error) => Err(error),
        }
    }

    /// Spells the phrase.
    pub fn to_string(&self) -> (text: String)
        ensures
            text@ == rendering(self@),
    {
        self.0.to_string()
    }
}

} // verus!
