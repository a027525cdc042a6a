use ipa_ru::phoneme::{Consonants, PalatalizedOnlyConsonants, Phoneme, PhonemeSeq, Vowels};

const ALL_VOWELS: [Vowels; 5] = [Vowels::A, Vowels::E, Vowels::I, Vowels::O, Vowels::U];

const ALL_CONSONANTS: [Consonants; 18] = [
    Consonants::P,
    Consonants::B,
    Consonants::F,
    Consonants::V,
    Consonants::K,
    Consonants::G,
    Consonants::T,
    Consonants::D,
    Consonants::W,
    Consonants::X,
    Consonants::S,
    Consonants::Z,
    Consonants::L,
    Consonants::M,
    Consonants::N,
    Consonants::R,
    Consonants::H,
    Consonants::C,
];

fn all_phonemes() -> Vec<Phoneme> {
    let mut all = vec![Phoneme::Probel];
    for phoneme in ALL_VOWELS {
        all.push(Phoneme::Vowel { phoneme });
    }
    for phoneme in ALL_CONSONANTS {
        all.push(Phoneme::Consonant { phoneme, is_palatalized: false });
        all.push(Phoneme::Consonant { phoneme, is_palatalized: true });
    }
    all.push(Phoneme::PalatalizedOnlyConsonant { phoneme: PalatalizedOnlyConsonants::J });
    all.push(Phoneme::PalatalizedOnlyConsonant { phoneme: PalatalizedOnlyConsonants::Q });
    all
}

fn iotated(vowel: Vowels) -> &'static str {
    match vowel {
        Vowels::A => "я",
        Vowels::E => "е",
        Vowels::I => "и",
        Vowels::O => "ё",
        Vowels::U => "ю",
    }
}

#[test]
fn phoneme_kinds() {
    for phoneme in all_phonemes() {
        let (vowel, consonant, palatalized, hard_trigger) = match phoneme {
            Phoneme::Vowel { .. } => (true, false, false, false),
            Phoneme::Consonant { phoneme, is_palatalized } => {
                (false, true, is_palatalized, is_palatalized && phoneme == Consonants::W)
            }
            Phoneme::PalatalizedOnlyConsonant { phoneme } => {
                (false, true, true, phoneme == PalatalizedOnlyConsonants::Q)
            }
            Phoneme::Probel => (false, false, false, false),
        };
        assert_eq!(phoneme.is_vowel(), vowel);
        assert_eq!(phoneme.is_consonant(), consonant);
        assert_eq!(phoneme.is_palatalized(), palatalized);
        assert_eq!(phoneme.is_hard_trigger(), hard_trigger);
    }
}

#[test]
fn vowel_after_soft_consonant_is_iotated() {
    let mut softeners = vec![Phoneme::PalatalizedOnlyConsonant {
        phoneme: PalatalizedOnlyConsonants::J,
    }];
    for phoneme in ALL_CONSONANTS {
        if phoneme != Consonants::W {
            softeners.push(Phoneme::Consonant { phoneme, is_palatalized: true });
        }
    }
    for before in all_phonemes() {
        for softener in &softeners {
            for vowel in ALL_VOWELS {
                for after in all_phonemes() {
                    let phonemes = PhonemeSeq(vec![
                        before,
                        *softener,
                        Phoneme::Vowel { phoneme: vowel },
                        after,
                    ]);
                    assert_eq!(phonemes.glyph(2), iotated(vowel));
                }
            }
        }
    }
}

#[test]
fn jot_before_vowel_is_hard_sign_or_nothing() {
    let jot = Phoneme::PalatalizedOnlyConsonant { phoneme: PalatalizedOnlyConsonants::J };
    for vowel in ALL_VOWELS {
        let next = Phoneme::Vowel { phoneme: vowel };
        assert_eq!(PhonemeSeq(vec![jot, next]).glyph(0), "");
        for before in all_phonemes() {
            let phonemes = PhonemeSeq(vec![before, jot, next]);
            let expected = if before.is_consonant() { "ъ" } else { "" };
            assert_eq!(phonemes.glyph(1), expected);
        }
    }
}

#[test]
fn replacing_a_phoneme_changes_nothing_two_positions_away() {
    let base = vec![
        Phoneme::Consonant { phoneme: Consonants::D, is_palatalized: true },
        Phoneme::PalatalizedOnlyConsonant { phoneme: PalatalizedOnlyConsonants::J },
        Phoneme::Vowel { phoneme: Vowels::E },
        Phoneme::Consonant { phoneme: Consonants::W, is_palatalized: true },
        Phoneme::Vowel { phoneme: Vowels::A },
        Phoneme::Probel,
        Phoneme::Consonant { phoneme: Consonants::N, is_palatalized: true },
    ];
    let unchanged = PhonemeSeq(base.clone());
    for k in 0..base.len() {
        for replacement in all_phonemes() {
            let mut changed = base.clone();
            changed[k] = replacement;
            let changed = PhonemeSeq(changed);
            for j in 0..base.len() {
                if j + 1 < k || k + 1 < j {
                    assert_eq!(changed.glyph(j), unchanged.glyph(j));
                }
            }
        }
    }
}

#[test]
fn text_is_the_glyphs_in_order() {
    for first in all_phonemes() {
        for second in all_phonemes() {
            for third in all_phonemes() {
                let phonemes = PhonemeSeq(vec![first, second, third]);
                let glyphs = [phonemes.glyph(0), phonemes.glyph(1), phonemes.glyph(2)];
                assert_eq!(phonemes.to_string(), glyphs.concat());
            }
        }
    }
}

#[test]
fn text_is_short_and_cyrillic() {
    for first in all_phonemes() {
        for second in all_phonemes() {
            for third in all_phonemes() {
                let text = PhonemeSeq(vec![first, second, third]).to_string();
                assert!(text.chars().count() <= 6);
                for c in text.chars() {
                    assert!(c == ' ' || ('а'..='я').contains(&c) || c == 'ё');
                }
            }
        }
    }
}

#[test]
fn words_are_spelled_apart() {
    let words = [
        vec![],
        vec![Phoneme::Vowel { phoneme: Vowels::A }],
        vec![Phoneme::Consonant { phoneme: Consonants::N, is_palatalized: true }],
        vec![
            Phoneme::PalatalizedOnlyConsonant { phoneme: PalatalizedOnlyConsonants::J },
            Phoneme::Vowel { phoneme: Vowels::U },
            Phoneme::Consonant { phoneme: Consonants::L, is_palatalized: true },
        ],
        vec![
            Phoneme::Consonant { phoneme: Consonants::W, is_palatalized: true },
            Phoneme::PalatalizedOnlyConsonant { phoneme: PalatalizedOnlyConsonants::J },
        ],
    ];
    for first in &words {
        for second in &words {
            let mut joined = first.clone();
            joined.push(Phoneme::Probel);
            joined.extend(second.iter().copied());
            let expected = format!(
                "{} {}",
                PhonemeSeq(first.clone()).to_string(),
                PhonemeSeq(second.clone()).to_string()
            );
            assert_eq!(PhonemeSeq(joined).to_string(), expected);
        }
    }
}
