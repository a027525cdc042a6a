//! Spelling of a phoneme sequence in Cyrillic letters.
//!
//! Every position is spelled on its own, with zero, one or two characters.
//! Which characters depends on the phoneme at the position, on the phoneme
//! directly before it and on the phoneme directly after it, and on nothing
//! else. The text of a sequence is the spellings of its positions in order.

use vstd::prelude::*;
use vstd::seq_lib::lemma_flatten_concat;
use vstd::string::StringExecFns;
use crate::phoneme::{Consonants, PalatalizedOnlyConsonants, Phoneme, PhonemeSeq, Vowels};

verus! {

/// The letter of a vowel that does not follow a softening consonant.
pub open spec fn plain_vowel(vowel: Vowels) -> char {
    match vowel {
        Vowels::A => 'а',
        Vowels::E => 'э',
        Vowels::I => 'ы',
        Vowels::O => 'о',
        Vowels::U => 'у',
    }
}

/// The letter of a vowel that carries the softness of the consonant before it.
pub open spec fn iotated_vowel(vowel: Vowels) -> char {
    match vowel {
        Vowels::A => 'я',
        Vowels::E => 'е',
        Vowels::I => 'и',
        Vowels::O => 'ё',
        Vowels::U => 'ю',
    }
}

/// The letter of a consonant. `C` shares its letter with `S`. For `W` this is
/// the letter of the plain consonant; palatalized `W` has a letter of its own.
pub open spec fn consonant_letter(consonant: Consonants) -> char {
    match consonant {
        Consonants::P => 'п',
        Consonants::B => 'б',
        Consonants::F => 'ф',
        Consonants::V => 'в',
        Consonants::K => 'к',
        Consonants::G => 'г',
        Consonants::T => 'т',
        Consonants::D => 'д',
        Consonants::W => 'ш',
        Consonants::X => 'ж',
        Consonants::S => 'с',
        Consonants::Z => 'з',
        Consonants::L => 'л',
        Consonants::M => 'м',
        Consonants::N => 'н',
        Consonants::R => 'р',
        Consonants::H => 'х',
        Consonants::C => 'с',
    }
}

/// A vowel is one letter, the iotated one if `iotated` is set.
pub open spec fn vowel_spelling(vowel: Vowels, iotated: bool) -> Seq<char> {
    seq![if iotated { iotated_vowel(vowel) } else { plain_vowel(vowel) }]
}

/// A consonant is its letter, followed by the soft sign when it is palatalized
/// and no vowel comes next to show it. `W` never takes the soft sign: it
/// changes its letter instead.
pub open spec fn consonant_spelling(
    consonant: Consonants,
    is_palatalized: bool,
    next_is_vowel: bool,
) -> Seq<char> {
    if consonant == Consonants::W {
        seq![if is_palatalized { 'щ' } else { 'ш' }]
    } else if is_palatalized && !next_is_vowel {
        seq![consonant_letter(consonant), 'ь']
    } else {
        seq![consonant_letter(consonant)]
    }
}

/// `Q` is always one letter. `J` is a letter of its own unless a vowel comes
/// next; before a vowel it is the hard sign after a consonant, and nothing
/// otherwise.
pub open spec fn palatalized_only_spelling(
    consonant: PalatalizedOnlyConsonants,
    prev_is_consonant: bool,
    next_is_vowel: bool,
) -> Seq<char> {
    match consonant {
        PalatalizedOnlyConsonants::J => if !next_is_vowel {
            seq!['й']
        } else if prev_is_consonant {
            seq!['ъ']
        } else {
            Seq::empty()
        },
        PalatalizedOnlyConsonants::Q => seq!['ч'],
    }
}

/// The phoneme before position `i` is palatalized. False at the start.
pub open spec fn prev_palatalized(s: Seq<Phoneme>, i: int) -> bool {
    0 < i <= s.len() && s[i - 1].is_palatalized()
}

/// The phoneme before position `i` is a consonant. False at the start.
pub open spec fn prev_is_consonant(s: Seq<Phoneme>, i: int) -> bool {
    0 < i <= s.len() && s[i - 1].is_consonant()
}

/// The phoneme before position `i` is palatalized `W` or `Q`. False at the
/// start.
pub open spec fn prev_is_hard_trigger(s: Seq<Phoneme>, i: int) -> bool {
    0 < i <= s.len() && s[i - 1].is_hard_trigger()
}

/// The phoneme after position `i` is a vowel. False at the end.
pub open spec fn next_is_vowel(s: Seq<Phoneme>, i: int) -> bool {
    0 <= i + 1 < s.len() && s[i + 1].is_vowel()
}

/// The characters that position `i` of `s` contributes to the text.
pub open spec fn spelling_at(s: Seq<Phoneme>, i: int) -> Seq<char>
    recommends
        0 <= i < s.len(),
{
    match s[i] {
        Phoneme::Vowel { phoneme } => vowel_spelling(
            phoneme,
            prev_palatalized(s, i) && !prev_is_hard_trigger(s, i),
        ),
        Phoneme::Consonant { phoneme, is_palatalized } => consonant_spelling(
            phoneme,
            is_palatalized,
            next_is_vowel(s, i),
        ),
        Phoneme::PalatalizedOnlyConsonant { phoneme } => palatalized_only_spelling(
            phoneme,
            prev_is_consonant(s, i),
            next_is_vowel(s, i),
        ),
        Phoneme::Probel => seq![' '],
    }
}

/// The spellings of all positions of `s`, one entry per position.
pub open spec fn spellings(s: Seq<Phoneme>) -> Seq<Seq<char>> {
    Seq::new(s.len(), |i: int| spelling_at(s, i))
}

/// The text of `s`: the spellings of its positions, joined in order.
pub open spec fn rendering(s: Seq<Phoneme>) -> Seq<char> {
    spellings(s).flatten()
}

/// The letter of a vowel, as text.
pub fn spell_vowel(vowel: Vowels, iotated: bool) -> (glyph: &'static str)
    ensures
        glyph@ == vowel_spelling(vowel, iotated),
{
    proof {
        reveal_strlit("я");
        reveal_strlit("а");
        reveal_strlit("е");
        reveal_strlit("э");
        reveal_strlit("и");
        reveal_strlit("ы");
        reveal_strlit("ё");
        reveal_strlit("о");
        reveal_strlit("ю");
        reveal_strlit("у");
    }
    match vowel {
        Vowels::A => if iotated { "я" } else { "а" },
        Vowels::E => if iotated { "е" } else { "э" },
        Vowels::I => if iotated { "и" } else { "ы" },
        Vowels::O => if iotated { "ё" } else { "о" },
        Vowels::U => if iotated { "ю" } else { "у" },
    }
}

/// The letter of a consonant, with the soft sign where it is due, as text.
pub fn spell_consonant(
    consonant: Consonants,
    is_palatalized: bool,
    next_is_vowel: bool,
) -> (glyph: &'static str)
    ensures
        glyph@ == consonant_spelling(consonant, is_palatalized, next_is_vowel),
{
    let is_jer = is_palatalized && !next_is_vowel;
    proof {
        reveal_strlit("п");
        reveal_strlit("пь");
        reveal_strlit("б");
        reveal_strlit("бь");
        reveal_strlit("ф");
        reveal_strlit("фь");
        reveal_strlit("в");
        reveal_strlit("вь");
        reveal_strlit("к");
        reveal_strlit("кь");
        reveal_strlit("г");
        reveal_strlit("гь");
        reveal_strlit("т");
        reveal_strlit("ть");
        reveal_strlit("д");
        reveal_strlit("дь");
        reveal_strlit("щ");
        reveal_strlit("ш");
        reveal_strlit("ж");
        reveal_strlit("жь");
        reveal_strlit("с");
        reveal_strlit("сь");
        reveal_strlit("з");
        reveal_strlit("зь");
        reveal_strlit("л");
        reveal_strlit("ль");
        reveal_strlit("м");
        reveal_strlit("мь");
        reveal_strlit("н");
        reveal_strlit("нь");
        reveal_strlit("р");
        reveal_strlit("рь");
        reveal_strlit("х");
        reveal_strlit("хь");
    }
    match consonant {
        Consonants::P => if is_jer { "пь" } else { "п" },
        Consonants::B => if is_jer { "бь" } else { "б" },
        Consonants::F => if is_jer { "фь" } else { "ф" },
        Consonants::V => if is_jer { "вь" } else { "в" },
        Consonants::K => if is_jer { "кь" } else { "к" },
        Consonants::G => if is_jer { "гь" } else { "г" },
        Consonants::T => if is_jer { "ть" } else { "т" },
        Consonants::D => if is_jer { "дь" } else { "д" },
        Consonants::W => if is_palatalized { "щ" } else { "ш" },
        Consonants::X => if is_jer { "жь" } else { "ж" },
        Consonants::S => if is_jer { "сь" } else { "с" },
        Consonants::Z => if is_jer { "зь" } else { "з" },
        Consonants::L => if is_jer { "ль" } else { "л" },
        Consonants::M => if is_jer { "мь" } else { "м" },
        Consonants::N => if is_jer { "нь" } else { "н" },
        Consonants::R => if is_jer { "рь" } else { "р" },
        Consonants::H => if is_jer { "хь" } else { "х" },
        Consonants::C => if is_jer { "сь" } else { "с" },
    }
}

/// What is written for an always palatalized consonant, as text.
pub fn spell_palatalized_only(
    consonant: PalatalizedOnlyConsonants,
    prev_is_consonant: bool,
    next_is_vowel: bool,
) -> (glyph: &'static str)
    ensures
        glyph@ == palatalized_only_spelling(consonant, prev_is_consonant, next_is_vowel),
{
    proof {
        reveal_strlit("ъ");
        reveal_strlit("й");
        reveal_strlit("");
        reveal_strlit("ч");
    }
    match consonant {
        PalatalizedOnlyConsonants::J => if next_is_vowel && prev_is_consonant {
            "ъ"
        } else if !next_is_vowel {
            "й"
        } else {
            ""
        },
        PalatalizedOnlyConsonants::Q => "ч",
    }
}

impl PhonemeSeq {
    /// Spells position `i`, looking one position back and one ahead.
    pub fn glyph(&self, i: usize) -> (glyph: &'static str)
        requires
            i < self@.len(),
        ensures
            glyph@ == spelling_at(self@, i as int),
    {
        let len = self.0.len();
        let is_prev_palatalized = i > 0 && self.0[i - 1].is_palatalized();
        let is_vowel_next = i + 1 < len && self.0[i + 1].is_vowel();
        let is_consonant_prev = i > 0 && self.0[i - 1].is_consonant();
        let is_q_or_wj_prev = i > 0 && self.0[i - 1].is_hard_trigger();
        match self.0[i] {
            Phoneme::Vowel { phoneme } => spell_vowel(
                phoneme,
                is_prev_palatalized && !is_q_or_wj_prev,
            ),
            Phoneme::Consonant { phoneme, is_palatalized } => spell_consonant(
                phoneme,
                is_palatalized,
                is_vowel_next,
            ),
            Phoneme::PalatalizedOnlyConsonant { phoneme } => spell_palatalized_only(
                phoneme,
                is_consonant_prev,
                is_vowel_next,
            ),
            Phoneme::Probel => {
                proof {
                    reveal_strlit(" ");
                }
                " "
            },
        }
    }

    /// Spells the whole sequence, position by position from left to right.
    pub fn to_string(&self) -> (text: String)
        ensures
            text@ == rendering(self@),
    {
        let mut text = String::new();
        let mut i: usize = 0;
        while i < self.0.len()
            invariant
                i <= self@.len(),
                text@ == spellings(self@).take(i as int).flatten(),
            decreases self@.len() - i,
        {
            let glyph = self.glyph(i);
            text.append(glyph);
            proof {
                let all = spellings(self@);
                assert(all.take(i + 1) =~= all.take(i as int).push(all[i as int]));
                all.take(i as int).lemma_flatten_push(all[i as int]);
            }
            i += 1;
        }
        proof {
            assert(spellings(self@).take(i as int) =~= spellings(self@));
        }
        text
    }
}

/// A vowel that follows a palatalized consonant other than `W`, or follows
/// `J`, is spelled with its iotated letter.
pub proof fn lemma_vowel_after_soft_consonant_is_iotated(s: Seq<Phoneme>, i: int)
    requires
        0 < i < s.len(),
        s[i] is Vowel,
        ({
            ||| s[i - 1] matches Phoneme::Consonant { phoneme, is_palatalized } && is_palatalized
                && phoneme != Consonants::W
            ||| s[i - 1] == (Phoneme::PalatalizedOnlyConsonant {
                phoneme: PalatalizedOnlyConsonants::J,
            })
        }),
    ensures
        s[i] matches Phoneme::Vowel { phoneme } && spelling_at(s, i) == seq![iotated_vowel(phoneme)],
{
}

/// A vowel that follows palatalized `W` or `Q` keeps its plain letter, soft
/// as the two consonants are.
pub proof fn lemma_vowel_after_hard_trigger_is_plain(s: Seq<Phoneme>, i: int)
    requires
        0 < i < s.len(),
        s[i] is Vowel,
        ({
            ||| s[i - 1] == (Phoneme::Consonant { phoneme: Consonants::W, is_palatalized: true })
            ||| s[i - 1] == (Phoneme::PalatalizedOnlyConsonant {
                phoneme: PalatalizedOnlyConsonants::Q,
            })
        }),
    ensures
        s[i] matches Phoneme::Vowel { phoneme } && spelling_at(s, i) == seq![plain_vowel(phoneme)],
{
}

/// `J` before a vowel is the hard sign when a consonant stands before it, and
/// is not written at all when none does.
pub proof fn lemma_jot_before_vowel(s: Seq<Phoneme>, i: int)
    requires
        0 <= i < s.len(),
        s[i] == (Phoneme::PalatalizedOnlyConsonant { phoneme: PalatalizedOnlyConsonants::J }),
        next_is_vowel(s, i),
    ensures
        prev_is_consonant(s, i) ==> spelling_at(s, i) == seq!['ъ'],
        !prev_is_consonant(s, i) ==> spelling_at(s, i) == Seq::<char>::empty(),
{
}

/// The spelling of a position reads the sequence no further than one
/// position away: replacing the phoneme at `k` changes nothing at a position
/// `j` that is not `k` and not next to it.
pub proof fn lemma_spelling_is_local(s: Seq<Phoneme>, k: int, replacement: Phoneme, j: int)
    requires
        0 <= k < s.len(),
        0 <= j < s.len(),
        j - k > 1 || k - j > 1,
    ensures
        spelling_at(s.update(k, replacement), j) == spelling_at(s, j),
{
}

/// The characters that a text can hold: the space and the small Cyrillic
/// letters, which run from `а` to `я` with both signs among them, and `ё`.
pub open spec fn is_text_char(c: char) -> bool {
    c == ' ' || 'а' <= c <= 'я' || c == 'ё'
}

/// A position is spelled with at most two characters, each of them a
/// character of a text.
pub proof fn lemma_spelling_shape(s: Seq<Phoneme>, i: int)
    requires
        0 <= i < s.len(),
    ensures
        spelling_at(s, i).len() <= 2,
        forall|k: int|
            0 <= k < spelling_at(s, i).len() ==> is_text_char(#[trigger] spelling_at(s, i)[k]),
{
}

/// A text is at most twice as long as its sequence, and holds characters of
/// a text only.
pub proof fn lemma_rendering_shape(s: Seq<Phoneme>)
    ensures
        rendering(s).len() <= 2 * s.len(),
        forall|k: int| 0 <= k < rendering(s).len() ==> is_text_char(#[trigger] rendering(s)[k]),
{
    lemma_rendered_prefix_shape(s, s.len());
    assert(spellings(s).take(s.len() as int) =~= spellings(s));
}

/// The same of the text of the first `n` positions, by induction on `n`.
proof fn lemma_rendered_prefix_shape(s: Seq<Phoneme>, n: nat)
    requires
        n <= s.len(),
    ensures
        spellings(s).take(n as int).flatten().len() <= 2 * n,
        forall|k: int|
            0 <= k < spellings(s).take(n as int).flatten().len() ==> is_text_char(
                #[trigger] spellings(s).take(n as int).flatten()[k],
            ),
    decreases n,
{
    let all = spellings(s);
    if n == 0 {
        assert(all.take(0) =~= Seq::<Seq<char>>::empty());
    } else {
        let m = (n - 1) as nat;
        lemma_rendered_prefix_shape(s, m);
        lemma_spelling_shape(s, m as int);
        assert(all.take(n as int) =~= all.take(m as int).push(all[m as int]));
        all.take(m as int).lemma_flatten_push(all[m as int]);
    }
}

/// Words are spelled one by one: the text of two sequences with a word
/// boundary between them is the two texts with a space between them.
pub proof fn lemma_words_render_apart(a: Seq<Phoneme>, b: Seq<Phoneme>)
    ensures
        rendering(a + seq![Phoneme::Probel] + b) == rendering(a) + seq![' '] + rendering(b),
{
    let s = a + seq![Phoneme::Probel] + b;
    let gap: Seq<Seq<char>> = seq![seq![' ']];
    assert forall|i: int| 0 <= i < a.len() implies spelling_at(s, i) == spelling_at(a, i) by {
        assert(s[i] == a[i]);
        if i > 0 {
            assert(s[i - 1] == a[i - 1]);
        }
        if i + 1 < a.len() {
            assert(s[i + 1] == a[i + 1]);
        } else {
            assert(s[i + 1] == Phoneme::Probel);
        }
    }
    assert forall|j: int| 0 <= j < b.len() implies spelling_at(s, a.len() + 1 + j)
        == spelling_at(b, j) by {
        let i = a.len() + 1 + j;
        assert(s[i] == b[j]);
        if j > 0 {
            assert(s[i - 1] == b[j - 1]);
        } else {
            assert(s[i - 1] == Phoneme::Probel);
        }
        if j + 1 < b.len() {
            assert(s[i + 1] == b[j + 1]);
        }
    }
    assert(spelling_at(s, a.len() as int) == seq![' ']);
    assert(spellings(s) =~= spellings(a) + gap + spellings(b));
    lemma_flatten_concat(spellings(a) + gap, spellings(b));
    lemma_flatten_concat(spellings(a), gap);
    gap.lemma_flatten_one_element();
}

} // verus!
