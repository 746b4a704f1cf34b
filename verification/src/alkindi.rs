//! Letter-frequency analysis of a ciphertext.

use vstd::pervasive::VecAdditionalExecFns;
use vstd::prelude::*;
use vstd::string::StrSliceExecFns;

verus! {

/// A character of the analysed text together with how often it occurs.
pub struct Letter {
    /// The counted character.
    pub character: char,
    /// How often it occurs.
    pub count: u32,
}

/// The letter counts of one text.
pub struct LetterCount {
    /// One entry per distinct character of the text.
    pub letters: Vec<Letter>,
}

/// The number of occurrences of `c` in `s`.
pub open spec fn spec_char_count(s: Seq<char>, c: char) -> int
    decreases s.len(),
{
    if s.len() == 0 {
        0
    } else {
        spec_char_count(s.drop_last(), c) + if s.last() == c {
            1int
        } else {
            0
        }
    }
}

/// A character occurs at most once per position.
pub proof fn lemma_char_count_le_len(s: Seq<char>, c: char)
    ensures
        0 <= spec_char_count(s, c) <= s.len(),
    decreases s.len(),
{
    if s.len() > 0 {
        lemma_char_count_le_len(s.drop_last(), c);
    }
}

/// A character has no occurrences exactly when the sequence does not
/// contain it.
pub proof fn lemma_char_count_zero(s: Seq<char>, c: char)
    ensures
        (spec_char_count(s, c) == 0) <==> !s.contains(c),
    decreases s.len(),
{
    if s.len() > 0 {
        lemma_char_count_zero(s.drop_last(), c);
        lemma_char_count_le_len(s.drop_last(), c);
        assert(s.contains(c) <==> (s.drop_last().contains(c) || s.last() == c)) by {
            if s.contains(c) && s.last() != c {
                let w = choose|w: int| 0 <= w < s.len() && s[w] == c;
                assert(s.drop_last()[w] == c);
            }
            if s.drop_last().contains(c) {
                let w = choose|w: int| 0 <= w < s.len() - 1 && s.drop_last()[w] == c;
                assert(s[w] == c);
            }
        }
    }
}

/// True when some entry of `ls` counts the character `c`.
pub open spec fn spec_letter_for(ls: Seq<Letter>, c: char) -> bool {
    exists|j: int| 0 <= j < ls.len() && #[trigger] ls[j].character == c
}

/// The position of the first occurrence of `c` in `s`.
pub open spec fn spec_first_index(s: Seq<char>, c: char) -> int
    recommends
        s.contains(c),
    decreases s.len(),
{
    if s.len() == 0 {
        0
    } else if s[0] == c {
        0
    } else {
        1 + spec_first_index(s.drop_first(), c)
    }
}

/// The first index of a contained character points at it and nothing
/// before it equals it.
pub proof fn lemma_first_index(s: Seq<char>, c: char)
    requires
        s.contains(c),
    ensures
        0 <= spec_first_index(s, c) < s.len(),
        s[spec_first_index(s, c)] == c,
        forall|j: int| 0 <= j < spec_first_index(s, c) ==> s[j] != c,
    decreases s.len(),
{
    if s.len() > 0 && s[0] != c {
        let rest = s.drop_first();
        assert(rest.contains(c)) by {
            let i = choose|i: int| 0 <= i < s.len() && s[i] == c;
            assert(rest[i - 1] == s[i]);
        }
        lemma_first_index(rest, c);
        assert(forall|j: int| 1 <= j < spec_first_index(s, c) ==> s[j] == rest[j - 1]);
    }
}

/// The index of the first letter entry counting `c`, when there is one.
fn find_letter(letters: &Vec<Letter>, c: char) -> (r: Option<usize>)
    ensures
        match r {
            Some(i) => i < letters@.len() && letters@[i as int].character == c,
            None => forall|j: int| 0 <= j < letters@.len() ==> letters@[j].character != c,
        },
{
    let mut i: usize = 0;
    while i < letters.len()
        invariant
            i <= letters@.len(),
            forall|j: int| 0 <= j < i ==> letters@[j].character != c,
        decreases letters@.len() - i,
    {
        if letters[i].character == c {
            return Some(i);
        }
        i = i + 1;
    }
    None
}

/// Counts how often each character occurs in the text.  The result
/// holds one entry per distinct character, in order of first
/// appearance, with its exact count.
#[verifier::rlimit(50)]
pub fn count_letters(cyphertext: &str) -> (r: Result<LetterCount, ()>)
    requires
        cyphertext@.len() < 0xffff_ffff,
    ensures
        r matches Ok(lc) && ({
            let ls = lc.letters@;
            &&& forall|i: int, j: int|
                0 <= i < j < ls.len() ==> #[trigger] ls[i].character != #[trigger] ls[j].character
            &&& forall|i: int|
                0 <= i < ls.len() ==> #[trigger] ls[i].count == spec_char_count(
                    cyphertext@,
                    ls[i].character,
                ) && cyphertext@.contains(ls[i].character)
            &&& forall|i: int|
                #![trigger cyphertext@[i]]
                0 <= i < cyphertext@.len() ==> spec_letter_for(ls, cyphertext@[i])
            &&& forall|i: int, j: int|
                0 <= i < j < ls.len() ==> #[trigger] spec_first_index(
                    cyphertext@,
                    ls[i].character,
                ) < #[trigger] spec_first_index(cyphertext@, ls[j].character)
        }),
{
    let mut letter_count: Vec<Letter> = Vec::new();
    let n = cyphertext.unicode_len();
    let mut k: usize = 0;

    while k < n
        invariant
            n == cyphertext@.len() < 0xffff_ffff,
            k <= n,
            forall|i: int, j: int|
                0 <= i < j < letter_count@.len() ==> #[trigger] letter_count@[i].character
                    != #[trigger] letter_count@[j].character,
            forall|i: int|
                0 <= i < letter_count@.len() ==> #[trigger] letter_count@[i].count
                    == spec_char_count(cyphertext@.take(k as int), letter_count@[i].character)
                    && cyphertext@.take(k as int).contains(letter_count@[i].character),
            forall|i: int|
                #![trigger cyphertext@[i]]
                0 <= i < k ==> spec_letter_for(letter_count@, cyphertext@[i]),
            forall|i: int, j: int|
                0 <= i < j < letter_count@.len() ==> #[trigger] spec_first_index(
                    cyphertext@,
                    letter_count@[i].character,
                ) < #[trigger] spec_first_index(cyphertext@, letter_count@[j].character),
        decreases n - k,
    {
        let c = cyphertext.get_char(k);
        let ghost prefix = cyphertext@.take(k as int);
        let ghost extended = cyphertext@.take(k + 1);
        proof {
            assert(extended.drop_last() =~= prefix);
            assert(extended.last() == cyphertext@[k as int]);
            assert(forall|x: char| spec_char_count(extended, x) == spec_char_count(prefix, x) + if x
                == cyphertext@[k as int] {
                1int
            } else {
                0
            });
            assert(forall|x: char| prefix.contains(x) ==> extended.contains(x)) by {
                assert(forall|j: int| 0 <= j < prefix.len() ==> extended[j] == #[trigger] prefix[j]);
            }
        }

        let ghost old_letters = letter_count@;
        proof {
            assert forall|t: int| 0 <= t < old_letters.len() implies (old_letters[t].count
                == spec_char_count(prefix, #[trigger] old_letters[t].character)
                && prefix.contains(old_letters[t].character)) by {
                assert(letter_count@[t].count == spec_char_count(
                    cyphertext@.take(k as int),
                    letter_count@[t].character,
                ) && cyphertext@.take(k as int).contains(letter_count@[t].character));
            }
        }
        match find_letter(&letter_count, c) {
            Some(i) => {
                let current = letter_count[i].count;
                proof {
                    lemma_char_count_le_len(prefix, c);
                }
                letter_count.set(i, Letter { character: c, count: current + 1 });
                proof {
                    assert(old_letters[i as int].character == c);
                    assert(forall|t: int|
                        0 <= t < letter_count@.len() ==> #[trigger] letter_count@[t].character
                            == old_letters[t].character);
                    assert(letter_count@[i as int].character == c);
                    assert forall|t: int|
                        0 <= t < letter_count@.len() implies #[trigger] spec_first_index(
                        cyphertext@,
                        letter_count@[t].character,
                    ) == spec_first_index(cyphertext@, old_letters[t].character) by {
                        assert(letter_count@[t].character == old_letters[t].character);
                    }
                }
            },
            None => {
                proof {
                    assert(spec_char_count(prefix, c) == 0) by {
                        if prefix.contains(c) {
                            let w = choose|w: int| 0 <= w < prefix.len() && prefix[w] == c;
                            assert(cyphertext@[w] == c);
                            assert(spec_letter_for(old_letters, cyphertext@[w]));
                            let j0 = choose|j: int|
                                0 <= j < old_letters.len() && #[trigger] old_letters[j].character
                                    == cyphertext@[w];
                            assert(false);
                        }
                        lemma_char_count_zero(prefix, c);
                    }
                }
                letter_count.push(Letter { character: c, count: 1 });
                proof {
                    assert(forall|t: int|
                        0 <= t < old_letters.len() ==> #[trigger] letter_count@[t]
                            == old_letters[t]);
                    assert(letter_count@[old_letters.len() as int].character == c);

                    assert(!prefix.contains(c)) by {
                        lemma_char_count_zero(prefix, c);
                    }
                    assert(cyphertext@.contains(c)) by {
                        assert(cyphertext@[k as int] == c);
                    }
                    lemma_first_index(cyphertext@, c);
                    assert(spec_first_index(cyphertext@, c) == k) by {
                        let fi = spec_first_index(cyphertext@, c);
                        if fi < k {
                            assert(prefix[fi] == c);
                        }
                    }
                    assert forall|t: int| 0 <= t < old_letters.len() implies #[trigger] spec_first_index(
                        cyphertext@,
                        old_letters[t].character,
                    ) < k by {
                        let ch = old_letters[t].character;
                        assert(old_letters[t].count == spec_char_count(prefix, ch)
                            && prefix.contains(ch));
                        lemma_first_index(prefix, ch);
                        let fp = spec_first_index(prefix, ch);
                        assert(cyphertext@[fp] == ch);
                        assert(cyphertext@.contains(ch));
                        lemma_first_index(cyphertext@, ch);
                        let ft = spec_first_index(cyphertext@, ch);
                        if ft < fp {
                            assert(prefix[ft] == ch);
                        }
                        if fp < ft {
                            assert(cyphertext@[fp] == ch);
                        }
                        assert(ft == fp);
                    }
                }
            },
        }
        proof {
            assert(extended.contains(c)) by {
                assert(extended[k as int] == c);
            }
            assert forall|t: int| 0 <= t < letter_count@.len() implies (
            #[trigger] letter_count@[t].count == spec_char_count(
                extended,
                letter_count@[t].character,
            ) && extended.contains(letter_count@[t].character)) by {
                if t < old_letters.len() {
                    assert(old_letters[t].count == spec_char_count(prefix, old_letters[t].character)
                        && prefix.contains(old_letters[t].character));
                }
            }
            assert forall|i2: int|
                #![trigger cyphertext@[i2]]
                0 <= i2 < k + 1 implies spec_letter_for(letter_count@, cyphertext@[i2]) by {
                if i2 == k {
                    assert(spec_letter_for(letter_count@, c));
                } else {
                    assert(spec_letter_for(old_letters, cyphertext@[i2]));
                    let j0 = choose|j: int|
                        0 <= j < old_letters.len() && #[trigger] old_letters[j].character
                            == cyphertext@[i2];
                    assert(letter_count@[j0].character == cyphertext@[i2]);
                }
            }
        }
        k = k + 1;
    }
    proof {
        assert(cyphertext@.take(n as int) =~= cyphertext@);
    }

    Ok(LetterCount { letters: letter_count })
}

} // verus!
