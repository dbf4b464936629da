//! The Mastermind scoring rule: black (exact-position) pins, and white
//! (right color, wrong position) pins computed from per-color occurrence
//! counts, together with the arithmetic facts that bound them.

use vstd::prelude::*;

verus! {

use crate::guess::{Colors, is_selectable, lemma_palette_contents, palette, palette_position};

/// Every color of the sequence is player-selectable; guesses and secrets
/// that reach scoring always satisfy this.
pub open spec fn all_selectable(s: Seq<Colors>) -> bool {
    forall|i: int| 0 <= i < s.len() ==> is_selectable(s[i])
}

/// Number of positions where the two sequences hold the same color: the
/// black-pin count.
pub open spec fn exact_count(secret: Seq<Colors>, guess: Seq<Colors>) -> int
    decreases secret.len(),
{
    if secret.len() == 0 || guess.len() == 0 {
        0
    } else {
        exact_count(secret.drop_last(), guess.drop_last()) + if secret.last() == guess.last() {
            1int
        } else {
            0int
        }
    }
}

/// How often color `c` occurs in `s`.
pub open spec fn color_count(s: Seq<Colors>, c: Colors) -> int
    decreases s.len(),
{
    if s.len() == 0 {
        0
    } else {
        color_count(s.drop_last(), c) + if s.last() == c {
            1int
        } else {
            0int
        }
    }
}

/// The smaller of two counts.
pub open spec fn min_int(a: int, b: int) -> int {
    if a <= b {
        a
    } else {
        b
    }
}

/// Summed over the first `k` palette colors: the occurrences of each color
/// shared by secret and guess, position ignored.
pub open spec fn overlap_upto(secret: Seq<Colors>, guess: Seq<Colors>, k: int) -> int
    decreases k,
{
    if k <= 0 {
        0
    } else {
        overlap_upto(secret, guess, k - 1) + min_int(
            color_count(secret, palette()[k - 1]),
            color_count(guess, palette()[k - 1]),
        )
    }
}

/// Total color overlap between secret and guess: for each selectable color,
/// the smaller of its two occurrence counts.
pub open spec fn overlap_count(secret: Seq<Colors>, guess: Seq<Colors>) -> int {
    overlap_upto(secret, guess, 6)
}

/// The white-pin count: colors shared with the secret beyond those already
/// matched in place.
pub open spec fn partial_count(secret: Seq<Colors>, guess: Seq<Colors>) -> int {
    overlap_count(secret, guess) - exact_count(secret, guess)
}

/// The occurrences of each of the first `k` palette colors in `s`, summed.
pub open spec fn counts_sum_upto(s: Seq<Colors>, k: int) -> int
    decreases k,
{
    if k <= 0 {
        0
    } else {
        counts_sum_upto(s, k - 1) + color_count(s, palette()[k - 1])
    }
}

/// How many of the first `k` palette entries equal `c`.
pub open spec fn palette_occurrences(c: Colors, k: int) -> int
    decreases k,
{
    if k <= 0 {
        0
    } else {
        palette_occurrences(c, k - 1) + if palette()[k - 1] == c {
            1int
        } else {
            0int
        }
    }
}

/// A color count is between zero and the sequence length.
pub proof fn lemma_color_count_bounds(s: Seq<Colors>, c: Colors)
    ensures
        0 <= color_count(s, c) <= s.len(),
    decreases s.len(),
{
    if s.len() > 0 {
        lemma_color_count_bounds(s.drop_last(), c);
    }
}

/// Each selectable color appears exactly once in the palette; the sentinels
/// never do.
pub proof fn lemma_palette_occurrences(c: Colors)
    ensures
        is_selectable(c) ==> palette_occurrences(c, 6) == 1,
        !is_selectable(c) ==> palette_occurrences(c, 6) == 0,
{
    reveal_with_fuel(palette_occurrences, 7);
    assert(palette()[0] == Colors::Red);
    assert(palette()[1] == Colors::Blue);
    assert(palette()[2] == Colors::Green);
    assert(palette()[3] == Colors::Yellow);
    assert(palette()[4] == Colors::Black);
    assert(palette()[5] == Colors::White);
}

/// Dropping the last element lowers the sum of palette-color counts by the
/// number of palette entries that element matches.
proof fn lemma_counts_sum_drop(s: Seq<Colors>, k: int)
    requires
        s.len() > 0,
    ensures
        counts_sum_upto(s, k) == counts_sum_upto(s.drop_last(), k) + palette_occurrences(
            s.last(),
            k,
        ),
    decreases k,
{
    if k > 0 {
        lemma_counts_sum_drop(s, k - 1);
    }
}

/// Over a fully selectable sequence, the palette-color counts sum to the
/// sequence length: every element is counted once.
pub proof fn lemma_counts_sum_all(s: Seq<Colors>)
    requires
        all_selectable(s),
    ensures
        counts_sum_upto(s, 6) == s.len(),
    decreases s.len(),
{
    reveal_with_fuel(counts_sum_upto, 7);
    if s.len() == 0 {
        reveal_with_fuel(color_count, 2);
    } else {
        assert(all_selectable(s.drop_last())) by {
            assert(forall|i: int|
                0 <= i < s.len() - 1 ==> s.drop_last()[i] == s[i]);
        }
        lemma_counts_sum_all(s.drop_last());
        lemma_counts_sum_drop(s, 6);
        lemma_palette_occurrences(s.last());
    }
}

/// The color overlap is nonnegative and at most the summed secret-side
/// counts.
pub proof fn lemma_overlap_upto_bounds(secret: Seq<Colors>, guess: Seq<Colors>, k: int)
    ensures
        0 <= overlap_upto(secret, guess, k),
        overlap_upto(secret, guess, k) <= counts_sum_upto(secret, k),
    decreases k,
{
    if k > 0 {
        lemma_overlap_upto_bounds(secret, guess, k - 1);
        lemma_color_count_bounds(secret, palette()[k - 1]);
        lemma_color_count_bounds(guess, palette()[k - 1]);
    }
}

/// Dropping the last element of both sequences: when the dropped colors
/// agree the overlap shrinks by that color's palette multiplicity, and it
/// never grows either way.
proof fn lemma_overlap_drop(secret: Seq<Colors>, guess: Seq<Colors>, k: int)
    requires
        secret.len() > 0,
        guess.len() > 0,
    ensures
        secret.last() == guess.last() ==> overlap_upto(secret, guess, k) == overlap_upto(
            secret.drop_last(),
            guess.drop_last(),
            k,
        ) + palette_occurrences(secret.last(), k),
        secret.last() != guess.last() ==> overlap_upto(secret, guess, k) >= overlap_upto(
            secret.drop_last(),
            guess.drop_last(),
            k,
        ),
    decreases k,
{
    if k > 0 {
        lemma_overlap_drop(secret, guess, k - 1);
    }
}

/// Black pins never outnumber the color overlap, and never the length.
pub proof fn lemma_exact_le_overlap(secret: Seq<Colors>, guess: Seq<Colors>)
    requires
        secret.len() == guess.len(),
        all_selectable(secret),
    ensures
        0 <= exact_count(secret, guess),
        exact_count(secret, guess) <= overlap_count(secret, guess),
        exact_count(secret, guess) <= secret.len(),
    decreases secret.len(),
{
    if secret.len() == 0 {
        lemma_overlap_upto_bounds(secret, guess, 6);
    } else {
        assert(all_selectable(secret.drop_last())) by {
            assert(forall|i: int|
                0 <= i < secret.len() - 1 ==> secret.drop_last()[i] == secret[i]);
        }
        lemma_exact_le_overlap(secret.drop_last(), guess.drop_last());
        lemma_overlap_drop(secret, guess, 6);
        if secret.last() == guess.last() {
            lemma_palette_occurrences(secret.last());
        }
    }
}

/// Black and white pins together never exceed the four slots, and neither
/// count is negative.
pub proof fn lemma_score_bounds(secret: Seq<Colors>, guess: Seq<Colors>)
    requires
        secret.len() == 4,
        guess.len() == 4,
        all_selectable(secret),
        all_selectable(guess),
    ensures
        0 <= exact_count(secret, guess) <= 4,
        0 <= partial_count(secret, guess),
        exact_count(secret, guess) + partial_count(secret, guess) <= 4,
{
    lemma_exact_le_overlap(secret, guess);
    lemma_overlap_upto_bounds(secret, guess, 6);
    lemma_counts_sum_all(secret);
}

/// All four pins are black exactly when the guess equals the secret slot by
/// slot.
pub proof fn lemma_exact_full_iff(secret: Seq<Colors>, guess: Seq<Colors>)
    requires
        secret.len() == guess.len(),
    ensures
        exact_count(secret, guess) == secret.len() <==> secret =~= guess,
        exact_count(secret, guess) <= secret.len(),
        0 <= exact_count(secret, guess),
    decreases secret.len(),
{
    if secret.len() > 0 {
        lemma_exact_full_iff(secret.drop_last(), guess.drop_last());
        if exact_count(secret, guess) == secret.len() {
            assert(secret.drop_last() =~= guess.drop_last());
            assert forall|i: int| 0 <= i < secret.len() implies secret[i] == guess[i] by {
                if i < secret.len() - 1 {
                    assert(secret.drop_last()[i] == guess.drop_last()[i]);
                }
            }
        }
        if secret =~= guess {
            assert(secret.drop_last() =~= guess.drop_last());
        }
    }
}

/// Swapping secret and guess leaves both pin counts unchanged: position
/// matches are mutual, and the per-color minimum is symmetric.
pub proof fn lemma_score_symmetric(secret: Seq<Colors>, guess: Seq<Colors>)
    requires
        secret.len() == guess.len(),
    ensures
        exact_count(secret, guess) == exact_count(guess, secret),
        overlap_count(secret, guess) == overlap_count(guess, secret),
        partial_count(secret, guess) == partial_count(guess, secret),
{
    lemma_exact_symmetric(secret, guess);
    lemma_overlap_symmetric(secret, guess, 6);
}

/// Position matches do not depend on which sequence is called the secret.
proof fn lemma_exact_symmetric(secret: Seq<Colors>, guess: Seq<Colors>)
    ensures
        exact_count(secret, guess) == exact_count(guess, secret),
    decreases secret.len(),
{
    if secret.len() > 0 && guess.len() > 0 {
        lemma_exact_symmetric(secret.drop_last(), guess.drop_last());
    }
}

/// The per-color overlap does not depend on which sequence is called the
/// secret.
proof fn lemma_overlap_symmetric(secret: Seq<Colors>, guess: Seq<Colors>, k: int)
    ensures
        overlap_upto(secret, guess, k) == overlap_upto(guess, secret, k),
    decreases k,
{
    if k > 0 {
        lemma_overlap_symmetric(secret, guess, k - 1);
    }
}

/// Scores a finalized guess against the secret, classic Mastermind style:
/// black pins count slots matched in place; white pins count the remaining
/// color overlap, computed per color as the smaller of the two occurrence
/// counts, with the black pins then subtracted.
pub fn score(secret: &Vec<Colors>, guess: &Vec<Colors>) -> (r: (i32, i32))
    requires
        secret.len() == 4,
        guess.len() == 4,
        all_selectable(secret@),
        all_selectable(guess@),
    ensures
        r.0 == exact_count(secret@, guess@),
        r.1 == partial_count(secret@, guess@),
        0 <= r.0 <= 4,
        0 <= r.1,
        r.0 + r.1 <= 4,
        r.0 == 4 <==> secret@ =~= guess@,
{
    proof {
        lemma_palette_contents();
    }
    let mut occ_secret: Vec<i32> = Vec::new();
    let mut occ_guess: Vec<i32> = Vec::new();
    occ_secret.push(0);
    occ_secret.push(0);
    occ_secret.push(0);
    occ_secret.push(0);
    occ_secret.push(0);
    occ_secret.push(0);
    occ_guess.push(0);
    occ_guess.push(0);
    occ_guess.push(0);
    occ_guess.push(0);
    occ_guess.push(0);
    occ_guess.push(0);
    proof {
        reveal_with_fuel(color_count, 2);
        assert(secret@.take(0) =~= Seq::<Colors>::empty());
        assert(guess@.take(0) =~= Seq::<Colors>::empty());
    }
    let mut i: usize = 0;
    while i < 4
        invariant
            i <= 4,
            secret.len() == 4,
            guess.len() == 4,
            all_selectable(secret@),
            all_selectable(guess@),
            occ_secret.len() == 6,
            occ_guess.len() == 6,
            forall|j: int|
                0 <= j < 6 ==> #[trigger] occ_secret@[j] == color_count(
                    secret@.take(i as int),
                    palette()[j],
                ),
            forall|j: int|
                0 <= j < 6 ==> #[trigger] occ_guess@[j] == color_count(
                    guess@.take(i as int),
                    palette()[j],
                ),
        decreases 4 - i,
    {
        proof {
            lemma_palette_contents();
            assert(is_selectable(secret@[i as int]));
            assert(is_selectable(guess@[i as int]));
        }
        let cs = secret[i];
        let idx_s = palette_position(cs);
        proof {
            lemma_color_count_bounds(secret@.take(i as int), palette()[idx_s as int]);
        }
        let bumped_s = occ_secret[idx_s] + 1;
        occ_secret.set(idx_s, bumped_s);
        let cg = guess[i];
        let idx_g = palette_position(cg);
        proof {
            lemma_color_count_bounds(guess@.take(i as int), palette()[idx_g as int]);
        }
        let bumped_g = occ_guess[idx_g] + 1;
        occ_guess.set(idx_g, bumped_g);
        proof {
            assert(secret@.take(i + 1).drop_last() =~= secret@.take(i as int));
            assert(secret@.take(i + 1).last() == secret@[i as int]);
            assert(guess@.take(i + 1).drop_last() =~= guess@.take(i as int));
            assert(guess@.take(i + 1).last() == guess@[i as int]);
            assert forall|j: int| 0 <= j < 6 implies #[trigger] occ_secret@[j] == color_count(
                secret@.take(i + 1),
                palette()[j],
            ) by {
                if j == idx_s {
                    assert(palette()[j] == cs);
                } else {
                    assert(palette()[j] != cs);
                }
            }
            assert forall|j: int| 0 <= j < 6 implies #[trigger] occ_guess@[j] == color_count(
                guess@.take(i + 1),
                palette()[j],
            ) by {
                if j == idx_g {
                    assert(palette()[j] == cg);
                } else {
                    assert(palette()[j] != cg);
                }
            }
        }
        i += 1;
    }
    proof {
        assert(secret@.take(4) =~= secret@);
        assert(guess@.take(4) =~= guess@);
    }
    let mut black_pins: i32 = 0;
    let mut i: usize = 0;
    while i < 4
        invariant
            i <= 4,
            secret.len() == 4,
            guess.len() == 4,
            0 <= black_pins <= i,
            black_pins == exact_count(secret@.take(i as int), guess@.take(i as int)),
        decreases 4 - i,
    {
        proof {
            assert(secret@.take(i + 1).drop_last() =~= secret@.take(i as int));
            assert(secret@.take(i + 1).last() == secret@[i as int]);
            assert(guess@.take(i + 1).drop_last() =~= guess@.take(i as int));
            assert(guess@.take(i + 1).last() == guess@[i as int]);
        }
        if guess[i] == secret[i] {
            black_pins += 1;
        }
        i += 1;
    }
    proof {
        assert(secret@.take(4) =~= secret@);
        assert(guess@.take(4) =~= guess@);
    }
    let mut total_overlap: i32 = 0;
    let mut j: usize = 0;
    while j < 6
        invariant
            j <= 6,
            secret.len() == 4,
            guess.len() == 4,
            occ_secret.len() == 6,
            occ_guess.len() == 6,
            forall|m: int|
                0 <= m < 6 ==> #[trigger] occ_secret@[m] == color_count(secret@, palette()[m]),
            forall|m: int|
                0 <= m < 6 ==> #[trigger] occ_guess@[m] == color_count(guess@, palette()[m]),
            0 <= total_overlap <= 4 * j,
            total_overlap == overlap_upto(secret@, guess@, j as int),
        decreases 6 - j,
    {
        proof {
            lemma_color_count_bounds(secret@, palette()[j as int]);
            lemma_color_count_bounds(guess@, palette()[j as int]);
        }
        let a = occ_secret[j];
        let b = occ_guess[j];
        let m = if b <= a {
            b
        } else {
            a
        };
        total_overlap += m;
        j += 1;
    }
    proof {
        lemma_exact_le_overlap(secret@, guess@);
        lemma_score_bounds(secret@, guess@);
        lemma_exact_full_iff(secret@, guess@);
    }
    let white_pins = total_overlap - black_pins;
    (black_pins, white_pins)
}

} // verus!
