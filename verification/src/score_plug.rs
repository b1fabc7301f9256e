use vstd::prelude::*;
use crate::config::Score;

verus! {

/// The decimal digit character of `d`, for `d` below ten.
pub open spec fn digit_char(d: nat) -> char {
    if d == 0 { '0' }
    else if d == 1 { '1' }
    else if d == 2 { '2' }
    else if d == 3 { '3' }
    else if d == 4 { '4' }
    else if d == 5 { '5' }
    else if d == 6 { '6' }
    else if d == 7 { '7' }
    else if d == 8 { '8' }
    else { '9' }
}

/// The value of a decimal digit character.
pub open spec fn digit_value(c: char) -> nat {
    if c == '1' { 1 }
    else if c == '2' { 2 }
    else if c == '3' { 3 }
    else if c == '4' { 4 }
    else if c == '5' { 5 }
    else if c == '6' { 6 }
    else if c == '7' { 7 }
    else if c == '8' { 8 }
    else if c == '9' { 9 }
    else { 0 }
}

/// Whether `c` is one of the characters `0` to `9`.
pub open spec fn is_digit(c: char) -> bool {
    c == '0' || c == '1' || c == '2' || c == '3' || c == '4' || c == '5' || c == '6' || c == '7'
        || c == '8' || c == '9'
}

/// `n` written in decimal, without leading zeros.
pub open spec fn decimal_digits(n: nat) -> Seq<char>
    decreases n,
{
    if n < 10 {
        seq![digit_char(n)]
    } else {
        decimal_digits(n / 10).push(digit_char(n % 10))
    }
}

/// The number that a sequence of decimal digits stands for.
pub open spec fn digits_value(s: Seq<char>) -> nat
    decreases s.len(),
{
    if s.len() == 0 {
        0
    } else {
        digits_value(s.drop_last()) * 10 + digit_value(s.last())
    }
}

/// The one-character string of the digit `d`.
fn digit_str(d: u32) -> (s: &'static str)
    requires
        d < 10,
    ensures
        s@ == seq![digit_char(d as nat)],
{
    proof {
        reveal_strlit("0");
        reveal_strlit("1");
        reveal_strlit("2");
        reveal_strlit("3");
        reveal_strlit("4");
        reveal_strlit("5");
        reveal_strlit("6");
        reveal_strlit("7");
        reveal_strlit("8");
        reveal_strlit("9");
    }
    if d == 0 { "0" }
    else if d == 1 { "1" }
    else if d == 2 { "2" }
    else if d == 3 { "3" }
    else if d == 4 { "4" }
    else if d == 5 { "5" }
    else if d == 6 { "6" }
    else if d == 7 { "7" }
    else if d == 8 { "8" }
    else { "9" }
}

/// `n` written in decimal, as the score display shows it.
pub fn decimal_string(n: u32) -> (s: String)
    ensures
        s@ == decimal_digits(n as nat),
    decreases n,
{
    if n < 10 {
        String::from_str(digit_str(n))
    } else {
        let mut s = decimal_string(n / 10);
        s.append(digit_str(n % 10));
        s
    }
}

/// The time, in milliseconds of a level, over which a hit is worth less and
/// less: 400,000 seconds, more than four and a half days. A hit after it is
/// worth one point. The window is as long as a `u32` score allows for all
/// nine bubbles of a game (see `lemma_game_scores_fit`).
pub const SCORE_WINDOW_MILLIS: u64 = 400_000_000;

/// The bubbles of one game: three levels of `FLY_COUNT` bubbles.
pub const GAME_BUBBLES: u64 = 9;

/// The points of a hit made `elapsed_millis` into the level: one point, plus
/// one for every millisecond left of the scoring window. The faster the
/// bubbles are hit, the higher the score.
pub open spec fn hit_points(elapsed_millis: u64) -> nat {
    if elapsed_millis >= SCORE_WINDOW_MILLIS {
        1
    } else {
        (1 + SCORE_WINDOW_MILLIS - elapsed_millis) as nat
    }
}

/// The points of a hit made `elapsed_millis` into the level.
pub fn points_for_hit(elapsed_millis: u64) -> (points: u32)
    ensures
        points == hit_points(elapsed_millis),
{
    if elapsed_millis >= SCORE_WINDOW_MILLIS {
        1
    } else {
        (1 + SCORE_WINDOW_MILLIS - elapsed_millis) as u32
    }
}

/// A bubble was hit `elapsed_millis` into the level: the score goes up by
/// the points of the hit, more the sooner it came, and the display shows the
/// new score.
pub fn on_scored(score: &mut Score, elapsed_millis: u64) -> (text: String)
    requires
        old(score).0 + hit_points(elapsed_millis) <= u32::MAX,
    ensures
        final(score).0 == old(score).0 + hit_points(elapsed_millis),
        text@ == decimal_digits(final(score).0 as nat),
{
    let points = points_for_hit(elapsed_millis);
    score.0 = score.0 + points;
    decimal_string(score.0)
}

/// A shorter time gives more points: every hit scores at least one point,
/// and within the scoring window, four and a half days into a level, an
/// earlier hit scores strictly more than a later one; never less.
pub proof fn lemma_faster_hits_score_more(t1: u64, t2: u64)
    ensures
        hit_points(t1) >= 1,
        t1 <= t2 ==> hit_points(t1) >= hit_points(t2),
        t1 < t2 && t1 < SCORE_WINDOW_MILLIS ==> hit_points(t1) > hit_points(t2),
{
}

/// The text of the score display.
pub fn score_update_system(score: &Score) -> (text: String)
    ensures
        text@ == decimal_digits(score.0 as nat),
{
    decimal_string(score.0)
}

/// The score display is the decimal writing of the score: nothing but
/// digits, no leading zero, and read back it gives the score.
pub proof fn lemma_decimal_digits_read_back(n: nat)
    ensures
        digits_value(decimal_digits(n)) == n,
        decimal_digits(n).len() > 0,
        forall|i: int| 0 <= i < decimal_digits(n).len() ==> is_digit(#[trigger] decimal_digits(n)[i]),
        decimal_digits(n).len() > 1 ==> decimal_digits(n)[0] != '0',
    decreases n,
{
    if n < 10 {
        let s = decimal_digits(n);
        assert(s.drop_last() =~= Seq::<char>::empty());
        assert(digits_value(s.drop_last()) == 0);
        assert(digit_value(digit_char(n)) == n);
    } else {
        assert(digit_value(digit_char(n % 10)) == n % 10);
        assert(n == (n / 10) * 10 + n % 10);
        lemma_decimal_digits_read_back(n / 10);
        let s = decimal_digits(n);
        assert(s.drop_last() =~= decimal_digits(n / 10));
        assert(s.last() == digit_char(n % 10));
        assert(digits_value(s) == digits_value(s.drop_last()) * 10 + digit_value(s.last()));
        assert(digits_value(s.drop_last()) == n / 10);
        assert(digits_value(s) == (n / 10) * 10 + n % 10);
        assert forall|i: int| 0 <= i < s.len() implies is_digit(#[trigger] s[i]) by {
            if i < s.len() - 1 {
                assert(s[i] == decimal_digits(n / 10)[i]);
            }
        }
        if decimal_digits(n / 10).len() == 1 {
            assert(n / 10 < 10) by {
                if n / 10 >= 10 {
                    lemma_decimal_digits_read_back(n / 100);
                    assert(decimal_digits(n / 10) == decimal_digits(n / 10 / 10).push(digit_char(n / 10 % 10)));
                }
            }
        }
        assert(s[0] == decimal_digits(n / 10)[0]);
    }
}


/// The nine bubbles of a game, however fast they are hit, never overflow a
/// score that starts at zero: `k` hits bring at most `k` times the best hit.
pub proof fn lemma_game_scores_fit(k: nat)
    requires
        k <= GAME_BUBBLES,
    ensures
        k * (SCORE_WINDOW_MILLIS + 1) <= u32::MAX,
        forall|t: u64| hit_points(t) <= SCORE_WINDOW_MILLIS + 1,
{
    assert(k * (SCORE_WINDOW_MILLIS + 1) <= GAME_BUBBLES * (SCORE_WINDOW_MILLIS + 1)) by (nonlinear_arith)
        requires
            k <= GAME_BUBBLES,
    ;
}

}
