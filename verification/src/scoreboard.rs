//! The scoreboard display: a two-segment text label — a fixed caption and the
//! live score — whose second segment is rewritten every rendered frame with
//! the decimal representation of the current score.

use crate::state::Scoreboard;
use vstd::prelude::*;
use vstd::string::StringExecFns;

verus! {

/// The character for one decimal digit.
pub open spec fn digit_char(d: int) -> char {
    if d == 0 {
        '0'
    } else if d == 1 {
        '1'
    } else if d == 2 {
        '2'
    } else if d == 3 {
        '3'
    } else if d == 4 {
        '4'
    } else if d == 5 {
        '5'
    } else if d == 6 {
        '6'
    } else if d == 7 {
        '7'
    } else if d == 8 {
        '8'
    } else {
        '9'
    }
}

/// The decimal representation of `n`, most significant digit first, with no
/// leading zeros (a single `'0'` for zero).
pub open spec fn decimal_chars(n: nat) -> Seq<char>
    decreases n,
{
    if n < 10 {
        seq![digit_char(n as int)]
    } else {
        decimal_chars(n / 10) + seq![digit_char((n % 10) as int)]
    }
}

/// The one-character string for a decimal digit.
fn digit_str(d: usize) -> (s: &'static str)
    requires
        d < 10,
    ensures
        s@ =~= seq![digit_char(d as int)],
{
    if d == 0 {
        proof {
            reveal_strlit("0");
        }
        "0"
    } else if d == 1 {
        proof {
            reveal_strlit("1");
        }
        "1"
    } else if d == 2 {
        proof {
            reveal_strlit("2");
        }
        "2"
    } else if d == 3 {
        proof {
            reveal_strlit("3");
        }
        "3"
    } else if d == 4 {
        proof {
            reveal_strlit("4");
        }
        "4"
    } else if d == 5 {
        proof {
            reveal_strlit("5");
        }
        "5"
    } else if d == 6 {
        proof {
            reveal_strlit("6");
        }
        "6"
    } else if d == 7 {
        proof {
            reveal_strlit("7");
        }
        "7"
    } else if d == 8 {
        proof {
            reveal_strlit("8");
        }
        "8"
    } else {
        proof {
            reveal_strlit("9");
        }
        "9"
    }
}

/// The decimal string of `score`.
pub fn score_string(score: usize) -> (s: String)
    ensures
        s@ == decimal_chars(score as nat),
    decreases score,
{
    if score < 10 {
        digit_str(score).to_owned()
    } else {
        let mut s = score_string(score / 10);
        s.append(digit_str(score % 10));
        s
    }
}

/// The on-screen label: a fixed caption segment and the live score segment.
pub struct ScoreboardText {
    pub label: String,
    pub value: String,
}

/// What a `ScoreboardText` displays, as mathematical character sequences.
#[verifier::ext_equal]
pub ghost struct TextView {
    pub label: Seq<char>,
    pub value: Seq<char>,
}

impl View for ScoreboardText {
    type V = TextView;

    open spec fn view(&self) -> TextView {
        TextView { label: self.label@, value: self.value@ }
    }
}

/// A scoreboard display update: the caption is kept, the score segment is
/// replaced by the decimal representation of the current score. It depends
/// on the score alone, never on what was displayed before.
pub open spec fn spec_update_scoreboard(t: TextView, score: nat) -> TextView {
    TextView { label: t.label, value: decimal_chars(score) }
}

/// Write the current score, in decimal, into the second segment of the
/// on-screen label. Pure and idempotent: nothing but that segment changes.
pub fn update_scoreboard(scoreboard: &Scoreboard, text: &mut ScoreboardText)
    ensures
        final(text)@ == spec_update_scoreboard(old(text)@, scoreboard.score as nat),
        final(text).label@ == old(text).label@,
        final(text).value@ == decimal_chars(scoreboard.score as nat),
{
    text.value = score_string(scoreboard.score);
    proof {
        assert(text@ =~= spec_update_scoreboard(old(text)@, scoreboard.score as nat));
    }
}

/// Running the scoreboard display update twice in a row with no score change
/// produces the same displayed text both times: a second update displays
/// exactly what the first one displayed.
pub proof fn lemma_update_scoreboard_idempotent(t: TextView, score: nat)
    ensures
        spec_update_scoreboard(spec_update_scoreboard(t, score), score) == spec_update_scoreboard(
            t,
            score,
        ),
{
    assert(spec_update_scoreboard(spec_update_scoreboard(t, score), score)
        =~= spec_update_scoreboard(t, score));
}

} // verus!
