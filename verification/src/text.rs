use vstd::prelude::*;

use crate::outcome::OutcomeKind;

verus! {

/// The character of a decimal digit.
pub open spec fn digit_char(d: nat) -> char {
    if d == 0 {
        '0'
    } else if d == 1 {
        '1'
    } else if d == 2 {
        '2'
    } else if d == 3 {
        '3'
    } else if d == 4 {
        '4'
    } else if d == 5 {
        '5'
    } else if d == 6 {
        '6'
    } else if d == 7 {
        '7'
    } else if d == 8 {
        '8'
    } else {
        '9'
    }
}

/// The decimal writing of `n`, most significant digit first, without leading zeros.
pub open spec fn decimal(n: nat) -> Seq<char>
    decreases n,
{
    if n < 10 {
        seq![digit_char(n)]
    } else {
        decimal(n / 10).push(digit_char(n % 10))
    }
}

/// The value of a decimal digit character.
pub open spec fn digit_value(c: char) -> nat {
    if c == '1' {
        1
    } else if c == '2' {
        2
    } else if c == '3' {
        3
    } else if c == '4' {
        4
    } else if c == '5' {
        5
    } else if c == '6' {
        6
    } else if c == '7' {
        7
    } else if c == '8' {
        8
    } else if c == '9' {
        9
    } else {
        0
    }
}

/// Whether `c` is one of the ten decimal digits.
pub open spec fn is_digit(c: char) -> bool {
    c == '0' || c == '1' || c == '2' || c == '3' || c == '4' || c == '5' || c == '6' || c == '7'
        || c == '8' || c == '9'
}

/// The number that a string of decimal digits denotes.
pub open spec fn decimal_value(digits: Seq<char>) -> nat
    decreases digits.len(),
{
    if digits.len() == 0 {
        0
    } else {
        decimal_value(digits.drop_last()) * 10 + digit_value(digits.last())
    }
}

/// The decimal writing of `n` is made of digits only, starts with a nonzero
/// digit unless `n` is zero, and denotes `n`.
pub proof fn lemma_decimal_denotes(n: nat)
    ensures
        decimal(n).len() > 0,
        forall|i: int| 0 <= i < decimal(n).len() ==> is_digit(#[trigger] decimal(n)[i]),
        n > 0 ==> decimal(n)[0] != '0',
        decimal_value(decimal(n)) == n,
    decreases n,
{
    let d = decimal(n);
    if n >= 10 {
        lemma_decimal_denotes(n / 10);
        assert(d.drop_last() =~= decimal(n / 10));
        assert(d[0] == decimal(n / 10)[0]);
        assert(digit_value(digit_char(n % 10)) == n % 10);
        assert(decimal_value(d) == decimal_value(decimal(n / 10)) * 10 + n % 10);
        assert((n / 10) * 10 + n % 10 == n);
        assert(decimal_value(d) == n);
    } else {
        assert(d.drop_last() =~= Seq::<char>::empty());
        assert(decimal_value(d.drop_last()) == 0);
        assert(d.last() == digit_char(n));
        assert(digit_value(digit_char(n)) == n);
        assert(decimal_value(d) == n);
    }
}

fn digit_text(d: usize) -> (text: &'static str)
    requires
        d < 10,
    ensures
        text@ == seq![digit_char(d as nat)],
{
    if d == 0 {
        proof { reveal_strlit("0"); }
        "0"
    } else if d == 1 {
        proof { reveal_strlit("1"); }
        "1"
    } else if d == 2 {
        proof { reveal_strlit("2"); }
        "2"
    } else if d == 3 {
        proof { reveal_strlit("3"); }
        "3"
    } else if d == 4 {
        proof { reveal_strlit("4"); }
        "4"
    } else if d == 5 {
        proof { reveal_strlit("5"); }
        "5"
    } else if d == 6 {
        proof { reveal_strlit("6"); }
        "6"
    } else if d == 7 {
        proof { reveal_strlit("7"); }
        "7"
    } else if d == 8 {
        proof { reveal_strlit("8"); }
        "8"
    } else {
        proof { reveal_strlit("9"); }
        "9"
    }
}

/// Writes `n` in decimal.
pub fn decimal_text(n: usize) -> (text: String)
    ensures
        text@ == decimal(n as nat),
    decreases n,
{
    if n < 10 {
        String::from_str(digit_text(n))
    } else {
        let mut text = decimal_text(n / 10);
        text.append(digit_text(n % 10));
        text
    }
}

/// The label of an earlier attempt in the history, by whether it won.
pub fn attempt_status(won: bool) -> (status: &'static str)
    ensures
        status@ == (if won { "succès"@ } else { "échec"@ }),
{
    if won {
        "succès"
    } else {
        "échec"
    }
}

/// The sentence on the closest pass to the beacon; `distance` is that distance
/// already written out, absent when no pass could be measured.
pub open spec fn closest_text(distance: Option<Seq<char>>) -> Seq<char> {
    match distance {
        Some(d) => "Son passage le plus proche de la balise est à "@ + d + " unité."@,
        None => "Aucun passage n'a pu être mesuré."@,
    }
}

/// The view of an optional string slice.
pub open spec fn optional_view(text: Option<&str>) -> Option<Seq<char>> {
    match text {
        Some(t) => Some(t@),
        None => None,
    }
}

/// Reports the closest pass to the beacon, given its distance written out
/// (with two decimals), or that no pass could be measured.
pub fn closest_message(distance: Option<&str>) -> (message: String)
    ensures
        message@ == closest_text(optional_view(distance)),
{
    match distance {
        Some(d) => {
            let mut message = String::from_str("Son passage le plus proche de la balise est à ");
            message.append(d);
            message.append(" unité.");
            message
        },
        None => String::from_str("Aucun passage n'a pu être mesuré."),
    }
}

/// The message shown after a release: what happened to the probe, numbering
/// the asteroids from one, and after a miss the closest pass to the beacon.
pub open spec fn outcome_text(outcome: OutcomeKind, distance: Option<Seq<char>>) -> Seq<char> {
    match outcome {
        OutcomeKind::Reached => "La sonde a atteint la balise."@,
        OutcomeKind::Collision { obstacle } => "La sonde a percuté l'astéroïde "@ + decimal(
            (obstacle + 1) as nat,
        ) + ". Le point rouge indique l'impact."@,
        OutcomeKind::LeftField => "La sonde a quitté la zone. "@ + closest_text(distance),
        OutcomeKind::TimeLimit => "La sonde a circulé trop longtemps. "@ + closest_text(distance),
        OutcomeKind::NumericalFailure => "Le courant n'a pas pu être calculé. Réinitialise la simulation."@,
    }
}

/// A collision names the asteroid that was hit, numbered from one, whatever
/// the closest pass was; the beacon and numerical-failure messages do not
/// depend on the closest pass either, and the two misses that end without a
/// collision end with the closest-pass sentence.
pub proof fn lemma_outcome_text(obstacle: usize, distance: Option<Seq<char>>, other: Option<Seq<char>>)
    requires
        obstacle < usize::MAX,
    ensures
        outcome_text(OutcomeKind::Collision { obstacle }, distance) == "La sonde a percuté l'astéroïde "@
            + decimal((obstacle + 1) as nat) + ". Le point rouge indique l'impact."@,
        decimal_value(decimal((obstacle + 1) as nat)) == obstacle + 1,
        outcome_text(OutcomeKind::Collision { obstacle }, distance) == outcome_text(
            OutcomeKind::Collision { obstacle },
            other,
        ),
        outcome_text(OutcomeKind::Reached, distance) == "La sonde a atteint la balise."@,
        outcome_text(OutcomeKind::NumericalFailure, distance)
            == "Le courant n'a pas pu être calculé. Réinitialise la simulation."@,
        outcome_text(OutcomeKind::LeftField, distance) == "La sonde a quitté la zone. "@
            + closest_text(distance),
        outcome_text(OutcomeKind::TimeLimit, distance) == "La sonde a circulé trop longtemps. "@
            + closest_text(distance),
{
    lemma_decimal_denotes((obstacle + 1) as nat);
}

/// The message for a finished release and whether it counts as a win.
/// `distance` is the closest distance to the beacon, already written out with
/// two decimals, absent when no pass could be measured.
pub fn result_message(outcome: &OutcomeKind, distance: Option<&str>) -> (message: (String, bool))
    requires
        outcome matches OutcomeKind::Collision { obstacle } ==> obstacle < usize::MAX,
    ensures
        message.0@ == outcome_text(*outcome, optional_view(distance)),
        message.1 <==> *outcome is Reached,
        outcome matches OutcomeKind::Collision { obstacle } ==> message.0@
            == "La sonde a percuté l'astéroïde "@ + decimal((obstacle + 1) as nat)
            + ". Le point rouge indique l'impact."@,
{
    match outcome {
        OutcomeKind::Reached => (String::from_str("La sonde a atteint la balise."), true),
        OutcomeKind::Collision { obstacle } => {
            let mut message = String::from_str("La sonde a percuté l'astéroïde ");
            let number = decimal_text(*obstacle + 1);
            message.append(number.as_str());
            message.append(". Le point rouge indique l'impact.");
            (message, false)
        },
        OutcomeKind::LeftField => {
            let mut message = String::from_str("La sonde a quitté la zone. ");
            let closest = closest_message(distance);
            message.append(closest.as_str());
            (message, false)
        },
        OutcomeKind::TimeLimit => {
            let mut message = String::from_str("La sonde a circulé trop longtemps. ");
            let closest = closest_message(distance);
            message.append(closest.as_str());
            (message, false)
        },
        OutcomeKind::NumericalFailure => (
            String::from_str("Le courant n'a pas pu être calculé. Réinitialise la simulation."),
            false,
        ),
    }
}

/// The style of the drawn trajectory: it is drawn progressively while the
/// release animation shows an attempt, plainly otherwise.
pub fn path_class(animating: bool, attempt_shown: bool) -> (class: &'static str)
    ensures
        class@ == (if animating && attempt_shown { "path active-path"@ } else { "path"@ }),
{
    if animating && attempt_shown {
        "path active-path"
    } else {
        "path"
    }
}

/// The style of the closest-pass marker: during the release animation it
/// appears only once the trajectory is drawn.
pub fn closest_class(animating: bool) -> (class: &'static str)
    ensures
        class@ == (if animating { "closest-point diagnostic-point"@ } else { "closest-point"@ }),
{
    if animating {
        "closest-point diagnostic-point"
    } else {
        "closest-point"
    }
}

/// The style of the impact marker: during the release animation it appears
/// only once the trajectory is drawn.
pub fn collision_class(animating: bool) -> (class: &'static str)
    ensures
        class@ == (if animating { "collision-point diagnostic-point"@ } else { "collision-point"@ }),
{
    if animating {
        "collision-point diagnostic-point"
    } else {
        "collision-point"
    }
}

} // verus!
