//! What the scene reports of itself to the command channel: where the
//! target, the player and the enemies are, in whole units.

use vstd::prelude::*;
use vstd::string::StringExecFns;
use crate::fixed::{spec_whole, whole};
use crate::geometry::Vec2;
use crate::scene::{Scene, SceneView};
use crate::units::enemy_unit::EnemyUnit;

verus! {

/// The report of a scene: the value to write for each field of the
/// channel.
pub struct Report {
    /// Where the target is: `(x, y)`.
    pub target_pos: String,
    /// Where the player is: `(x, y)`.
    pub unit_pos: String,
    /// Where the enemies are: `[(x, y), (x, y), ]`, each with a comma and
    /// a space behind it.
    pub enemy_units: String,
}

/// The character of a decimal digit.
pub open spec fn spec_digit(d: int) -> char {
    if d == 0 {
        '0'
    } else if d == 1 {
        '1'
    } else if d == 2 {
        '2'
    } else if d == 3 {
        '3'
    } else if d == 4 {
        '4'
    } else if d == 5 {
        '5'
    } else if d == 6 {
        '6'
    } else if d == 7 {
        '7'
    } else if d == 8 {
        '8'
    } else {
        '9'
    }
}

/// The decimal digits of a natural number, without leading zeros.
pub open spec fn spec_digits(n: nat) -> Seq<char>
    decreases n,
{
    if n < 10 {
        seq![spec_digit(n as int)]
    } else {
        spec_digits(n / 10).push(spec_digit((n % 10) as int))
    }
}

/// An integer in decimal, with a minus sign before a negative one.
pub open spec fn spec_decimal(n: int) -> Seq<char> {
    if n < 0 {
        seq!['-'] + spec_digits((-n) as nat)
    } else {
        spec_digits(n as nat)
    }
}

/// A position as the channel takes it: the whole parts of its
/// coordinates, in parentheses, with a comma and a space between them.
pub open spec fn spec_pair(position: Vec2) -> Seq<char> {
    seq!['('] + spec_decimal(spec_whole(position.x as int) as int) + seq![',', ' ']
        + spec_decimal(spec_whole(position.y as int) as int) + seq![')']
}

/// The positions of the first `upto` enemies, each with a comma and a
/// space behind it.
pub open spec fn spec_pairs(units: Seq<EnemyUnit>, upto: nat) -> Seq<char>
    decreases upto,
{
    if upto == 0 {
        Seq::empty()
    } else {
        spec_pairs(units, (upto - 1) as nat) + spec_pair(units[upto - 1].position) + seq![',', ' ']
    }
}

/// The positions of a swarm, in brackets.
pub open spec fn spec_list(units: Seq<EnemyUnit>) -> Seq<char> {
    seq!['['] + spec_pairs(units, units.len()) + seq![']']
}

/// The text of one decimal digit.
fn digit(d: u32) -> (text: &'static str)
    requires
        d < 10,
    ensures
        text@ == seq![spec_digit(d as int)],
{
    proof {
        reveal_strlit("0");
        reveal_strlit("1");
        reveal_strlit("2");
        reveal_strlit("3");
        reveal_strlit("4");
        reveal_strlit("5");
        reveal_strlit("6");
        reveal_strlit("7");
        reveal_strlit("8");
        reveal_strlit("9");
    }
    let text = if d == 0 {
        "0"
    } else if d == 1 {
        "1"
    } else if d == 2 {
        "2"
    } else if d == 3 {
        "3"
    } else if d == 4 {
        "4"
    } else if d == 5 {
        "5"
    } else if d == 6 {
        "6"
    } else if d == 7 {
        "7"
    } else if d == 8 {
        "8"
    } else {
        "9"
    };
    assert(text@ =~= seq![spec_digit(d as int)]);
    text
}

/// Appends the digits of `n` to `text`.
fn append_digits(text: &mut String, n: u32)
    ensures
        final(text)@ == old(text)@ + spec_digits(n as nat),
    decreases n,
{
    if n >= 10 {
        append_digits(text, n / 10);
    }
    text.append(digit(n % 10));
    assert(text@ =~= old(text)@ + spec_digits(n as nat));
}

/// Appends `n` in decimal to `text`.
pub fn append_decimal(text: &mut String, n: i32)
    ensures
        final(text)@ == old(text)@ + spec_decimal(n as int),
{
    if n < 0 {
        proof {
            reveal_strlit("-");
        }
        text.append("-");
        append_digits(text, (-(n as i64)) as u32);
        assert(text@ =~= old(text)@ + spec_decimal(n as int));
    } else {
        append_digits(text, n as u32);
    }
}

/// Appends a position to `text`.
pub fn append_pair(text: &mut String, position: Vec2)
    ensures
        final(text)@ == old(text)@ + spec_pair(position),
{
    proof {
        reveal_strlit("(");
        reveal_strlit(", ");
        reveal_strlit(")");
    }
    text.append("(");
    append_decimal(text, whole(position.x));
    text.append(", ");
    append_decimal(text, whole(position.y));
    text.append(")");
    assert(text@ =~= old(text)@ + spec_pair(position));
}

/// A position as the channel takes it.
pub fn pair(position: Vec2) -> (text: String)
    ensures
        text@ == spec_pair(position),
{
    let mut text = String::new();
    append_pair(&mut text, position);
    assert(text@ =~= spec_pair(position));
    text
}

/// The positions of a swarm as the channel takes them.
pub fn list(units: &Vec<EnemyUnit>) -> (text: String)
    ensures
        text@ == spec_list(units@),
{
    proof {
        reveal_strlit("[");
        reveal_strlit(", ");
        reveal_strlit("]");
    }
    let mut text = String::from_str("[");
    let mut k: usize = 0;
    while k < units.len()
        invariant
            k <= units@.len(),
            text@ == seq!['['] + spec_pairs(units@, k as nat),
        decreases units@.len() - k,
    {
        let ghost before = text@;
        proof {
            reveal_strlit(", ");
        }
        append_pair(&mut text, units[k].position);
        text.append(", ");
        assert(text@ =~= seq!['['] + spec_pairs(units@, (k + 1) as nat)) by {
            assert(text@ =~= before + spec_pair(units@[k as int].position) + seq![',', ' ']);
        }
        k += 1;
    }
    text.append("]");
    assert(text@ =~= spec_list(units@));
    text
}

impl SceneView {
    /// Whether `report` is the report of this scene.
    pub open spec fn spec_reported(self, report: Report) -> bool {
        &&& report.target_pos@ == spec_pair(self.target_unit.position)
        &&& report.unit_pos@ == spec_pair(self.main_unit.position)
        &&& report.enemy_units@ == spec_list(self.enemy_units)
    }
}

impl Scene {
    /// What to write to the command channel before it is read.
    pub fn set_parameters_to_url_query(&self) -> (report: Report)
        ensures
            self@.spec_reported(report),
    {
        Report {
            target_pos: pair(self.target_unit.position),
            unit_pos: pair(self.main_unit.position),
            enemy_units: list(&self.enemy_units),
        }
    }
}

} // verus!
