//! The parameters of the program, which carry the command channel: on the
//! web they are the parameters of the page's address.

use vstd::prelude::*;
use vstd::string::{is_ascii, StringExecFns};
use vstd::utf8::is_ascii_chars;
use quad_url::easy_parse;

verus! {

/// The number of dashes that a parameter begins with, up to two.
pub open spec fn spec_dashes(text: Seq<char>) -> int {
    if text.len() >= 2 && text[0] == '-' && text[1] == '-' {
        2
    } else if text.len() >= 1 && text[0] == '-' {
        1
    } else {
        0
    }
}

/// The place of the first equals sign of `text` from `from` on; the length
/// of `text` if there is none.
pub open spec fn spec_equals_sign(text: Seq<char>, from: int) -> int
    decreases text.len() - from,
{
    if from < 0 || from >= text.len() {
        text.len() as int
    } else if text[from] == '=' {
        from
    } else {
        spec_equals_sign(text, from + 1)
    }
}

/// The name and the value of a parameter: the name stands behind one or
/// two dashes and before the first equals sign, the value behind that sign.
/// A parameter without a dash is none; one without an equals sign, or with
/// nothing behind it, has no value.
pub open spec fn spec_parameter(text: Seq<char>) -> Option<(Seq<char>, Option<Seq<char>>)> {
    let dashes = spec_dashes(text);
    let sign = spec_equals_sign(text, 0);
    if dashes == 0 {
        None
    } else if sign < text.len() {
        let value = text.subrange(sign + 1, text.len() as int);
        Some(
            (
                text.subrange(dashes, sign),
                if value.len() == 0 {
                    None
                } else {
                    Some(value)
                },
            ),
        )
    } else {
        Some((text.subrange(dashes, text.len() as int), None))
    }
}

/// What came of parsing a parameter, as sequences of characters.
pub open spec fn spec_parsed(parsed: Option<(&str, Option<&str>)>) -> Option<
    (Seq<char>, Option<Seq<char>>),
> {
    match parsed {
        Some((name, Some(value))) => Some((name@, Some(value@))),
        Some((name, None)) => Some((name@, None)),
        None => None,
    }
}

/// The value that `parameter` gives to `name`, if it is an ASCII parameter
/// of that name with a value.
pub open spec fn spec_value_of(parameter: Seq<char>, name: Seq<char>) -> Option<Seq<char>> {
    if is_ascii_chars(parameter) {
        match spec_parameter(parameter) {
            Some((key, Some(value))) => if key == name {
                Some(value)
            } else {
                None
            },
            _ => None,
        }
    } else {
        None
    }
}

/// The value of the first of `parameters`, from `from` on, that gives one
/// to `name`; the empty text if none does.
pub open spec fn spec_argument(parameters: Seq<String>, name: Seq<char>, from: int) -> Seq<char>
    decreases parameters.len() - from,
{
    if from < 0 || from >= parameters.len() {
        Seq::empty()
    } else {
        match spec_value_of(parameters[from]@, name) {
            Some(value) => value,
            None => spec_argument(parameters, name, from + 1),
        }
    }
}

/// Calls `quad_url::easy_parse`, which splits a parameter into its name and
/// its value. It returns nothing unless the parameter begins with a dash;
/// it takes the name from behind the first dash, or the first two, up to the
/// first equals sign, and the value from behind that sign, where an empty
/// value counts as none. It cuts the text at the count of characters before
/// the sign, which is a place in the text only where every character is one
/// byte long: the parameter has to be ASCII.
#[verifier::external_body]
fn parse<'a>(parameter: &'a str) -> (parsed: Option<(&'a str, Option<&'a str>)>)
    requires
        is_ascii(parameter),
    ensures
        spec_parsed(parsed) == spec_parameter(parameter@),
{
    easy_parse(parameter)
}

/// The value of the parameter `name`: that of the first parameter of this
/// name that has one, and the empty text if there is none. Parameters that
/// are not ASCII are passed over.
pub fn get_command_line_argument(parameters: &Vec<String>, name: &str) -> (value: String)
    ensures
        value@ == spec_argument(parameters@, name@, 0),
{
    let wanted = String::from_str(name);
    let mut k: usize = 0;
    while k < parameters.len()
        invariant
            k <= parameters@.len(),
            wanted@ == name@,
            spec_argument(parameters@, name@, 0) == spec_argument(parameters@, name@, k as int),
        decreases parameters@.len() - k,
    {
        let parameter = parameters[k].as_str();
        if parameter.is_ascii() {
            match parse(parameter) {
                Some((key, Some(value))) => {
                    if String::from_str(key) == wanted {
                        return String::from_str(value);
                    }
                },
                _ => {},
            }
        }
        k += 1;
    }
    String::new()
}

} // verus!
