//! Rules for the values a run is configured with.

use vstd::prelude::*;
use vstd::string::StringExecFns;

verus! {

/// Where a configured value comes from.
#[derive(Debug)]
pub enum Lookup {
    /// The environment holds it.
    Found(String),
    /// It has to be asked for, with this line as the prompt.
    Prompt(String),
}

/// Which of the two queries a run makes.
#[derive(Clone, Copy, Debug, PartialEq, Eq, Structural)]
pub enum QueryMode {
    /// By latitude and longitude.
    LatLon,
    /// By postal code.
    Zip,
}

/// The line that asks for a value: the label, then the default in square
/// brackets, a colon and a space.
pub open spec fn prompt_line(label: Seq<char>, default: Seq<char>) -> Seq<char> {
    label + " ["@ + default + "]: "@
}

/// The value that an answer stands for: an empty answer takes the default.
pub open spec fn answer_value(input: Seq<char>, default: Seq<char>) -> Seq<char> {
    if input.len() == 0 {
        default
    } else {
        input
    }
}

/// The answers that select the query by postal code: `2`, or `zip` in any
/// mix of upper and lower case.
pub open spec fn selects_zip(choice: Seq<char>) -> bool {
    ||| choice =~= seq!['2']
    ||| {
        &&& choice.len() == 3
        &&& (choice[0] == 'z' || choice[0] == 'Z')
        &&& (choice[1] == 'i' || choice[1] == 'I')
        &&& (choice[2] == 'p' || choice[2] == 'P')
    }
}

/// Settles where a value comes from: a value of the environment that is not
/// empty is taken, and anything else means asking.
pub fn env_or_prompt(env: Option<String>, label: &str, default: &str) -> (lookup: Lookup)
    ensures
        match lookup {
            Lookup::Found(value) => env == Some(value) && value@.len() > 0,
            Lookup::Prompt(line) => {
                &&& env matches Some(value) ==> value@.len() == 0
                &&& line@ == prompt_line(label@, default@)
            },
        },
{
    if let Some(value) = env {
        if !value.as_str().is_empty() {
            return Lookup::Found(value);
        }
    }
    let mut line = String::from_str(label);
    line.append(" [");
    line.append(default);
    line.append("]: ");
    Lookup::Prompt(line)
}

/// Turns what was typed at a prompt into the value: nothing typed means the
/// default.
pub fn answer_or_default(input: String, default: &str) -> (value: String)
    ensures
        value@ == answer_value(input@, default@),
{
    if input.as_str().is_empty() {
        String::from_str(default)
    } else {
        input
    }
}

/// Reads the answer to the question of how to query. Whatever does not
/// select the postal code selects latitude and longitude.
pub fn query_mode(choice: &str) -> (mode: QueryMode)
    ensures
        mode == (if selects_zip(choice@) {
            QueryMode::Zip
        } else {
            QueryMode::LatLon
        }),
{
    let n = choice.unicode_len();
    if n == 1 {
        if choice.get_char(0) == '2' {
            return QueryMode::Zip;
        }
    } else if n == 3 {
        let z = choice.get_char(0);
        let i = choice.get_char(1);
        let p = choice.get_char(2);
        if (z == 'z' || z == 'Z') && (i == 'i' || i == 'I') && (p == 'p' || p == 'P') {
            return QueryMode::Zip;
        }
    }
    QueryMode::LatLon
}

/// Whether `c` is one of the ten ASCII digits.
pub open spec fn is_digit(c: char) -> bool {
    '0' <= c && c <= '9'
}

/// A postal code is five ASCII digits and nothing else.
pub open spec fn valid_zip(s: Seq<char>) -> bool {
    &&& s.len() == 5
    &&& forall|i: int| 0 <= i < s.len() ==> is_digit(#[trigger] s[i])
}

/// Accepts exactly the strings made of five ASCII digits.
pub fn is_valid_zip(zip: &str) -> (ok: bool)
    ensures
        ok == valid_zip(zip@),
{
    if zip.unicode_len() != 5 {
        return false;
    }
    let mut i: usize = 0;
    while i < 5
        invariant
            i <= 5,
            zip@.len() == 5,
            forall|k: int| 0 <= k < i ==> is_digit(#[trigger] zip@[k]),
        decreases 5 - i,
    {
        let c = zip.get_char(i);
        if !('0' <= c && c <= '9') {
            return false;
        }
        i += 1;
    }
    true
}

} // verus!
