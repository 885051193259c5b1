//! Small text helpers: decimal rendering, user mentions and ternaries.

use vstd::prelude::*;

verus! {

/// The character of a decimal digit.
pub open spec fn digit_char(d: nat) -> char {
    if d == 0 { '0' }
    else if d == 1 { '1' }
    else if d == 2 { '2' }
    else if d == 3 { '3' }
    else if d == 4 { '4' }
    else if d == 5 { '5' }
    else if d == 6 { '6' }
    else if d == 7 { '7' }
    else if d == 8 { '8' }
    else { '9' }
}

/// The decimal rendering of a natural number, without leading zeros.
pub open spec fn decimal(n: nat) -> Seq<char>
    decreases n,
{
    if n < 10 {
        seq![digit_char(n)]
    } else {
        decimal(n / 10).push(digit_char(n % 10))
    }
}

/// A user mention as the chat platform writes it: `<@id>`.
pub open spec fn mention_text(id: u64) -> Seq<char> {
    seq!['<', '@'] + decimal(id as nat) + seq!['>']
}

fn digit_str(d: u64) -> (r: &'static str)
    requires
        d < 10,
    ensures
        r@ == seq![digit_char(d as nat)],
{
    proof {
        reveal_strlit("0");
        reveal_strlit("1");
        reveal_strlit("2");
        reveal_strlit("3");
        reveal_strlit("4");
        reveal_strlit("5");
        reveal_strlit("6");
        reveal_strlit("7");
        reveal_strlit("8");
        reveal_strlit("9");
    }
    let r = match d {
        0 => "0",
        1 => "1",
        2 => "2",
        3 => "3",
        4 => "4",
        5 => "5",
        6 => "6",
        7 => "7",
        8 => "8",
        _ => "9",
    };
    assert(r@ =~= seq![digit_char(d as nat)]);
    r
}

/// Renders a number in decimal.
pub fn decimal_string(n: u64) -> (r: String)
    ensures
        r@ == decimal(n as nat),
    decreases n,
{
    if n < 10 {
        String::from_str(digit_str(n))
    } else {
        let mut s = decimal_string(n / 10);
        s.append(digit_str(n % 10));
        s
    }
}

/// Mentions a user by id, as in `<@42>`.
pub fn mention(id: u64) -> (r: String)
    ensures
        r@ == mention_text(id),
{
    proof {
        reveal_strlit("<@");
        reveal_strlit(">");
    }
    let mut s = String::from_str("<@");
    let digits = decimal_string(id);
    s.append(digits.as_str());
    s.append(">");
    assert(s@ =~= mention_text(id));
    s
}

/// The character views of a sequence of strings.
pub open spec fn strings_view(v: Seq<String>) -> Seq<Seq<char>> {
    v.map_values(|s: String| s@)
}

/// Whether two strings hold the same characters.
pub fn str_eq(a: &str, b: &str) -> (r: bool)
    ensures
        r == (a@ == b@),
{
    String::from_str(a) == String::from_str(b)
}

/// Whether a list of strings holds the given one.
pub fn contains_str(v: &Vec<String>, s: &str) -> (r: bool)
    ensures
        r == strings_view(v@).contains(s@),
{
    let mut i: usize = 0;
    while i < v.len()
        invariant
            0 <= i <= v.len(),
            forall|k: int| 0 <= k < i ==> v@[k]@ != s@,
        decreases v.len() - i,
    {
        if str_eq(v[i].as_str(), s) {
            assert(strings_view(v@)[i as int] == s@);
            return true;
        }
        i += 1;
    }
    assert forall|k: int| 0 <= k < strings_view(v@).len() implies strings_view(v@)[k] != s@ by {
        assert(strings_view(v@)[k] == v@[k]@);
    }
    false
}

/// Copies a list of strings.
pub fn clone_strings(v: &Vec<String>) -> (r: Vec<String>)
    ensures
        strings_view(r@) == strings_view(v@),
{
    let mut r: Vec<String> = Vec::new();
    let mut i: usize = 0;
    while i < v.len()
        invariant
            0 <= i <= v.len(),
            r@.len() == i,
            forall|k: int| 0 <= k < i ==> r@[k]@ == v@[k]@,
        decreases v.len() - i,
    {
        let c = String::from_str(v[i].as_str());
        r.push(c);
        i += 1;
    }
    assert(strings_view(r@) =~= strings_view(v@));
    r
}

/// Picks `yes` when the condition holds and `no` otherwise.
pub fn yes_no<T>(condition: bool, yes: T, no: T) -> (r: T)
    ensures
        r == if condition { yes } else { no },
{
    if condition {
        yes
    } else {
        no
    }
}

/// Runs `yes` when the condition holds and `no` otherwise.
pub fn yes_no_eval<F1, F2, R>(condition: bool, yes: F1, no: F2) -> (r: R) where
    F1: FnOnce() -> R,
    F2: FnOnce() -> R,

    requires
        condition ==> yes.requires(()),
        !condition ==> no.requires(()),
    ensures
        condition ==> yes.ensures((), r),
        !condition ==> no.ensures((), r),
{
    if condition {
        yes()
    } else {
        no()
    }
}

/// Picks between two texts, `"Yes"` and `"No"` unless given.
pub fn yes_no_str<'a>(condition: bool, yes: Option<&'a str>, no: Option<&'a str>) -> (r: &'a str)
    ensures
        r@ == if condition {
            match yes {
                Some(y) => y@,
                None => "Yes"@,
            }
        } else {
            match no {
                Some(n) => n@,
                None => "No"@,
            }
        },
{
    let yes_text = match yes {
        Some(y) => y,
        None => "Yes",
    };
    let no_text = match no {
        Some(n) => n,
        None => "No",
    };
    yes_no(condition, yes_text, no_text)
}

/// The help text on durations appended to an option description.
pub open spec fn duration_helptext() -> Seq<char> {
    " For example: 1d, 2h, 3m, 4s, 1h + 30m, etc. Spaces in between the duration and the unit are optional. Duration must not be more than 28 days from now."@
}

/// The help text on dates appended to an option description.
pub open spec fn date_helptext() -> Seq<char> {
    " Format: YYYY-MM-DD. For example: 1234-56-78, 1970-01-01, etc. Date must be valid."@
}

/// Appends the help text on durations to an option description.
pub fn append_duration_helptext(string: &str) -> (r: String)
    ensures
        r@ == string@ + duration_helptext(),
{
    let mut r = String::from_str(string);
    r.append(
        " For example: 1d, 2h, 3m, 4s, 1h + 30m, etc. Spaces in between the duration and the unit are optional. Duration must not be more than 28 days from now.",
    );
    r
}

/// Appends the help text on dates to an option description.
pub fn append_date_helptext(string: &str) -> (r: String)
    ensures
        r@ == string@ + date_helptext(),
{
    let mut r = String::from_str(string);
    r.append(" Format: YYYY-MM-DD. For example: 1234-56-78, 1970-01-01, etc. Date must be valid.");
    r
}

} // verus!
