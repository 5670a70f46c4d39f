//! Saving and loading notes. No storage stands behind them: saving reports
//! the path that the note would take, loading gives fixed content.
use vstd::prelude::*;
use vstd::string::StringExecFns;

verus! {

/// The character of the decimal digit `d`.
pub open spec fn digit_char(d: nat) -> char {
    if d == 0 { '0' }
    else if d == 1 { '1' }
    else if d == 2 { '2' }
    else if d == 3 { '3' }
    else if d == 4 { '4' }
    else if d == 5 { '5' }
    else if d == 6 { '6' }
    else if d == 7 { '7' }
    else if d == 8 { '8' }
    else { '9' }
}

/// The decimal digits of `n`, without leading zeros.
pub open spec fn digits(n: nat) -> Seq<char>
    decreases n,
{
    if n < 10 {
        seq![digit_char(n)]
    } else {
        digits(n / 10).push(digit_char(n % 10))
    }
}

/// `n` in decimal, with a minus sign when it is negative.
pub open spec fn decimal(n: int) -> Seq<char> {
    if n < 0 {
        seq!['-'] + digits((-n) as nat)
    } else {
        digits(n as nat)
    }
}

/// The path given to a note saved at Unix time `timestamp` without a path.
pub open spec fn generated_note_path(timestamp: int) -> Seq<char> {
    "note_"@ + decimal(timestamp) + ".md"@
}

/// The path a note takes: the one given, else one made from `timestamp`.
pub open spec fn note_path_spec(path: Option<Seq<char>>, timestamp: int) -> Seq<char> {
    match path {
        Some(p) => p,
        None => generated_note_path(timestamp),
    }
}

/// The content that `load_note` returns.
pub open spec fn placeholder_note() -> Seq<char> {
    "# Sample Note\n\nThis is a sample note loaded from the desktop app."@
}

/// The text of the digit `d`.
fn digit_text(d: u64) -> (r: &'static str)
    requires
        d < 10,
    ensures
        r@ == seq![digit_char(d as nat)],
{
    proof {
        reveal_strlit("0");
        reveal_strlit("1");
        reveal_strlit("2");
        reveal_strlit("3");
        reveal_strlit("4");
        reveal_strlit("5");
        reveal_strlit("6");
        reveal_strlit("7");
        reveal_strlit("8");
        reveal_strlit("9");
    }
    match d {
        0 => "0",
        1 => "1",
        2 => "2",
        3 => "3",
        4 => "4",
        5 => "5",
        6 => "6",
        7 => "7",
        8 => "8",
        _ => "9",
    }
}

/// The decimal digits of `n`.
fn digits_text(n: u64) -> (r: String)
    ensures
        r@ == digits(n as nat),
    decreases n,
{
    if n < 10 {
        digit_text(n).to_owned()
    } else {
        let mut s = digits_text(n / 10);
        s.append(digit_text(n % 10));
        s
    }
}

/// `n` in decimal.
pub fn decimal_text(n: i64) -> (r: String)
    ensures
        r@ == decimal(n as int),
{
    if n < 0 {
        proof {
            reveal_strlit("-");
        }
        let magnitude: u64 = (-(n + 1)) as u64 + 1;
        let mut s = "-".to_owned();
        s.append(digits_text(magnitude).as_str());
        s
    } else {
        digits_text(n as u64)
    }
}

/// Saves a note and returns its path: `path` if given, else
/// `note_<timestamp>.md`, where `timestamp` is the current Unix time in seconds.
pub fn save_note(content: &str, path: Option<String>, timestamp: i64) -> (r: String)
    ensures
        r@ == note_path_spec(
            match path {
                Some(p) => Some(p@),
                None => None,
            },
            timestamp as int,
        ),
{
    match path {
        Some(p) => p,
        None => {
            proof {
                reveal_strlit("note_");
                reveal_strlit(".md");
            }
            let mut s = "note_".to_owned();
            s.append(decimal_text(timestamp).as_str());
            s.append(".md");
            s
        },
    }
}

/// Loads the note at `path`; the content is a fixed sample.
pub fn load_note(path: &str) -> (r: String)
    ensures
        r@ == placeholder_note(),
{
    proof {
        reveal_strlit("# Sample Note\n\nThis is a sample note loaded from the desktop app.");
    }
    "# Sample Note\n\nThis is a sample note loaded from the desktop app.".to_owned()
}

/// A note saved without a path at a time not before the epoch gets a path of
/// the form `note_<digits>.md`.
pub proof fn generated_path_is_digits(timestamp: int)
    requires
        timestamp >= 0,
    ensures
        ({
            let p = generated_note_path(timestamp);
            let body = p.subrange(5, p.len() - 3);
            &&& p.subrange(0, 5) == "note_"@
            &&& p.subrange(p.len() - 3, p.len() as int) == ".md"@
            &&& body.len() > 0
            &&& forall|i: int| 0 <= i < body.len() ==> '0' <= #[trigger] body[i] <= '9'
        }),
{
    reveal_strlit("note_");
    reveal_strlit(".md");
    digits_are_digits(timestamp as nat);
    let d = digits(timestamp as nat);
    let p = generated_note_path(timestamp);
    assert(p.subrange(0, 5) =~= "note_"@);
    assert(p.subrange(p.len() - 3, p.len() as int) =~= ".md"@);
    assert(p.subrange(5, p.len() - 3) =~= d);
}

proof fn digits_are_digits(n: nat)
    ensures
        digits(n).len() > 0,
        forall|i: int| 0 <= i < digits(n).len() ==> '0' <= #[trigger] digits(n)[i] <= '9',
    decreases n,
{
    if n >= 10 {
        digits_are_digits(n / 10);
    }
}

} // verus!
