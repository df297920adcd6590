//! Where the file of a day lives: below the home directory, in a directory of
//! journals, by user, year and month.

use vstd::prelude::*;
use vstd::string::StringExecFns;
use crate::date::Date;

verus! {

/// The character that writes a digit.
pub open spec fn digit(d: nat) -> char {
    if d == 0 {
        '0'
    } else if d == 1 {
        '1'
    } else if d == 2 {
        '2'
    } else if d == 3 {
        '3'
    } else if d == 4 {
        '4'
    } else if d == 5 {
        '5'
    } else if d == 6 {
        '6'
    } else if d == 7 {
        '7'
    } else if d == 8 {
        '8'
    } else {
        '9'
    }
}

/// The digits of a natural number in base ten, without leading zeros.
pub open spec fn digits(n: nat) -> Seq<char>
    decreases n,
{
    if n < 10 {
        seq![digit(n)]
    } else {
        digits(n / 10).push(digit(n % 10))
    }
}

/// An integer written in base ten: its digits, after a minus sign where it is
/// negative. Nothing is padded.
pub open spec fn decimal(n: int) -> Seq<char> {
    if n < 0 {
        seq!['-'] + digits((-n) as nat)
    } else {
        digits(n as nat)
    }
}

/// The components of the path to the file of `user` for the day `date`, from
/// the home directory down. Nothing but these three decides the path.
pub open spec fn journal_file(home: Seq<char>, user: Seq<char>, date: Date) -> Seq<Seq<char>> {
    seq![
        home,
        ".journals"@,
        user,
        decimal(date.year as int),
        decimal(date.month as int),
        decimal(date.day as int) + ".json"@,
    ]
}

/// The path to the file of one day, component by component, and whether the
/// directories above the file are to be created before the path is used.
#[derive(Debug, PartialEq, Eq)]
pub struct JournalPath {
    pub home: String,
    pub store: String,
    pub user: String,
    pub year: String,
    pub month: String,
    pub file: String,
    pub ensure_dir: bool,
}

impl JournalPath {
    /// The components of the path, from the home directory down to the file.
    pub open spec fn components(self) -> Seq<Seq<char>> {
        seq![self.home@, self.store@, self.user@, self.year@, self.month@, self.file@]
    }
}

/// The text of one digit.
fn digit_text(d: u64) -> (text: &'static str)
    requires
        d < 10,
    ensures
        text@ == seq![digit(d as nat)],
{
    proof {
        reveal_strlit("0");
        reveal_strlit("1");
        reveal_strlit("2");
        reveal_strlit("3");
        reveal_strlit("4");
        reveal_strlit("5");
        reveal_strlit("6");
        reveal_strlit("7");
        reveal_strlit("8");
        reveal_strlit("9");
    }
    if d == 0 {
        "0"
    } else if d == 1 {
        "1"
    } else if d == 2 {
        "2"
    } else if d == 3 {
        "3"
    } else if d == 4 {
        "4"
    } else if d == 5 {
        "5"
    } else if d == 6 {
        "6"
    } else if d == 7 {
        "7"
    } else if d == 8 {
        "8"
    } else {
        "9"
    }
}

/// Writes the digits of `n` behind what `out` holds.
fn append_digits(out: &mut String, n: u64)
    ensures
        final(out)@ == old(out)@ + digits(n as nat),
    decreases n,
{
    if n >= 10 {
        append_digits(out, n / 10);
    }
    out.append(digit_text(n % 10));
}

/// Writes an integer in base ten.
pub fn decimal_text(n: i64) -> (text: String)
    ensures
        text@ == decimal(n as int),
{
    let mut text = String::new();
    if n < 0 {
        proof {
            reveal_strlit("-");
        }
        text.append("-");
        let magnitude: u64 = (-(n + 1)) as u64 + 1;
        append_digits(&mut text, magnitude);
    } else {
        append_digits(&mut text, n as u64);
    }
    text
}

/// The path to the file that holds the entries of `user` for the day `date`,
/// below the home directory `home`. The flag is handed on with the path and
/// has no part in it.
pub fn resolve(home: &str, user: &str, date: Date, ensure_dir: bool) -> (path: JournalPath)
    ensures
        path.components() == journal_file(home@, user@, date),
        path.ensure_dir == ensure_dir,
{
    let mut file = decimal_text(date.day as i64);
    file.append(".json");
    JournalPath {
        home: String::from_str(home),
        store: String::from_str(".journals"),
        user: String::from_str(user),
        year: decimal_text(date.year as i64),
        month: decimal_text(date.month as i64),
        file,
        ensure_dir,
    }
}

/// The home directory of the user who runs the program, as `dirs::home_dir`
/// finds it in the environment, or `None` where it finds none or finds one
/// that is not Unicode text. Nothing is claimed of the directory.
#[verifier::external_body]
fn home_directory() -> (home: Option<String>) {
    dirs::home_dir().and_then(|home| home.into_os_string().into_string().ok())
}

/// The path to the file of `user` for the day `date`, below the home directory
/// of the user who runs the program; `None` where no home directory is known.
pub fn make_path(user: &str, date: Date, mkdir: bool) -> (path: Option<JournalPath>)
    ensures
        path matches Some(found) ==> found.components() == journal_file(found.home@, user@, date)
            && found.ensure_dir == mkdir,
{
    path_below(home_directory(), user, date, mkdir)
}

/// The path to the file of `user` for the day `date` below the home directory
/// `home`, where one is known; `None` where none is.
pub fn path_below(home: Option<String>, user: &str, date: Date, mkdir: bool) -> (path: Option<
    JournalPath,
>)
    ensures
        match home {
            Some(directory) => path matches Some(found) && found.components() == journal_file(
                directory@,
                user@,
                date,
            ) && found.ensure_dir == mkdir,
            None => path is None,
        },
{
    match home {
        Some(directory) => Some(resolve(directory.as_str(), user, date, mkdir)),
        None => None,
    }
}

} // verus!
