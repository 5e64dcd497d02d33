//! The wording of everything the engine prints or asks.

use vstd::prelude::*;
use vstd::string::StringExecFns;

verus! {

/// The character that stands for a single decimal digit.
pub open spec fn digit(d: nat) -> char {
    if d == 0 {
        '0'
    } else if d == 1 {
        '1'
    } else if d == 2 {
        '2'
    } else if d == 3 {
        '3'
    } else if d == 4 {
        '4'
    } else if d == 5 {
        '5'
    } else if d == 6 {
        '6'
    } else if d == 7 {
        '7'
    } else if d == 8 {
        '8'
    } else {
        '9'
    }
}

/// The decimal numeral of `n`: its digits, most significant first, without
/// leading zeros.
pub open spec fn decimal(n: nat) -> Seq<char>
    decreases n,
{
    if n < 10 {
        seq![digit(n)]
    } else {
        decimal(n / 10) + seq![digit(n % 10)]
    }
}

/// The line that reports a removed file.
pub open spec fn removed_file_line(path: Seq<char>) -> Seq<char> {
    "removed '"@ + path + "'"@
}

/// The line that reports a removed directory.
pub open spec fn removed_dir_line(path: Seq<char>) -> Seq<char> {
    "removed directory '"@ + path + "'"@
}

/// The question put to the user before one target is removed.
pub open spec fn item_prompt(path: Seq<char>) -> Seq<char> {
    "remove '"@ + path + "'?"@
}

/// The question put to the user once, before a run that would remove `count`
/// entries.
pub open spec fn aggregate_prompt(count: nat) -> Seq<char> {
    "Remove "@ + decimal(count) + " files and directories recursively?"@
}

fn digit_text(d: usize) -> (text: &'static str)
    requires
        d < 10,
    ensures
        text@ == seq![digit(d as nat)],
{
    proof {
        reveal_strlit("0");
        reveal_strlit("1");
        reveal_strlit("2");
        reveal_strlit("3");
        reveal_strlit("4");
        reveal_strlit("5");
        reveal_strlit("6");
        reveal_strlit("7");
        reveal_strlit("8");
        reveal_strlit("9");
    }
    let text = if d == 0 {
        "0"
    } else if d == 1 {
        "1"
    } else if d == 2 {
        "2"
    } else if d == 3 {
        "3"
    } else if d == 4 {
        "4"
    } else if d == 5 {
        "5"
    } else if d == 6 {
        "6"
    } else if d == 7 {
        "7"
    } else if d == 8 {
        "8"
    } else {
        "9"
    };
    assert(text@ =~= seq![digit(d as nat)]);
    text
}

/// Writes `n` as a decimal numeral.
pub fn decimal_text(n: usize) -> (text: String)
    ensures
        text@ == decimal(n as nat),
    decreases n,
{
    if n < 10 {
        String::from_str(digit_text(n))
    } else {
        decimal_text(n / 10).concat(digit_text(n % 10))
    }
}

/// `before`, then `middle`, then `after`, as one string.
pub fn enclose(before: &str, middle: &String, after: &str) -> (text: String)
    ensures
        text@ == before@ + middle@ + after@,
{
    String::from_str(before).concat(middle.as_str()).concat(after)
}

/// Words the report of a removed file.
pub fn removed_file_text(path: &String) -> (line: String)
    ensures
        line@ == removed_file_line(path@),
{
    enclose("removed '", path, "'")
}

/// Words the report of a removed directory.
pub fn removed_dir_text(path: &String) -> (line: String)
    ensures
        line@ == removed_dir_line(path@),
{
    enclose("removed directory '", path, "'")
}

/// Words the question asked before one target is removed.
pub fn item_prompt_text(path: &String) -> (prompt: String)
    ensures
        prompt@ == item_prompt(path@),
{
    enclose("remove '", path, "'?")
}

/// Words the question asked once before a run of `count` entries.
pub fn aggregate_prompt_text(count: usize) -> (prompt: String)
    ensures
        prompt@ == aggregate_prompt(count as nat),
{
    let number = decimal_text(count);
    enclose("Remove ", &number, " files and directories recursively?")
}

} // verus!
