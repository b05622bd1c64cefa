//! The deployment item runner's decision logic: which script an item runs,
//! how a line of script output is classified, and what a process exit code
//! means for the item. Spawning the process and streaming its output happen
//! outside the library; every line and every exit code is handed to these
//! functions.
//!
//! A progress marker is a bracketed tag embedded in an output line: an
//! opening bracket, the word `PROGRESS`, a colon, the item kind in lowercase
//! letters, another colon, a decimal percentage, and a closing bracket. A
//! line without such a marker is a plain log line.

use vstd::prelude::*;
use vstd::string::StringExecFns;
use crate::text::{
    chars_eq_str, chars_of, i32_dec_chars, parse_digits, spec_digits_val, spec_int_decimal,
    spec_is_digit, str_eq, string_from_chars, sub_chars,
};

verus! {

pub open spec fn spec_is_lower_alpha(c: char) -> bool {
    'a' <= c && c <= 'z'
}

/// The first index at or after `j` that does not hold a lowercase letter
/// (or the end of the sequence).
pub open spec fn spec_letters_end(s: Seq<char>, j: int) -> int
    decreases s.len() - j,
{
    if 0 <= j < s.len() && spec_is_lower_alpha(s[j]) {
        spec_letters_end(s, j + 1)
    } else {
        j
    }
}

/// The first index at or after `j` that does not hold a decimal digit (or
/// the end of the sequence).
pub open spec fn spec_digits_end(s: Seq<char>, j: int) -> int
    decreases s.len() - j,
{
    if 0 <= j < s.len() && spec_is_digit(s[j]) {
        spec_digits_end(s, j + 1)
    } else {
        j
    }
}

/// A progress marker starts at index `i` of `s`: the opening tag, at least
/// one lowercase letter, a colon, at least one digit, and the closing
/// bracket.
pub open spec fn spec_marker_at(s: Seq<char>, i: int) -> bool {
    let p = "[PROGRESS:"@;
    &&& 0 <= i
    &&& i + p.len() <= s.len()
    &&& s.subrange(i, i + p.len()) == p
    &&& ({
        let a = spec_letters_end(s, i + p.len());
        &&& a > i + p.len()
        &&& a < s.len()
        &&& s[a] == ':'
        &&& ({
            let b = spec_digits_end(s, a + 1);
            &&& b > a + 1
            &&& b < s.len()
            &&& s[b] == ']'
        })
    })
}

/// The item kind the marker at `i` carries.
pub open spec fn spec_marker_item(s: Seq<char>, i: int) -> Seq<char> {
    let p = "[PROGRESS:"@;
    s.subrange(i + p.len(), spec_letters_end(s, i + p.len()))
}

/// The digit string the marker at `i` carries.
pub open spec fn spec_marker_digits(s: Seq<char>, i: int) -> Seq<char> {
    let p = "[PROGRESS:"@;
    let a = spec_letters_end(s, i + p.len());
    s.subrange(a + 1, spec_digits_end(s, a + 1))
}

/// The start of the leftmost progress marker of the line, if any.
pub open spec fn spec_first_marker(s: Seq<char>) -> Option<int> {
    if exists|i: int| spec_marker_at(s, i) {
        Some(
            choose|i: int|
                spec_marker_at(s, i) && forall|j: int| 0 <= j < i ==> !spec_marker_at(s, j),
        )
    } else {
        None
    }
}

proof fn lemma_letters_end_at(s: Seq<char>, start: int, a: int)
    requires
        0 <= start <= a <= s.len(),
        forall|j: int| start <= j < a ==> spec_is_lower_alpha(s[j]),
        a < s.len() ==> !spec_is_lower_alpha(s[a]),
    ensures
        spec_letters_end(s, start) == a,
    decreases a - start,
{
    if start < a {
        lemma_letters_end_at(s, start + 1, a);
    }
}

proof fn lemma_digits_end_at(s: Seq<char>, start: int, a: int)
    requires
        0 <= start <= a <= s.len(),
        forall|j: int| start <= j < a ==> spec_is_digit(s[j]),
        a < s.len() ==> !spec_is_digit(s[a]),
    ensures
        spec_digits_end(s, start) == a,
    decreases a - start,
{
    if start < a {
        lemma_digits_end_at(s, start + 1, a);
    }
}

fn is_lower_alpha(c: char) -> (r: bool)
    ensures
        r == spec_is_lower_alpha(c),
{
    'a' <= c && c <= 'z'
}

fn is_digit_char(c: char) -> (r: bool)
    ensures
        r == spec_is_digit(c),
{
    '0' <= c && c <= '9'
}

/// Tries to read a progress marker starting at index `i`; on success hands
/// back the item-kind bounds and the digit bounds.
fn try_marker_at(v: &Vec<char>, i: usize) -> (r: Option<(usize, usize)>)
    requires
        i + 10 <= v@.len(),
    ensures
        match r {
            Some(ab) => {
                let (a, b) = ab;
                &&& spec_marker_at(v@, i as int)
                &&& a == spec_letters_end(v@, i + 10)
                &&& b == spec_digits_end(v@, a + 1)
                &&& i + 10 < a < b < v@.len()
                &&& forall|j: int| a + 1 <= j < b ==> spec_is_digit(v@[j])
            },
            None => !spec_marker_at(v@, i as int),
        },
{
    proof {
        reveal_strlit("[PROGRESS:");
        assert("[PROGRESS:"@.len() == 10);
    }
    let n = v.len();
    let pre = sub_chars(v, i, i + 10);
    if !chars_eq_str(&pre, "[PROGRESS:") {
        return None;
    }
    let mut a: usize = i + 10;
    while a < n && is_lower_alpha(v[a])
        invariant
            i + 10 <= a <= n,
            n == v@.len(),
            forall|j: int| i + 10 <= j < a ==> spec_is_lower_alpha(v@[j]),
        decreases n - a,
    {
        a = a + 1;
    }
    proof {
        lemma_letters_end_at(v@, i + 10, a as int);
    }
    if a == i + 10 || a == n || v[a] != ':' {
        return None;
    }
    let mut b: usize = a + 1;
    while b < n && is_digit_char(v[b])
        invariant
            a + 1 <= b <= n,
            n == v@.len(),
            forall|j: int| a + 1 <= j < b ==> spec_is_digit(v@[j]),
        decreases n - b,
    {
        b = b + 1;
    }
    proof {
        lemma_digits_end_at(v@, a + 1 as int, b as int);
    }
    if b == a + 1 || b == n || v[b] != ']' {
        return None;
    }
    Some((a, b))
}

/// Finds the leftmost progress marker of an output line: the item kind it
/// names and its percentage, saturated at `u32::MAX`. A line without a
/// marker yields `None` and is treated as a plain log line.
pub fn parse_progress_marker(line: &str) -> (r: Option<(String, u32)>)
    ensures
        match r {
            Some(pr) => ({
                &&& spec_first_marker(line@) is Some
                &&& ({
                    let i = spec_first_marker(line@)->Some_0;
                    let val = spec_digits_val(spec_marker_digits(line@, i));
                    &&& pr.0@ == spec_marker_item(line@, i)
                    &&& pr.1 == if val <= u32::MAX {
                        val
                    } else {
                        u32::MAX as nat
                    }
                })
            }),
            None => spec_first_marker(line@) is None,
        },
{
    proof {
        reveal_strlit("[PROGRESS:");
        assert("[PROGRESS:"@.len() == 10);
    }
    let v = chars_of(line);
    let n = v.len();
    if n < 10 {
        proof {
            assert(forall|i: int| !spec_marker_at(line@, i));
        }
        return None;
    }
    let mut i: usize = 0;
    while i <= n - 10
        invariant
            i <= n - 10 + 1,
            10 <= n,
            n == v@.len(),
            v@ == line@,
            forall|k: int| 0 <= k < i ==> !spec_marker_at(line@, k),
        decreases n - i,
    {
        match try_marker_at(&v, i) {
            Some((a, b)) => {
                let item_chars = sub_chars(&v, i + 10, a);
                let item = string_from_chars(&item_chars);
                let percent = parse_digits(&v, a + 1, b);
                proof {
                    reveal_strlit("[PROGRESS:");
                    assert("[PROGRESS:"@.len() == 10);
                    let w = choose|w: int|
                        spec_marker_at(line@, w) && forall|j: int|
                            0 <= j < w ==> !spec_marker_at(line@, j);
                    assert(spec_marker_at(line@, i as int));
                    assert(spec_first_marker(line@) is Some);
                    assert(!(w < i) && !(i < w));
                }
                return Some((item, percent));
            },
            None => {},
        }
        i = i + 1;
    }
    proof {
        reveal_strlit("[PROGRESS:");
        assert("[PROGRESS:"@.len() == 10);
        assert(forall|k: int| !spec_marker_at(line@, k));
    }
    None
}

/// The script an item kind runs; only the small fixed vocabulary of item
/// kinds is accepted.
pub open spec fn spec_item_script(name: Seq<char>) -> Option<Seq<char>> {
    if name == "data"@ {
        Some("deploy_data.sh"@)
    } else if name == "solr"@ {
        Some("deploy_solr.sh"@)
    } else if name == "app"@ {
        Some("deploy_app.sh"@)
    } else {
        None
    }
}

/// The script an item kind runs. An unknown kind is a local configuration
/// error named in the message, never retried.
pub fn item_script_name(name: &str) -> (r: Result<&'static str, String>)
    ensures
        match r {
            Ok(s) => spec_item_script(name@) == Some(s@),
            Err(m) => spec_item_script(name@) is None && m@ == "Unknown deployment item type: "@
                + name@,
        },
{
    if str_eq(name, "data") {
        Ok("deploy_data.sh")
    } else if str_eq(name, "solr") {
        Ok("deploy_solr.sh")
    } else if str_eq(name, "app") {
        Ok("deploy_app.sh")
    } else {
        Err(String::from_str("Unknown deployment item type: ").concat(name))
    }
}

/// The message an item failure carries: the item kind and the exit code.
pub open spec fn spec_exit_message(item: Seq<char>, code: int) -> Seq<char> {
    item + " deployment failed with exit code: "@ + spec_int_decimal(code)
}

/// What a process exit means for the item: exit code zero is success;
/// anything else fails the item with a message naming the code. Lines on the
/// error stream never fail an item by themselves.
pub fn runner_outcome(item_name: &str, exit_code: i32) -> (r: Result<(), String>)
    ensures
        match r {
            Ok(_) => exit_code == 0,
            Err(m) => exit_code != 0 && m@ == spec_exit_message(item_name@, exit_code as int),
        },
{
    if exit_code == 0 {
        Ok(())
    } else {
        let mut msg = String::from_str(item_name);
        msg.append(" deployment failed with exit code: ");
        let digits = i32_dec_chars(exit_code);
        let digits_str = string_from_chars(&digits);
        msg.append(digits_str.as_str());
        proof {
            assert(msg@ =~= spec_exit_message(item_name@, exit_code as int));
        }
        Err(msg)
    }
}

/// The status name an item-completion broadcast carries for each deploy
/// environment.
pub open spec fn spec_completion_status_name(env_name: Seq<char>) -> Seq<char> {
    if env_name == "staging"@ {
        "ReadyToTestInStaging"@
    } else if env_name == "production"@ {
        "ReadyToTestInProduction"@
    } else {
        "Completed"@
    }
}

/// The status name an item-completion broadcast carries.
pub fn completion_status_name(env_name: &str) -> (r: &'static str)
    ensures
        r@ == spec_completion_status_name(env_name@),
{
    if str_eq(env_name, "staging") {
        "ReadyToTestInStaging"
    } else if str_eq(env_name, "production") {
        "ReadyToTestInProduction"
    } else {
        "Completed"
    }
}

} // verus!
