//! How the host writes a command: the command name, a `;`, then its data.
//! Only the first two fields count; a further `;` ends the data.
use vstd::prelude::*;
use vstd::string::StringExecFns;

verus! {

/// Where the field that starts at `from` ends: the position of the next `;`,
/// or the end of the text.
pub open spec fn field_end(s: Seq<char>, from: int) -> int
    decreases s.len() - from,
{
    if from >= s.len() {
        s.len() as int
    } else if s[from] == ';' {
        from
    } else {
        field_end(s, from + 1)
    }
}

/// The command name and the data of a command text; none when the text holds
/// no `;`.
pub open spec fn command_fields(s: Seq<char>) -> Option<(Seq<char>, Seq<char>)> {
    let name_end = field_end(s, 0);
    if name_end >= s.len() {
        None
    } else {
        Some((s.subrange(0, name_end), s.subrange(name_end + 1, field_end(s, name_end + 1))))
    }
}

proof fn lemma_field_end_bounds(s: Seq<char>, from: int)
    requires
        0 <= from,
    ensures
        from <= s.len() ==> from <= field_end(s, from) <= s.len(),
    decreases s.len() - from,
{
    if from < s.len() && s[from] != ';' {
        lemma_field_end_bounds(s, from + 1);
    }
}

fn find_field_end(s: &str, from: usize) -> (r: usize)
    requires
        from <= s@.len(),
    ensures
        r == field_end(s@, from as int),
        from <= r <= s@.len(),
{
    let n = s.unicode_len();
    let mut i = from;
    proof {
        lemma_field_end_bounds(s@, from as int);
    }
    while i < n && s.get_char(i) != ';'
        invariant
            n == s@.len(),
            from <= i <= n,
            field_end(s@, i as int) == field_end(s@, from as int),
        decreases n - i,
    {
        i = i + 1;
    }
    i
}

/// Splits a command text into its name and its data.
pub fn split_command(input: &str) -> (r: Option<(String, String)>)
    ensures
        match r {
            Some((name, data)) => command_fields(input@) == Some((name@, data@)),
            None => command_fields(input@) is None,
        },
{
    let n = input.unicode_len();
    let name_end = find_field_end(input, 0);
    if name_end >= n {
        return None;
    }
    let data_end = find_field_end(input, name_end + 1);
    let name = String::from_str(input.substring_char(0, name_end));
    let data = String::from_str(input.substring_char(name_end + 1, data_end));
    Some((name, data))
}

} // verus!
