//! Commands of the system: where they are found, and what they print.

use vstd::prelude::*;
use vstd::utf8::{decode_utf8, valid_utf8};
use crate::outside::{from_utf8_lossy, lossy_text};
use crate::text::{chars_of, join, text_between, trim, trimmed};

verus! {

/// The places where a command is looked for, in this order.
pub fn command_candidates(cmd: &str) -> (r: (String, String))
    ensures
        r.0@ == "/bin/"@ + cmd@,
        r.1@ == "/usr/bin/"@ + cmd@,
{
    (join("/bin/", cmd), join("/usr/bin/", cmd))
}

/// The path of a command: the first place where it is, else what `which` has printed, else its
/// name.
pub open spec fn command_path(
    cmd: Seq<char>,
    in_bin: bool,
    in_usr_bin: bool,
    which: Option<Seq<u8>>,
) -> Seq<char> {
    if in_bin {
        "/bin/"@ + cmd
    } else if in_usr_bin {
        "/usr/bin/"@ + cmd
    } else {
        match which {
            Some(printed) => trimmed(lossy_text(printed)),
            None => cmd,
        }
    }
}

/// The path of a command.
///
/// `in_bin` and `in_usr_bin` tell whether it is at the two places of [`command_candidates`], and
/// `which` is what `which` has printed, where it was run and succeeded.
pub fn find_cmd_path(
    cmd: &str,
    in_bin: bool,
    in_usr_bin: bool,
    which: Option<Vec<u8>>,
) -> (r: String)
    ensures
        r@ == command_path(
            cmd@,
            in_bin,
            in_usr_bin,
            match which {
                Some(printed) => Some(printed@),
                None => None,
            },
        ),
        !in_bin && !in_usr_bin ==> (which matches Some(printed) ==> valid_utf8(printed@) ==> r@
            == trimmed(decode_utf8(printed@))),
{
    let (bin, usr_bin) = command_candidates(cmd);
    if in_bin {
        return bin;
    }
    if in_usr_bin {
        return usr_bin;
    }
    match which {
        Some(printed) => {
            let text = from_utf8_lossy(printed.as_slice());
            trim(text.as_str())
        },
        None => cmd.to_owned(),
    }
}

/// A text without the newline at its end, where there is one.
pub open spec fn without_newline(s: Seq<char>) -> Seq<char> {
    if s.len() > 0 && s.last() == '\n' {
        s.drop_last()
    } else {
        s
    }
}

/// A text without the newline at its end, where there is one.
pub fn trim_newline(s: &str) -> (r: String)
    ensures
        r@ == without_newline(s@),
{
    let chars = chars_of(s);
    if chars.len() > 0 && chars[chars.len() - 1] == '\n' {
        let r = text_between(&chars, 0, chars.len() - 1);
        assert(r@ =~= s@.drop_last());
        return r;
    }
    s.to_owned()
}

/// What a command has printed, without the newline at its end.
pub fn run_cmds_trim_newline(stdout: &[u8]) -> (r: String)
    ensures
        r@ == without_newline(lossy_text(stdout@)),
        valid_utf8(stdout@) ==> r@ == without_newline(decode_utf8(stdout@)),
{
    let out = from_utf8_lossy(stdout);
    trim_newline(out.as_str())
}

// ---------------------------------------------------------------------------------------------
// Laws
// ---------------------------------------------------------------------------------------------

/// Exactly one newline is taken away: what has none stays as it is, and of several all but one
/// stay.
pub proof fn law_one_newline_is_taken_away(s: Seq<char>)
    ensures
        without_newline(s.push('\n')) == s,
        s.len() > 0 && s.last() != '\n' ==> without_newline(s) == s,
{
    assert(s.push('\n').drop_last() =~= s);
}

/// A newline at the end is taken away, and nothing else: what is left is the beginning of the
/// text, shorter by one character at most.
pub proof fn law_nothing_but_a_newline_is_taken_away(s: Seq<char>)
    ensures
        without_newline(s).is_prefix_of(s),
        without_newline(s).len() < s.len() ==> s.last() == '\n' && without_newline(s).len() + 1
            == s.len(),
        s.len() == 0 || s.last() != '\n' ==> without_newline(s) == s,
{
    assert(without_newline(s) =~= s.subrange(0, without_newline(s).len() as int));
}

/// A command is taken from `/bin` where it is there, whatever else is known of it, else from
/// `/usr/bin`, else from where `which` has found it, and else by its name.
pub proof fn law_places_of_commands_in_order(
    cmd: Seq<char>,
    in_usr_bin: bool,
    which: Option<Seq<u8>>,
    printed: Seq<u8>,
)
    ensures
        command_path(cmd, true, in_usr_bin, which) == "/bin/"@ + cmd,
        command_path(cmd, false, true, which) == "/usr/bin/"@ + cmd,
        command_path(cmd, false, false, Some(printed)) == trimmed(lossy_text(printed)),
        command_path(cmd, false, false, None) == cmd,
{
}

} // verus!
