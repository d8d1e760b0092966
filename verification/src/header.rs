//! The `X-XSS-Protection` response header: a single flag, written as the
//! one character `1` or `0`.

use vstd::prelude::*;
use vstd::utf8::{encode_utf8, is_ascii_chars, is_ascii_chars_encode_utf8};

verus! {

/// The header's name.
pub open spec fn header_name_text() -> Seq<char> {
    "X-XSS-Protection"@
}

/// The flag that the raw lines of a header carry: there must be exactly one
/// line, of exactly one byte, and that byte must be the digit `1` (on) or `0`
/// (off). Anything else is no value of this header.
pub open spec fn parsed(lines: Seq<Seq<u8>>) -> Option<bool> {
    if lines.len() == 1 && lines[0].len() == 1 {
        if lines[0][0] == 49u8 {
            Some(true)
        } else if lines[0][0] == 48u8 {
            Some(false)
        } else {
            None
        }
    } else {
        None
    }
}

/// The text that a flag is written as.
pub open spec fn written(flag: bool) -> Seq<char> {
    if flag {
        seq!['1']
    } else {
        seq!['0']
    }
}

/// The header's name.
pub fn header_name() -> (name: &'static str)
    ensures
        name@ == header_name_text(),
{
    "X-XSS-Protection"
}

/// Reads the flag from the raw lines of the header.
pub fn parse_header(raw: &[Vec<u8>]) -> (flag: Option<bool>)
    ensures
        flag == parsed(raw.deep_view()),
{
    if raw.len() == 1 {
        let line = &raw[0];
        assert(raw.deep_view()[0] == line@);
        if line.len() == 1 {
            let byte = line[0];
            if byte == 49u8 {
                return Some(true);
            }
            if byte == 48u8 {
                return Some(false);
            }
        }
    }
    None
}

/// Writes the flag: `1` for on, `0` for off.
pub fn fmt_header(flag: bool) -> (text: &'static str)
    ensures
        text@ == written(flag),
{
    proof {
        reveal_strlit("1");
        reveal_strlit("0");
    }
    if flag {
        let text = "1";
        assert(text@ =~= written(true));
        text
    } else {
        let text = "0";
        assert(text@ =~= written(false));
        text
    }
}

/// What is written is read back: the UTF-8 bytes of a written flag, as the
/// only line of a header, parse to that flag.
pub proof fn law_written_is_parsed(flag: bool)
    ensures
        parsed(seq![encode_utf8(written(flag))]) == Some(flag),
{
    let text = written(flag);
    assert(is_ascii_chars(text));
    is_ascii_chars_encode_utf8(text);
    let line = encode_utf8(text);
    assert(line.len() == 1);
    assert(text[0] as u8 == line[0]);
    assert('1' as u8 == 49u8);
    assert('0' as u8 == 48u8);
    assert(seq![line][0] == line);
}

} // verus!
