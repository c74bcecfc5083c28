//! Building JSON request bodies by verified concatenation: a JSON string
//! escaper proved against its specification, and the exact body shapes the
//! endpoints send.

use crate::text::{dec_digit, dec_seq, usize_to_dec};
use vstd::prelude::*;
use vstd::string::*;

verus! {

/// The character for a single hexadecimal digit, lower case.
pub open spec fn hex_digit(d: nat) -> char
    recommends
        d < 16,
{
    if d < 10 {
        dec_digit(d)
    } else {
        ((87 + d) as u8) as char
    }
}

/// How one character is written inside a JSON string literal: quote and
/// backslash get a backslash escape, control characters a `\u00XX` escape,
/// every other character stands as itself.
pub open spec fn json_escape_char(c: char) -> Seq<char> {
    if c == '"' {
        seq!['\\', '"']
    } else if c == '\\' {
        seq!['\\', '\\']
    } else if (c as u32) < 32 {
        seq!['\\', 'u', '0', '0', hex_digit((c as u32 / 16) as nat), hex_digit(
            (c as u32 % 16) as nat,
        )]
    } else {
        seq![c]
    }
}

/// A string's characters as written inside a JSON string literal.
pub open spec fn json_escaped(s: Seq<char>) -> Seq<char>
    decreases s.len(),
{
    if s.len() == 0 {
        Seq::empty()
    } else {
        json_escaped(s.drop_last()) + json_escape_char(s.last())
    }
}

fn hex_digit_str(d: usize) -> (r: &'static str)
    requires
        d < 16,
    ensures
        r@ =~= seq![hex_digit(d as nat)],
{
    proof {
        reveal_strlit("0");
        reveal_strlit("1");
        reveal_strlit("2");
        reveal_strlit("3");
        reveal_strlit("4");
        reveal_strlit("5");
        reveal_strlit("6");
        reveal_strlit("7");
        reveal_strlit("8");
        reveal_strlit("9");
        reveal_strlit("a");
        reveal_strlit("b");
        reveal_strlit("c");
        reveal_strlit("d");
        reveal_strlit("e");
        reveal_strlit("f");
    }
    match d {
        0 => "0",
        1 => "1",
        2 => "2",
        3 => "3",
        4 => "4",
        5 => "5",
        6 => "6",
        7 => "7",
        8 => "8",
        9 => "9",
        10 => "a",
        11 => "b",
        12 => "c",
        13 => "d",
        14 => "e",
        _ => "f",
    }
}

/// Escapes a string for inclusion in a JSON string literal, exactly as
/// [`json_escaped`] states.
pub fn json_escape(s: &str) -> (r: String)
    ensures
        r@ == json_escaped(s@),
{
    let n = s.unicode_len();
    let mut r = String::new();
    let mut i: usize = 0;
    while i < n
        invariant
            i <= n,
            n == s@.len(),
            r@ == json_escaped(s@.take(i as int)),
        decreases n - i,
    {
        let c = s.get_char(i);
        if c == '"' {
            proof {
                reveal_strlit("\\\"");
            }
            r.append("\\\"");
        } else if c == '\\' {
            proof {
                reveal_strlit("\\\\");
            }
            r.append("\\\\");
        } else if (c as u32) < 32 {
            proof {
                reveal_strlit("\\u00");
            }
            r.append("\\u00");
            let hi = (c as u32 / 16) as usize;
            let lo = (c as u32 % 16) as usize;
            r.append(hex_digit_str(hi));
            r.append(hex_digit_str(lo));
        } else {
            let piece = s.substring_char(i, i + 1);
            proof {
                assert(piece@ =~= seq![s@[i as int]]);
            }
            r.append(piece);
        }
        proof {
            assert(s@.take(i + 1int).drop_last() =~= s@.take(i as int));
            assert(s@.take(i + 1int).last() == s@[i as int]);
            assert(r@ =~= json_escaped(s@.take(i + 1int)));
        }
        i += 1;
    }
    proof {
        assert(s@.take(n as int) =~= s@);
    }
    r
}

/// A JSON boolean.
pub open spec fn bool_seq(b: bool) -> Seq<char> {
    if b {
        "true"@
    } else {
        "false"@
    }
}

fn bool_str(b: bool) -> (r: &'static str)
    ensures
        r@ == bool_seq(b),
{
    if b {
        "true"
    } else {
        "false"
    }
}

/// A comma-separated list of decimal numbers.
pub open spec fn dec_list(ids: Seq<usize>) -> Seq<char>
    decreases ids.len(),
{
    if ids.len() == 0 {
        Seq::empty()
    } else if ids.len() == 1 {
        dec_seq(ids[0] as nat)
    } else {
        dec_list(ids.drop_last()) + ","@ + dec_seq(ids.last() as nat)
    }
}

/// A comma-separated list of quoted, escaped strings.
pub open spec fn quoted_list(names: Seq<String>) -> Seq<char>
    decreases names.len(),
{
    if names.len() == 0 {
        Seq::empty()
    } else if names.len() == 1 {
        "\""@ + json_escaped(names[0]@) + "\""@
    } else {
        quoted_list(names.drop_last()) + ",\""@ + json_escaped(names.last()@) + "\""@
    }
}

/// The body sent to look users up by their ids.
pub open spec fn user_ids_body(ids: Seq<usize>, exclude_banned: bool) -> Seq<char> {
    "{\"userIds\":["@ + dec_list(ids) + "],\"excludeBannedUsers\":"@ + bool_seq(exclude_banned)
        + "}"@
}

/// The body sent to look users up by their usernames.
pub open spec fn usernames_body(names: Seq<String>, exclude_banned: bool) -> Seq<char> {
    "{\"usernames\":["@ + quoted_list(names) + "],\"excludeBannedUsers\":"@ + bool_seq(
        exclude_banned,
    ) + "}"@
}

/// The body sent to change a display name.
pub open spec fn display_name_body(name: Seq<char>) -> Seq<char> {
    "{\"newDisplayName\":\""@ + json_escaped(name) + "\"}"@
}

/// The body sent to change a user's role in a group.
pub open spec fn role_id_body(role_id: nat) -> Seq<char> {
    "{\"roleId\":"@ + dec_seq(role_id) + "}"@
}

/// Builds [`user_ids_body`].
pub fn build_user_ids_body(ids: &Vec<usize>, exclude_banned: bool) -> (r: String)
    ensures
        r@ == user_ids_body(ids@, exclude_banned),
{
    proof {
        reveal_strlit(",");
    }
    let mut list = String::new();
    let mut i: usize = 0;
    while i < ids.len()
        invariant
            i <= ids@.len(),
            list@ == dec_list(ids@.take(i as int)),
        decreases ids@.len() - i,
    {
        if i > 0 {
            list.append(",");
        }
        let digits = usize_to_dec(ids[i]);
        list.append(digits.as_str());
        proof {
            assert(ids@.take(i + 1int).drop_last() =~= ids@.take(i as int));
            assert(ids@.take(i + 1int).last() == ids@[i as int]);
            assert(list@ =~= dec_list(ids@.take(i + 1int)));
        }
        i += 1;
    }
    let mut r = String::from_str("{\"userIds\":[");
    r.append(list.as_str());
    r.append("],\"excludeBannedUsers\":");
    r.append(bool_str(exclude_banned));
    r.append("}");
    proof {
        assert(ids@.take(ids@.len() as int) =~= ids@);
        assert(r@ =~= user_ids_body(ids@, exclude_banned));
    }
    r
}

/// Builds [`usernames_body`].
pub fn build_usernames_body(names: &Vec<String>, exclude_banned: bool) -> (r: String)
    ensures
        r@ == usernames_body(names@, exclude_banned),
{
    proof {
        reveal_strlit(",\"");
        reveal_strlit("\"");
    }
    let mut list = String::new();
    let mut i: usize = 0;
    while i < names.len()
        invariant
            i <= names@.len(),
            list@ == quoted_list(names@.take(i as int)),
        decreases names@.len() - i,
    {
        if i > 0 {
            list.append(",\"");
        } else {
            list.append("\"");
        }
        let escaped = json_escape(names[i].as_str());
        list.append(escaped.as_str());
        list.append("\"");
        proof {
            assert(names@.take(i + 1int).drop_last() =~= names@.take(i as int));
            assert(names@.take(i + 1int).last() == names@[i as int]);
            assert(list@ =~= quoted_list(names@.take(i + 1int)));
        }
        i += 1;
    }
    let mut r = String::from_str("{\"usernames\":[");
    r.append(list.as_str());
    r.append("],\"excludeBannedUsers\":");
    r.append(bool_str(exclude_banned));
    r.append("}");
    proof {
        assert(names@.take(names@.len() as int) =~= names@);
        assert(r@ =~= usernames_body(names@, exclude_banned));
    }
    r
}

/// Builds [`display_name_body`].
pub fn build_display_name_body(name: &str) -> (r: String)
    ensures
        r@ == display_name_body(name@),
{
    let mut r = String::from_str("{\"newDisplayName\":\"");
    let escaped = json_escape(name);
    r.append(escaped.as_str());
    r.append("\"}");
    proof {
        assert(r@ =~= display_name_body(name@));
    }
    r
}

/// Builds [`role_id_body`].
pub fn build_role_id_body(role_id: usize) -> (r: String)
    ensures
        r@ == role_id_body(role_id as nat),
{
    let mut r = String::from_str("{\"roleId\":");
    let digits = usize_to_dec(role_id);
    r.append(digits.as_str());
    r.append("}");
    proof {
        assert(r@ =~= role_id_body(role_id as nat));
    }
    r
}

} // verus!
