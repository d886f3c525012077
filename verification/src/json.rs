use vstd::prelude::*;

use crate::user::User;

verus! {

/// The digit character for a value below 16, lowercase for 10 to 15.
pub open spec fn digit(n: int) -> char {
    if n == 0 {
        '0'
    } else if n == 1 {
        '1'
    } else if n == 2 {
        '2'
    } else if n == 3 {
        '3'
    } else if n == 4 {
        '4'
    } else if n == 5 {
        '5'
    } else if n == 6 {
        '6'
    } else if n == 7 {
        '7'
    } else if n == 8 {
        '8'
    } else if n == 9 {
        '9'
    } else if n == 10 {
        'a'
    } else if n == 11 {
        'b'
    } else if n == 12 {
        'c'
    } else if n == 13 {
        'd'
    } else if n == 14 {
        'e'
    } else {
        'f'
    }
}

/// The decimal text of a non-negative integer, most significant digit
/// first, with no leading zeros except for zero itself.
pub open spec fn dec_nat(n: nat) -> Seq<char>
    decreases n,
{
    if n < 10 {
        seq![digit(n as int)]
    } else {
        dec_nat(n / 10) + seq![digit((n % 10) as int)]
    }
}

/// The decimal text of an integer, with a leading minus sign when
/// negative.
pub open spec fn dec_int(n: int) -> Seq<char> {
    if n < 0 {
        seq!['-'] + dec_nat((-n) as nat)
    } else {
        dec_nat(n as nat)
    }
}

/// How one character appears inside a JSON string literal: quote,
/// backslash and the common control characters get a two-character
/// escape, the remaining control characters a `\u00XX` escape, and
/// everything else stands as itself.
pub open spec fn esc_char(c: char) -> Seq<char> {
    if c == '"' {
        seq!['\\', '"']
    } else if c == '\\' {
        seq!['\\', '\\']
    } else if c == '\n' {
        seq!['\\', 'n']
    } else if c == '\r' {
        seq!['\\', 'r']
    } else if c == '\t' {
        seq!['\\', 't']
    } else if (c as int) < 32 {
        seq!['\\', 'u', '0', '0', digit(c as int / 16), digit(c as int % 16)]
    } else {
        seq![c]
    }
}

/// A whole text, escaped character by character.
pub open spec fn escaped(s: Seq<char>) -> Seq<char>
    decreases s.len(),
{
    if s.len() == 0 {
        Seq::empty()
    } else {
        escaped(s.drop_last()) + esc_char(s.last())
    }
}

/// A JSON string literal: the escaped text between double quotes.
pub open spec fn json_string(s: Seq<char>) -> Seq<char> {
    seq!['"'] + escaped(s) + seq!['"']
}

/// The JSON object for one user, fields in id, name, email order.
pub open spec fn user_json(id: int, name: Seq<char>, email: Seq<char>) -> Seq<char> {
    "{\"id\":"@ + dec_int(id) + ",\"name\":"@ + json_string(name) + ",\"email\":"@ + json_string(
        email,
    ) + "}"@
}

/// The JSON object for a user value.
pub open spec fn user_json_of(u: User) -> Seq<char> {
    user_json(u.id as int, u.name@, u.email@)
}

/// The comma-separated objects inside the JSON array for a row
/// sequence.
pub open spec fn users_json_items(s: Seq<User>) -> Seq<char>
    decreases s.len(),
{
    if s.len() == 0 {
        Seq::empty()
    } else if s.len() == 1 {
        user_json_of(s[0])
    } else {
        users_json_items(s.drop_last()) + seq![','] + user_json_of(s.last())
    }
}

/// The JSON array for a row sequence, in row order.
pub open spec fn users_json(s: Seq<User>) -> Seq<char> {
    seq!['['] + users_json_items(s) + seq![']']
}

/// The one-character text for a value below 16.
fn digit_str(n: u64) -> (r: &'static str)
    requires
        n < 16,
    ensures
        r@ == seq![digit(n as int)],
{
    proof {
        reveal_strlit("0");
        reveal_strlit("1");
        reveal_strlit("2");
        reveal_strlit("3");
        reveal_strlit("4");
        reveal_strlit("5");
        reveal_strlit("6");
        reveal_strlit("7");
        reveal_strlit("8");
        reveal_strlit("9");
        reveal_strlit("a");
        reveal_strlit("b");
        reveal_strlit("c");
        reveal_strlit("d");
        reveal_strlit("e");
        reveal_strlit("f");
    }
    if n == 0 {
        proof { assert("0"@ =~= seq![digit(0)]); }
        "0"
    } else if n == 1 {
        proof { assert("1"@ =~= seq![digit(1)]); }
        "1"
    } else if n == 2 {
        proof { assert("2"@ =~= seq![digit(2)]); }
        "2"
    } else if n == 3 {
        proof { assert("3"@ =~= seq![digit(3)]); }
        "3"
    } else if n == 4 {
        proof { assert("4"@ =~= seq![digit(4)]); }
        "4"
    } else if n == 5 {
        proof { assert("5"@ =~= seq![digit(5)]); }
        "5"
    } else if n == 6 {
        proof { assert("6"@ =~= seq![digit(6)]); }
        "6"
    } else if n == 7 {
        proof { assert("7"@ =~= seq![digit(7)]); }
        "7"
    } else if n == 8 {
        proof { assert("8"@ =~= seq![digit(8)]); }
        "8"
    } else if n == 9 {
        proof { assert("9"@ =~= seq![digit(9)]); }
        "9"
    } else if n == 10 {
        proof { assert("a"@ =~= seq![digit(10)]); }
        "a"
    } else if n == 11 {
        proof { assert("b"@ =~= seq![digit(11)]); }
        "b"
    } else if n == 12 {
        proof { assert("c"@ =~= seq![digit(12)]); }
        "c"
    } else if n == 13 {
        proof { assert("d"@ =~= seq![digit(13)]); }
        "d"
    } else if n == 14 {
        proof { assert("e"@ =~= seq![digit(14)]); }
        "e"
    } else {
        proof { assert("f"@ =~= seq![digit(15)]); }
        "f"
    }
}

/// The decimal text of an unsigned 64-bit value.
fn fmt_u64(n: u64) -> (r: String)
    ensures
        r@ == dec_nat(n as nat),
    decreases n,
{
    if n < 10 {
        String::from_str(digit_str(n))
    } else {
        let mut r = fmt_u64(n / 10);
        r.append(digit_str(n % 10));
        r
    }
}

/// The decimal text of a signed 64-bit value, minus sign included.
fn fmt_i64(n: i64) -> (r: String)
    ensures
        r@ == dec_int(n as int),
{
    if n >= 0 {
        fmt_u64(n as u64)
    } else {
        let mag: i128 = -(n as i128);
        proof {
            assert(0 < mag <= 0x8000_0000_0000_0000);
        }
        let digits = fmt_u64(mag as u64);
        let mut r = String::from_str("-");
        proof {
            reveal_strlit("-");
            assert(r@ =~= seq!['-']);
        }
        r.append(digits.as_str());
        proof {
            assert(mag as u64 as nat == (-(n as int)) as nat);
            assert(r@ =~= dec_int(n as int));
        }
        r
    }
}

/// The text of `s` as it stands inside a JSON string literal.
fn escape_str(s: &str) -> (r: String)
    ensures
        r@ == escaped(s@),
{
    let n = s.unicode_len();
    let mut r = String::new();
    let mut i: usize = 0;
    while i < n
        invariant
            n == s@.len(),
            0 <= i <= n,
            r@ == escaped(s@.subrange(0, i as int)),
        decreases n - i,
    {
        proof {
            reveal_strlit("\\\"");
            reveal_strlit("\\\\");
            reveal_strlit("\\n");
            reveal_strlit("\\r");
            reveal_strlit("\\t");
            reveal_strlit("\\u00");
        }
        let c = s.get_char(i);
        if c == '"' {
            r.append("\\\"");
            proof { assert("\\\""@ =~= esc_char(c)); }
        } else if c == '\\' {
            r.append("\\\\");
            proof { assert("\\\\"@ =~= esc_char(c)); }
        } else if c == '\n' {
            r.append("\\n");
            proof { assert("\\n"@ =~= esc_char(c)); }
        } else if c == '\r' {
            r.append("\\r");
            proof { assert("\\r"@ =~= esc_char(c)); }
        } else if c == '\t' {
            r.append("\\t");
            proof { assert("\\t"@ =~= esc_char(c)); }
        } else if (c as u32) < 32 {
            let v = c as u32;
            r.append("\\u00");
            r.append(digit_str((v / 16) as u64));
            r.append(digit_str((v % 16) as u64));
            proof {
                assert("\\u00"@ + seq![digit(v as int / 16)] + seq![digit(v as int % 16)] =~= esc_char(c));
            }
        } else {
            let piece = s.substring_char(i, i + 1);
            proof {
                assert(piece@ =~= esc_char(c));
            }
            r.append(piece);
        }
        proof {
            assert(s@.subrange(0, i as int + 1).drop_last() =~= s@.subrange(0, i as int));
            assert(s@.subrange(0, i as int + 1).last() == s@[i as int]);
            assert(r@ =~= escaped(s@.subrange(0, i as int + 1)));
        }
        i = i + 1;
    }
    proof {
        assert(s@.subrange(0, n as int) =~= s@);
    }
    r
}

/// A JSON string literal for `s`.
fn json_string_of(s: &str) -> (r: String)
    ensures
        r@ == json_string(s@),
{
    proof {
        reveal_strlit("\"");
    }
    let mut r = String::from_str("\"");
    let body = escape_str(s);
    r.append(body.as_str());
    r.append("\"");
    proof {
        assert("\""@ =~= seq!['"']);
        assert(r@ =~= json_string(s@));
    }
    r
}

/// The JSON body for one user.
pub fn encode_user(u: &User) -> (r: String)
    ensures
        r@ == user_json_of(*u),
{
    let mut r = String::from_str("{\"id\":");
    let id_txt = fmt_i64(u.id);
    r.append(id_txt.as_str());
    r.append(",\"name\":");
    let name_txt = json_string_of(u.name.as_str());
    r.append(name_txt.as_str());
    r.append(",\"email\":");
    let email_txt = json_string_of(u.email.as_str());
    r.append(email_txt.as_str());
    r.append("}");
    proof {
        assert(r@ =~= user_json_of(*u));
    }
    r
}

/// The JSON body for a row listing, in row order.
pub fn encode_users(users: &Vec<User>) -> (r: String)
    ensures
        r@ == users_json(users@),
{
    proof {
        reveal_strlit("[");
        reveal_strlit("]");
        reveal_strlit(",");
    }
    let mut r = String::from_str("[");
    proof {
        assert(users@.subrange(0, 0) =~= Seq::<User>::empty());
        assert(r@ =~= seq!['['] + users_json_items(users@.subrange(0, 0)));
    }
    let mut i: usize = 0;
    while i < users.len()
        invariant
            0 <= i <= users@.len(),
            r@ == seq!['['] + users_json_items(users@.subrange(0, i as int)),
        decreases users@.len() - i,
    {
        if i > 0 {
            r.append(",");
            proof {
                reveal_strlit(",");
                assert(","@ =~= seq![',']);
            }
        }
        let item = encode_user(&users[i]);
        r.append(item.as_str());
        proof {
            let pre = users@.subrange(0, i as int);
            let now = users@.subrange(0, i as int + 1);
            assert(now.drop_last() =~= pre);
            assert(now.last() == users@[i as int]);
            assert(r@ =~= seq!['['] + users_json_items(now));
        }
        i = i + 1;
    }
    r.append("]");
    proof {
        assert("]"@ =~= seq![']']);
        assert(users@.subrange(0, users@.len() as int) =~= users@);
        assert(r@ =~= users_json(users@));
    }
    r
}

} // verus!
