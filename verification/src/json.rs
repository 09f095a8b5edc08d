//! JSON encoding of the service's response bodies: items, arrays of items,
//! and the uniform error envelope. The spec functions here define the exact
//! character sequence of each body; the executable encoders are proved to
//! produce it.

use vstd::prelude::*;
use crate::item::{Item, ItemView};

verus! {

/// How one character is written inside a JSON string literal: quote,
/// backslash, newline, carriage return and tab are escaped; every other
/// character stands as itself.
pub open spec fn escaped_char(c: char) -> Seq<char> {
    if c == '"' {
        seq!['\\', '"']
    } else if c == '\\' {
        seq!['\\', '\\']
    } else if c == '\n' {
        seq!['\\', 'n']
    } else if c == '\r' {
        seq!['\\', 'r']
    } else if c == '\t' {
        seq!['\\', 't']
    } else {
        seq![c]
    }
}

/// The characters of `s`, each escaped for a JSON string literal.
pub open spec fn escaped(s: Seq<char>) -> Seq<char>
    decreases s.len(),
{
    if s.len() == 0 {
        Seq::empty()
    } else {
        escaped(s.drop_last()) + escaped_char(s.last())
    }
}

/// A JSON string literal: the escaped characters between double quotes.
pub open spec fn json_string(s: Seq<char>) -> Seq<char> {
    seq!['"'] + escaped(s) + seq!['"']
}

/// The digit character for `d`, for `d < 10`.
pub open spec fn digit_char(d: nat) -> char {
    if d == 0 {
        '0'
    } else if d == 1 {
        '1'
    } else if d == 2 {
        '2'
    } else if d == 3 {
        '3'
    } else if d == 4 {
        '4'
    } else if d == 5 {
        '5'
    } else if d == 6 {
        '6'
    } else if d == 7 {
        '7'
    } else if d == 8 {
        '8'
    } else {
        '9'
    }
}

/// The decimal digits of `n`, most significant first, with no leading zero
/// except for `n == 0` itself.
pub open spec fn decimal(n: nat) -> Seq<char>
    decreases n,
{
    if n < 10 {
        seq![digit_char(n)]
    } else {
        decimal(n / 10) + seq![digit_char(n % 10)]
    }
}

/// The JSON object for one item: `{"id":N,"name":S,"description":S}`.
pub open spec fn item_json(it: ItemView) -> Seq<char> {
    "{\"id\":"@ + decimal(it.id as nat) + ",\"name\":"@ + json_string(it.name)
        + ",\"description\":"@ + json_string(it.description) + "}"@
}

/// The comma-separated item objects of a JSON array, without the brackets.
pub open spec fn items_json_body(s: Seq<ItemView>) -> Seq<char>
    decreases s.len(),
{
    if s.len() == 0 {
        Seq::empty()
    } else if s.len() == 1 {
        item_json(s[0])
    } else {
        items_json_body(s.drop_last()) + seq![','] + item_json(s.last())
    }
}

/// The JSON array of item objects.
pub open spec fn items_json(s: Seq<ItemView>) -> Seq<char> {
    seq!['['] + items_json_body(s) + seq![']']
}

/// The uniform error envelope: `{"error":S}`.
pub open spec fn error_json(msg: Seq<char>) -> Seq<char> {
    "{\"error\":"@ + json_string(msg) + "}"@
}

/// Relies on `String::push`: appends exactly the one character.
#[verifier::external_body]
fn push_char(s: &mut String, c: char)
    ensures
        final(s)@ == old(s)@.push(c),
{
    s.push(c);
}

/// The digit character for `d`, executable.
fn digit_of(d: u64) -> (r: char)
    requires
        d < 10,
    ensures
        r == digit_char(d as nat),
{
    if d == 0 {
        '0'
    } else if d == 1 {
        '1'
    } else if d == 2 {
        '2'
    } else if d == 3 {
        '3'
    } else if d == 4 {
        '4'
    } else if d == 5 {
        '5'
    } else if d == 6 {
        '6'
    } else if d == 7 {
        '7'
    } else if d == 8 {
        '8'
    } else {
        '9'
    }
}

/// The decimal digits of `n` as a string.
pub fn decimal_string(n: u64) -> (r: String)
    ensures
        r@ == decimal(n as nat),
    decreases n,
{
    if n < 10 {
        let mut s = String::new();
        push_char(&mut s, digit_of(n));
        proof {
            assert(s@ =~= decimal(n as nat));
        }
        s
    } else {
        let mut s = decimal_string(n / 10);
        push_char(&mut s, digit_of(n % 10));
        proof {
            assert(s@ =~= decimal((n / 10) as nat) + seq![digit_char((n % 10) as nat)]);
            assert((n / 10) as nat == (n as nat) / 10);
            assert((n % 10) as nat == (n as nat) % 10);
        }
        s
    }
}

/// The characters of `s`, escaped for a JSON string literal, as a string.
pub fn escape_string(s: &str) -> (r: String)
    ensures
        r@ == escaped(s@),
{
    let n = s.unicode_len();
    let mut out = String::new();
    proof {
        assert(out@ =~= escaped(s@.take(0)));
    }
    let mut i: usize = 0;
    while i < n
        invariant
            i <= n,
            n == s@.len(),
            out@ == escaped(s@.take(i as int)),
        decreases n - i,
    {
        let c = s.get_char(i);
        if c == '"' {
            push_char(&mut out, '\\');
            push_char(&mut out, '"');
        } else if c == '\\' {
            push_char(&mut out, '\\');
            push_char(&mut out, '\\');
        } else if c == '\n' {
            push_char(&mut out, '\\');
            push_char(&mut out, 'n');
        } else if c == '\r' {
            push_char(&mut out, '\\');
            push_char(&mut out, 'r');
        } else if c == '\t' {
            push_char(&mut out, '\\');
            push_char(&mut out, 't');
        } else {
            push_char(&mut out, c);
        }
        proof {
            let pre = s@.take(i as int);
            let post = s@.take(i + 1 as int);
            assert(post.drop_last() =~= pre);
            assert(post.last() == s@[i as int]);
            assert(out@ =~= escaped(pre) + escaped_char(s@[i as int]));
        }
        i += 1;
    }
    proof {
        assert(s@.take(n as int) =~= s@);
    }
    out
}

/// A JSON string literal for `s`.
pub fn json_string_of(s: &str) -> (r: String)
    ensures
        r@ == json_string(s@),
{
    let mut out = String::new();
    push_char(&mut out, '"');
    let esc = escape_string(s);
    out.append(esc.as_str());
    push_char(&mut out, '"');
    proof {
        assert(out@ =~= json_string(s@));
    }
    out
}

/// The JSON object for one item.
pub fn encode_item(it: &Item) -> (r: String)
    requires
        it.id >= 0,
    ensures
        r@ == item_json(it@),
{
    let mut out = String::from_str("{\"id\":");
    let digits = decimal_string(it.id as u64);
    out.append(digits.as_str());
    out.append(",\"name\":");
    let name = json_string_of(it.name.as_str());
    out.append(name.as_str());
    out.append(",\"description\":");
    let description = json_string_of(it.description.as_str());
    out.append(description.as_str());
    out.append("}");
    proof {
        assert((it.id as u64) as nat == it@.id as nat);
        assert(out@ =~= item_json(it@));
    }
    out
}

/// The JSON array of the items of `items`, in their order.
pub fn encode_items(items: &Vec<Item>) -> (r: String)
    requires
        forall|k: int| 0 <= k < items@.len() ==> #[trigger] items@[k].id >= 0,
    ensures
        r@ == items_json(items.deep_view()),
{
    let ghost dv = items.deep_view();
    let mut body = String::new();
    proof {
        assert(body@ =~= items_json_body(dv.take(0)));
    }
    let mut j: usize = 0;
    while j < items.len()
        invariant
            j <= items@.len(),
            dv == items.deep_view(),
            dv.len() == items@.len(),
            forall|k: int| 0 <= k < items@.len() ==> #[trigger] items@[k].id >= 0,
            body@ == items_json_body(dv.take(j as int)),
        decreases items@.len() - j,
    {
        if j > 0 {
            push_char(&mut body, ',');
        }
        let piece = encode_item(&items[j]);
        body.append(piece.as_str());
        proof {
            let pre = dv.take(j as int);
            let post = dv.take(j + 1 as int);
            assert(post.drop_last() =~= pre);
            assert(post.last() == dv[j as int]);
            assert(dv[j as int] == items@[j as int]@);
            if j == 0 {
                assert(body@ =~= items_json_body(post));
            } else {
                assert(body@ =~= items_json_body(pre) + seq![','] + item_json(dv[j as int]));
            }
        }
        j += 1;
    }
    let mut out = String::new();
    push_char(&mut out, '[');
    out.append(body.as_str());
    push_char(&mut out, ']');
    proof {
        assert(dv.take(items@.len() as int) =~= dv);
        assert(out@ =~= items_json(dv));
    }
    out
}

/// The uniform error envelope for `msg`.
pub fn encode_error(msg: &str) -> (r: String)
    ensures
        r@ == error_json(msg@),
{
    let mut out = String::from_str("{\"error\":");
    let lit = json_string_of(msg);
    out.append(lit.as_str());
    out.append("}");
    proof {
        assert(out@ =~= error_json(msg@));
    }
    out
}

} // verus!
