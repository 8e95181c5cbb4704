//! The texts that an address is made of: flags, numbers, token lists and
//! query strings.

use vstd::prelude::*;

verus! {

/// How a flag is written in a query string.
pub open spec fn flag_text(on: bool) -> Seq<char> {
    if on {
        "true"@
    } else {
        "false"@
    }
}

/// Writes a flag as it stands in a query string: `true` or `false`.
pub fn flag(on: bool) -> (text: &'static str)
    ensures
        text@ == flag_text(on),
{
    if on {
        "true"
    } else {
        "false"
    }
}

/// The character of a decimal digit.
pub open spec fn digit_char(digit: nat) -> char
    recommends
        digit < 10,
{
    ('0' as nat + digit) as char
}

/// A number in decimal notation, without sign or leading zeros.
pub open spec fn decimal_text(n: nat) -> Seq<char>
    decreases n,
{
    if n < 10 {
        seq![digit_char(n)]
    } else {
        decimal_text(n / 10).push(digit_char(n % 10))
    }
}

fn digit(d: usize) -> (text: &'static str)
    requires
        d < 10,
    ensures
        text@ == seq![digit_char(d as nat)],
{
    proof {
        reveal_strlit("0");
        reveal_strlit("1");
        reveal_strlit("2");
        reveal_strlit("3");
        reveal_strlit("4");
        reveal_strlit("5");
        reveal_strlit("6");
        reveal_strlit("7");
        reveal_strlit("8");
        reveal_strlit("9");
    }
    let text = if d == 0 {
        "0"
    } else if d == 1 {
        "1"
    } else if d == 2 {
        "2"
    } else if d == 3 {
        "3"
    } else if d == 4 {
        "4"
    } else if d == 5 {
        "5"
    } else if d == 6 {
        "6"
    } else if d == 7 {
        "7"
    } else if d == 8 {
        "8"
    } else {
        "9"
    };
    assert(text@ =~= seq![digit_char(d as nat)]);
    text
}

/// Writes a number in decimal notation.
pub fn decimal(n: usize) -> (text: String)
    ensures
        text@ == decimal_text(n as nat),
    decreases n,
{
    if n < 10 {
        digit(n).to_owned()
    } else {
        let mut text = decimal(n / 10);
        text.append(digit(n % 10));
        assert(text@ =~= decimal_text(n as nat));
        text
    }
}

/// The parts in their order, with the separator between each two of them.
pub open spec fn joined(parts: Seq<Seq<char>>, separator: Seq<char>) -> Seq<char>
    decreases parts.len(),
{
    if parts.len() == 0 {
        Seq::empty()
    } else if parts.len() == 1 {
        parts[0]
    } else {
        joined(parts.drop_last(), separator) + separator + parts.last()
    }
}

/// The characters of each text of a list.
pub open spec fn texts(list: Seq<&str>) -> Seq<Seq<char>> {
    Seq::new(list.len(), |i: int| list[i]@)
}

/// Joins the texts with the separator between each two of them.
pub fn join(list: &Vec<&str>, separator: &str) -> (text: String)
    ensures
        text@ == joined(texts(list@), separator@),
{
    let mut text = String::new();
    let mut i: usize = 0;
    while i < list.len()
        invariant
            i <= list.len(),
            text@ == joined(texts(list@).take(i as int), separator@),
        decreases list.len() - i,
    {
        if i > 0 {
            text.append(separator);
        }
        text.append(list[i]);
        proof {
            let before = texts(list@).take(i as int);
            let after = texts(list@).take(i + 1);
            assert(after.drop_last() =~= before);
            assert(after.last() == list@[i as int]@);
            if i == 0 {
                assert(text@ =~= after[0]);
            }
        }
        i = i + 1;
    }
    proof {
        assert(texts(list@).take(list.len() as int) =~= texts(list@));
    }
    text
}

/// One parameter of a query string.
#[derive(Clone, Copy, Debug)]
pub struct Param<'a> {
    pub name: &'a str,
    pub value: &'a str,
}

impl<'a> View for Param<'a> {
    type V = (Seq<char>, Seq<char>);

    open spec fn view(&self) -> (Seq<char>, Seq<char>) {
        (self.name@, self.value@)
    }
}

/// The name and the value of each parameter of a list.
pub open spec fn params(list: Seq<Param<'_>>) -> Seq<(Seq<char>, Seq<char>)> {
    Seq::new(list.len(), |i: int| list[i]@)
}

/// A parameter as it stands in a query string: name, `=`, value.
pub open spec fn param_text(param: (Seq<char>, Seq<char>)) -> Seq<char> {
    param.0 + seq!['='] + param.1
}

/// The query string of an address: nothing where there are no parameters,
/// else `?` and the parameters in their order with `&` between each two.
pub open spec fn query_text(list: Seq<(Seq<char>, Seq<char>)>) -> Seq<char>
    decreases list.len(),
{
    if list.len() == 0 {
        Seq::empty()
    } else if list.len() == 1 {
        seq!['?'] + param_text(list[0])
    } else {
        query_text(list.drop_last()) + seq!['&'] + param_text(list.last())
    }
}

/// Appends the query string of the parameters to a path.
pub fn endpoint(path: &str, query: &Vec<Param<'_>>) -> (text: String)
    ensures
        text@ == path@ + query_text(params(query@)),
{
    let mut text = path.to_owned();
    let mut i: usize = 0;
    proof {
        reveal_strlit("?");
        reveal_strlit("&");
        reveal_strlit("=");
        assert(text@ =~= path@ + query_text(params(query@).take(0)));
    }
    while i < query.len()
        invariant
            i <= query.len(),
            text@ == path@ + query_text(params(query@).take(i as int)),
            "?"@ == seq!['?'],
            "&"@ == seq!['&'],
            "="@ == seq!['='],
        decreases query.len() - i,
    {
        if i == 0 {
            text.append("?");
        } else {
            text.append("&");
        }
        text.append(query[i].name);
        text.append("=");
        text.append(query[i].value);
        proof {
            let before = params(query@).take(i as int);
            let after = params(query@).take(i + 1);
            assert(after.drop_last() =~= before);
            assert(after.last() == query@[i as int]@);
            assert(text@ =~= path@ + query_text(after));
        }
        i = i + 1;
    }
    proof {
        assert(params(query@).take(query.len() as int) =~= params(query@));
    }
    text
}

} // verus!
