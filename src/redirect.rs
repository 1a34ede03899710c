//! Redirect targets: a fixed one, one built from a code, and a relative one.
use vstd::prelude::*;

verus! {

/// The decimal digit for `d` below ten.
pub open spec fn digit_char(d: nat) -> char {
    if d == 0 {
        '0'
    } else if d == 1 {
        '1'
    } else if d == 2 {
        '2'
    } else if d == 3 {
        '3'
    } else if d == 4 {
        '4'
    } else if d == 5 {
        '5'
    } else if d == 6 {
        '6'
    } else if d == 7 {
        '7'
    } else if d == 8 {
        '8'
    } else {
        '9'
    }
}

/// `n` written in decimal, without leading zeros.
pub open spec fn decimal(n: nat) -> Seq<char>
    decreases n,
{
    if n < 10 {
        seq![digit_char(n)]
    } else {
        decimal(n / 10).push(digit_char(n % 10))
    }
}

/// The path of the status endpoint for `code`: `/code/<code>/`.
pub open spec fn code_path(code: nat) -> Seq<char> {
    seq!['/', 'c', 'o', 'd', 'e', '/'] + decimal(code) + seq!['/']
}

/// The target of the nested redirect: the relative reference `200`.
pub open spec fn nested_target() -> Seq<char> {
    seq!['2', '0', '0']
}

/// A reference that resolves against the current request path: not empty,
/// not rooted at `/`, and with no `:`, so carrying neither scheme nor host.
pub open spec fn is_relative_reference(s: Seq<char>) -> bool {
    &&& s.len() > 0
    &&& s[0] != '/'
    &&& forall|i: int| 0 <= i < s.len() ==> s[i] != ':'
}

/// Where a redirect points, and whether it is permanent.
#[derive(Debug, Clone, PartialEq, Eq)]
pub struct RedirectTarget {
    pub location: String,
    pub permanent: bool,
}

impl View for RedirectTarget {
    type V = (Seq<char>, bool);

    open spec fn view(&self) -> (Seq<char>, bool) {
        (self.location@, self.permanent)
    }
}

fn digit_str(d: u16) -> (r: &'static str)
    requires
        d < 10,
    ensures
        r@ == seq![digit_char(d as nat)],
{
    proof {
        reveal_strlit("0");
        reveal_strlit("1");
        reveal_strlit("2");
        reveal_strlit("3");
        reveal_strlit("4");
        reveal_strlit("5");
        reveal_strlit("6");
        reveal_strlit("7");
        reveal_strlit("8");
        reveal_strlit("9");
    }
    match d {
        0 => "0",
        1 => "1",
        2 => "2",
        3 => "3",
        4 => "4",
        5 => "5",
        6 => "6",
        7 => "7",
        8 => "8",
        _ => "9",
    }
}

fn push_decimal(s: &mut String, n: u16)
    ensures
        final(s)@ == old(s)@ + decimal(n as nat),
    decreases n,
{
    if n >= 10 {
        push_decimal(s, n / 10);
    }
    s.append(digit_str(n % 10));
    proof {
        if n >= 10 {
            assert(old(s)@ + decimal(n as nat) =~= old(s)@ + decimal((n / 10) as nat) + seq![
                digit_char((n % 10) as nat),
            ]);
        } else {
            assert(decimal(n as nat) == seq![digit_char(n as nat)]);
        }
    }
}

fn code_location(code: u16) -> (r: String)
    ensures
        r@ == code_path(code as nat),
{
    proof {
        reveal_strlit("/code/");
        reveal_strlit("/");
    }
    let mut s = String::from_str("/code/");
    push_decimal(&mut s, code);
    s.append("/");
    assert(s@ =~= code_path(code as nat));
    s
}

/// A non-permanent redirect to the status endpoint for 200.
pub fn fixed_redirect() -> (r: RedirectTarget)
    ensures
        r@ == (code_path(200), false),
{
    RedirectTarget { location: code_location(200), permanent: false }
}

/// A non-permanent redirect to the status endpoint for `code`.
pub fn code_redirect(code: u16) -> (r: RedirectTarget)
    ensures
        r@ == (code_path(code as nat), false),
{
    RedirectTarget { location: code_location(code), permanent: false }
}

/// A permanent redirect to the relative reference `200`, which a client
/// resolves against the path it requested.
pub fn nested_redirect() -> (r: RedirectTarget)
    ensures
        r@ == (nested_target(), true),
        is_relative_reference(r.location@),
        r.permanent,
{
    proof {
        reveal_strlit("200");
    }
    let location = String::from_str("200");
    assert(location@ =~= nested_target());
    RedirectTarget { location, permanent: true }
}

/// The target of a code redirect holds the code's decimal digits right after
/// `/code/`, and is rooted at `/`, unlike the relative nested target.
pub proof fn code_path_embeds_code(code: nat)
    ensures
        code_path(code).subrange(6, 6 + decimal(code).len() as int) == decimal(code),
        code_path(code)[0] == '/',
        !is_relative_reference(code_path(code)),
        is_relative_reference(nested_target()),
{
    assert(code_path(code).subrange(6, 6 + decimal(code).len() as int) =~= decimal(code));
    assert(nested_target()[0] == '2');
}

} // verus!
