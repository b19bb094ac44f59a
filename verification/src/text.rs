//! Text the endpoints and the list view build from plain values: decimal
//! renderings of ids and ages, the greeting message, and a post's one-line
//! label.

use vstd::prelude::*;
use vstd::string::StringExecFns;

use crate::post::Post;

verus! {

/// The decimal digit character for `d`.
pub open spec fn digit_char(d: int) -> char {
    if d == 0 {
        '0'
    } else if d == 1 {
        '1'
    } else if d == 2 {
        '2'
    } else if d == 3 {
        '3'
    } else if d == 4 {
        '4'
    } else if d == 5 {
        '5'
    } else if d == 6 {
        '6'
    } else if d == 7 {
        '7'
    } else if d == 8 {
        '8'
    } else {
        '9'
    }
}

/// The decimal rendering of a non-negative number: most significant digit
/// first, no leading zero except for 0 itself.
pub open spec fn dec_digits(n: int) -> Seq<char>
    decreases n,
{
    if n < 10 {
        seq![digit_char(n)]
    } else {
        dec_digits(n / 10).push(digit_char(n % 10))
    }
}

/// The decimal rendering of a signed number: a minus sign in front of the
/// magnitude when the number is negative.
pub open spec fn dec_digits_signed(n: int) -> Seq<char> {
    if n < 0 {
        seq!['-'] + dec_digits(-n)
    } else {
        dec_digits(n)
    }
}

fn digit_str(d: u32) -> (s: &'static str)
    requires
        d < 10,
    ensures
        s@ =~= seq![digit_char(d as int)],
{
    proof {
        reveal_strlit("0");
        reveal_strlit("1");
        reveal_strlit("2");
        reveal_strlit("3");
        reveal_strlit("4");
        reveal_strlit("5");
        reveal_strlit("6");
        reveal_strlit("7");
        reveal_strlit("8");
        reveal_strlit("9");
    }
    match d {
        0 => "0",
        1 => "1",
        2 => "2",
        3 => "3",
        4 => "4",
        5 => "5",
        6 => "6",
        7 => "7",
        8 => "8",
        _ => "9",
    }
}

/// Render `n` in decimal.
pub fn u32_to_string(n: u32) -> (s: String)
    ensures
        s@ == dec_digits(n as int),
    decreases n,
{
    if n < 10 {
        digit_str(n).to_owned()
    } else {
        let mut s = u32_to_string(n / 10);
        s.append(digit_str(n % 10));
        proof {
            assert(s@ =~= dec_digits(n as int));
        }
        s
    }
}

/// Render `n` in decimal, with a minus sign when it is negative.
pub fn i32_to_string(n: i32) -> (s: String)
    ensures
        s@ == dec_digits_signed(n as int),
{
    if n >= 0 {
        u32_to_string(n as u32)
    } else {
        let magnitude: u32 = (-(n as i64)) as u32;
        let mut s = String::from_str("-");
        let rendered = u32_to_string(magnitude);
        s.append(rendered.as_str());
        proof {
            reveal_strlit("-");
            assert(s@ =~= dec_digits_signed(n as int));
        }
        s
    }
}

/// The greeting that the hello endpoint answers with, built from the two
/// query parameters.
pub fn greeting(name: &str, age: u32) -> (s: String)
    ensures
        s@ == "Hello, my name is "@ + name@ + "! I am "@ + dec_digits(age as int)
            + " years old!"@,
{
    let mut s = String::from_str("Hello, my name is ");
    s.append(name);
    s.append("! I am ");
    let rendered = u32_to_string(age);
    s.append(rendered.as_str());
    s.append(" years old!");
    proof {
        assert(s@ =~= "Hello, my name is "@ + name@ + "! I am "@ + dec_digits(age as int)
            + " years old!"@);
    }
    s
}

/// The labels the list view shows, one per post, in the posts' order.
pub fn post_labels(posts: &Vec<Post>) -> (labels: Vec<String>)
    ensures
        labels@.len() == posts@.len(),
        forall|i: int|
            0 <= i < posts@.len() ==> #[trigger] labels@[i]@ == dec_digits_signed(
                posts@[i].id as int,
            ) + ": "@ + posts@[i].title@,
{
    let mut labels: Vec<String> = Vec::new();
    let mut i: usize = 0;
    let n = posts.len();
    while i < n
        invariant
            i <= n,
            n == posts@.len(),
            labels@.len() == i,
            forall|k: int|
                0 <= k < i ==> #[trigger] labels@[k]@ == dec_digits_signed(posts@[k].id as int)
                    + ": "@ + posts@[k].title@,
        decreases n - i,
    {
        labels.push(post_label(&posts[i]));
        i = i + 1;
    }
    labels
}

/// The one-line label the list view shows for a post: its id, then its
/// title.
pub fn post_label(post: &Post) -> (s: String)
    ensures
        s@ == dec_digits_signed(post.id as int) + ": "@ + post.title@,
{
    let mut s = i32_to_string(post.id);
    s.append(": ");
    s.append(post.title.as_str());
    proof {
        assert(s@ =~= dec_digits_signed(post.id as int) + ": "@ + post.title@);
    }
    s
}

} // verus!
