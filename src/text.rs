use vstd::prelude::*;

verus! {

/// The character of a decimal digit.
pub open spec fn digit_char(d: nat) -> char {
    if d == 0 {
        '0'
    } else if d == 1 {
        '1'
    } else if d == 2 {
        '2'
    } else if d == 3 {
        '3'
    } else if d == 4 {
        '4'
    } else if d == 5 {
        '5'
    } else if d == 6 {
        '6'
    } else if d == 7 {
        '7'
    } else if d == 8 {
        '8'
    } else {
        '9'
    }
}

/// The decimal digits of `n`, most significant first, without leading zeros.
pub open spec fn nat_text(n: nat) -> Seq<char>
    decreases n,
{
    if n < 10 {
        seq![digit_char(n)]
    } else {
        nat_text(n / 10) + seq![digit_char(n % 10)]
    }
}

/// The decimal text of an integer, with a leading '-' when it is negative.
pub open spec fn int_text(i: int) -> Seq<char> {
    if i < 0 {
        seq!['-'] + nat_text((-i) as nat)
    } else {
        nat_text(i as nat)
    }
}

/// The text that stands for an absent value in a table cell.
pub open spec fn placeholder() -> Seq<char> {
    seq!['_']
}

/// The text of an optional cell: its value, or the placeholder.
pub open spec fn option_text_spec(o: Option<Seq<char>>) -> Seq<char> {
    match o {
        Some(s) => s,
        None => placeholder(),
    }
}

/// Indents a block of text by one tab: a tab in front, and one after each newline.
pub open spec fn indented(s: Seq<char>) -> Seq<char> {
    seq!['\t'] + indent_rest(s)
}

/// Each newline of `s` followed by a tab.
pub open spec fn indent_rest(s: Seq<char>) -> Seq<char>
    decreases s.len(),
{
    if s.len() == 0 {
        seq![]
    } else {
        let last = s.last();
        indent_rest(s.drop_last()) + if last == '\n' {
            seq!['\n', '\t']
        } else {
            seq![last]
        }
    }
}

fn digit_str(d: u32) -> (r: &'static str)
    requires
        d < 10,
    ensures
        r@ == seq![digit_char(d as nat)],
{
    proof {
        reveal_strlit("0");
        reveal_strlit("1");
        reveal_strlit("2");
        reveal_strlit("3");
        reveal_strlit("4");
        reveal_strlit("5");
        reveal_strlit("6");
        reveal_strlit("7");
        reveal_strlit("8");
        reveal_strlit("9");
    }
    let r = if d == 0 {
        "0"
    } else if d == 1 {
        "1"
    } else if d == 2 {
        "2"
    } else if d == 3 {
        "3"
    } else if d == 4 {
        "4"
    } else if d == 5 {
        "5"
    } else if d == 6 {
        "6"
    } else if d == 7 {
        "7"
    } else if d == 8 {
        "8"
    } else {
        "9"
    };
    assert(r@ =~= seq![digit_char(d as nat)]);
    r
}

/// The decimal text of an unsigned number.
pub fn unsigned_text(n: u32) -> (r: String)
    ensures
        r@ == nat_text(n as nat),
    decreases n,
{
    if n < 10 {
        String::from_str(digit_str(n))
    } else {
        let mut s = unsigned_text(n / 10);
        s.append(digit_str(n % 10));
        s
    }
}

/// The decimal text of a signed number, as it is printed.
pub fn signed_text(i: i32) -> (r: String)
    ensures
        r@ == int_text(i as int),
{
    if i < 0 {
        let magnitude: u32 = if i == i32::MIN {
            2147483648u32
        } else {
            (-i) as u32
        };
        let digits = unsigned_text(magnitude);
        let mut s = String::from_str("-");
        proof {
            reveal_strlit("-");
        }
        s.append(digits.as_str());
        s
    } else {
        unsigned_text(i as u32)
    }
}

/// The text of an optional table cell: the value itself, or `_` when it is absent.
pub fn option_text(o: &Option<String>) -> (r: String)
    ensures
        r@ == option_text_spec(
            match o {
                Some(s) => Some(s@),
                None => None,
            },
        ),
{
    match o {
        Some(s) => s.clone(),
        None => {
            proof {
                reveal_strlit("_");
            }
            String::from_str("_")
        },
    }
}

/// Indents a rendered block by one tab: one in front of the first line and
/// one after every newline.
pub fn indent_block(s: &str) -> (r: String)
    ensures
        r@ == indented(s@),
{
    proof {
        reveal_strlit("\t");
    }
    let n = s.unicode_len();
    let mut r = String::from_str("\t");
    let mut i: usize = 0;
    while i < n
        invariant
            n == s@.len(),
            i <= n,
            r@ == seq!['\t'] + indent_rest(s@.subrange(0, i as int)),
        decreases n - i,
    {
        let c = s.get_char(i);
        let ghost prefix = s@.subrange(0, i as int + 1);
        assert(prefix.drop_last() =~= s@.subrange(0, i as int));
        assert(prefix.last() == c);
        assert(indent_rest(prefix) == indent_rest(s@.subrange(0, i as int)) + if c == '\n' {
            seq!['\n', '\t']
        } else {
            seq![c]
        });
        let one = s.substring_char(i, i + 1);
        assert(one@ =~= seq![c]);
        r.append(one);
        if c == '\n' {
            proof {
                reveal_strlit("\t");
            }
            r.append("\t");
        }
        i = i + 1;
        assert(r@ =~= seq!['\t'] + indent_rest(prefix));
    }
    assert(s@.subrange(0, n as int) =~= s@);
    r
}

} // verus!
