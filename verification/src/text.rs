//! Verified text helpers: whitespace envelope trimming, joining argument
//! lists with spaces, and decimal formatting of integers.

use vstd::prelude::*;

verus! {

/// Whitespace characters that form a trimmable envelope around a text block.
pub open spec fn is_space_char(c: char) -> bool {
    c == ' ' || c == '\t' || c == '\n' || c == '\r' || c == '\u{b}' || c == '\u{c}'
}

/// `s` with its leading whitespace removed.
pub open spec fn trim_front(s: Seq<char>) -> Seq<char>
    decreases s.len(),
{
    if s.len() > 0 && is_space_char(s[0]) {
        trim_front(s.drop_first())
    } else {
        s
    }
}

/// `s` with its trailing whitespace removed.
pub open spec fn trim_back(s: Seq<char>) -> Seq<char>
    decreases s.len(),
{
    if s.len() > 0 && is_space_char(s.last()) {
        trim_back(s.drop_last())
    } else {
        s
    }
}

/// `s` with its whitespace envelope removed: leading and trailing whitespace
/// gone, interior characters untouched.
pub open spec fn spec_trimmed(s: Seq<char>) -> Seq<char> {
    trim_back(trim_front(s))
}

/// Tests whether a character belongs to the trimmable whitespace envelope.
pub fn is_space(c: char) -> (r: bool)
    ensures
        r == is_space_char(c),
{
    c == ' ' || c == '\t' || c == '\n' || c == '\r' || c == '\u{b}' || c == '\u{c}'
}

proof fn lemma_trim_front_step(s: Seq<char>, i: int, len: int)
    requires
        0 <= i < len == s.len(),
        is_space_char(s[i]),
    ensures
        trim_front(s.subrange(i, len)) == trim_front(s.subrange(i + 1, len)),
{
    let t = s.subrange(i, len);
    assert(t.drop_first() =~= s.subrange(i + 1, len));
}

proof fn lemma_trim_back_step(s: Seq<char>, i: int, j: int)
    requires
        0 <= i < j <= s.len(),
        is_space_char(s[j - 1]),
    ensures
        trim_back(s.subrange(i, j)) == trim_back(s.subrange(i, j - 1)),
{
    let t = s.subrange(i, j);
    assert(t.drop_last() =~= s.subrange(i, j - 1));
}

/// Removes the whitespace envelope of `s`: the result is `s` without its
/// leading and trailing whitespace, interior characters preserved.
pub fn trim_envelope(s: &str) -> (r: String)
    ensures
        r@ == spec_trimmed(s@),
{
    let len = s.unicode_len();
    proof {
        assert(s@.subrange(0, len as int) =~= s@);
    }
    let mut i: usize = 0;
    loop
        invariant
            0 <= i <= len,
            len == s@.len(),
            trim_front(s@) == trim_front(s@.subrange(i as int, len as int)),
        ensures
            0 <= i <= len,
            len == s@.len(),
            trim_front(s@) == s@.subrange(i as int, len as int),
        decreases len - i,
    {
        if i < len && is_space(s.get_char(i)) {
            proof {
                lemma_trim_front_step(s@, i as int, len as int);
            }
            i = i + 1;
        } else {
            proof {
                if i == len {
                    assert(s@.subrange(i as int, len as int) =~= Seq::<char>::empty());
                } else {
                    assert(s@.subrange(i as int, len as int)[0] == s@[i as int]);
                }
            }
            break;
        }
    }
    let mut j: usize = len;
    loop
        invariant
            i <= j <= len,
            len == s@.len(),
            trim_front(s@) == s@.subrange(i as int, len as int),
            trim_back(s@.subrange(i as int, len as int)) == trim_back(
                s@.subrange(i as int, j as int),
            ),
        ensures
            i <= j <= len,
            trim_back(s@.subrange(i as int, len as int)) == s@.subrange(i as int, j as int),
        decreases j,
    {
        if j > i && is_space(s.get_char(j - 1)) {
            proof {
                lemma_trim_back_step(s@, i as int, j as int);
            }
            j = j - 1;
        } else {
            proof {
                if j == i {
                    assert(s@.subrange(i as int, j as int) =~= Seq::<char>::empty());
                } else {
                    assert(s@.subrange(i as int, j as int).last() == s@[j - 1]);
                }
            }
            break;
        }
    }
    let out = s.substring_char(i, j);
    out.to_owned()
}

/// The elements of `args` concatenated with a single space between
/// neighbours; empty when `args` is empty.
pub open spec fn join_spaces(args: Seq<Seq<char>>) -> Seq<char>
    decreases args.len(),
{
    if args.len() == 0 {
        Seq::empty()
    } else if args.len() == 1 {
        args[0]
    } else {
        args[0] + seq![' '] + join_spaces(args.drop_first())
    }
}

proof fn lemma_join_spaces_push(args: Seq<Seq<char>>, x: Seq<char>)
    ensures
        join_spaces(args.push(x)) == if args.len() == 0 {
            x
        } else {
            join_spaces(args) + seq![' '] + x
        },
    decreases args.len(),
{
    if args.len() == 0 {
        assert(join_spaces(args.push(x)) == args.push(x)[0]);
    } else if args.len() == 1 {
        assert(args.push(x).drop_first() =~~= seq![x]);
        assert(join_spaces(seq![x]) == x);
    } else {
        assert(args.push(x).drop_first() =~~= args.drop_first().push(x));
        lemma_join_spaces_push(args.drop_first(), x);
    }
}

/// Joins the argument strings with single spaces, as the shell command line
/// expects them; no escaping or quoting is added.
pub fn join_args(args: &Vec<String>) -> (r: String)
    ensures
        r@ == join_spaces(args.deep_view()),
{
    let ghost all = args.deep_view();
    let mut r = String::new();
    proof {
        reveal_strlit(" ");
        assert(all.subrange(0, 0) =~~= Seq::<Seq<char>>::empty());
    }
    let mut k: usize = 0;
    while k < args.len()
        invariant
            0 <= k <= args.len(),
            all == args.deep_view(),
            all.len() == args@.len(),
            r@ == join_spaces(all.subrange(0, k as int)),
        decreases args.len() - k,
    {
        if k > 0 {
            let sp = " ";
            proof {
                reveal_strlit(" ");
                assert(sp@ =~= seq![' ']);
            }
            r.append(sp);
        }
        r.append(args[k].as_str());
        proof {
            assert(all[k as int] == args@[k as int].deep_view());
            lemma_join_spaces_push(all.subrange(0, k as int), all[k as int]);
            assert(all.subrange(0, k as int + 1) =~~= all.subrange(0, k as int).push(
                all[k as int],
            ));
        }
        k = k + 1;
    }
    proof {
        assert(all.subrange(0, args@.len() as int) =~~= all);
    }
    r
}

/// The text of the full shell command line: the command, one space, and the
/// arguments joined with spaces.
pub open spec fn spec_command_line(cmd: Seq<char>, args: Seq<Seq<char>>) -> Seq<char> {
    cmd + seq![' '] + join_spaces(args)
}

/// Builds the full shell command line from the command and its arguments.
pub fn build_command_line(command: &str, args: &Vec<String>) -> (r: String)
    ensures
        r@ == spec_command_line(command@, args.deep_view()),
{
    let mut r = command.to_owned();
    let sp = " ";
    proof {
        reveal_strlit(" ");
        assert(sp@ =~= seq![' ']);
    }
    r.append(sp);
    let joined = join_args(args);
    r.append(joined.as_str());
    r
}

/// The character for a single decimal digit value.
pub open spec fn dec_digit(d: int) -> char {
    if d == 0 {
        '0'
    } else if d == 1 {
        '1'
    } else if d == 2 {
        '2'
    } else if d == 3 {
        '3'
    } else if d == 4 {
        '4'
    } else if d == 5 {
        '5'
    } else if d == 6 {
        '6'
    } else if d == 7 {
        '7'
    } else if d == 8 {
        '8'
    } else {
        '9'
    }
}

/// The decimal notation of a non-negative integer, most significant digit
/// first, with no leading zeros (a single `'0'` for zero).
pub open spec fn spec_dec(n: int) -> Seq<char>
    decreases n,
{
    if n < 10 {
        seq![dec_digit(n)]
    } else {
        spec_dec(n / 10).push(dec_digit(n % 10))
    }
}

fn digit_str(d: u64) -> (r: String)
    requires
        d < 10,
    ensures
        r@ == seq![dec_digit(d as int)],
{
    let s: &str = if d == 0 {
        "0"
    } else if d == 1 {
        "1"
    } else if d == 2 {
        "2"
    } else if d == 3 {
        "3"
    } else if d == 4 {
        "4"
    } else if d == 5 {
        "5"
    } else if d == 6 {
        "6"
    } else if d == 7 {
        "7"
    } else if d == 8 {
        "8"
    } else {
        "9"
    };
    proof {
        reveal_strlit("0");
        reveal_strlit("1");
        reveal_strlit("2");
        reveal_strlit("3");
        reveal_strlit("4");
        reveal_strlit("5");
        reveal_strlit("6");
        reveal_strlit("7");
        reveal_strlit("8");
        reveal_strlit("9");
        assert(s@ =~= seq![dec_digit(d as int)]);
    }
    s.to_owned()
}

/// Formats a `u64` in decimal notation.
pub fn u64_to_dec(n: u64) -> (r: String)
    ensures
        r@ == spec_dec(n as int),
    decreases n,
{
    if n < 10 {
        digit_str(n)
    } else {
        let mut r = u64_to_dec(n / 10);
        let d = digit_str(n % 10);
        r.append(d.as_str());
        proof {
            assert(r@ =~= spec_dec(n as int / 10).push(dec_digit(n as int % 10)));
        }
        r
    }
}

} // verus!
