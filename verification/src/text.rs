//! Small verified text helpers: decimal rendering of an index, the final
//! component of a path, and the extension of a file name.

use vstd::prelude::*;
use vstd::string::StrSliceExecFns;
use vstd::string::StringExecFns;

verus! {

/// The decimal digit `d` (0 through 9) as a character.
pub open spec fn digit_char(d: int) -> char {
    if d == 0 {
        '0'
    } else if d == 1 {
        '1'
    } else if d == 2 {
        '2'
    } else if d == 3 {
        '3'
    } else if d == 4 {
        '4'
    } else if d == 5 {
        '5'
    } else if d == 6 {
        '6'
    } else if d == 7 {
        '7'
    } else if d == 8 {
        '8'
    } else {
        '9'
    }
}

/// The usual decimal rendering of a non-negative integer, most
/// significant digit first and without leading zeros.
pub open spec fn dec_rep(n: int) -> Seq<char>
    decreases n,
{
    if n < 10 {
        seq![digit_char(n)]
    } else {
        dec_rep(n / 10).push(digit_char(n % 10))
    }
}

/// The one-character string for the decimal digit `d`.
fn digit_str(d: usize) -> (r: &'static str)
    requires
        d < 10,
    ensures
        r@ == seq![digit_char(d as int)],
{
    proof {
        reveal_strlit("0");
        reveal_strlit("1");
        reveal_strlit("2");
        reveal_strlit("3");
        reveal_strlit("4");
        reveal_strlit("5");
        reveal_strlit("6");
        reveal_strlit("7");
        reveal_strlit("8");
        reveal_strlit("9");
    }
    let r: &'static str = match d {
        0 => "0",
        1 => "1",
        2 => "2",
        3 => "3",
        4 => "4",
        5 => "5",
        6 => "6",
        7 => "7",
        8 => "8",
        _ => "9",
    };
    proof {
        assert(r@ =~= seq![digit_char(d as int)]);
    }
    r
}

/// Renders `n` in decimal: `dec_string(42)` is `"42"`.
pub fn dec_string(n: usize) -> (r: String)
    ensures
        r@ == dec_rep(n as int),
    decreases n,
{
    if n < 10 {
        String::from_str(digit_str(n))
    } else {
        let mut s = dec_string(n / 10);
        s.append(digit_str(n % 10));
        proof {
            assert(s@ =~= dec_rep(n as int));
        }
        s
    }
}

/// The final component of a path: everything after the last `/`, or the
/// whole path when it has no `/`. A path ending in `/` has an empty
/// final component.
pub open spec fn file_name_spec(path: Seq<char>) -> Seq<char>
    decreases path.len(),
{
    if path.len() == 0 {
        Seq::empty()
    } else if path.last() == '/' {
        Seq::empty()
    } else {
        file_name_spec(path.drop_last()).push(path.last())
    }
}

proof fn lemma_file_name_suffix(path: Seq<char>, k: int)
    requires
        0 <= k <= path.len(),
        forall|i: int| k <= i < path.len() ==> path[i] != '/',
        k > 0 ==> path[k - 1] == '/',
    ensures
        file_name_spec(path) == path.subrange(k, path.len() as int),
    decreases path.len(),
{
    if path.len() == 0 {
        assert(path.subrange(0, 0) =~= Seq::<char>::empty());
    } else if k == path.len() {
        assert(path.subrange(k, path.len() as int) =~= Seq::<char>::empty());
    } else {
        lemma_file_name_suffix(path.drop_last(), k);
        assert(path.subrange(k, path.len() as int) =~= path.drop_last().subrange(
            k,
            path.len() - 1,
        ).push(path.last()));
    }
}

/// The final component of `path`, as a fresh `String`.
pub fn file_name_of(path: &str) -> (r: String)
    ensures
        r@ == file_name_spec(path@),
{
    let n: usize = path.unicode_len();
    let mut k: usize = n;
    while k > 0 && path.get_char(k - 1) != '/'
        invariant
            k <= n,
            n == path@.len(),
            forall|i: int| k <= i < n ==> path@[i] != '/',
        decreases k,
    {
        k = k - 1;
    }
    proof {
        lemma_file_name_suffix(path@, k as int);
    }
    let name: &str = path.substring_char(k, n);
    String::from_str(name)
}

/// The extension of a file name: what follows the last `.`, provided that
/// `.` stands at some position other than the first. A name such as
/// `.hidden` therefore has no extension, while `a.` has the empty one.
pub open spec fn extension_spec(name: Seq<char>) -> Option<Seq<char>>
    decreases name.len(),
{
    if name.len() <= 1 {
        None
    } else if name.last() == '.' {
        Some(Seq::empty())
    } else {
        match extension_spec(name.drop_last()) {
            Some(e) => Some(e.push(name.last())),
            None => None,
        }
    }
}

proof fn lemma_extension_at(name: Seq<char>, k: int)
    requires
        2 <= k <= name.len(),
        name[k - 1] == '.',
        forall|i: int| k <= i < name.len() ==> name[i] != '.',
    ensures
        extension_spec(name) == Some(name.subrange(k, name.len() as int)),
    decreases name.len(),
{
    if k == name.len() {
        assert(name.subrange(k, name.len() as int) =~= Seq::<char>::empty());
    } else {
        lemma_extension_at(name.drop_last(), k);
        assert(name.subrange(k, name.len() as int) =~= name.drop_last().subrange(
            k,
            name.len() - 1,
        ).push(name.last()));
    }
}

proof fn lemma_no_extension(name: Seq<char>)
    requires
        forall|i: int| 1 <= i < name.len() ==> name[i] != '.',
    ensures
        extension_spec(name) is None,
    decreases name.len(),
{
    if name.len() > 1 {
        lemma_no_extension(name.drop_last());
    }
}

/// The extension of the file name `name`, if it has one.
pub fn extension_of(name: &str) -> (r: Option<String>)
    ensures
        match r {
            Some(e) => extension_spec(name@) == Some(e@),
            None => extension_spec(name@) is None,
        },
{
    let n: usize = name.unicode_len();
    let mut k: usize = n;
    while k > 1 && name.get_char(k - 1) != '.'
        invariant
            k <= n,
            n == name@.len(),
            forall|i: int| k <= i < n ==> name@[i] != '.',
        decreases k,
    {
        k = k - 1;
    }
    if k > 1 {
        proof {
            lemma_extension_at(name@, k as int);
        }
        let ext: &str = name.substring_char(k, n);
        Some(String::from_str(ext))
    } else {
        proof {
            lemma_no_extension(name@);
        }
        None
    }
}

} // verus!
