//! Escaping of text that is embedded in workflow command lines: data values
//! and property values each replace a fixed set of characters by
//! percent-codes.

use vstd::prelude::*;

verus! {

/// Maps one character of a data value to its escaped form: `%`, carriage
/// return and line feed become percent-codes, every other character stands
/// unchanged.
pub open spec fn escape_data_char(c: char) -> Seq<char> {
    if c == '%' {
        "%25"@
    } else if c == '\r' {
        "%0D"@
    } else if c == '\n' {
        "%0A"@
    } else {
        seq![c]
    }
}

/// Maps one character of a property value to its escaped form: beyond the
/// data escapes, colon and comma become percent-codes as well.
pub open spec fn escape_property_char(c: char) -> Seq<char> {
    if c == '%' {
        "%25"@
    } else if c == '\r' {
        "%0D"@
    } else if c == '\n' {
        "%0A"@
    } else if c == ':' {
        "%3A"@
    } else if c == ',' {
        "%2C"@
    } else {
        seq![c]
    }
}

/// Concatenates the escaped forms of every character of `s`.
pub open spec fn escape_seq(s: Seq<char>, f: spec_fn(char) -> Seq<char>) -> Seq<char>
    decreases s.len(),
{
    if s.len() == 0 {
        Seq::empty()
    } else {
        f(s[0]) + escape_seq(s.skip(1), f)
    }
}

/// Escaping one more character extends the escaped prefix at its end.
proof fn lemma_escape_seq_snoc(s: Seq<char>, f: spec_fn(char) -> Seq<char>, i: int)
    requires
        0 <= i < s.len(),
    ensures
        escape_seq(s.take(i + 1), f) == escape_seq(s.take(i), f) + f(s[i]),
    decreases i,
{
    if i == 0 {
        let t1 = s.take(1);
        assert(t1.len() == 1);
        assert(t1[0] == s[0]);
        assert(t1.skip(1) =~= Seq::<char>::empty());
        assert(escape_seq(t1.skip(1), f) == Seq::<char>::empty());
        assert(escape_seq(t1, f) == f(s[0]) + escape_seq(t1.skip(1), f));
        assert(f(s[0]) + Seq::<char>::empty() =~= f(s[0]));
        assert(s.take(0).len() == 0);
        assert(escape_seq(s.take(0), f) == Seq::<char>::empty());
        assert(Seq::<char>::empty() + f(s[0]) =~= f(s[0]));
    } else {
        let t = s.skip(1);
        lemma_escape_seq_snoc(t, f, i - 1);
        assert(s.take(i + 1)[0] == s[0]);
        assert(s.take(i + 1).skip(1) =~= t.take(i));
        assert(s.take(i)[0] == s[0]);
        assert(s.take(i).skip(1) =~= t.take(i - 1));
        assert(t[i - 1] == s[i]);
        assert(escape_seq(s.take(i + 1), f) == f(s[0]) + escape_seq(t.take(i), f));
        assert(escape_seq(s.take(i), f) == f(s[0]) + escape_seq(t.take(i - 1), f));
        assert(f(s[0]) + (escape_seq(t.take(i - 1), f) + f(s[i])) =~= (f(s[0]) + escape_seq(
            t.take(i - 1),
            f,
        )) + f(s[i]));
    }
}

/// Escapes a data value for a workflow command: `%` to `%25`, carriage
/// return to `%0D`, line feed to `%0A`.
#[verifier::loop_isolation(false)]
pub fn escape_data(s: &str) -> (r: String)
    ensures
        r@ == escape_seq(s@, |c: char| escape_data_char(c)),
{
    let ghost f = |c: char| escape_data_char(c);
    let n = s.unicode_len();
    let mut r = String::new();
    let mut i: usize = 0;
    while i < n
        invariant
            i <= n,
            n == s@.len(),
            r@ == escape_seq(s@.take(i as int), f),
        decreases n - i,
    {
        let c = s.get_char(i);
        if c == '%' {
            r.append("%25");
        } else if c == '\r' {
            r.append("%0D");
        } else if c == '\n' {
            r.append("%0A");
        } else {
            let piece = s.substring_char(i, i + 1);
            assert(piece@ =~= seq![s@[i as int]]);
            r.append(piece);
        }
        proof {
            lemma_escape_seq_snoc(s@, f, i as int);
            assert(f(s@[i as int]) == escape_data_char(s@[i as int]));
            assert(r@ == escape_seq(s@.take(i as int), f) + f(s@[i as int]));
            assert(r@ == escape_seq(s@.take(i as int + 1), f));
        }
        i = i + 1;
    }
    assert(s@.take(n as int) =~= s@);
    r
}

/// Escapes a property value for a workflow command: the data escapes plus
/// `:` to `%3A` and `,` to `%2C`.
#[verifier::loop_isolation(false)]
pub fn escape_property(s: &str) -> (r: String)
    ensures
        r@ == escape_seq(s@, |c: char| escape_property_char(c)),
{
    let ghost f = |c: char| escape_property_char(c);
    let n = s.unicode_len();
    let mut r = String::new();
    let mut i: usize = 0;
    while i < n
        invariant
            i <= n,
            n == s@.len(),
            r@ == escape_seq(s@.take(i as int), f),
        decreases n - i,
    {
        let c = s.get_char(i);
        if c == '%' {
            r.append("%25");
        } else if c == '\r' {
            r.append("%0D");
        } else if c == '\n' {
            r.append("%0A");
        } else if c == ':' {
            r.append("%3A");
        } else if c == ',' {
            r.append("%2C");
        } else {
            let piece = s.substring_char(i, i + 1);
            assert(piece@ =~= seq![s@[i as int]]);
            r.append(piece);
        }
        proof {
            lemma_escape_seq_snoc(s@, f, i as int);
            assert(f(s@[i as int]) == escape_property_char(s@[i as int]));
            assert(r@ == escape_seq(s@.take(i as int), f) + f(s@[i as int]));
            assert(r@ == escape_seq(s@.take(i as int + 1), f));
        }
        i = i + 1;
    }
    assert(s@.take(n as int) =~= s@);
    r
}

/// Marks the start of a named group in the surrounding workflow log. The
/// core emits no log output of its own, so this does nothing.
pub fn group(group_name: &str) {
    let _ = group_name;
}

} // verus!
