//! Plain-text building blocks: ASCII case folding, line splitting as
//! `str::lines` does it, whitespace trimming, `cmd.exe` metacharacter
//! escaping, and Windows-style path joining.

use vstd::prelude::*;

verus! {

// ---------------------------------------------------------------------------
// ASCII case folding
// ---------------------------------------------------------------------------

/// The uppercase form of a character: ASCII letters fold, all else is kept.
pub open spec fn upper_char(c: char) -> char {
    if 97 <= c as u32 && c as u32 <= 122 {
        ((c as u32) - 32) as char
    } else {
        c
    }
}

/// The lowercase form of a character: ASCII letters fold, all else is kept.
pub open spec fn lower_char(c: char) -> char {
    if 65 <= c as u32 && c as u32 <= 90 {
        ((c as u32) + 32) as char
    } else {
        c
    }
}

pub open spec fn upper_seq(s: Seq<char>) -> Seq<char> {
    s.map_values(|c: char| upper_char(c))
}

pub open spec fn lower_seq(s: Seq<char>) -> Seq<char> {
    s.map_values(|c: char| lower_char(c))
}

/// Folding to uppercase is idempotent.
pub proof fn lemma_upper_idempotent(s: Seq<char>)
    ensures
        upper_seq(upper_seq(s)) == upper_seq(s),
{
    assert(upper_seq(upper_seq(s)) =~= upper_seq(s)) by {
        assert forall|i: int| 0 <= i < s.len() implies upper_char(upper_char(s[i]))
            == upper_char(s[i]) by {
        }
    }
}

/// Folding to lowercase and then to uppercase gives the uppercase form.
pub proof fn lemma_upper_of_lower(s: Seq<char>)
    ensures
        upper_seq(lower_seq(s)) == upper_seq(s),
{
    assert(upper_seq(lower_seq(s)) =~= upper_seq(s)) by {
        assert forall|i: int| 0 <= i < s.len() implies upper_char(lower_char(s[i]))
            == upper_char(s[i]) by {
        }
    }
}

pub fn to_upper_char(c: char) -> (r: char)
    ensures
        r == upper_char(c),
{
    let u = c as u32;
    if 97 <= u && u <= 122 {
        ((u - 32) as u8) as char
    } else {
        c
    }
}

// ---------------------------------------------------------------------------
// Conversions between &str / String and Vec<char>
// ---------------------------------------------------------------------------

pub fn chars_of(s: &str) -> (r: Vec<char>)
    ensures
        r@ == s@,
{
    let n = s.unicode_len();
    let mut r: Vec<char> = Vec::new();
    let mut i: usize = 0;
    while i < n
        invariant
            n == s@.len(),
            i <= n,
            r@ == s@.take(i as int),
        decreases n - i,
    {
        r.push(s.get_char(i));
        proof {
            assert(r@ =~= s@.take(i + 1));
        }
        i = i + 1;
    }
    proof {
        assert(r@ =~= s@);
    }
    r
}

/// Relies on `String::push`: appends exactly the given character.
#[verifier::external_body]
fn push_char(s: &mut String, c: char)
    ensures
        final(s)@ == old(s)@.push(c),
{
    s.push(c)
}

pub fn string_of(v: &Vec<char>) -> (r: String)
    ensures
        r@ == v@,
{
    let mut r = String::new();
    let mut i: usize = 0;
    while i < v.len()
        invariant
            i <= v.len(),
            r@ == v@.take(i as int),
        decreases v.len() - i,
    {
        push_char(&mut r, v[i]);
        proof {
            assert(r@ =~= v@.take(i + 1));
        }
        i = i + 1;
    }
    proof {
        assert(r@ =~= v@);
    }
    r
}

/// Folds a string to uppercase, ASCII letters only.
pub fn upper_ascii(s: &str) -> (r: String)
    ensures
        r@ == upper_seq(s@),
{
    let v = chars_of(s);
    let mut out: Vec<char> = Vec::new();
    let mut i: usize = 0;
    while i < v.len()
        invariant
            i <= v.len(),
            v@ == s@,
            out@ == upper_seq(s@.take(i as int)),
        decreases v.len() - i,
    {
        out.push(to_upper_char(v[i]));
        proof {
            assert(out@ =~= upper_seq(s@.take(i + 1)));
        }
        i = i + 1;
    }
    proof {
        assert(upper_seq(s@.take(s@.len() as int)) =~= upper_seq(s@));
    }
    string_of(&out)
}

// ---------------------------------------------------------------------------
// Equality and prefix tests
// ---------------------------------------------------------------------------

pub fn str_eq(a: &str, b: &str) -> (r: bool)
    ensures
        r == (a@ == b@),
{
    let la = a.unicode_len();
    let lb = b.unicode_len();
    if la != lb {
        proof {
            assert(a@.len() != b@.len());
        }
        return false;
    }
    let mut i: usize = 0;
    while i < la
        invariant
            la == a@.len(),
            la == b@.len(),
            i <= la,
            forall|j: int| 0 <= j < i ==> a@[j] == b@[j],
        decreases la - i,
    {
        if a.get_char(i) != b.get_char(i) {
            return false;
        }
        i = i + 1;
    }
    proof {
        assert(a@ =~= b@);
    }
    true
}

/// Does `v` start with `p`?
pub fn has_prefix(v: &Vec<char>, p: &Vec<char>) -> (r: bool)
    ensures
        r == p@.is_prefix_of(v@),
{
    if p.len() > v.len() {
        return false;
    }
    let mut i: usize = 0;
    while i < p.len()
        invariant
            p.len() <= v.len(),
            i <= p.len(),
            forall|j: int| 0 <= j < i ==> v@[j] == p@[j],
        decreases p.len() - i,
    {
        if v[i] != p[i] {
            proof {
                assert(!p@.is_prefix_of(v@)) by {
                    assert(p@[i as int] != v@[i as int]);
                }
            }
            return false;
        }
        i = i + 1;
    }
    proof {
        assert(p@ =~= v@.take(p@.len() as int));
    }
    true
}

// ---------------------------------------------------------------------------
// Finding a character
// ---------------------------------------------------------------------------

/// The index of the first occurrence of `c` in `s`, or `s.len()` if absent.
pub open spec fn find_char(s: Seq<char>, c: char) -> int
    decreases s.len(),
{
    if s.len() == 0 {
        0
    } else if s[0] == c {
        0
    } else {
        1 + find_char(s.drop_first(), c)
    }
}

pub proof fn lemma_find_char_props(s: Seq<char>, c: char)
    ensures
        0 <= find_char(s, c) <= s.len(),
        find_char(s, c) < s.len() ==> s[find_char(s, c)] == c,
        forall|j: int| 0 <= j < find_char(s, c) ==> s[j] != c,
    decreases s.len(),
{
    if s.len() > 0 && s[0] != c {
        lemma_find_char_props(s.drop_first(), c);
        assert forall|j: int| 0 <= j < find_char(s, c) implies s[j] != c by {
            if j > 0 {
                assert(s.drop_first()[j - 1] != c);
            }
        }
    }
}

/// If `c` first occurs at `i`, then `find_char` returns `i`.
pub proof fn lemma_find_char_at(s: Seq<char>, c: char, i: int)
    requires
        0 <= i <= s.len(),
        forall|j: int| 0 <= j < i ==> s[j] != c,
        i < s.len() ==> s[i] == c,
    ensures
        find_char(s, c) == if i < s.len() { i } else { s.len() as int },
    decreases s.len(),
{
    if s.len() > 0 {
        if i == 0 {
            if s.len() > 0 && s[0] != c {
                lemma_find_char_props(s.drop_first(), c);
            }
        } else {
            assert(s[0] != c);
            lemma_find_char_at(s.drop_first(), c, i - 1);
        }
    }
}

/// The index of the first occurrence of `c` in `v`, or `v.len()` if absent.
pub fn find_in(v: &Vec<char>, c: char) -> (r: usize)
    ensures
        r as int == find_char(v@, c),
{
    let mut i: usize = 0;
    while i < v.len()
        invariant
            i <= v.len(),
            forall|j: int| 0 <= j < i ==> v@[j] != c,
        decreases v.len() - i,
    {
        if v[i] == c {
            proof {
                lemma_find_char_at(v@, c, i as int);
            }
            return i;
        }
        i = i + 1;
    }
    proof {
        lemma_find_char_at(v@, c, v@.len() as int);
    }
    i
}

// ---------------------------------------------------------------------------
// Taking and dropping prefixes
// ---------------------------------------------------------------------------

pub fn take_prefix(v: &Vec<char>, n: usize) -> (r: Vec<char>)
    requires
        n <= v.len(),
    ensures
        r@ == v@.take(n as int),
{
    let mut r: Vec<char> = Vec::new();
    let mut i: usize = 0;
    while i < n
        invariant
            n <= v.len(),
            i <= n,
            r@ == v@.take(i as int),
        decreases n - i,
    {
        r.push(v[i]);
        proof {
            assert(r@ =~= v@.take(i + 1));
        }
        i = i + 1;
    }
    r
}

pub fn skip_prefix(v: &Vec<char>, n: usize) -> (r: Vec<char>)
    requires
        n <= v.len(),
    ensures
        r@ == v@.skip(n as int),
{
    let mut r: Vec<char> = Vec::new();
    let mut i: usize = n;
    while i < v.len()
        invariant
            n <= i <= v.len(),
            r@ == v@.subrange(n as int, i as int),
        decreases v.len() - i,
    {
        r.push(v[i]);
        proof {
            assert(r@ =~= v@.subrange(n as int, i + 1));
        }
        i = i + 1;
    }
    proof {
        assert(r@ =~= v@.skip(n as int));
    }
    r
}

// ---------------------------------------------------------------------------
// Whitespace trimming
// ---------------------------------------------------------------------------

pub open spec fn is_space(c: char) -> bool {
    c == ' ' || c == '\t' || c == '\r' || c == '\n'
}

pub open spec fn trim_front(s: Seq<char>) -> Seq<char>
    decreases s.len(),
{
    if s.len() > 0 && is_space(s[0]) {
        trim_front(s.drop_first())
    } else {
        s
    }
}

pub open spec fn trim_back(s: Seq<char>) -> Seq<char>
    decreases s.len(),
{
    if s.len() > 0 && is_space(s.last()) {
        trim_back(s.drop_last())
    } else {
        s
    }
}

/// The string with leading and trailing ASCII whitespace removed.
pub open spec fn trim_spec(s: Seq<char>) -> Seq<char> {
    trim_back(trim_front(s))
}

proof fn lemma_trim_front_skip(s: Seq<char>, i: int)
    requires
        0 <= i <= s.len(),
        forall|j: int| 0 <= j < i ==> is_space(s[j]),
        i < s.len() ==> !is_space(s[i]),
    ensures
        trim_front(s) == s.skip(i),
    decreases i,
{
    if i == 0 {
        assert(s.skip(0) =~= s);
    } else {
        lemma_trim_front_skip(s.drop_first(), i - 1);
        assert(s.drop_first().skip(i - 1) =~= s.skip(i));
    }
}

proof fn lemma_trim_back_take(s: Seq<char>, i: int)
    requires
        0 <= i <= s.len(),
        forall|j: int| i <= j < s.len() ==> is_space(s[j]),
        i > 0 ==> !is_space(s[i - 1]),
    ensures
        trim_back(s) == s.take(i),
    decreases s.len() - i,
{
    if i == s.len() {
        assert(s.take(i) =~= s);
    } else {
        assert(is_space(s.last()));
        lemma_trim_back_take(s.drop_last(), i);
        assert(s.drop_last().take(i) =~= s.take(i));
    }
}

/// Removes leading and trailing ASCII whitespace.
pub fn trim_ascii(s: &str) -> (r: String)
    ensures
        r@ == trim_spec(s@),
{
    let v = chars_of(s);
    let n = v.len();
    let mut a: usize = 0;
    while a < n && is_space_char(v[a])
        invariant
            n == v.len(),
            a <= n,
            forall|j: int| 0 <= j < a ==> is_space(v@[j]),
        decreases n - a,
    {
        a = a + 1;
    }
    proof {
        lemma_trim_front_skip(v@, a as int);
    }
    let mut b: usize = n;
    while b > a && is_space_char(v[b - 1])
        invariant
            n == v.len(),
            a <= b <= n,
            forall|j: int| b <= j < n ==> is_space(v@[j]),
        decreases b,
    {
        b = b - 1;
    }
    // the trimmed text is v[a..b]
    let mut out: Vec<char> = Vec::new();
    let mut i: usize = a;
    while i < b
        invariant
            a <= i <= b <= n,
            n == v.len(),
            out@ == v@.subrange(a as int, i as int),
        decreases b - i,
    {
        out.push(v[i]);
        proof {
            assert(out@ =~= v@.subrange(a as int, i + 1));
        }
        i = i + 1;
    }
    proof {
        let f = v@.skip(a as int);
        lemma_trim_back_take(f, b - a);
        assert(f.take(b - a) =~= v@.subrange(a as int, b as int));
    }
    string_of(&out)
}

fn is_space_char(c: char) -> (r: bool)
    ensures
        r == is_space(c),
{
    c == ' ' || c == '\t' || c == '\r' || c == '\n'
}

// ---------------------------------------------------------------------------
// Line splitting, as str::lines does it
// ---------------------------------------------------------------------------

/// A line terminated by `\n` loses one trailing `\r` (a `\r\n` ending).
pub open spec fn strip_cr(l: Seq<char>) -> Seq<char> {
    if l.len() > 0 && l.last() == '\r' {
        l.drop_last()
    } else {
        l
    }
}

/// The lines of `s`: split at `\n`, each `\r\n` ending also removed, and a
/// final line ending optional.
pub open spec fn spec_lines(s: Seq<char>) -> Seq<Seq<char>>
    decreases s.len(),
{
    if s.len() == 0 {
        Seq::empty()
    } else {
        let i = find_char(s, '\n');
        if 0 <= i < s.len() {
            seq![strip_cr(s.take(i))] + spec_lines(s.skip(i + 1))
        } else {
            seq![s]
        }
    }
}

/// Splitting off the first line: if `cur` holds no `\n`, the lines of
/// `cur + \n + rest` are `strip_cr(cur)` followed by the lines of `rest`.
proof fn lemma_lines_split(cur: Seq<char>, rest: Seq<char>)
    requires
        forall|j: int| 0 <= j < cur.len() ==> cur[j] != '\n',
    ensures
        spec_lines(cur + seq!['\n'] + rest) == seq![strip_cr(cur)] + spec_lines(rest),
{
    let s = cur + seq!['\n'] + rest;
    assert(s.len() > 0);
    assert(s[cur.len() as int] == '\n');
    lemma_find_char_at(s, '\n', cur.len() as int);
    assert(s.take(cur.len() as int) =~= cur);
    assert(s.skip(cur.len() as int + 1) =~= rest);
}

/// A nonempty text without `\n` is one line.
proof fn lemma_lines_single(cur: Seq<char>)
    requires
        cur.len() > 0,
        forall|j: int| 0 <= j < cur.len() ==> cur[j] != '\n',
    ensures
        spec_lines(cur) == seq![cur],
{
    lemma_find_char_at(cur, '\n', cur.len() as int);
}

/// Splits a text into its lines.
pub fn split_lines(text: &Vec<char>) -> (r: Vec<Vec<char>>)
    ensures
        r.deep_view() == spec_lines(text@),
{
    let mut out: Vec<Vec<char>> = Vec::new();
    let mut cur: Vec<char> = Vec::new();
    let mut i: usize = 0;
    proof {
        assert(out.deep_view() =~~= Seq::<Seq<char>>::empty());
        assert(cur@ + text@.skip(0) =~= text@);
        assert(Seq::<Seq<char>>::empty() + spec_lines(text@) =~~= spec_lines(text@));
    }
    while i < text.len()
        invariant
            i <= text.len(),
            forall|j: int| 0 <= j < cur@.len() ==> cur@[j] != '\n',
            spec_lines(text@) == out.deep_view() + spec_lines(cur@ + text@.skip(i as int)),
        decreases text.len() - i,
    {
        let c = text[i];
        if c == '\n' {
            proof {
                let rest = text@.skip(i + 1);
                assert(cur@ + text@.skip(i as int) =~= cur@ + seq!['\n'] + rest);
                lemma_lines_split(cur@, rest);
            }
            let ghost old_dv = out.deep_view();
            let ghost finished_view = strip_cr(cur@);
            let ghost rest = text@.skip(i + 1);
            let finished = strip_last_cr(cur);
            out.push(finished);
            cur = Vec::new();
            proof {
                assert(out.deep_view() =~~= old_dv.push(finished_view));
                assert(cur@ + rest =~= rest);
                assert(old_dv + (seq![finished_view] + spec_lines(rest)) =~~= old_dv.push(
                    finished_view,
                ) + spec_lines(rest));
                assert(spec_lines(text@) == out.deep_view() + spec_lines(cur@ + rest));
            }
        } else {
            let ghost cur_old = cur@;
            cur.push(c);
            proof {
                assert(cur@ + text@.skip(i + 1) =~= cur_old + text@.skip(i as int));
                assert(spec_lines(cur@ + text@.skip(i + 1)) == spec_lines(
                    cur_old + text@.skip(i as int),
                ));
            }
        }
        i = i + 1;
    }
    proof {
        assert(cur@ + text@.skip(text@.len() as int) =~= cur@);
    }
    if cur.len() > 0 {
        proof {
            lemma_lines_single(cur@);
        }
        let ghost old_dv = out.deep_view();
        let ghost cur_view = cur@;
        out.push(cur);
        proof {
            assert(out.deep_view() =~~= old_dv.push(cur_view));
            assert(old_dv + seq![cur_view] =~~= old_dv.push(cur_view));
        }
    } else {
        proof {
            assert(spec_lines(cur@) =~~= Seq::<Seq<char>>::empty());
            assert(out.deep_view() + Seq::<Seq<char>>::empty() =~~= out.deep_view());
        }
    }
    out
}

fn strip_last_cr(mut l: Vec<char>) -> (r: Vec<char>)
    ensures
        r@ == strip_cr(l@),
{
    if l.len() > 0 && l[l.len() - 1] == '\r' {
        let _ = l.pop();
        l
    } else {
        l
    }
}

// ---------------------------------------------------------------------------
// cmd.exe escaping
// ---------------------------------------------------------------------------

/// The escaped form of one character under cmd.exe's rules: a caret is
/// doubled and an ampersand is caret-escaped.
pub open spec fn escape_char(c: char) -> Seq<char> {
    if c == '^' {
        seq!['^', '^']
    } else if c == '&' {
        seq!['^', '&']
    } else {
        seq![c]
    }
}

/// The whole string, escaped character by character.
pub open spec fn cmd_escaped(s: Seq<char>) -> Seq<char>
    decreases s.len(),
{
    if s.len() == 0 {
        Seq::empty()
    } else {
        escape_char(s[0]) + cmd_escaped(s.drop_first())
    }
}

proof fn lemma_cmd_escaped_push(s: Seq<char>, c: char)
    ensures
        cmd_escaped(s.push(c)) == cmd_escaped(s) + escape_char(c),
    decreases s.len(),
{
    if s.len() == 0 {
        assert(s.push(c).drop_first() =~= Seq::<char>::empty());
        assert(s.push(c)[0] == c);
        assert(cmd_escaped(s) =~= Seq::<char>::empty());
        assert(cmd_escaped(s.push(c)) == escape_char(c) + cmd_escaped(Seq::<char>::empty()));
        assert(cmd_escaped(s.push(c)) =~= cmd_escaped(s) + escape_char(c));
    } else {
        assert(s.push(c).drop_first() =~= s.drop_first().push(c));
        lemma_cmd_escaped_push(s.drop_first(), c);
        assert(cmd_escaped(s.push(c)) =~= cmd_escaped(s) + escape_char(c));
    }
}

/// Escapes a path for cmd.exe: `^` becomes `^^` and `&` becomes `^&`.
pub fn escape_for_cmd(s: &str) -> (r: String)
    ensures
        r@ == cmd_escaped(s@),
{
    let v = chars_of(s);
    let mut out: Vec<char> = Vec::new();
    let mut i: usize = 0;
    while i < v.len()
        invariant
            i <= v.len(),
            v@ == s@,
            out@ == cmd_escaped(v@.take(i as int)),
        decreases v.len() - i,
    {
        let c = v[i];
        if c == '^' {
            out.push('^');
            out.push('^');
        } else if c == '&' {
            out.push('^');
            out.push('&');
        } else {
            out.push(c);
        }
        proof {
            lemma_cmd_escaped_push(v@.take(i as int), v@[i as int]);
            assert(v@.take(i + 1) =~= v@.take(i as int).push(v@[i as int]));
            assert(out@ =~= cmd_escaped(v@.take(i + 1)));
        }
        i = i + 1;
    }
    proof {
        assert(v@.take(v@.len() as int) =~= v@);
    }
    string_of(&out)
}

// ---------------------------------------------------------------------------
// Joining lines with a literal \n
// ---------------------------------------------------------------------------

/// The lines joined with the two-character sequence `\` `n` between
/// consecutive lines.
pub open spec fn join_escaped(ls: Seq<Seq<char>>) -> Seq<char>
    decreases ls.len(),
{
    if ls.len() == 0 {
        Seq::empty()
    } else if ls.len() == 1 {
        ls[0]
    } else {
        ls[0] + seq!['\\', 'n'] + join_escaped(ls.drop_first())
    }
}

/// Relies on `itertools::intersperse`: yields the items of `lines` with the
/// given element between each two consecutive items, here the two-character
/// sequence `\` `n`.
#[verifier::external_body]
pub(crate) fn join_lines_escaped(lines: &Vec<String>) -> (r: String)
    ensures
        r@ == join_escaped(lines.deep_view()),
{
    itertools::intersperse(lines.iter().map(|s| s.as_str()), "\\n").collect()
}

// ---------------------------------------------------------------------------
// Windows path joining
// ---------------------------------------------------------------------------

/// Appends a relative component to a path, inserting a backslash unless the
/// path is empty or already ends with a separator.
pub open spec fn joined_path(a: Seq<char>, b: Seq<char>) -> Seq<char> {
    if a.len() == 0 {
        b
    } else if a.last() == '\\' || a.last() == '/' {
        a + b
    } else {
        a + seq!['\\'] + b
    }
}

pub fn join_path(a: &str, b: &str) -> (r: String)
    ensures
        r@ == joined_path(a@, b@),
{
    let va = chars_of(a);
    let vb = chars_of(b);
    let mut out: Vec<char> = Vec::new();
    let mut i: usize = 0;
    while i < va.len()
        invariant
            i <= va.len(),
            va@ == a@,
            out@ == va@.take(i as int),
        decreases va.len() - i,
    {
        out.push(va[i]);
        proof {
            assert(out@ =~= va@.take(i + 1));
        }
        i = i + 1;
    }
    proof {
        assert(va@.take(va@.len() as int) =~= va@);
    }
    if va.len() > 0 {
        let last = va[va.len() - 1];
        if !(last == '\\' || last == '/') {
            out.push('\\');
        }
    }
    let mut j: usize = 0;
    let ghost base: Seq<char> = out@;
    while j < vb.len()
        invariant
            j <= vb.len(),
            vb@ == b@,
            out@ == base + vb@.take(j as int),
        decreases vb.len() - j,
    {
        out.push(vb[j]);
        proof {
            assert(out@ =~= base + vb@.take(j + 1));
        }
        j = j + 1;
    }
    proof {
        assert(base + vb@.take(vb@.len() as int) =~= joined_path(a@, b@));
    }
    string_of(&out)
}

} // verus!
