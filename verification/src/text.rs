use vstd::prelude::*;

verus! {

/// Appends one character to a string (std `String::push`): the string's
/// characters become the old ones followed by `c`.
#[verifier::external_body]
pub(crate) fn string_push(s: &mut String, c: char)
    ensures
        final(s)@ == old(s)@.push(c),
{
    s.push(c);
}

/// Removes the last character of a string (std `String::pop`): it hands the
/// removed character back, or `None` and leaves the string as it was when the
/// string is empty.
#[verifier::external_body]
pub(crate) fn string_pop(s: &mut String) -> (r: Option<char>)
    ensures
        old(s)@.len() == 0 ==> r is None && final(s)@ == old(s)@,
        old(s)@.len() > 0 ==> r == Some(old(s)@.last()) && final(s)@ == old(s)@.drop_last(),
{
    s.pop()
}

/// The characters of `s`, in order.
pub(crate) fn chars_of(s: &str) -> (v: Vec<char>)
    ensures
        v@ == s@,
{
    let n = s.unicode_len();
    let mut v: Vec<char> = Vec::new();
    let mut i: usize = 0;
    while i < n
        invariant
            n == s@.len(),
            i <= n,
            v@ == s@.take(i as int),
        decreases n - i,
    {
        let c = s.get_char(i);
        v.push(c);
        assert(s@.take(i + 1) =~= s@.take(i as int).push(c));
        i += 1;
    }
    assert(s@.take(n as int) =~= s@);
    v
}

/// Appends the characters of `v` to `out`.
pub(crate) fn push_chars(out: &mut String, v: &Vec<char>)
    ensures
        final(out)@ == old(out)@ + v@,
{
    let mut i: usize = 0;
    while i < v.len()
        invariant
            i <= v.len(),
            out@ == old(out)@ + v@.take(i as int),
        decreases v.len() - i,
    {
        string_push(out, v[i]);
        assert(v@.take(i + 1) =~= v@.take(i as int).push(v@[i as int]));
        i += 1;
    }
    assert(v@.take(v.len() as int) =~= v@);
}

/// A string holding the characters of `v`.
pub(crate) fn string_of(v: &Vec<char>) -> (s: String)
    ensures
        s@ == v@,
{
    let mut s = String::new();
    push_chars(&mut s, v);
    s
}

/// `s` with every non-overlapping occurrence of `pat`, taken from the left,
/// replaced by `rep` (what `str::replace` does for a non-empty pattern).
pub open spec fn replace_all(s: Seq<char>, pat: Seq<char>, rep: Seq<char>) -> Seq<char>
    decreases s.len(),
{
    if pat.len() == 0 || s.len() < pat.len() {
        s
    } else if s.take(pat.len() as int) == pat {
        rep + replace_all(s.skip(pat.len() as int), pat, rep)
    } else {
        seq![s[0]] + replace_all(s.skip(1), pat, rep)
    }
}

/// Whether `pat` occurs in `s` at position `i`.
fn occurs_at(s: &Vec<char>, i: usize, pat: &Vec<char>) -> (r: bool)
    requires
        i + pat.len() <= s.len(),
    ensures
        r == (s@.subrange(i as int, i + pat.len()) == pat@),
{
    let mut j: usize = 0;
    while j < pat.len()
        invariant
            i + pat.len() <= s.len(),
            j <= pat.len(),
            forall|k: int| 0 <= k < j ==> s@[i + k] == pat@[k],
        decreases pat.len() - j,
    {
        if s[i + j] != pat[j] {
            assert(s@.subrange(i as int, i + pat.len())[j as int] != pat@[j as int]);
            return false;
        }
        j += 1;
    }
    assert(s@.subrange(i as int, i + pat.len()) =~= pat@);
    true
}

/// Replaces every non-overlapping occurrence of `pat` in `s`, from the left,
/// by `rep`.
pub(crate) fn replace_chars(s: &Vec<char>, pat: &Vec<char>, rep: &Vec<char>) -> (r: Vec<char>)
    requires
        pat.len() > 0,
    ensures
        r@ == replace_all(s@, pat@, rep@),
{
    let mut out: Vec<char> = Vec::new();
    let mut i: usize = 0;
    assert(s@.skip(0) =~= s@);
    assert(out@ + s@ =~= s@);
    while i < s.len()
        invariant
            i <= s.len(),
            pat@.len() > 0,
            replace_all(s@, pat@, rep@) == out@ + replace_all(s@.skip(i as int), pat@, rep@),
        decreases s.len() - i,
    {
        let ghost t = s@.skip(i as int);
        if pat.len() <= s.len() - i && occurs_at(s, i, pat) {
            assert(t.take(pat.len() as int) =~= s@.subrange(i as int, i + pat.len()));
            assert(t.skip(pat.len() as int) =~= s@.skip(i + pat.len()));
            let mut k: usize = 0;
            let ghost before = out@;
            while k < rep.len()
                invariant
                    k <= rep.len(),
                    out@ == before + rep@.take(k as int),
                decreases rep.len() - k,
            {
                out.push(rep[k]);
                assert(rep@.take(k + 1) =~= rep@.take(k as int).push(rep@[k as int]));
                k += 1;
            }
            assert(rep@.take(rep.len() as int) =~= rep@);
            assert(before + (rep@ + replace_all(t.skip(pat.len() as int), pat@, rep@)) =~= out@
                + replace_all(t.skip(pat.len() as int), pat@, rep@));
            i += pat.len();
        } else {
            proof {
                assert(t.skip(1) =~= s@.skip(i + 1));
                if t.len() >= pat@.len() {
                    assert(t.take(pat@.len() as int) =~= s@.subrange(i as int, i + pat@.len()));
                } else {
                    assert(replace_all(t.skip(1), pat@, rep@) == t.skip(1));
                    assert(t =~= seq![t[0]] + t.skip(1));
                }
            }
            let ghost before = out@;
            out.push(s[i]);
            assert(before + (seq![t[0]] + replace_all(t.skip(1), pat@, rep@)) =~= out@
                + replace_all(t.skip(1), pat@, rep@));
            i += 1;
        }
    }
    assert(s@.skip(s.len() as int) =~= Seq::<char>::empty());
    assert(out@ + Seq::<char>::empty() =~= out@);
    out
}

/// The characters of `s` before its first space (all of `s` when it has
/// none): the first item of `s.split(' ')`.
pub open spec fn first_word(s: Seq<char>) -> Seq<char>
    decreases s.len(),
{
    if s.len() == 0 || s[0] == ' ' {
        Seq::empty()
    } else {
        seq![s[0]] + first_word(s.drop_first())
    }
}

proof fn lemma_first_word_step(s: Seq<char>, i: int)
    requires
        0 <= i < s.len(),
        s[i] != ' ',
    ensures
        first_word(s.skip(i)) == seq![s[i]] + first_word(s.skip(i + 1)),
{
    assert(s.skip(i).drop_first() =~= s.skip(i + 1));
}

/// The characters of `s` before its first space.
pub(crate) fn first_word_of(s: &Vec<char>) -> (r: Vec<char>)
    ensures
        r@ == first_word(s@),
{
    let mut out: Vec<char> = Vec::new();
    let mut i: usize = 0;
    assert(s@.skip(0) =~= s@);
    assert(out@ + first_word(s@) =~= first_word(s@));
    assert(s@.take(0) =~= out@);
    while i < s.len() && s[i] != ' '
        invariant
            i <= s.len(),
            out@ == s@.take(i as int),
            first_word(s@) == out@ + first_word(s@.skip(i as int)),
        decreases s.len() - i,
    {
        proof {
            lemma_first_word_step(s@, i as int);
        }
        let ghost before = out@;
        out.push(s[i]);
        assert(s@.take(i + 1) =~= s@.take(i as int).push(s@[i as int]));
        assert(before + (seq![s@[i as int]] + first_word(s@.skip(i + 1))) =~= out@ + first_word(
            s@.skip(i + 1),
        ));
        i += 1;
    }
    assert(first_word(s@.skip(i as int)) =~= Seq::<char>::empty());
    assert(out@ + Seq::<char>::empty() =~= out@);
    out
}

/// The unit words that a duration's first word may hold, shortened: `days`
/// and `day` to `d`, `weeks` and `week` to `w`, `months` and `month` to
/// `mo`, `years` and `year` to `y`, in that order.
pub open spec fn shorten_units(s: Seq<char>) -> Seq<char> {
    let s = replace_all(s, seq!['d', 'a', 'y', 's'], seq!['d']);
    let s = replace_all(s, seq!['d', 'a', 'y'], seq!['d']);
    let s = replace_all(s, seq!['w', 'e', 'e', 'k', 's'], seq!['w']);
    let s = replace_all(s, seq!['w', 'e', 'e', 'k'], seq!['w']);
    let s = replace_all(s, seq!['m', 'o', 'n', 't', 'h', 's'], seq!['m', 'o']);
    let s = replace_all(s, seq!['m', 'o', 'n', 't', 'h'], seq!['m', 'o']);
    let s = replace_all(s, seq!['y', 'e', 'a', 'r', 's'], seq!['y']);
    replace_all(s, seq!['y', 'e', 'a', 'r'], seq!['y'])
}

/// The short form in which a result list shows a formatted duration: its
/// first word, with the unit shortened.
pub open spec fn short_duration_spec(formatted: Seq<char>) -> Seq<char> {
    shorten_units(first_word(formatted))
}

/// Shortens a formatted duration (such as `2days 3h 1m`) to the form the
/// result list shows (`2d`): the first word, with its unit shortened.
pub fn short_duration(formatted: &str) -> (r: String)
    ensures
        r@ == short_duration_spec(formatted@),
{
    let chars = chars_of(formatted);
    let s = first_word_of(&chars);
    let pat = vec!['d', 'a', 'y', 's'];
    let rep = vec!['d'];
    assert(pat@ =~= seq!['d', 'a', 'y', 's'] && rep@ =~= seq!['d']);
    let s = replace_chars(&s, &pat, &rep);
    let pat = vec!['d', 'a', 'y'];
    let rep = vec!['d'];
    assert(pat@ =~= seq!['d', 'a', 'y'] && rep@ =~= seq!['d']);
    let s = replace_chars(&s, &pat, &rep);
    let pat = vec!['w', 'e', 'e', 'k', 's'];
    let rep = vec!['w'];
    assert(pat@ =~= seq!['w', 'e', 'e', 'k', 's'] && rep@ =~= seq!['w']);
    let s = replace_chars(&s, &pat, &rep);
    let pat = vec!['w', 'e', 'e', 'k'];
    let rep = vec!['w'];
    assert(pat@ =~= seq!['w', 'e', 'e', 'k'] && rep@ =~= seq!['w']);
    let s = replace_chars(&s, &pat, &rep);
    let pat = vec!['m', 'o', 'n', 't', 'h', 's'];
    let rep = vec!['m', 'o'];
    assert(pat@ =~= seq!['m', 'o', 'n', 't', 'h', 's'] && rep@ =~= seq!['m', 'o']);
    let s = replace_chars(&s, &pat, &rep);
    let pat = vec!['m', 'o', 'n', 't', 'h'];
    let rep = vec!['m', 'o'];
    assert(pat@ =~= seq!['m', 'o', 'n', 't', 'h'] && rep@ =~= seq!['m', 'o']);
    let s = replace_chars(&s, &pat, &rep);
    let pat = vec!['y', 'e', 'a', 'r', 's'];
    let rep = vec!['y'];
    assert(pat@ =~= seq!['y', 'e', 'a', 'r', 's'] && rep@ =~= seq!['y']);
    let s = replace_chars(&s, &pat, &rep);
    let pat = vec!['y', 'e', 'a', 'r'];
    let rep = vec!['y'];
    assert(pat@ =~= seq!['y', 'e', 'a', 'r'] && rep@ =~= seq!['y']);
    let s = replace_chars(&s, &pat, &rep);
    string_of(&s)
}

/// `s` without its last space-separated word and the space before it: the
/// characters before the last space, or nothing when `s` has no space. This
/// is what joining all items of `s.split(' ')` but the last with spaces gives.
pub open spec fn without_last_word(s: Seq<char>) -> Seq<char>
    decreases s.len(),
{
    if s.len() == 0 {
        Seq::empty()
    } else if s.last() == ' ' {
        s.drop_last()
    } else {
        without_last_word(s.drop_last())
    }
}

/// The characters of `s` before its last space, or an empty string when it
/// has none.
pub fn drop_last_word(s: &str) -> (r: String)
    ensures
        r@ == without_last_word(s@),
{
    let chars = chars_of(s);
    let mut j: usize = chars.len();
    assert(s@.take(j as int) =~= s@);
    while j > 0 && chars[j - 1] != ' '
        invariant
            chars@ == s@,
            j <= chars.len(),
            without_last_word(s@) == without_last_word(s@.take(j as int)),
        decreases j,
    {
        assert(s@.take(j as int).drop_last() =~= s@.take(j - 1));
        assert(s@.take(j as int).last() == chars@[j - 1]);
        j -= 1;
    }
    let mut out = String::new();
    if j > 0 {
        assert(s@.take(j as int).drop_last() =~= s@.take(j - 1));
        assert(s@.take(j as int).last() == chars@[j - 1]);
        let mut i: usize = 0;
        while i < j - 1
            invariant
                0 < j <= chars.len(),
                chars@ == s@,
                i <= j - 1,
                out@ == s@.take(i as int),
            decreases j - 1 - i,
        {
            string_push(&mut out, chars[i]);
            assert(s@.take(i + 1) =~= s@.take(i as int).push(s@[i as int]));
            i += 1;
        }
    } else {
        assert(s@.take(0) =~= Seq::<char>::empty());
    }
    out
}

/// The words joined with single spaces between them.
pub open spec fn join_words(words: Seq<Seq<char>>) -> Seq<char>
    decreases words.len(),
{
    if words.len() == 0 {
        Seq::empty()
    } else if words.len() == 1 {
        words[0]
    } else {
        join_words(words.drop_last()) + seq![' '] + words.last()
    }
}

/// The characters of each string.
pub open spec fn views_of(v: Seq<String>) -> Seq<Seq<char>> {
    v.map_values(|w: String| w@)
}

/// The words joined with single spaces between them (`words.join(" ")`).
pub fn join_with_spaces(words: &Vec<String>) -> (r: String)
    ensures
        r@ == join_words(views_of(words@)),
{
    let mut out = String::new();
    let mut i: usize = 0;
    while i < words.len()
        invariant
            i <= words.len(),
            out@ == join_words(views_of(words@).take(i as int)),
        decreases words.len() - i,
    {
        assert(views_of(words@).take(i + 1).drop_last() =~= views_of(words@).take(i as int));
        if i > 0 {
            string_push(&mut out, ' ');
        } else {
            assert(out@ =~= Seq::<char>::empty());
        }
        out.append(words[i].as_str());
        assert(views_of(words@).take(i + 1).last() == words@[i as int]@);
        proof {
            if i == 0 {
                assert(out@ =~= views_of(words@).take(1)[0]);
            }
        }
        i += 1;
    }
    assert(views_of(words@).take(words.len() as int) =~= views_of(words@));
    out
}

/// A command as one line of the result list: each newline and each tab is
/// shown as a space.
pub open spec fn one_line(s: Seq<char>) -> Seq<char> {
    s.map_values(|c: char| if c == '\n' || c == '\t' { ' ' } else { c })
}

/// `s` with each newline and each tab replaced by a space.
pub fn flatten_whitespace(s: &str) -> (r: String)
    ensures
        r@ == one_line(s@),
{
    let chars = chars_of(s);
    let mut out = String::new();
    let mut i: usize = 0;
    while i < chars.len()
        invariant
            chars@ == s@,
            i <= chars.len(),
            out@ == one_line(s@).take(i as int),
        decreases chars.len() - i,
    {
        let c = chars[i];
        let d = if c == '\n' || c == '\t' {
            ' '
        } else {
            c
        };
        string_push(&mut out, d);
        assert(one_line(s@).take(i + 1) =~= one_line(s@).take(i as int).push(d));
        i += 1;
    }
    assert(one_line(s@).take(chars.len() as int) =~= one_line(s@));
    out
}

/// `n` spaces.
pub open spec fn spaces(n: nat) -> Seq<char> {
    Seq::new(n, |i: int| ' ')
}

} // verus!
