use vstd::prelude::*;
use vstd::string::*;

verus! {

broadcast use vstd::string::group_string_axioms;

/// The characters of `s`, one per element.
pub fn chars_of(s: &str) -> (v: Vec<char>)
    ensures
        v@ == s@,
{
    let mut v: Vec<char> = Vec::new();
    for c in it: s.chars()
        invariant
            v@ == it.seq().take(it.index() as int),
            it.seq() == s@,
    {
        v.push(c);
    }
    v
}


/// Appends one character to `s`, through std's `String::push`.
/// Trusted: the std documentation says that `push` appends the given char to the end of the string.
#[verifier::external_body]
pub(crate) fn push_char(s: &mut String, c: char)
    ensures
        final(s)@ == old(s)@.push(c),
{
    s.push(c);
}

/// `s` with every non-overlapping occurrence of `pat`, found from the left, replaced by `rep`; an
/// empty `pat` occurs before each character and at the end.
pub open spec fn replaced(s: Seq<char>, pat: Seq<char>, rep: Seq<char>) -> Seq<char>
    decreases s.len(),
{
    if pat.len() == 0 {
        if s.len() == 0 {
            rep
        } else {
            rep + seq![s[0]] + replaced(s.subrange(1, s.len() as int), pat, rep)
        }
    } else if s.len() == 0 {
        seq![]
    } else if pat.len() <= s.len() && s.subrange(0, pat.len() as int) == pat {
        rep + replaced(s.subrange(pat.len() as int, s.len() as int), pat, rep)
    } else {
        seq![s[0]] + replaced(s.subrange(1, s.len() as int), pat, rep)
    }
}

/// Whether `pat` occurs in `s` starting at position `i`.
fn occurs_at(s: &Vec<char>, pat: &Vec<char>, i: usize) -> (b: bool)
    requires
        i <= s.len(),
    ensures
        b == (i + pat.len() <= s.len() && s@.subrange(i as int, i + pat.len()) == pat@),
{
    if pat.len() > s.len() - i {
        return false;
    }
    let mut k: usize = 0;
    while k < pat.len()
        invariant
            k <= pat.len(),
            i + pat.len() <= s.len(),
            forall|t: int| 0 <= t < k ==> s@[i + t] == pat@[t],
        decreases pat.len() - k,
    {
        if s[i + k] != pat[k] {
            assert(s@.subrange(i as int, i + pat.len())[k as int] != pat@[k as int]);
            return false;
        }
        k = k + 1;
    }
    assert(s@.subrange(i as int, i + pat.len()) =~= pat@);
    true
}

/// Rust's `str::replace`: every non-overlapping occurrence of `pat` in `s`, scanning from the left,
/// is replaced by `rep` (an empty `pat` occurs before each character and at the end).
pub fn replace_all(s: &str, pat: &str, rep: &str) -> (r: String)
    ensures
        r@ == replaced(s@, pat@, rep@),
{
    let sv = chars_of(s);
    let pv = chars_of(pat);
    let mut out = String::new();
    let mut i: usize = 0;
    assert(s@.subrange(0, s@.len() as int) =~= s@);
    if pv.len() == 0 {
        while i < sv.len()
            invariant
                i <= sv.len(),
                sv@ == s@,
                pat@.len() == 0,
                replaced(s@, pat@, rep@) == out@ + replaced(s@.subrange(i as int, s@.len() as int), pat@, rep@),
            decreases sv.len() - i,
        {
            let ghost rest = s@.subrange(i as int, s@.len() as int);
            assert(rest.subrange(1, rest.len() as int) =~= s@.subrange(i + 1, s@.len() as int));
            let ghost before = out@;
            out.append(rep);
            push_char(&mut out, sv[i]);
            assert(out@ =~= before + rep@ + seq![rest[0]]);
            i = i + 1;
        }
        assert(s@.subrange(i as int, s@.len() as int) =~= Seq::<char>::empty());
        out.append(rep);
        return out;
    }
    while i < sv.len()
        invariant
            i <= sv.len(),
            sv@ == s@,
            pv@ == pat@,
            pat@.len() > 0,
            replaced(s@, pat@, rep@) == out@ + replaced(s@.subrange(i as int, s@.len() as int), pat@, rep@),
        decreases sv.len() - i,
    {
        let ghost rest = s@.subrange(i as int, s@.len() as int);
        if occurs_at(&sv, &pv, i) {
            assert(rest.subrange(0, pat@.len() as int) =~= s@.subrange(i as int, i + pat@.len()));
            assert(rest.subrange(pat@.len() as int, rest.len() as int) =~= s@.subrange(i + pat@.len(), s@.len() as int));
            out.append(rep);
            i = i + pv.len();
        } else {
            proof {
                if pat@.len() <= rest.len() {
                    assert(rest.subrange(0, pat@.len() as int) =~= s@.subrange(i as int, i + pat@.len()));
                }
            }
            assert(rest.subrange(1, rest.len() as int) =~= s@.subrange(i + 1, s@.len() as int));
            push_char(&mut out, sv[i]);
            i = i + 1;
        }
    }
    assert(s@.subrange(i as int, s@.len() as int) =~= Seq::<char>::empty());
    out
}


/// The character views of a sequence of strings.
pub open spec fn texts(v: Seq<String>) -> Seq<Seq<char>> {
    v.map_values(|t: String| t@)
}

/// The elements of `list` with `sep` between each two neighbours.
pub open spec fn joined(list: Seq<Seq<char>>, sep: Seq<char>) -> Seq<char>
    decreases list.len(),
{
    if list.len() == 0 {
        seq![]
    } else if list.len() == 1 {
        list[0]
    } else {
        joined(list.drop_last(), sep) + sep + list.last()
    }
}

/// The pieces of `s` between its newline characters, as `str::split("\n")` gives them:
/// one more piece than `s` has newlines, each free of newlines.
pub open spec fn split_lines(s: Seq<char>) -> Seq<Seq<char>>
    decreases s.len(),
{
    if s.len() == 0 {
        seq![seq![]]
    } else {
        let p = split_lines(s.drop_last());
        if s.last() == '\n' {
            p.push(seq![])
        } else {
            p.update(p.len() - 1, p.last().push(s.last()))
        }
    }
}

/// The newline separator.
pub open spec fn newline() -> Seq<char> {
    seq!['\n']
}

/// Splitting at newlines never yields an empty list, and no piece holds a newline.
pub proof fn lemma_split_lines_shape(s: Seq<char>)
    ensures
        split_lines(s).len() >= 1,
        forall|i: int, j: int|
            0 <= i < split_lines(s).len() && 0 <= j < split_lines(s)[i].len() ==> split_lines(s)[i][j] != '\n',
    decreases s.len(),
{
    if s.len() > 0 {
        lemma_split_lines_shape(s.drop_last());
    }
}

/// Joining the pieces of a split with newlines gives back the text that was split.
pub proof fn lemma_join_split_lines(s: Seq<char>)
    ensures
        joined(split_lines(s), newline()) == s,
    decreases s.len(),
{
    if s.len() > 0 {
        let t = s.drop_last();
        lemma_join_split_lines(t);
        lemma_split_lines_shape(t);
        let p = split_lines(t);
        if s.last() == '\n' {
            assert(p.push(seq![]).drop_last() =~= p);
            assert(s =~= t + newline() + seq![]);
        } else {
            let q = p.update(p.len() - 1, p.last().push(s.last()));
            if p.len() > 1 {
                assert(q.drop_last() =~= p.drop_last());
                assert(t == joined(p.drop_last(), newline()) + newline() + p.last());
                assert(s =~= t.push(s.last()));
                assert(s =~= joined(p.drop_last(), newline()) + newline() + p.last().push(s.last()));
            } else {
                assert(s =~= p[0].push(s.last()));
            }
        }
    }
}

/// `str::split("\n")`: the pieces of `s` between its newlines, each as its own string.
pub fn split_at_newlines(s: &str) -> (r: Vec<String>)
    ensures
        texts(r@) == split_lines(s@),
{
    let sv = chars_of(s);
    let mut pieces: Vec<String> = Vec::new();
    let mut cur = String::new();
    let mut i: usize = 0;
    while i < sv.len()
        invariant
            i <= sv.len(),
            sv@ == s@,
            texts(pieces@).push(cur@) == split_lines(s@.take(i as int)),
        decreases sv.len() - i,
    {
        let c = sv[i];
        let ghost before = texts(pieces@).push(cur@);
        assert(s@.take(i + 1).drop_last() =~= s@.take(i as int));
        if c == '\n' {
            pieces.push(cur);
            cur = String::new();
            assert(texts(pieces@).push(cur@) =~= before.push(seq![]));
        } else {
            push_char(&mut cur, c);
            assert(texts(pieces@).push(cur@) =~= before.update(before.len() - 1, before.last().push(c)));
        }
        i = i + 1;
    }
    assert(s@.take(sv.len() as int) =~= s@);
    pieces.push(cur);
    assert(texts(pieces@) =~= split_lines(s@));
    pieces
}

/// `[String]::join(sep)`: the strings of `list` with `sep` between each two neighbours.
pub fn join_with(list: &Vec<String>, sep: &str) -> (r: String)
    ensures
        r@ == joined(texts(list@), sep@),
{
    let mut out = String::new();
    let mut i: usize = 0;
    while i < list.len()
        invariant
            i <= list.len(),
            out@ == joined(texts(list@).take(i as int), sep@),
        decreases list.len() - i,
    {
        let ghost all = texts(list@);
        assert(all.take(i + 1).drop_last() =~= all.take(i as int));
        if i != 0 {
            out.append(sep);
        }
        out.append(list[i].as_str());
        i = i + 1;
    }
    assert(texts(list@).take(list.len() as int) =~= texts(list@));
    out
}

/// Whether two texts are equal.
pub fn same_text(a: &str, b: &str) -> (r: bool)
    ensures
        r == (a@ == b@),
{
    let x = a.to_owned();
    let y = b.to_owned();
    x == y
}

/// Whether `s` begins with the character `c`.
pub fn starts_with_char(s: &str, c: char) -> (r: bool)
    ensures
        r == (s@.len() > 0 && s@[0] == c),
{
    let n = s.unicode_len();
    if n == 0 {
        false
    } else {
        s.get_char(0) == c
    }
}


/// What std's `str::to_lowercase` returns for a text: its lowercase form by the Unicode
/// `Lowercase` property, a mapping that may change a text's length.
pub uninterp spec fn lowercase(s: Seq<char>) -> Seq<char>;

/// Whether every character of `s` is ASCII.
pub open spec fn ascii_text(s: Seq<char>) -> bool {
    forall|i: int| 0 <= i < s.len() ==> (#[trigger] s[i] as u32) < 128
}

/// Whether `c` is an ASCII capital letter.
pub open spec fn is_ascii_upper(c: char) -> bool {
    'A' <= c <= 'Z'
}

/// The lowercase form of an ASCII character: a capital letter becomes its small letter, anything
/// else stays.
pub open spec fn ascii_lower_char(c: char) -> char {
    if is_ascii_upper(c) {
        ((c as u32) + 32) as char
    } else {
        c
    }
}

/// The lowercase form of an ASCII text, character by character.
pub open spec fn ascii_lowercase(s: Seq<char>) -> Seq<char> {
    s.map_values(|c: char| ascii_lower_char(c))
}

/// Trusted: calls std's `str::to_lowercase` and claims that the result is the lowercase form of
/// its argument, as a function of that argument alone, and that on ASCII text it lowercases the
/// capital letters `A`-`Z` and keeps every other character (as the Unicode `Lowercase` mapping does
/// for ASCII); beyond ASCII the Unicode mapping is not stated.
#[verifier::external_body]
fn to_lowercase(s: &str) -> (r: String)
    ensures
        r@ == lowercase(s@),
        ascii_text(s@) ==> r@ == ascii_lowercase(s@),
{
    s.to_lowercase()
}

/// A printer name with `/`, `_`, space, `(` and `.` dropped, `)` kept and `+` spelled `plus`.
pub open spec fn simplified_name(name: Seq<char>) -> Seq<char> {
    replaced(
        replaced(
            replaced(
                replaced(
                    replaced(replaced(replaced(name, "/"@, ""@), "_"@, ""@), " "@, ""@),
                    "("@,
                    ""@,
                ),
                ")"@,
                ")"@,
            ),
            "+"@,
            "plus"@,
        ),
        "."@,
        ""@,
    )
}

/// The comparison key of a printer name: the simplified name, lowercased.
pub open spec fn generalized_name(name: Seq<char>) -> Seq<char> {
    lowercase(simplified_name(name))
}

/// The comparison key of an ASCII printer name: the simplified name with its capital letters
/// made small.
pub open spec fn ascii_generalized_name(name: Seq<char>) -> Seq<char> {
    ascii_lowercase(simplified_name(name))
}

/// The key under which printers from different sources are recognised as the same machine.
pub fn generalized(name: &str) -> (r: String)
    ensures
        r@ == generalized_name(name@),
        ascii_text(name@) ==> r@ == ascii_generalized_name(name@),
{
    proof {
        reveal_strlit("/");
        reveal_strlit("_");
        reveal_strlit(" ");
        reveal_strlit("(");
        reveal_strlit(")");
        reveal_strlit("+");
        reveal_strlit(".");
    }
    let a = replace_all(name, "/", "");
    let b = replace_all(a.as_str(), "_", "");
    let c = replace_all(b.as_str(), " ", "");
    let d = replace_all(c.as_str(), "(", "");
    let e = replace_all(d.as_str(), ")", ")");
    let f = replace_all(e.as_str(), "+", "plus");
    let g = replace_all(f.as_str(), ".", "");
    proof {
        if ascii_text(name@) {
            lemma_simplified_name_shape(name@);
        }
    }
    to_lowercase(g.as_str())
}

/// The file name under which a printer definition is written: `/`, space and `(` become `_`,
/// `)` stays, `+` becomes `_plus`, and `.json` is appended.
pub open spec fn output_file_name_of(name: Seq<char>) -> Seq<char> {
    replaced(
        replaced(
            replaced(replaced(replaced(name, "/"@, "_"@), " "@, "_"@), "("@, "_"@),
            ")"@,
            ")"@,
        ),
        "+"@,
        "_plus"@,
    ) + ".json"@
}

/// The file name under which the printer called `name` is written.
pub fn output_file_name(name: &str) -> (r: String)
    ensures
        r@ == output_file_name_of(name@),
{
    proof {
        reveal_strlit("/");
        reveal_strlit(" ");
        reveal_strlit("(");
        reveal_strlit(")");
        reveal_strlit("+");
    }
    let a = replace_all(name, "/", "_");
    let b = replace_all(a.as_str(), " ", "_");
    let c = replace_all(b.as_str(), "(", "_");
    let d = replace_all(c.as_str(), ")", ")");
    let mut e = replace_all(d.as_str(), "+", "_plus");
    e.append(".json");
    e
}

/// The catalogue key of a Cura definition file: its name with every `.def.json` removed.
pub fn definition_key(file_name: &str) -> (r: String)
    ensures
        r@ == replaced(file_name@, ".def.json"@, ""@),
{
    proof {
        reveal_strlit(".def.json");
    }
    replace_all(file_name, ".def.json", "")
}


/// A copy of a list of strings.
pub fn copy_lines(v: &Vec<String>) -> (r: Vec<String>)
    ensures
        texts(r@) == texts(v@),
{
    let mut out: Vec<String> = Vec::new();
    let mut i: usize = 0;
    while i < v.len()
        invariant
            i <= v.len(),
            out@.len() == i,
            texts(out@) == texts(v@).take(i as int),
        decreases v.len() - i,
    {
        let c = v[i].clone();
        let ghost before = out@;
        out.push(c);
        assert forall|j: int| 0 <= j < i implies texts(out@)[j] == texts(v@)[j] by {
            assert(texts(before)[j] == texts(v@).take(i as int)[j]);
        }
        i = i + 1;
        assert(texts(out@) =~= texts(v@).take(i as int));
    }
    assert(texts(v@).take(v.len() as int) =~= texts(v@));
    out
}


/// Replacing a character keeps a property of the text when every other character has it and the
/// replacement's characters have it.
pub proof fn lemma_replaced_keeps(s: Seq<char>, c: char, rep: Seq<char>, p: spec_fn(char) -> bool)
    requires
        forall|i: int| 0 <= i < s.len() ==> s[i] == c || p(#[trigger] s[i]),
        forall|i: int| 0 <= i < rep.len() ==> p(#[trigger] rep[i]),
    ensures
        forall|i: int|
            0 <= i < replaced(s, seq![c], rep).len() ==> p(#[trigger] replaced(s, seq![c], rep)[i]),
    decreases s.len(),
{
    if s.len() > 0 {
        let rest = s.subrange(1, s.len() as int);
        assert forall|i: int| 0 <= i < rest.len() implies rest[i] == c || p(#[trigger] rest[i]) by {
            assert(rest[i] == s[i + 1]);
        }
        lemma_replaced_keeps(rest, c, rep, p);
        if s.subrange(0, 1) == seq![c] {
            assert(s[0] == s.subrange(0, 1)[0]);
        } else {
            assert(s.subrange(0, 1) =~= seq![s[0]]);
        }
        let r = replaced(s, seq![c], rep);
        let tail = replaced(rest, seq![c], rep);
        assert forall|i: int| 0 <= i < r.len() implies p(#[trigger] r[i]) by {
            if s[0] == c {
                assert(s.subrange(0, 1) =~= seq![c]);
                assert(r == rep + tail);
                if i >= rep.len() {
                    assert(r[i] == tail[i - rep.len()]);
                }
            } else {
                assert(r == seq![s[0]] + tail);
                if i >= 1 {
                    assert(r[i] == tail[i - 1]);
                }
            }
        }
    }
}

/// Replacing a character that does not occur leaves the text as it is.
pub proof fn lemma_replaced_absent(s: Seq<char>, c: char, rep: Seq<char>)
    requires
        forall|i: int| 0 <= i < s.len() ==> #[trigger] s[i] != c,
    ensures
        replaced(s, seq![c], rep) == s,
    decreases s.len(),
{
    if s.len() > 0 {
        let rest = s.subrange(1, s.len() as int);
        assert forall|i: int| 0 <= i < rest.len() implies #[trigger] rest[i] != c by {
            assert(rest[i] == s[i + 1]);
        }
        lemma_replaced_absent(rest, c, rep);
        assert(s.subrange(0, 1)[0] == s[0]);
        assert(s.subrange(0, 1) != seq![c]);
        assert(s =~= seq![s[0]] + rest);
    }
}

/// Replacing a character by itself leaves the text as it is.
pub proof fn lemma_replaced_by_itself(s: Seq<char>, c: char)
    ensures
        replaced(s, seq![c], seq![c]) == s,
    decreases s.len(),
{
    if s.len() > 0 {
        let rest = s.subrange(1, s.len() as int);
        lemma_replaced_by_itself(rest, c);
        if s.subrange(0, 1) == seq![c] {
            assert(s =~= seq![c] + rest);
        } else {
            assert(s =~= seq![s[0]] + rest);
        }
    }
}

/// The characters that a comparison key never holds.
pub open spec fn dropped_char(c: char) -> bool {
    c == '/' || c == '_' || c == ' ' || c == '(' || c == '+' || c == '.'
}

/// The simplified form of an ASCII name is ASCII and holds none of the dropped characters
/// `/ _ space ( + .`.
pub proof fn lemma_simplified_name_shape(name: Seq<char>)
    requires
        ascii_text(name),
    ensures
        ascii_text(simplified_name(name)),
        forall|i: int|
            0 <= i < simplified_name(name).len() ==> !dropped_char(#[trigger] simplified_name(name)[i]),
{
    reveal_strlit("/");
    reveal_strlit("_");
    reveal_strlit(" ");
    reveal_strlit("(");
    reveal_strlit(")");
    reveal_strlit("+");
    reveal_strlit(".");
    reveal_strlit("");
    reveal_strlit("plus");
    assert("/"@ =~= seq!['/']);
    assert("_"@ =~= seq!['_']);
    assert(" "@ =~= seq![' ']);
    assert("("@ =~= seq!['(']);
    assert(")"@ =~= seq![')']);
    assert("+"@ =~= seq!['+']);
    assert("."@ =~= seq!['.']);
    let s1 = replaced(name, "/"@, ""@);
    let s2 = replaced(s1, "_"@, ""@);
    let s3 = replaced(s2, " "@, ""@);
    let s4 = replaced(s3, "("@, ""@);
    let s5 = replaced(s4, ")"@, ")"@);
    let s6 = replaced(s5, "+"@, "plus"@);
    let p1 = |x: char| (x as u32) < 128 && x != '/';
    lemma_replaced_keeps(name, '/', ""@, p1);
    let p2 = |x: char| (x as u32) < 128 && x != '/' && x != '_';
    lemma_replaced_keeps(s1, '_', ""@, p2);
    let p3 = |x: char| (x as u32) < 128 && x != '/' && x != '_' && x != ' ';
    lemma_replaced_keeps(s2, ' ', ""@, p3);
    let p4 = |x: char| (x as u32) < 128 && x != '/' && x != '_' && x != ' ' && x != '(';
    lemma_replaced_keeps(s3, '(', ""@, p4);
    lemma_replaced_by_itself(s4, ')');
    let p6 = |x: char| (x as u32) < 128 && x != '/' && x != '_' && x != ' ' && x != '(' && x != '+';
    lemma_replaced_keeps(s5, '+', "plus"@, p6);
    let p7 = |x: char| (x as u32) < 128 && !dropped_char(x);
    lemma_replaced_keeps(s6, '.', ""@, p7);
}

/// The comparison key of an ASCII name is ASCII and holds no capital letter and none of the
/// dropped characters `/ _ space ( + .`; and taking the key of a key gives the key back.
pub proof fn lemma_ascii_key(name: Seq<char>)
    requires
        ascii_text(name),
    ensures
        ascii_text(ascii_generalized_name(name)),
        forall|i: int|
            0 <= i < ascii_generalized_name(name).len() ==> !is_ascii_upper(
                #[trigger] ascii_generalized_name(name)[i],
            ) && !dropped_char(ascii_generalized_name(name)[i]),
        ascii_generalized_name(ascii_generalized_name(name)) == ascii_generalized_name(name),
{
    lemma_simplified_name_shape(name);
    let k = ascii_generalized_name(name);
    let t = simplified_name(name);
    assert forall|i: int| 0 <= i < k.len() implies (#[trigger] k[i] as u32) < 128 && !is_ascii_upper(k[i])
        && !dropped_char(k[i]) by {
        assert(k[i] == ascii_lower_char(t[i]));
        assert((t[i] as u32) < 128);
        if is_ascii_upper(t[i]) {
            assert((t[i] as u32) + 32 < 128);
        }
    }
    // The key holds none of the characters that simplifying touches, so simplifying keeps it.
    reveal_strlit("/");
    reveal_strlit("_");
    reveal_strlit(" ");
    reveal_strlit("(");
    reveal_strlit(")");
    reveal_strlit("+");
    reveal_strlit(".");
    assert("/"@ =~= seq!['/']);
    assert("_"@ =~= seq!['_']);
    assert(" "@ =~= seq![' ']);
    assert("("@ =~= seq!['(']);
    assert(")"@ =~= seq![')']);
    assert("+"@ =~= seq!['+']);
    assert("."@ =~= seq!['.']);
    lemma_replaced_absent(k, '/', ""@);
    lemma_replaced_absent(k, '_', ""@);
    lemma_replaced_absent(k, ' ', ""@);
    lemma_replaced_absent(k, '(', ""@);
    lemma_replaced_by_itself(k, ')');
    lemma_replaced_absent(k, '+', "plus"@);
    lemma_replaced_absent(k, '.', ""@);
    assert(simplified_name(k) == k);
    assert(ascii_lowercase(k) =~= k);
}


/// Replacing a character in two texts one after the other is replacing it in each.
pub proof fn lemma_replaced_concat(a: Seq<char>, b: Seq<char>, c: char, rep: Seq<char>)
    ensures
        replaced(a + b, seq![c], rep) == replaced(a, seq![c], rep) + replaced(b, seq![c], rep),
    decreases a.len(),
{
    if a.len() > 0 {
        let rest = a.subrange(1, a.len() as int);
        lemma_replaced_concat(rest, b, c, rep);
        let ab = a + b;
        assert(ab.subrange(1, ab.len() as int) =~= rest + b);
        assert(ab.subrange(0, 1) =~= a.subrange(0, 1));
        if a.subrange(0, 1) == seq![c] {
            assert(rep + (replaced(rest, seq![c], rep) + replaced(b, seq![c], rep)) =~= (rep
                + replaced(rest, seq![c], rep)) + replaced(b, seq![c], rep));
        } else {
            assert(ab[0] == a[0]);
            assert(seq![a[0]] + (replaced(rest, seq![c], rep) + replaced(b, seq![c], rep)) =~= (
            seq![a[0]] + replaced(rest, seq![c], rep)) + replaced(b, seq![c], rep));
        }
    } else {
        assert(a + b =~= b);
        assert(replaced(a, seq![c], rep) =~= Seq::<char>::empty());
        assert(Seq::<char>::empty() + replaced(b, seq![c], rep) =~= replaced(b, seq![c], rep));
    }
}

proof fn lemma_simplified_concat(a: Seq<char>, b: Seq<char>)
    ensures
        simplified_name(a + b) == simplified_name(a) + simplified_name(b),
{
    reveal_strlit("/");
    reveal_strlit("_");
    reveal_strlit(" ");
    reveal_strlit("(");
    reveal_strlit(")");
    reveal_strlit("+");
    reveal_strlit(".");
    assert("/"@ =~= seq!['/']);
    assert("_"@ =~= seq!['_']);
    assert(" "@ =~= seq![' ']);
    assert("("@ =~= seq!['(']);
    assert(")"@ =~= seq![')']);
    assert("+"@ =~= seq!['+']);
    assert("."@ =~= seq!['.']);
    let a1 = replaced(a, "/"@, ""@);
    let b1 = replaced(b, "/"@, ""@);
    lemma_replaced_concat(a, b, '/', ""@);
    let a2 = replaced(a1, "_"@, ""@);
    let b2 = replaced(b1, "_"@, ""@);
    lemma_replaced_concat(a1, b1, '_', ""@);
    let a3 = replaced(a2, " "@, ""@);
    let b3 = replaced(b2, " "@, ""@);
    lemma_replaced_concat(a2, b2, ' ', ""@);
    let a4 = replaced(a3, "("@, ""@);
    let b4 = replaced(b3, "("@, ""@);
    lemma_replaced_concat(a3, b3, '(', ""@);
    let a5 = replaced(a4, ")"@, ")"@);
    let b5 = replaced(b4, ")"@, ")"@);
    lemma_replaced_concat(a4, b4, ')', ")"@);
    let a6 = replaced(a5, "+"@, "plus"@);
    let b6 = replaced(b5, "+"@, "plus"@);
    lemma_replaced_concat(a5, b5, '+', "plus"@);
    lemma_replaced_concat(a6, b6, '.', ""@);
}

/// The comparison key of a name made of two parts is the key of the first part followed by the key
/// of the second (for ASCII names it is what `generalized` returns).
pub proof fn lemma_key_concat(a: Seq<char>, b: Seq<char>)
    ensures
        ascii_generalized_name(a + b) == ascii_generalized_name(a) + ascii_generalized_name(b),
{
    lemma_simplified_concat(a, b);
    let x = simplified_name(a);
    let y = simplified_name(b);
    assert(ascii_lowercase(x + y) =~= ascii_lowercase(x) + ascii_lowercase(y));
}

/// Replacing a character that is no letter keeps two texts that agree up to ASCII case in
/// agreement.
proof fn lemma_replaced_same_case(s: Seq<char>, t: Seq<char>, c: char, rep: Seq<char>)
    requires
        ascii_lowercase(s) == ascii_lowercase(t),
        !is_ascii_upper(c),
        !('a' <= c <= 'z'),
    ensures
        ascii_lowercase(replaced(s, seq![c], rep)) == ascii_lowercase(replaced(t, seq![c], rep)),
    decreases s.len(),
{
    assert(s.len() == ascii_lowercase(s).len());
    assert(t.len() == ascii_lowercase(t).len());
    if s.len() > 0 {
        let sr = s.subrange(1, s.len() as int);
        let tr = t.subrange(1, t.len() as int);
        assert(ascii_lowercase(sr) =~= ascii_lowercase(s).subrange(1, s.len() as int));
        assert(ascii_lowercase(tr) =~= ascii_lowercase(t).subrange(1, t.len() as int));
        lemma_replaced_same_case(sr, tr, c, rep);
        assert(ascii_lower_char(s[0]) == ascii_lowercase(s)[0]);
        assert(ascii_lower_char(t[0]) == ascii_lowercase(t)[0]);
        assert(s.subrange(0, 1)[0] == s[0]);
        assert(t.subrange(0, 1)[0] == t[0]);
        let rs = replaced(sr, seq![c], rep);
        let rt = replaced(tr, seq![c], rep);
        if s[0] == c {
            assert(t[0] == c);
            assert(s.subrange(0, 1) =~= seq![c]);
            assert(t.subrange(0, 1) =~= seq![c]);
            assert(ascii_lowercase(rep + rs) =~= ascii_lowercase(rep) + ascii_lowercase(rs));
            assert(ascii_lowercase(rep + rt) =~= ascii_lowercase(rep) + ascii_lowercase(rt));
        } else {
            assert(t[0] != c);
            assert(s.subrange(0, 1) != seq![c]);
            assert(t.subrange(0, 1) != seq![c]);
            assert(ascii_lowercase(seq![s[0]] + rs) =~= seq![ascii_lower_char(s[0])]
                + ascii_lowercase(rs));
            assert(ascii_lowercase(seq![t[0]] + rt) =~= seq![ascii_lower_char(t[0])]
                + ascii_lowercase(rt));
        }
    }
}

/// Names that differ only in the case of ASCII letters have the same comparison key (for ASCII
/// names it is what `generalized` returns).
pub proof fn lemma_key_ignores_case(a: Seq<char>, b: Seq<char>)
    requires
        ascii_lowercase(a) == ascii_lowercase(b),
    ensures
        ascii_generalized_name(a) == ascii_generalized_name(b),
{
    reveal_strlit("/");
    reveal_strlit("_");
    reveal_strlit(" ");
    reveal_strlit("(");
    reveal_strlit(")");
    reveal_strlit("+");
    reveal_strlit(".");
    assert("/"@ =~= seq!['/']);
    assert("_"@ =~= seq!['_']);
    assert(" "@ =~= seq![' ']);
    assert("("@ =~= seq!['(']);
    assert(")"@ =~= seq![')']);
    assert("+"@ =~= seq!['+']);
    assert("."@ =~= seq!['.']);
    let a1 = replaced(a, "/"@, ""@);
    let b1 = replaced(b, "/"@, ""@);
    lemma_replaced_same_case(a, b, '/', ""@);
    let a2 = replaced(a1, "_"@, ""@);
    let b2 = replaced(b1, "_"@, ""@);
    lemma_replaced_same_case(a1, b1, '_', ""@);
    let a3 = replaced(a2, " "@, ""@);
    let b3 = replaced(b2, " "@, ""@);
    lemma_replaced_same_case(a2, b2, ' ', ""@);
    let a4 = replaced(a3, "("@, ""@);
    let b4 = replaced(b3, "("@, ""@);
    lemma_replaced_same_case(a3, b3, '(', ""@);
    let a5 = replaced(a4, ")"@, ")"@);
    let b5 = replaced(b4, ")"@, ")"@);
    lemma_replaced_same_case(a4, b4, ')', ")"@);
    let a6 = replaced(a5, "+"@, "plus"@);
    let b6 = replaced(b5, "+"@, "plus"@);
    lemma_replaced_same_case(a5, b5, '+', "plus"@);
    lemma_replaced_same_case(a6, b6, '.', ""@);
}

/// The uppercase form of an ASCII character: a small letter becomes its capital, anything else
/// stays.
pub open spec fn ascii_upper_char(c: char) -> char {
    if 'a' <= c <= 'z' {
        ((c as u32) - 32) as char
    } else {
        c
    }
}

/// The uppercase form of a text, letter by ASCII letter.
pub open spec fn ascii_uppercase(s: Seq<char>) -> Seq<char> {
    s.map_values(|c: char| ascii_upper_char(c))
}

/// A name written in ASCII capitals or in ASCII small letters has the key of the name itself.
pub proof fn lemma_key_of_case_forms(a: Seq<char>)
    ensures
        ascii_generalized_name(ascii_uppercase(a)) == ascii_generalized_name(a),
        ascii_generalized_name(ascii_lowercase(a)) == ascii_generalized_name(a),
{
    assert forall|i: int| 0 <= i < a.len() implies ascii_lower_char(ascii_upper_char(#[trigger] a[i]))
        == ascii_lower_char(a[i]) && ascii_lower_char(ascii_lower_char(a[i])) == ascii_lower_char(
        a[i],
    ) by {
        let c = a[i];
        if 'a' <= c <= 'z' {
            assert((((c as u32) - 32) as char as u32) == (c as u32) - 32);
            assert((((((c as u32) - 32) as char as u32) + 32) as char) == c);
        }
        if is_ascii_upper(c) {
            assert((((c as u32) + 32) as char as u32) == (c as u32) + 32);
        }
    }
    assert(ascii_lowercase(ascii_uppercase(a)) =~= ascii_lowercase(a));
    assert(ascii_lowercase(ascii_lowercase(a)) =~= ascii_lowercase(a));
    lemma_key_ignores_case(ascii_uppercase(a), a);
    lemma_key_ignores_case(ascii_lowercase(a), a);
}

/// Text in which the first character of `pat` does not occur passes through the replacement
/// unchanged, whatever follows it.
pub proof fn lemma_replaced_skip(x: Seq<char>, y: Seq<char>, pat: Seq<char>, rep: Seq<char>)
    requires
        pat.len() > 0,
        forall|i: int| 0 <= i < x.len() ==> #[trigger] x[i] != pat[0],
    ensures
        replaced(x + y, pat, rep) == x + replaced(y, pat, rep),
    decreases x.len(),
{
    if x.len() > 0 {
        let s = x + y;
        let xr = x.subrange(1, x.len() as int);
        assert forall|i: int| 0 <= i < xr.len() implies #[trigger] xr[i] != pat[0] by {
            assert(xr[i] == x[i + 1]);
        }
        lemma_replaced_skip(xr, y, pat, rep);
        if pat.len() <= s.len() {
            assert(s.subrange(0, pat.len() as int)[0] == x[0]);
        }
        assert(s.subrange(1, s.len() as int) =~= xr + y);
        assert(x =~= seq![x[0]] + xr);
    }
}

/// Replacing in a single character gives the replacement where the character is the one
/// replaced, and the character itself otherwise.
proof fn lemma_replaced_single(c: char, d: char, rep: Seq<char>)
    ensures
        replaced(seq![c], seq![d], rep) == if c == d {
            rep
        } else {
            seq![c]
        },
{
    let s = seq![c];
    assert(s.subrange(1, 1) =~= Seq::<char>::empty());
    assert(replaced(Seq::<char>::empty(), seq![d], rep) == Seq::<char>::empty());
    if c == d {
        assert(s.subrange(0, 1) =~= seq![d]);
        assert(rep + Seq::<char>::empty() =~= rep);
    } else {
        assert(s.subrange(0, 1)[0] == c);
        assert(seq![c] + Seq::<char>::empty() =~= seq![c]);
    }
}

/// The name part of a file name: everything before its `.json`.
spec fn file_stem(name: Seq<char>) -> Seq<char> {
    replaced(
        replaced(
            replaced(replaced(replaced(name, seq!['/'], seq!['_']), seq![' '], seq!['_']), seq!['('], seq!['_']),
            seq![')'],
            seq![')'],
        ),
        seq!['+'],
        "_plus"@,
    )
}

proof fn lemma_file_stem(name: Seq<char>)
    ensures
        output_file_name_of(name) == file_stem(name) + ".json"@,
{
    reveal_strlit("/");
    reveal_strlit("_");
    reveal_strlit(" ");
    reveal_strlit("(");
    reveal_strlit(")");
    reveal_strlit("+");
    assert("/"@ =~= seq!['/']);
    assert("_"@ =~= seq!['_']);
    assert(" "@ =~= seq![' ']);
    assert("("@ =~= seq!['(']);
    assert(")"@ =~= seq![')']);
    assert("+"@ =~= seq!['+']);
}

/// The file name of a name made of two parts is the file name of the first part, without its
/// `.json`, followed by the file name of the second; the file name of the empty name is `.json`;
/// and a single character gives `_` for `/`, space and `(`, `_plus` for `+`, and itself otherwise,
/// followed by `.json`. (Together these fix the file name of every name.)
pub proof fn lemma_output_file_name_parts(a: Seq<char>, b: Seq<char>, c: char)
    ensures
        output_file_name_of(a + b) == output_file_name_of(a).subrange(
            0,
            output_file_name_of(a).len() - 5,
        ) + output_file_name_of(b),
        output_file_name_of(seq![]) == ".json"@,
        c == '/' || c == ' ' || c == '(' ==> output_file_name_of(seq![c]) == "_.json"@,
        c == '+' ==> output_file_name_of(seq![c]) == "_plus.json"@,
        c != '/' && c != ' ' && c != '(' && c != '+' ==> output_file_name_of(seq![c]) == seq![c]
            + ".json"@,
{
    reveal_strlit(".json");
    reveal_strlit("_.json");
    reveal_strlit("_plus.json");
    reveal_strlit("_plus");
    lemma_file_stem(a);
    lemma_file_stem(b);
    lemma_file_stem(a + b);
    lemma_file_stem(seq![]);
    lemma_file_stem(seq![c]);
    // concatenation, stage by stage
    let a1 = replaced(a, seq!['/'], seq!['_']);
    let b1 = replaced(b, seq!['/'], seq!['_']);
    lemma_replaced_concat(a, b, '/', seq!['_']);
    let a2 = replaced(a1, seq![' '], seq!['_']);
    let b2 = replaced(b1, seq![' '], seq!['_']);
    lemma_replaced_concat(a1, b1, ' ', seq!['_']);
    let a3 = replaced(a2, seq!['('], seq!['_']);
    let b3 = replaced(b2, seq!['('], seq!['_']);
    lemma_replaced_concat(a2, b2, '(', seq!['_']);
    let a4 = replaced(a3, seq![')'], seq![')']);
    let b4 = replaced(b3, seq![')'], seq![')']);
    lemma_replaced_concat(a3, b3, ')', seq![')']);
    lemma_replaced_concat(a4, b4, '+', "_plus"@);
    let fa = file_stem(a);
    assert((fa + ".json"@).subrange(0, fa.len() as int) =~= fa);
    assert(fa + (file_stem(b) + ".json"@) =~= fa + file_stem(b) + ".json"@);
    // the empty name
    assert(file_stem(seq![]) == Seq::<char>::empty());
    assert(Seq::<char>::empty() + ".json"@ =~= ".json"@);
    // one character
    let s = seq![c];
    lemma_replaced_single(c, '/', seq!['_']);
    let s1 = replaced(s, seq!['/'], seq!['_']);
    let c1 = if c == '/' { '_' } else { c };
    assert(s1 == seq![c1]);
    lemma_replaced_single(c1, ' ', seq!['_']);
    let c2 = if c1 == ' ' { '_' } else { c1 };
    lemma_replaced_single(c2, '(', seq!['_']);
    let c3 = if c2 == '(' { '_' } else { c2 };
    lemma_replaced_single(c3, ')', seq![')']);
    lemma_replaced_single(c3, '+', "_plus"@);
    if c == '+' {
        assert(seq!['+'] == s);
        assert(file_stem(s) == "_plus"@);
        assert("_plus"@ + ".json"@ =~= "_plus.json"@);
    } else if c == '/' || c == ' ' || c == '(' {
        assert(file_stem(s) == seq!['_']);
        assert(seq!['_'] + ".json"@ =~= "_.json"@);
    } else {
        assert(file_stem(s) == seq![c]);
    }
}

/// The key of a Cura definition file named `k` followed by `.def.json` is `k`, where `k` holds no
/// `.`; and a file name with no `.` is its own key.
pub proof fn lemma_definition_key_of(k: Seq<char>)
    requires
        forall|i: int| 0 <= i < k.len() ==> k[i] != '.',
    ensures
        replaced(k + ".def.json"@, ".def.json"@, ""@) == k,
        replaced(k, ".def.json"@, ""@) == k,
{
    reveal_strlit(".def.json");
    reveal_strlit("");
    let pat = ".def.json"@;
    assert forall|i: int| 0 <= i < k.len() implies #[trigger] k[i] != pat[0] by {}
    lemma_replaced_skip(k, pat, pat, ""@);
    assert(pat.subrange(0, pat.len() as int) =~= pat);
    assert(pat.subrange(pat.len() as int, pat.len() as int) =~= Seq::<char>::empty());
    assert(replaced(pat, pat, ""@) == ""@ + replaced(Seq::<char>::empty(), pat, ""@));
    assert(replaced(pat, pat, ""@) =~= Seq::<char>::empty());
    assert(k + Seq::<char>::empty() =~= k);
    lemma_replaced_skip(k, Seq::<char>::empty(), pat, ""@);
}

/// The comparison key of a single character: nothing for `/`, `_`, space, `(` and `.`; `plus` for
/// `+`; the character made small otherwise. (With `lemma_key_concat` this fixes the key of every
/// ASCII name.)
pub proof fn lemma_key_of_char(c: char)
    ensures
        c == '/' || c == '_' || c == ' ' || c == '(' || c == '.' ==> ascii_generalized_name(seq![c])
            == Seq::<char>::empty(),
        c == '+' ==> ascii_generalized_name(seq![c]) == "plus"@,
        !dropped_char(c) ==> ascii_generalized_name(seq![c]) == seq![ascii_lower_char(c)],
{
    reveal_strlit("/");
    reveal_strlit("_");
    reveal_strlit(" ");
    reveal_strlit("(");
    reveal_strlit(")");
    reveal_strlit("+");
    reveal_strlit(".");
    reveal_strlit("");
    reveal_strlit("plus");
    assert("/"@ =~= seq!['/']);
    assert("_"@ =~= seq!['_']);
    assert(" "@ =~= seq![' ']);
    assert("("@ =~= seq!['(']);
    assert(")"@ =~= seq![')']);
    assert("+"@ =~= seq!['+']);
    assert("."@ =~= seq!['.']);
    let e = Seq::<char>::empty();
    assert(""@ =~= e);
    let s = seq![c];
    lemma_replaced_single(c, '/', e);
    let s1 = replaced(s, seq!['/'], e);
    if c == '/' {
        assert(s1 == e);
        assert(simplified_name(s) == e);
        assert(ascii_lowercase(e) =~= e);
        return;
    }
    assert(s1 == s);
    lemma_replaced_single(c, '_', e);
    let s2 = replaced(s1, seq!['_'], e);
    if c == '_' {
        assert(s2 == e);
        assert(simplified_name(s) == e);
        assert(ascii_lowercase(e) =~= e);
        return;
    }
    assert(s2 == s);
    lemma_replaced_single(c, ' ', e);
    let s3 = replaced(s2, seq![' '], e);
    if c == ' ' {
        assert(s3 == e);
        assert(simplified_name(s) == e);
        assert(ascii_lowercase(e) =~= e);
        return;
    }
    assert(s3 == s);
    lemma_replaced_single(c, '(', e);
    let s4 = replaced(s3, seq!['('], e);
    if c == '(' {
        assert(s4 == e);
        assert(simplified_name(s) == e);
        assert(ascii_lowercase(e) =~= e);
        return;
    }
    assert(s4 == s);
    lemma_replaced_single(c, ')', seq![')']);
    let s5 = replaced(s4, seq![')'], seq![')']);
    assert(s5 == s);
    lemma_replaced_single(c, '+', "plus"@);
    let s6 = replaced(s5, seq!['+'], "plus"@);
    if c == '+' {
        assert(s6 == "plus"@);
        lemma_replaced_absent("plus"@, '.', e);
        assert(simplified_name(s) == "plus"@);
        assert(ascii_lowercase("plus"@) =~= "plus"@);
        return;
    }
    assert(s6 == s);
    lemma_replaced_single(c, '.', e);
    if c == '.' {
        assert(simplified_name(s) == e);
        assert(ascii_lowercase(e) =~= e);
        return;
    }
    assert(simplified_name(s) == s);
    assert(ascii_lowercase(s) =~= seq![ascii_lower_char(c)]);
}

} // verus!
