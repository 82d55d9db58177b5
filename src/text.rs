use vstd::prelude::*;

verus! {

/// The ASCII digit for `d`, which is below ten.
pub open spec fn digit_char(d: nat) -> char {
    if d == 0 { '0' } else if d == 1 { '1' } else if d == 2 { '2' } else if d == 3 { '3' }
    else if d == 4 { '4' } else if d == 5 { '5' } else if d == 6 { '6' } else if d == 7 { '7' }
    else if d == 8 { '8' } else { '9' }
}

/// Decimal notation of `n`, most significant digit first, without leading zeros.
pub open spec fn decimal(n: nat) -> Seq<char>
    decreases n,
{
    if n < 10 {
        seq![digit_char(n)]
    } else {
        decimal(n / 10).push(digit_char(n % 10))
    }
}

fn digit_str(d: usize) -> (r: &'static str)
    requires
        d < 10,
    ensures
        r@ == seq![digit_char(d as nat)],
{
    proof {
        reveal_strlit("0");
        reveal_strlit("1");
        reveal_strlit("2");
        reveal_strlit("3");
        reveal_strlit("4");
        reveal_strlit("5");
        reveal_strlit("6");
        reveal_strlit("7");
        reveal_strlit("8");
        reveal_strlit("9");
    }
    if d == 0 { "0" } else if d == 1 { "1" } else if d == 2 { "2" } else if d == 3 { "3" }
    else if d == 4 { "4" } else if d == 5 { "5" } else if d == 6 { "6" } else if d == 7 { "7" }
    else if d == 8 { "8" } else { "9" }
}

/// Appends the decimal notation of `n` to `out`.
pub fn append_decimal(out: &mut String, n: usize)
    ensures
        final(out)@ == old(out)@ + decimal(n as nat),
    decreases n,
{
    if n >= 10 {
        append_decimal(out, n / 10);
    }
    out.append(digit_str(n % 10));
}


/// Splits `s` at every `;`, keeping empty pieces: a string with `k` separators
/// gives `k + 1` pieces, and the empty string gives one empty piece.
pub open spec fn split_on_semicolons(s: Seq<char>) -> Seq<Seq<char>>
    decreases s.len(),
{
    if s.len() == 0 {
        seq![Seq::empty()]
    } else {
        let r = split_on_semicolons(s.drop_last());
        if s.last() == ';' {
            r.push(Seq::empty())
        } else {
            r.update(r.len() - 1, r.last().push(s.last()))
        }
    }
}

pub proof fn lemma_split_nonempty(s: Seq<char>)
    ensures
        split_on_semicolons(s).len() >= 1,
    decreases s.len(),
{
    if s.len() > 0 {
        lemma_split_nonempty(s.drop_last());
    }
}

/// The parts written one after another, with `sep` between two neighbours.
pub open spec fn join(parts: Seq<Seq<char>>, sep: Seq<char>) -> Seq<char>
    decreases parts.len(),
{
    if parts.len() == 0 {
        Seq::empty()
    } else if parts.len() == 1 {
        parts[0]
    } else {
        join(parts.drop_last(), sep) + sep + parts.last()
    }
}

pub proof fn lemma_join_push(parts: Seq<Seq<char>>, sep: Seq<char>, x: Seq<char>)
    ensures
        join(parts.push(x), sep) == if parts.len() == 0 { x } else { join(parts, sep) + sep + x },
{
    assert(parts.push(x).drop_last() =~= parts);
}

/// What `str::trim` gives for a string with these characters.
pub uninterp spec fn trimmed(s: Seq<char>) -> Seq<char>;

/// What `str::to_lowercase` gives for a string with these characters.
pub uninterp spec fn lowercased(s: Seq<char>) -> Seq<char>;

/// Relies on `str::trim`: leading and trailing whitespace removed, the result
/// depending on the characters alone.
#[verifier::external_body]
pub(crate) fn trim(s: &str) -> (r: &str)
    ensures
        r@ == trimmed(s@),
{
    s.trim()
}

/// Relies on `str::to_lowercase`: the lowercase mapping of each character, the
/// result depending on the characters alone.
#[verifier::external_body]
pub(crate) fn to_lower(s: &str) -> (r: String)
    ensures
        r@ == lowercased(s@),
{
    s.to_lowercase()
}

/// Splits `s` at every `;`, as `split_on_semicolons` says.
pub fn split_semicolons<'a>(s: &'a str) -> (r: Vec<&'a str>)
    ensures
        r@.map_values(|p: &str| p@) == split_on_semicolons(s@),
{
    let n = s.unicode_len();
    let mut pieces: Vec<&'a str> = Vec::new();
    let mut start: usize = 0;
    let mut i: usize = 0;
    assert(s@.take(0) =~= Seq::<char>::empty());
    assert(pieces@.map_values(|p: &str| p@).push(s@.subrange(0, 0)) =~= seq![Seq::<char>::empty()]);
    while i < n
        invariant
            n == s@.len(),
            start <= i <= n,
            pieces@.map_values(|p: &str| p@).push(s@.subrange(start as int, i as int))
                == split_on_semicolons(s@.take(i as int)),
        decreases n - i,
    {
        let c = s.get_char(i);
        let ghost before = pieces@.map_values(|p: &str| p@);
        proof {
            assert(s@.take(i + 1).drop_last() =~= s@.take(i as int));
            assert(s@.take(i + 1).last() == c);
            lemma_split_nonempty(s@.take(i as int));
        }
        if c == ';' {
            let ghost old_start = start;
            pieces.push(s.substring_char(start, i));
            start = i + 1;
            assert(pieces@.map_values(|p: &str| p@) =~= before.push(s@.subrange(old_start as int, i as int)));
            assert(s@.subrange(start as int, i + 1) =~= Seq::<char>::empty());
        } else {
            assert(s@.subrange(start as int, i + 1) =~= s@.subrange(start as int, i as int).push(c));
            assert(before.push(s@.subrange(start as int, i + 1)) =~= before.push(
                s@.subrange(start as int, i as int),
            ).update(before.len() as int, s@.subrange(start as int, i as int).push(c)));
        }
        i = i + 1;
    }
    let ghost before = pieces@.map_values(|p: &str| p@);
    pieces.push(s.substring_char(start, n));
    assert(s@.take(n as int) =~= s@);
    assert(pieces@.map_values(|p: &str| p@) =~= before.push(s@.subrange(start as int, n as int)));
    pieces
}

/// How the items of a list are marked.
#[derive(Clone, Copy, Debug, PartialEq, Eq, Structural)]
pub enum ListStyle {
    /// Each item after `- `.
    Bulleted,
    /// Each item after its position counted from one, and `. `.
    Numbered,
}

/// The line for the item at position `k` (counted from zero), trimmed.
pub open spec fn list_line(k: nat, item: Seq<char>, style: ListStyle) -> Seq<char> {
    match style {
        ListStyle::Bulleted => "- "@ + trimmed(item),
        ListStyle::Numbered => decimal(k + 1) + ". "@ + trimmed(item),
    }
}

/// One line for each item, in order.
pub open spec fn list_lines(items: Seq<Seq<char>>, style: ListStyle) -> Seq<Seq<char>> {
    items.map(|k: int, item: Seq<char>| list_line(k as nat, item, style))
}

/// The list that a `;`-separated value gives: one line per piece.
pub open spec fn list_text(raw: Seq<char>, style: ListStyle) -> Seq<char> {
    join(list_lines(split_on_semicolons(raw), style), "\n"@)
}

/// Splits `raw` at every `;` and writes one line per piece, trimmed, marked
/// by `style`, the lines separated by newlines.
pub fn format_list(raw: &str, style: ListStyle) -> (r: String)
    ensures
        r@ == list_text(raw@, style),
{
    let pieces = split_semicolons(raw);
    let ghost items = pieces@.map_values(|p: &str| p@);
    let mut out = String::new();
    let mut k: usize = 0;
    while k < pieces.len()
        invariant
            items == split_on_semicolons(raw@),
            items == pieces@.map_values(|p: &str| p@),
            k <= pieces.len(),
            out@ == join(list_lines(items, style).take(k as int), "\n"@),
        decreases pieces.len() - k,
    {
        let ghost prev = out@;
        if k > 0 {
            out.append("\n");
        }
        match style {
            ListStyle::Bulleted => {
                out.append("- ");
            },
            ListStyle::Numbered => {
                append_decimal(&mut out, k + 1);
                out.append(". ");
            },
        }
        out.append(trim(pieces[k]));
        proof {
            let lines = list_lines(items, style);
            assert(lines.take(k + 1) =~= lines.take(k as int).push(lines[k as int]));
            lemma_join_push(lines.take(k as int), "\n"@, lines[k as int]);
            if k == 0 {
                assert(out@ =~= lines[k as int]);
            } else {
                assert(out@ =~= prev + "\n"@ + lines[k as int]);
            }
        }
        k = k + 1;
    }
    assert(list_lines(items, style).take(k as int) =~= list_lines(items, style));
    out
}

} // verus!
