//! Building the file name of a new record: the slug of its title and its
//! ordinal in decimal.

use vstd::prelude::*;

verus! {

/// What `str::to_lowercase` returns for the given characters.
pub uninterp spec fn lower_of(s: Seq<char>) -> Seq<char>;

/// Relies on `str::to_lowercase`: the Unicode lowercase mapping, which
/// depends on the characters alone.
#[verifier::external_body]
fn lowercase(s: &str) -> (r: String)
    ensures
        r@ == lower_of(s@),
{
    s.to_lowercase()
}

/// Relies on `String::push`: the character is appended at the end.
#[verifier::external_body]
fn push_char(s: &mut String, c: char)
    ensures
        final(s)@ == old(s)@.push(c),
{
    s.push(c)
}

/// Each space replaced by an underscore, every other character kept.
pub open spec fn underscore_spaces(s: Seq<char>) -> Seq<char> {
    s.map_values(|c: char| if c == ' ' { '_' } else { c })
}

/// The file name component made from a record title: lowercased, with
/// spaces turned into underscores.
pub open spec fn slug(title: Seq<char>) -> Seq<char> {
    underscore_spaces(lower_of(title))
}

/// The decimal digit for `d`, which is below ten.
pub open spec fn digit(d: nat) -> char {
    seq!['0', '1', '2', '3', '4', '5', '6', '7', '8', '9'][d as int]
}

/// The decimal numeral of `n`, without leading zeros.
pub open spec fn decimal(n: nat) -> Seq<char>
    decreases n,
{
    if n < 10 {
        seq![digit(n)]
    } else {
        decimal(n / 10).push(digit(n % 10))
    }
}

/// The path of a record in `location` whose ordinal is `ordinal` and whose
/// slug is `slug`: `<location>/<ordinal>_<slug>.md`.
pub open spec fn record_path(location: Seq<char>, ordinal: nat, slug: Seq<char>) -> Seq<char> {
    location + "/"@ + decimal(ordinal) + "_"@ + slug + ".md"@
}

fn digit_char(d: u8) -> (c: char)
    requires
        d < 10,
    ensures
        c == digit(d as nat),
{
    match d {
        0 => '0',
        1 => '1',
        2 => '2',
        3 => '3',
        4 => '4',
        5 => '5',
        6 => '6',
        7 => '7',
        8 => '8',
        _ => '9',
    }
}

/// Appends the decimal numeral of `n` to `s`.
fn push_decimal(s: &mut String, n: u128)
    ensures
        final(s)@ == old(s)@ + decimal(n as nat),
    decreases n,
{
    if n >= 10 {
        push_decimal(s, n / 10);
    }
    push_char(s, digit_char((n % 10) as u8));
    assert(s@ =~= old(s)@ + decimal(n as nat));
}

/// Replaces each space of an already lowercased title by an underscore.
pub fn slug_of_lowered(lowered: &String) -> (r: String)
    ensures
        r@ == underscore_spaces(lowered@),
{
    let text = lowered.as_str();
    let n = text.unicode_len();
    let mut out = String::new();
    let mut i: usize = 0;
    while i < n
        invariant
            n == text@.len(),
            text@ == lowered@,
            i <= n,
            out@ =~= underscore_spaces(lowered@).subrange(0, i as int),
        decreases n - i,
    {
        let c = text.get_char(i);
        if c == ' ' {
            push_char(&mut out, '_');
        } else {
            push_char(&mut out, c);
        }
        i = i + 1;
        assert(out@ =~= underscore_spaces(lowered@).subrange(0, i as int));
    }
    out
}

/// The slug of a record title.
pub fn title_slug(title: &String) -> (r: String)
    ensures
        r@ == slug(title@),
{
    let lowered = lowercase(title.as_str());
    slug_of_lowered(&lowered)
}

/// The path `<location>/<count + 1>_<slug>.md` of the record that follows
/// `count` existing ones.
pub fn next_record_path(location: &String, count: usize, slug: &String) -> (r: String)
    ensures
        r@ == record_path(location@, count as nat + 1, slug@),
{
    let mut path = location.clone();
    path.append("/");
    push_decimal(&mut path, count as u128 + 1);
    path.append("_");
    path.append(slug.as_str());
    path.append(".md");
    path
}

} // verus!
