//! Pokémon names as they appear in Smogon addresses.

use vstd::prelude::*;
use crate::text::{lowercase, lowercase_of, push_char};

verus! {

/// A name with spaces turned into '-' and '.' and '\'' left out.
pub open spec fn tidied(s: Seq<char>) -> Seq<char>
    decreases s.len(),
{
    if s.len() == 0 {
        Seq::empty()
    } else {
        let c = s.last();
        tidied(s.drop_last()) + if c == ' ' {
            seq!['-']
        } else if c == '.' || c == '\'' {
            Seq::<char>::empty()
        } else {
            seq![c]
        }
    }
}

/// The name under which the strategy dex lists a Pokémon: the name in
/// lowercase, then tidied.
pub open spec fn dex_slug_of(name: Seq<char>) -> Seq<char> {
    tidied(lowercase_of(name))
}

/// The name of a Pokémon's sprite: the name tidied, then in lowercase.
pub open spec fn sprite_slug_of(name: Seq<char>) -> Seq<char> {
    lowercase_of(tidied(name))
}

/// Where the sprite of a Pokémon is found.
pub open spec fn sprite_url_of(name: Seq<char>) -> Seq<char> {
    "https://smogon.com/dex/media/sprites/xy/"@ + sprite_slug_of(name) + ".gif"@
}

/// Turns spaces into '-' and leaves out '.' and '\''.
pub fn tidy(s: &str) -> (r: String)
    ensures
        r@ == tidied(s@),
{
    let n = s.unicode_len();
    let mut r = String::new();
    let mut i: usize = 0;
    while i < n
        invariant
            n == s@.len(),
            i <= n,
            r@ == tidied(s@.take(i as int)),
        decreases n - i,
    {
        let c = s.get_char(i);
        assert(s@.take(i + 1).drop_last() =~= s@.take(i as int));
        assert(s@.take(i + 1).last() == c);
        if c == ' ' {
            push_char(&mut r, '-');
        } else if c == '.' || c == '\'' {
            assert(r@ =~= r@ + Seq::<char>::empty());
        } else {
            push_char(&mut r, c);
        }
        i = i + 1;
    }
    assert(s@.take(n as int) =~= s@);
    r
}

/// The name under which the strategy dex lists a Pokémon.
pub fn dex_slug(name: &str) -> (r: String)
    ensures
        r@ == dex_slug_of(name@),
{
    let lower = lowercase(name);
    tidy(lower.as_str())
}

/// Where the sprite of a Pokémon is found.
pub fn sprite_url(name: &str) -> (r: String)
    ensures
        r@ == sprite_url_of(name@),
{
    let tidy_name = tidy(name);
    let slug = lowercase(tidy_name.as_str());
    let mut url = String::from_str("https://smogon.com/dex/media/sprites/xy/");
    url.append(slug.as_str());
    url.append(".gif");
    url
}


/// Tidying nothing gives nothing.
pub proof fn lemma_tidied_empty()
    ensures
        tidied(Seq::empty()) == Seq::<char>::empty(),
{
}

/// A character other than ' ', '.' and '\'' is kept as it is, '-' included.
pub proof fn lemma_tidied_keeps(s: Seq<char>, c: char)
    requires
        c != ' ',
        c != '.',
        c != '\'',
    ensures
        tidied(s.push(c)) == tidied(s).push(c),
{
    assert(s.push(c).drop_last() =~= s);
    assert(tidied(s) + seq![c] =~= tidied(s).push(c));
}

/// A space becomes '-'.
pub proof fn lemma_tidied_space(s: Seq<char>)
    ensures
        tidied(s.push(' ')) == tidied(s).push('-'),
{
    assert(s.push(' ').drop_last() =~= s);
    assert(tidied(s) + seq!['-'] =~= tidied(s).push('-'));
}

/// '.' and '\'' are left out.
pub proof fn lemma_tidied_drops(s: Seq<char>, c: char)
    requires
        c == '.' || c == '\'',
    ensures
        tidied(s.push(c)) == tidied(s),
{
    assert(s.push(c).drop_last() =~= s);
    assert(tidied(s) + Seq::<char>::empty() =~= tidied(s));
}

/// A name with no space, '.' or '\'' is left as it is.
pub proof fn lemma_tidied_plain(s: Seq<char>)
    requires
        forall|i: int| 0 <= i < s.len() ==> s[i] != ' ' && s[i] != '.' && s[i] != '\'',
    ensures
        tidied(s) == s,
    decreases s.len(),
{
    if s.len() > 0 {
        lemma_tidied_plain(s.drop_last());
        lemma_tidied_keeps(s.drop_last(), s.last());
        assert(s.drop_last().push(s.last()) =~= s);
    }
}

/// A tidied name holds no space, '.' or '\''.
pub proof fn lemma_tidied_clean(s: Seq<char>)
    ensures
        forall|i: int|
            0 <= i < tidied(s).len() ==> tidied(s)[i] != ' ' && tidied(s)[i] != '.' && tidied(
                s,
            )[i] != '\'',
    decreases s.len(),
{
    if s.len() > 0 {
        let prefix = s.drop_last();
        let c = s.last();
        lemma_tidied_clean(prefix);
        assert(prefix.push(c) =~= s);
        if c == ' ' {
            lemma_tidied_space(prefix);
        } else if c == '.' || c == '\'' {
            lemma_tidied_drops(prefix, c);
        } else {
            lemma_tidied_keeps(prefix, c);
        }
        assert forall|i: int| 0 <= i < tidied(s).len() implies tidied(s)[i] != ' ' && tidied(s)[i]
            != '.' && tidied(s)[i] != '\'' by {
            if i < tidied(prefix).len() {
                assert(tidied(s)[i] == tidied(prefix)[i]);
            }
        }
    }
}

} // verus!
