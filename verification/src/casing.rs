//! ASCII case handling: the per-character folds and the snake-case and
//! camel-case conversions used when a declared field name is normalised to
//! its serialized form.

use vstd::prelude::*;

verus! {

/// Relies on std's String::push: appends exactly the one character to the
/// end of the string.
#[verifier::external_body]
pub(crate) fn push_char(s: &mut String, c: char)
    ensures
        final(s)@ == old(s)@.push(c),
{
    s.push(c);
}

/// Whether a character is an ASCII uppercase letter.
pub open spec fn is_upper(c: char) -> bool {
    'A' <= c <= 'Z'
}

/// The ASCII lowercase fold of one character; other characters are kept.
pub open spec fn lower_char(c: char) -> char {
    if c == 'A' {
        'a'
    } else if c == 'B' {
        'b'
    } else if c == 'C' {
        'c'
    } else if c == 'D' {
        'd'
    } else if c == 'E' {
        'e'
    } else if c == 'F' {
        'f'
    } else if c == 'G' {
        'g'
    } else if c == 'H' {
        'h'
    } else if c == 'I' {
        'i'
    } else if c == 'J' {
        'j'
    } else if c == 'K' {
        'k'
    } else if c == 'L' {
        'l'
    } else if c == 'M' {
        'm'
    } else if c == 'N' {
        'n'
    } else if c == 'O' {
        'o'
    } else if c == 'P' {
        'p'
    } else if c == 'Q' {
        'q'
    } else if c == 'R' {
        'r'
    } else if c == 'S' {
        's'
    } else if c == 'T' {
        't'
    } else if c == 'U' {
        'u'
    } else if c == 'V' {
        'v'
    } else if c == 'W' {
        'w'
    } else if c == 'X' {
        'x'
    } else if c == 'Y' {
        'y'
    } else if c == 'Z' {
        'z'
    } else {
        c
    }
}

/// The ASCII uppercase fold of one character; other characters are kept.
pub open spec fn upper_char(c: char) -> char {
    if c == 'a' {
        'A'
    } else if c == 'b' {
        'B'
    } else if c == 'c' {
        'C'
    } else if c == 'd' {
        'D'
    } else if c == 'e' {
        'E'
    } else if c == 'f' {
        'F'
    } else if c == 'g' {
        'G'
    } else if c == 'h' {
        'H'
    } else if c == 'i' {
        'I'
    } else if c == 'j' {
        'J'
    } else if c == 'k' {
        'K'
    } else if c == 'l' {
        'L'
    } else if c == 'm' {
        'M'
    } else if c == 'n' {
        'N'
    } else if c == 'o' {
        'O'
    } else if c == 'p' {
        'P'
    } else if c == 'q' {
        'Q'
    } else if c == 'r' {
        'R'
    } else if c == 's' {
        'S'
    } else if c == 't' {
        'T'
    } else if c == 'u' {
        'U'
    } else if c == 'v' {
        'V'
    } else if c == 'w' {
        'W'
    } else if c == 'x' {
        'X'
    } else if c == 'y' {
        'Y'
    } else if c == 'z' {
        'Z'
    } else {
        c
    }
}

fn lower_char_exec(c: char) -> (r: char)
    ensures
        r == lower_char(c),
{
    if c >= 'A' && c <= 'Z' {
        if c == 'A' {
            'a'
        } else if c == 'B' {
            'b'
        } else if c == 'C' {
            'c'
        } else if c == 'D' {
            'd'
        } else if c == 'E' {
            'e'
        } else if c == 'F' {
            'f'
        } else if c == 'G' {
            'g'
        } else if c == 'H' {
            'h'
        } else if c == 'I' {
            'i'
        } else if c == 'J' {
            'j'
        } else if c == 'K' {
            'k'
        } else if c == 'L' {
            'l'
        } else if c == 'M' {
            'm'
        } else if c == 'N' {
            'n'
        } else if c == 'O' {
            'o'
        } else if c == 'P' {
            'p'
        } else if c == 'Q' {
            'q'
        } else if c == 'R' {
            'r'
        } else if c == 'S' {
            's'
        } else if c == 'T' {
            't'
        } else if c == 'U' {
            'u'
        } else if c == 'V' {
            'v'
        } else if c == 'W' {
            'w'
        } else if c == 'X' {
            'x'
        } else if c == 'Y' {
            'y'
        } else {
            'z'
        }
    } else {
        c
    }
}

fn upper_char_exec(c: char) -> (r: char)
    ensures
        r == upper_char(c),
{
    if c >= 'a' && c <= 'z' {
        if c == 'a' {
            'A'
        } else if c == 'b' {
            'B'
        } else if c == 'c' {
            'C'
        } else if c == 'd' {
            'D'
        } else if c == 'e' {
            'E'
        } else if c == 'f' {
            'F'
        } else if c == 'g' {
            'G'
        } else if c == 'h' {
            'H'
        } else if c == 'i' {
            'I'
        } else if c == 'j' {
            'J'
        } else if c == 'k' {
            'K'
        } else if c == 'l' {
            'L'
        } else if c == 'm' {
            'M'
        } else if c == 'n' {
            'N'
        } else if c == 'o' {
            'O'
        } else if c == 'p' {
            'P'
        } else if c == 'q' {
            'Q'
        } else if c == 'r' {
            'R'
        } else if c == 's' {
            'S'
        } else if c == 't' {
            'T'
        } else if c == 'u' {
            'U'
        } else if c == 'v' {
            'V'
        } else if c == 'w' {
            'W'
        } else if c == 'x' {
            'X'
        } else if c == 'y' {
            'Y'
        } else {
            'Z'
        }
    } else {
        c
    }
}

/// The ASCII lowercase fold of a string.
pub open spec fn lower_text(s: Seq<char>) -> Seq<char>
    decreases s,
{
    if s.len() == 0 {
        Seq::empty()
    } else {
        lower_text(s.drop_last()).push(lower_char(s.last()))
    }
}

/// Folds a string to ASCII lowercase.
pub fn to_ascii_lowercase(s: &str) -> (r: String)
    ensures
        r@ == lower_text(s@),
{
    let n = s.unicode_len();
    let mut chars: Vec<char> = Vec::new();
    let mut i: usize = 0;
    while i < n
        invariant
            n == s@.len(),
            i <= n,
            chars@.len() == i,
            forall|q: int| 0 <= q < i ==> chars@[q] == lower_char(s@[q]),
        decreases n - i,
    {
        chars.push(lower_char_exec(s.get_char(i)));
        i = i + 1;
    }
    let r = chars_to_string(&chars);
    proof {
        lemma_lower_text_pointwise(s@, r@);
    }
    r
}

proof fn lemma_lower_text_pointwise(s: Seq<char>, r: Seq<char>)
    requires
        r.len() == s.len(),
        forall|q: int| 0 <= q < s.len() ==> r[q] == lower_char(s[q]),
    ensures
        r == lower_text(s),
    decreases s,
{
    lemma_lower_text_len(s);
    if s.len() > 0 {
        lemma_lower_text_pointwise(s.drop_last(), r.drop_last());
        assert(r =~= lower_text(s));
    } else {
        assert(r =~= lower_text(s));
    }
}

proof fn lemma_lower_text_len(s: Seq<char>)
    ensures
        lower_text(s).len() == s.len(),
    decreases s,
{
    if s.len() > 0 {
        lemma_lower_text_len(s.drop_last());
    }
}

/// Builds a string from a list of characters.
pub fn chars_to_string(chars: &Vec<char>) -> (r: String)
    ensures
        r@ == chars@,
{
    let mut r = String::new();
    let n = chars.len();
    let mut i: usize = 0;
    while i < n
        invariant
            n == chars@.len(),
            i <= n,
            r@ == chars@.subrange(0, i as int),
        decreases n - i,
    {
        push_char(&mut r, chars[i]);
        proof {
            assert(r@ =~= chars@.subrange(0, i as int + 1));
        }
        i = i + 1;
    }
    proof {
        assert(chars@.subrange(0, chars@.len() as int) =~= chars@);
    }
    r
}

/// The snake-case form of a name: each uppercase letter is lowered and, when
/// it does not open the name, preceded by an underscore.
pub open spec fn snake_text(s: Seq<char>) -> Seq<char>
    decreases s,
{
    if s.len() == 0 {
        Seq::empty()
    } else {
        snake_text(s.drop_last()) + (if is_upper(s.last()) {
            (if s.len() > 1 {
                seq!['_']
            } else {
                Seq::<char>::empty()
            }) + seq![lower_char(s.last())]
        } else {
            seq![s.last()]
        })
    }
}

/// Converts a name to snake_case.
pub fn to_snake_case(s: &str) -> (r: String)
    ensures
        r@ == snake_text(s@),
{
    let n = s.unicode_len();
    let mut r = String::new();
    let mut i: usize = 0;
    proof {
        assert(snake_text(s@.subrange(0, 0)) =~= Seq::<char>::empty());
    }
    while i < n
        invariant
            n == s@.len(),
            i <= n,
            r@ == snake_text(s@.subrange(0, i as int)),
        decreases n - i,
    {
        let c = s.get_char(i);
        if c >= 'A' && c <= 'Z' {
            if i > 0 {
                push_char(&mut r, '_');
            }
            push_char(&mut r, lower_char_exec(c));
        } else {
            push_char(&mut r, c);
        }
        proof {
            let prev = s@.subrange(0, i as int);
            let cur = s@.subrange(0, i as int + 1);
            assert(cur.drop_last() =~= prev);
            assert(cur.last() == s@[i as int]);
            assert(r@ =~= snake_text(cur));
        }
        i = i + 1;
    }
    proof {
        assert(s@.subrange(0, s@.len() as int) =~= s@);
    }
    r
}

/// The camel-case form of a name: underscores are dropped and the letter
/// that follows one is raised.
pub open spec fn camel_text(s: Seq<char>) -> Seq<char>
    decreases s,
{
    if s.len() == 0 {
        Seq::empty()
    } else if s.last() == '_' {
        camel_text(s.drop_last())
    } else if s.len() > 1 && s[s.len() - 2] == '_' {
        camel_text(s.drop_last()).push(upper_char(s.last()))
    } else {
        camel_text(s.drop_last()).push(s.last())
    }
}

/// Converts a name to camelCase.
pub fn to_camel_case(s: &str) -> (r: String)
    ensures
        r@ == camel_text(s@),
{
    let n = s.unicode_len();
    let mut r = String::new();
    let mut i: usize = 0;
    proof {
        assert(camel_text(s@.subrange(0, 0)) =~= Seq::<char>::empty());
    }
    while i < n
        invariant
            n == s@.len(),
            i <= n,
            r@ == camel_text(s@.subrange(0, i as int)),
        decreases n - i,
    {
        let c = s.get_char(i);
        if c == '_' {
        } else if i > 0 && s.get_char(i - 1) == '_' {
            push_char(&mut r, upper_char_exec(c));
        } else {
            push_char(&mut r, c);
        }
        proof {
            let prev = s@.subrange(0, i as int);
            let cur = s@.subrange(0, i as int + 1);
            assert(cur.drop_last() =~= prev);
            assert(cur.last() == s@[i as int]);
            if i > 0 {
                assert(cur[cur.len() - 2] == s@[i as int - 1]);
            }
            assert(r@ =~= camel_text(cur));
        }
        i = i + 1;
    }
    proof {
        assert(s@.subrange(0, s@.len() as int) =~= s@);
    }
    r
}

/// A casing a struct can declare for the serialized names of its fields.
#[derive(Clone, Copy, Debug, PartialEq, Eq, Structural)]
pub enum CaseString {
    Camel,
    Snake,
}

/// The serialized form of a field name under an optional struct-level
/// casing.
pub open spec fn cased_text(s: Seq<char>, casing: Option<CaseString>) -> Seq<char> {
    match casing {
        Some(CaseString::Camel) => camel_text(s),
        Some(CaseString::Snake) => snake_text(s),
        None => s,
    }
}

/// Applies an optional struct-level casing to a field name.
pub fn apply_casing(s: &str, casing: Option<CaseString>) -> (r: String)
    ensures
        r@ == cased_text(s@, casing),
{
    match casing {
        Some(CaseString::Camel) => to_camel_case(s),
        Some(CaseString::Snake) => to_snake_case(s),
        None => s.to_owned(),
    }
}

} // verus!
