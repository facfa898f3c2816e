//! Escaping of the characters the markup grammar reserves, and the decoder
//! that undoes it.

use vstd::prelude::*;
use crate::strfmt::push_char;

verus! {

/// Whether the markup grammar reserves this character in text content.
pub open spec fn spec_is_reserved(c: char) -> bool {
    c == '\'' || c == '"' || c == '&' || c == '<' || c == '>'
}

/// The entity escape of one character: the five reserved characters become
/// entities, every other character stands for itself.
pub open spec fn spec_escape_char(c: char) -> Seq<char> {
    if c == '\'' {
        seq!['&', '#', '3', '9', ';']
    } else if c == '"' {
        seq!['&', 'q', 'u', 'o', 't', ';']
    } else if c == '&' {
        seq!['&', 'a', 'm', 'p', ';']
    } else if c == '>' {
        seq!['&', 'g', 't', ';']
    } else if c == '<' {
        seq!['&', 'l', 't', ';']
    } else {
        seq![c]
    }
}

/// A whole text escaped character by character.
pub open spec fn spec_escape_text(s: Seq<char>) -> Seq<char>
    decreases s.len(),
{
    if s.len() == 0 {
        Seq::empty()
    } else {
        spec_escape_char(s[0]) + spec_escape_text(s.skip(1))
    }
}

/// Appends the entity escape of one character.
pub fn push_escaped(s: &mut String, c: char)
    ensures
        final(s)@ == old(s)@ + spec_escape_char(c),
{
    if c == '\'' {
        s.append("&#39;");
        proof {
            reveal_strlit("&#39;");
            assert(final(s)@ =~= old(s)@ + spec_escape_char(c));
        }
    } else if c == '"' {
        s.append("&quot;");
        proof {
            reveal_strlit("&quot;");
            assert(final(s)@ =~= old(s)@ + spec_escape_char(c));
        }
    } else if c == '&' {
        s.append("&amp;");
        proof {
            reveal_strlit("&amp;");
            assert(final(s)@ =~= old(s)@ + spec_escape_char(c));
        }
    } else if c == '>' {
        s.append("&gt;");
        proof {
            reveal_strlit("&gt;");
            assert(final(s)@ =~= old(s)@ + spec_escape_char(c));
        }
    } else if c == '<' {
        s.append("&lt;");
        proof {
            reveal_strlit("&lt;");
            assert(final(s)@ =~= old(s)@ + spec_escape_char(c));
        }
    } else {
        push_char(s, c);
    }
}

/// The character an entity at the front of `s` decodes to, if one is there.
pub open spec fn spec_entity_at(s: Seq<char>) -> Option<(char, int)> {
    if s.len() >= 5 && s.subrange(0, 5) == seq!['&', '#', '3', '9', ';'] {
        Some(('\'', 5))
    } else if s.len() >= 6 && s.subrange(0, 6) == seq!['&', 'q', 'u', 'o', 't', ';'] {
        Some(('"', 6))
    } else if s.len() >= 5 && s.subrange(0, 5) == seq!['&', 'a', 'm', 'p', ';'] {
        Some(('&', 5))
    } else if s.len() >= 4 && s.subrange(0, 4) == seq!['&', 'g', 't', ';'] {
        Some(('>', 4))
    } else if s.len() >= 4 && s.subrange(0, 4) == seq!['&', 'l', 't', ';'] {
        Some(('<', 4))
    } else {
        None
    }
}

/// The decoding of escaped text: each recognized entity becomes its character,
/// every other character stands for itself.
pub open spec fn spec_unescape_text(s: Seq<char>) -> Seq<char>
    decreases s.len(),
{
    if s.len() == 0 {
        Seq::empty()
    } else {
        match spec_entity_at(s) {
            Some((c, n)) => seq![c] + spec_unescape_text(s.skip(n)),
            None => seq![s[0]] + spec_unescape_text(s.skip(1)),
        }
    }
}

fn entity_at(s: &str, i: usize, n: usize) -> (r: Option<(char, usize)>)
    requires
        n == s@.len(),
        i < n,
    ensures
        ({
            let tail = s@.skip(i as int);
            match r {
                Some(p) => {
                    &&& spec_entity_at(tail) == Some((p.0, p.1 as int))
                    &&& 1 <= p.1
                    &&& i + p.1 <= n
                },
                None => spec_entity_at(tail) is None,
            }
        }),
{
    let ghost tail = s@.skip(i as int);
    let c0 = s.get_char(i);
    proof {
        assert(tail[0] == c0);
        if tail.len() >= 4 {
            assert(tail.subrange(0, 4)[0] == tail[0] && tail.subrange(0, 4)[1] == tail[1]
                && tail.subrange(0, 4)[2] == tail[2] && tail.subrange(0, 4)[3] == tail[3]);
        }
        if tail.len() >= 5 {
            assert(tail.subrange(0, 5)[0] == tail[0] && tail.subrange(0, 5)[1] == tail[1]
                && tail.subrange(0, 5)[2] == tail[2] && tail.subrange(0, 5)[3] == tail[3]
                && tail.subrange(0, 5)[4] == tail[4]);
        }
        if tail.len() >= 6 {
            assert(tail.subrange(0, 6)[0] == tail[0] && tail.subrange(0, 6)[1] == tail[1]
                && tail.subrange(0, 6)[2] == tail[2] && tail.subrange(0, 6)[3] == tail[3]
                && tail.subrange(0, 6)[4] == tail[4] && tail.subrange(0, 6)[5] == tail[5]);
        }
    }
    if c0 != '&' {
        return None;
    }
    if n - i < 4 {
        return None;
    }
    let c1 = s.get_char(i + 1);
    let c2 = s.get_char(i + 2);
    let c3 = s.get_char(i + 3);
    proof {
        assert(tail[1] == c1 && tail[2] == c2 && tail[3] == c3);
    }
    if c1 == 'g' {
        if c2 == 't' && c3 == ';' {
            proof {
                assert(tail.subrange(0, 4) =~= seq!['&', 'g', 't', ';']);
            }
            return Some(('>', 4));
        }
        return None;
    }
    if c1 == 'l' {
        if c2 == 't' && c3 == ';' {
            proof {
                assert(tail.subrange(0, 4) =~= seq!['&', 'l', 't', ';']);
            }
            return Some(('<', 4));
        }
        return None;
    }
    if c1 == '#' {
        if n - i >= 5 && c2 == '3' && c3 == '9' {
            let c4 = s.get_char(i + 4);
            proof {
                assert(tail[4] == c4);
            }
            if c4 == ';' {
                proof {
                    assert(tail.subrange(0, 5) =~= seq!['&', '#', '3', '9', ';']);
                }
                return Some(('\'', 5));
            }
        }
        return None;
    }
    if c1 == 'a' {
        if n - i >= 5 && c2 == 'm' && c3 == 'p' {
            let c4 = s.get_char(i + 4);
            proof {
                assert(tail[4] == c4);
            }
            if c4 == ';' {
                proof {
                    assert(tail.subrange(0, 5) =~= seq!['&', 'a', 'm', 'p', ';']);
                }
                return Some(('&', 5));
            }
        }
        return None;
    }
    if c1 == 'q' {
        if n - i >= 6 && c2 == 'u' && c3 == 'o' {
            let c4 = s.get_char(i + 4);
            let c5 = s.get_char(i + 5);
            proof {
                assert(tail[4] == c4 && tail[5] == c5);
            }
            if c4 == 't' && c5 == ';' {
                proof {
                    assert(tail.subrange(0, 6) =~= seq!['&', 'q', 'u', 'o', 't', ';']);
                }
                return Some(('"', 6));
            }
        }
        return None;
    }
    None
}

/// Decodes escaped text: each recognized entity becomes its character, every
/// other character stands for itself.
pub fn unescape_text(s: &str) -> (r: String)
    ensures
        r@ == spec_unescape_text(s@),
{
    let n = s.unicode_len();
    let mut out = String::new();
    let mut i: usize = 0;
    proof {
        assert(s@.skip(0) =~= s@);
        assert(out@ + spec_unescape_text(s@) =~= spec_unescape_text(s@));
    }
    while i < n
        invariant
            n == s@.len(),
            0 <= i <= n,
            out@ + spec_unescape_text(s@.skip(i as int)) == spec_unescape_text(s@),
        decreases n - i,
    {
        let ghost tail = s@.skip(i as int);
        let ghost before = out@;
        match entity_at(s, i, n) {
            Some((c, adv)) => {
                push_char(&mut out, c);
                proof {
                    assert(tail.skip(adv as int) =~= s@.skip(i as int + adv));
                    assert(out@ + spec_unescape_text(s@.skip(i as int + adv)) =~= before
                        + spec_unescape_text(tail));
                }
                i = i + adv;
            },
            None => {
                let c = s.get_char(i);
                push_char(&mut out, c);
                proof {
                    assert(tail[0] == c);
                    assert(tail.skip(1) =~= s@.skip(i as int + 1));
                    assert(out@ + spec_unescape_text(s@.skip(i as int + 1)) =~= before
                        + spec_unescape_text(tail));
                }
                i = i + 1;
            },
        }
    }
    proof {
        assert(s@.skip(n as int) =~= Seq::<char>::empty());
    }
    out
}

/// Escaping one character then decoding the result gives that character back,
/// and does so in front of any continuation.
pub proof fn lemma_escape_char_roundtrip(c: char, rest: Seq<char>)
    ensures
        spec_unescape_text(spec_escape_char(c) + rest) == seq![c] + spec_unescape_text(rest),
{
    let e = spec_escape_char(c) + rest;
    if e.len() >= 4 {
        assert(e.subrange(0, 4)[0] == e[0] && e.subrange(0, 4)[1] == e[1]);
    }
    if e.len() >= 5 {
        assert(e.subrange(0, 5)[0] == e[0] && e.subrange(0, 5)[1] == e[1]);
    }
    if e.len() >= 6 {
        assert(e.subrange(0, 6)[0] == e[0] && e.subrange(0, 6)[1] == e[1]);
    }
    if c == '\'' {
        assert(e.subrange(0, 5) =~= seq!['&', '#', '3', '9', ';']);
        assert(e.skip(5) =~= rest);
    } else if c == '"' {
        assert(e[1] == 'q');
        assert(e.subrange(0, 6) =~= seq!['&', 'q', 'u', 'o', 't', ';']);
        assert(e.skip(6) =~= rest);
    } else if c == '&' {
        assert(e[1] == 'a');
        assert(e.subrange(0, 5) =~= seq!['&', 'a', 'm', 'p', ';']);
        assert(e.skip(5) =~= rest);
    } else if c == '>' {
        assert(e[1] == 'g');
        assert(e.subrange(0, 4) =~= seq!['&', 'g', 't', ';']);
        assert(e.skip(4) =~= rest);
    } else if c == '<' {
        assert(e[1] == 'l');
        assert(e.subrange(0, 4) =~= seq!['&', 'l', 't', ';']);
        assert(e.skip(4) =~= rest);
    } else {
        assert(e[0] == c && c != '&');
        assert(spec_entity_at(e) is None);
        assert(e.skip(1) =~= rest);
    }
}

/// Escaping a text then decoding the result is the identity.
pub proof fn lemma_escape_text_roundtrip(s: Seq<char>)
    ensures
        spec_unescape_text(spec_escape_text(s)) == s,
    decreases s.len(),
{
    if s.len() == 0 {
        assert(spec_unescape_text(spec_escape_text(s)) =~= s);
    } else {
        lemma_escape_char_roundtrip(s[0], spec_escape_text(s.skip(1)));
        lemma_escape_text_roundtrip(s.skip(1));
        assert(spec_unescape_text(spec_escape_text(s)) =~= s);
    }
}

/// In escaped text the reserved characters `'`, `"`, `<` and `>` never occur,
/// and every occurrence of `&` begins a recognized entity.
pub proof fn lemma_escape_text_no_raw_reserved(s: Seq<char>, i: int)
    requires
        0 <= i < spec_escape_text(s).len(),
    ensures
        spec_escape_text(s)[i] != '\'',
        spec_escape_text(s)[i] != '"',
        spec_escape_text(s)[i] != '<',
        spec_escape_text(s)[i] != '>',
        spec_escape_text(s)[i] == '&' ==> spec_entity_at(spec_escape_text(s).skip(i)) is Some,
    decreases s.len(),
{
    let e = spec_escape_text(s);
    let head = spec_escape_char(s[0]);
    if i < head.len() {
        assert(e[i] == head[i]);
        if e[i] == '&' {
            assert(i == 0);
            assert(spec_is_reserved(s[0]));
            let tail = spec_escape_text(s.skip(1));
            assert(e.skip(0) =~= head + tail);
            assert((head + tail).subrange(0, head.len() as int) =~= head);
            if 1 <= tail.len() {
                assert((head + tail).subrange(0, head.len() as int + 1)[head.len() as int]
                    == tail[0]);
            }
            assert(spec_entity_at(head + tail) is Some) by {
                if s[0] == '\'' {
                    assert((head + tail).subrange(0, 5) =~= seq!['&', '#', '3', '9', ';']);
                } else if s[0] == '"' {
                    assert((head + tail).subrange(0, 6) =~= seq!['&', 'q', 'u', 'o', 't', ';']);
                } else if s[0] == '&' {
                    assert((head + tail).subrange(0, 5) =~= seq!['&', 'a', 'm', 'p', ';']);
                } else if s[0] == '>' {
                    assert((head + tail).subrange(0, 4) =~= seq!['&', 'g', 't', ';']);
                } else {
                    assert((head + tail).subrange(0, 4) =~= seq!['&', 'l', 't', ';']);
                }
            }
        }
    } else {
        let tail = spec_escape_text(s.skip(1));
        let j = i - head.len();
        assert(e[i] == tail[j]);
        lemma_escape_text_no_raw_reserved(s.skip(1), j);
        if e[i] == '&' {
            assert(e.skip(i) =~= tail.skip(j));
        }
    }
}

} // verus!
