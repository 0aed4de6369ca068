//! The text that a drag-and-drop onto the terminal types: dropped URIs lose
//! their `file://` prefix and are joined with spaces.
use vstd::prelude::*;
use vstd::string::{StrSliceExecFns, StringExecFns};

verus! {

/// Unicode's White_Space characters.
pub open spec fn is_white_space(c: char) -> bool {
    ||| '\t' <= c <= '\r'
    ||| c == ' '
    ||| c == '\u{85}'
    ||| c == '\u{a0}'
    ||| c == '\u{1680}'
    ||| '\u{2000}' <= c <= '\u{200a}'
    ||| c == '\u{2028}'
    ||| c == '\u{2029}'
    ||| c == '\u{202f}'
    ||| c == '\u{205f}'
    ||| c == '\u{3000}'
}

pub open spec fn trim_start(s: Seq<char>) -> Seq<char>
    decreases s.len(),
{
    if s.len() > 0 && is_white_space(s[0]) {
        trim_start(s.drop_first())
    } else {
        s
    }
}

pub open spec fn trim_end(s: Seq<char>) -> Seq<char>
    decreases s.len(),
{
    if s.len() > 0 && is_white_space(s.last()) {
        trim_end(s.drop_last())
    } else {
        s
    }
}

/// The text without leading and trailing white space.
pub open spec fn trim(s: Seq<char>) -> Seq<char> {
    trim_end(trim_start(s))
}

pub open spec fn file_scheme() -> Seq<char> {
    seq!['f', 'i', 'l', 'e', ':', '/', '/']
}

/// A dropped item as typed: trimmed, then without a leading `file://`.
pub open spec fn dropped_item(s: Seq<char>) -> Seq<char> {
    let t = trim(s);
    if t.len() >= 7 && t.subrange(0, 7) == file_scheme() {
        t.subrange(7, t.len() as int)
    } else {
        t
    }
}

/// A dropped plain text as typed: without a leading `file://`, and trimmed
/// both before and after the prefix goes.
pub open spec fn dropped_plain_text(s: Seq<char>) -> Seq<char> {
    trim(dropped_item(s))
}

/// The items separated by single spaces.
pub open spec fn join_spaced(items: Seq<Seq<char>>) -> Seq<char>
    decreases items.len(),
{
    if items.len() == 0 {
        seq![]
    } else if items.len() == 1 {
        items[0]
    } else {
        join_spaced(items.drop_last()) + seq![' '] + items.last()
    }
}

/// What a drop types: its URIs when it carries any, else its text, else
/// nothing.
pub open spec fn dropped_text_of(uris: Seq<Seq<char>>, text: Option<Seq<char>>) -> Option<
    Seq<char>,
> {
    if uris.len() > 0 {
        Some(join_spaced(uris.map_values(|u: Seq<char>| dropped_item(u))))
    } else {
        match text {
            Some(t) => Some(dropped_plain_text(t)),
            None => None,
        }
    }
}

fn white_space(c: char) -> (r: bool)
    ensures
        r == is_white_space(c),
{
    ('\t' <= c && c <= '\r') || c == ' ' || c == '\u{85}' || c == '\u{a0}' || c == '\u{1680}' || (
    '\u{2000}' <= c && c <= '\u{200a}') || c == '\u{2028}' || c == '\u{2029}' || c == '\u{202f}'
        || c == '\u{205f}' || c == '\u{3000}'
}

/// The text without leading and trailing white space.
fn trimmed<'a>(s: &'a str) -> (r: &'a str)
    ensures
        r@ == trim(s@),
{
    let n = s.unicode_len();
    let mut start: usize = 0;
    assert(s@.subrange(0, n as int) =~= s@);
    while start < n && white_space(s.get_char(start))
        invariant
            n == s@.len(),
            start <= n,
            trim_start(s@) == trim_start(s@.subrange(start as int, n as int)),
        decreases n - start,
    {
        assert(s@.subrange(start as int, n as int).drop_first() =~= s@.subrange(
            start as int + 1,
            n as int,
        ));
        start = start + 1;
    }
    assert(trim_start(s@) == s@.subrange(start as int, n as int));
    let mut end: usize = n;
    while end > start && white_space(s.get_char(end - 1))
        invariant
            n == s@.len(),
            start <= end <= n,
            trim(s@) == trim_end(s@.subrange(start as int, end as int)),
        decreases end,
    {
        assert(s@.subrange(start as int, end as int).drop_last() =~= s@.subrange(
            start as int,
            end as int - 1,
        ));
        end = end - 1;
    }
    s.substring_char(start, end)
}

/// Appends one dropped item, cleaned, to `out`.
fn append_item(out: &mut String, s: &str)
    ensures
        final(out)@ == old(out)@ + dropped_item(s@),
{
    let trimmed_s = trimmed(s);
    let ghost t = trimmed_s@;
    let end = trimmed_s.unicode_len();
    let mut from: usize = 0;
    if end >= 7 && trimmed_s.get_char(0) == 'f' && trimmed_s.get_char(1) == 'i'
        && trimmed_s.get_char(2) == 'l' && trimmed_s.get_char(3) == 'e' && trimmed_s.get_char(4)
        == ':' && trimmed_s.get_char(5) == '/' && trimmed_s.get_char(6) == '/' {
        assert(t.subrange(0, 7) =~= file_scheme());
        from = 7;
    } else {
        assert(!(t.len() >= 7 && t.subrange(0, 7) == file_scheme())) by {
            if t.len() >= 7 && t.subrange(0, 7) == file_scheme() {
                assert(t.subrange(0, 7)[0] == t[0]);
                assert(t.subrange(0, 7)[1] == t[1]);
                assert(t.subrange(0, 7)[2] == t[2]);
                assert(t.subrange(0, 7)[3] == t[3]);
                assert(t.subrange(0, 7)[4] == t[4]);
                assert(t.subrange(0, 7)[5] == t[5]);
                assert(t.subrange(0, 7)[6] == t[6]);
            }
        }
    }
    let piece = trimmed_s.substring_char(from, end);
    if from == 0 {
        assert(piece@ =~= t);
    }
    out.append(piece);
}

/// The text that a drop types, if it carries any.
pub fn dropped_text(uris: &Vec<String>, text: &Option<String>) -> (r: Option<String>)
    ensures
        match r {
            Some(t) => dropped_text_of(uris@.map_values(|u: String| u@), opt_view(*text))
                == Some(t@),
            None => dropped_text_of(uris@.map_values(|u: String| u@), opt_view(*text)) is None,
        },
{
    let ghost items = uris@.map_values(|u: String| u@);
    if uris.len() > 0 {
        let mut out = String::new();
        append_item(&mut out, uris[0].as_str());
        let mut i: usize = 1;
        while i < uris.len()
            invariant
                1 <= i <= uris@.len(),
                items == uris@.map_values(|u: String| u@),
                out@ == join_spaced(
                    items.subrange(0, i as int).map_values(|u: Seq<char>| dropped_item(u)),
                ),
            decreases uris@.len() - i,
        {
            proof {
                reveal_strlit(" ");
            }
            out.append(" ");
            append_item(&mut out, uris[i].as_str());
            let ghost cleaned = items.subrange(0, i as int + 1).map_values(
                |u: Seq<char>| dropped_item(u),
            );
            assert(cleaned.drop_last() =~= items.subrange(0, i as int).map_values(
                |u: Seq<char>| dropped_item(u),
            ));
            assert(cleaned.last() == dropped_item(uris@[i as int]@));
            assert(out@ =~= join_spaced(cleaned.drop_last()) + seq![' '] + cleaned.last());
            i = i + 1;
        }
        assert(items.subrange(0, i as int) =~= items);
        Some(out)
    } else {
        match text {
            Some(t) => {
                let mut stripped = String::new();
                append_item(&mut stripped, t.as_str());
                let mut out = String::new();
                out.append(trimmed(stripped.as_str()));
                Some(out)
            },
            None => None,
        }
    }
}

pub open spec fn opt_view(t: Option<String>) -> Option<Seq<char>> {
    match t {
        Some(s) => Some(s@),
        None => None,
    }
}

} // verus!
