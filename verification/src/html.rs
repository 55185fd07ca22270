//! Escaping of text that is placed inside an HTML page.

use vstd::prelude::*;

verus! {

/// What one character becomes in escaped text.
pub open spec fn escaped_char(c: char) -> Seq<char> {
    if c == '&' {
        seq!['&', 'a', 'm', 'p', ';']
    } else if c == '<' {
        seq!['&', 'l', 't', ';']
    } else if c == '>' {
        seq!['&', 'g', 't', ';']
    } else if c == '"' {
        seq!['&', 'q', 'u', 'o', 't', ';']
    } else if c == '\'' {
        seq!['&', '#', 'x', '2', '7', ';']
    } else {
        seq![c]
    }
}

/// Escaped text: every character replaced by `escaped_char` of it, in order.
pub open spec fn escaped(s: Seq<char>) -> Seq<char>
    decreases s.len(),
{
    if s.len() == 0 {
        Seq::empty()
    } else {
        escaped(s.drop_last()) + escaped_char(s.last())
    }
}

/// Escaping works piece by piece: the escape of a concatenation is the concatenation
/// of the escapes.
pub proof fn lemma_escaped_concat(a: Seq<char>, b: Seq<char>)
    ensures
        escaped(a + b) == escaped(a) + escaped(b),
    decreases b.len(),
{
    if b.len() == 0 {
        assert(a + b == a);
    } else {
        assert((a + b).drop_last() == a + b.drop_last());
        lemma_escaped_concat(a, b.drop_last());
    }
}

/// Escaped text holds none of `<`, `>`, `"` and `'`.
pub proof fn lemma_escaped_is_inert(s: Seq<char>)
    ensures
        forall|i: int|
            0 <= i < escaped(s).len() ==> {
                let c = #[trigger] escaped(s)[i];
                c != '<' && c != '>' && c != '"' && c != '\''
            },
    decreases s.len(),
{
    if s.len() > 0 {
        lemma_escaped_is_inert(s.drop_last());
        let head = escaped(s.drop_last());
        let tail = escaped_char(s.last());
        assert forall|i: int| 0 <= i < escaped(s).len() implies {
            let c = #[trigger] escaped(s)[i];
            c != '<' && c != '>' && c != '"' && c != '\''
        } by {
            if i < head.len() {
                assert(escaped(s)[i] == head[i]);
            } else {
                assert(escaped(s)[i] == tail[i - head.len()]);
            }
        }
    }
}

/// Replaces `&`, `<`, `>`, `"` and `'` by their HTML entities and leaves every other
/// character as it is.
pub fn html_escape(s: &str) -> (r: String)
    ensures
        r@ == escaped(s@),
{
    let chars = crate::text::chars_of(s);
    let mut out: Vec<char> = Vec::new();
    let mut i: usize = 0;
    while i < chars.len()
        invariant
            i <= chars.len(),
            chars@ == s@,
            out@ == escaped(chars@.take(i as int)),
        decreases chars.len() - i,
    {
        let c: char = chars[i];
        proof {
            assert(chars@.take(i + 1).drop_last() == chars@.take(i as int));
        }
        if c == '&' {
            out.push('&');
            out.push('a');
            out.push('m');
            out.push('p');
            out.push(';');
        } else if c == '<' {
            out.push('&');
            out.push('l');
            out.push('t');
            out.push(';');
        } else if c == '>' {
            out.push('&');
            out.push('g');
            out.push('t');
            out.push(';');
        } else if c == '"' {
            out.push('&');
            out.push('q');
            out.push('u');
            out.push('o');
            out.push('t');
            out.push(';');
        } else if c == '\'' {
            out.push('&');
            out.push('#');
            out.push('x');
            out.push('2');
            out.push('7');
            out.push(';');
        } else {
            out.push(c);
        }
        i = i + 1;
    }
    assert(chars@.take(chars.len() as int) == chars@);
    crate::text::string_of(&out)
}

/// One relay as an item of the page's list.
pub open spec fn relay_item(url: Seq<char>) -> Seq<char> {
    "<li>"@ + escaped(url) + "</li>"@
}

/// The items of the first `n` relays, each on a line of its own.
pub open spec fn relay_items(urls: Seq<Seq<char>>, n: int) -> Seq<char>
    decreases n,
{
    if n <= 0 {
        Seq::empty()
    } else if n == 1 {
        relay_item(urls[0])
    } else {
        relay_items(urls, n - 1) + "\n    "@ + relay_item(urls[n - 1])
    }
}

/// The relays as the items of an HTML list, each address escaped.
pub fn relay_list_html(relays: &Vec<String>) -> (r: String)
    ensures
        r@ == relay_items(crate::text::texts_of(relays@), relays@.len() as int),
{
    let mut out = String::new();
    let mut i: usize = 0;
    while i < relays.len()
        invariant
            i <= relays.len(),
            out@ == relay_items(crate::text::texts_of(relays@), i as int),
        decreases relays.len() - i,
    {
        if i > 0 {
            crate::text::push_text(&mut out, "\n    ");
        }
        crate::text::push_text(&mut out, "<li>");
        let item = html_escape(relays[i].as_str());
        crate::text::push_text(&mut out, item.as_str());
        crate::text::push_text(&mut out, "</li>");
        assert(out@ == relay_items(crate::text::texts_of(relays@), i + 1)) by {
            let urls = crate::text::texts_of(relays@);
            assert(urls[i as int] == relays@[i as int]@);
            if i == 0 {
                assert(Seq::<char>::empty() + "<li>"@ + escaped(urls[0]) + "</li>"@ =~= relay_item(
                    urls[0],
                ));
            } else {
                assert(relay_items(urls, i as int) + "\n    "@ + "<li>"@ + escaped(urls[i as int])
                    + "</li>"@ =~= relay_items(urls, i as int) + "\n    "@ + relay_item(
                    urls[i as int],
                ));
            }
        }
        i = i + 1;
    }
    out
}

} // verus!
