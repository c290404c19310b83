//! The on-the-wire JSON shape of a WebFinger document: a verified emitter
//! for the JSON Resource Descriptor, with the conditional-serialization
//! rules (absent optional link fields are omitted entirely, never emitted as
//! null, and `mime_type` is written under the key `type`).

use vstd::prelude::*;
use vstd::string::StrSliceExecFns;
use vstd::string::StringExecFns;

use crate::text::push_char;
use crate::{Link, Webfinger};

verus! {

/// The mathematical shape of a [`Link`].
pub struct LinkView {
    pub rel: Seq<char>,
    pub href: Option<Seq<char>>,
    pub template: Option<Seq<char>>,
    pub mime_type: Option<Seq<char>>,
}

impl View for Link {
    type V = LinkView;

    open spec fn view(&self) -> LinkView {
        LinkView {
            rel: self.rel@,
            href: match self.href {
                Some(h) => Some(h@),
                None => None,
            },
            template: match self.template {
                Some(t) => Some(t@),
                None => None,
            },
            mime_type: match self.mime_type {
                Some(m) => Some(m@),
                None => None,
            },
        }
    }
}

/// The mathematical shape of a [`Webfinger`] document.
pub struct WebfingerView {
    pub subject: Seq<char>,
    pub aliases: Seq<Seq<char>>,
    pub links: Seq<LinkView>,
}

impl View for Webfinger {
    type V = WebfingerView;

    open spec fn view(&self) -> WebfingerView {
        WebfingerView {
            subject: self.subject@,
            aliases: self.aliases@.map_values(|a: String| a@),
            links: self.links@.map_values(|l: Link| l@),
        }
    }
}

/// The lowercase hexadecimal digit for `n`.
pub open spec fn hex_digit(n: int) -> char
    recommends
        0 <= n < 16,
{
    if n < 10 {
        ((n + 48) as u8) as char
    } else {
        ((n + 87) as u8) as char
    }
}

/// How one character appears inside a JSON string literal: quote and
/// backslash get a backslash escape, control characters a `\u00..` escape,
/// everything else stands for itself.
pub open spec fn json_escape_char(c: char) -> Seq<char> {
    if c == '"' {
        seq!['\\', '"']
    } else if c == '\\' {
        seq!['\\', '\\']
    } else if (c as u32) < 32 {
        seq!['\\', 'u', '0', '0', hex_digit(c as u32 as int / 16), hex_digit(c as u32 as int % 16)]
    } else {
        seq![c]
    }
}

/// The body of a JSON string literal for `s`: each character escaped.
pub open spec fn json_escape(s: Seq<char>) -> Seq<char>
    decreases s.len(),
{
    if s.len() == 0 {
        Seq::empty()
    } else {
        json_escape_char(s[0]) + json_escape(s.drop_first())
    }
}

/// The JSON string literal for `s`, quotes included.
pub open spec fn json_string(s: Seq<char>) -> Seq<char> {
    seq!['"'] + json_escape(s) + seq!['"']
}

/// The given pieces joined with commas.
pub open spec fn comma_join(parts: Seq<Seq<char>>) -> Seq<char>
    decreases parts.len(),
{
    if parts.len() == 0 {
        Seq::empty()
    } else if parts.len() == 1 {
        parts[0]
    } else {
        parts[0] + seq![','] + comma_join(parts.drop_first())
    }
}

/// The JSON object for one link: `rel` always present, `href`, `template`
/// and `type` only when the link carries them.
pub open spec fn link_jrd(l: LinkView) -> Seq<char> {
    "{\"rel\":"@ + json_string(l.rel) + (match l.href {
        Some(h) => ",\"href\":"@ + json_string(h),
        None => Seq::<char>::empty(),
    }) + (match l.template {
        Some(t) => ",\"template\":"@ + json_string(t),
        None => Seq::<char>::empty(),
    }) + (match l.mime_type {
        Some(m) => ",\"type\":"@ + json_string(m),
        None => Seq::<char>::empty(),
    }) + "}"@
}

/// The JSON text of a whole WebFinger document.
pub open spec fn webfinger_jrd(w: WebfingerView) -> Seq<char> {
    "{\"subject\":"@ + json_string(w.subject) + ",\"aliases\":["@ + comma_join(
        w.aliases.map_values(|a: Seq<char>| json_string(a)),
    ) + "],\"links\":["@ + comma_join(w.links.map_values(|l: LinkView| link_jrd(l))) + "]}"@
}

/// Escaping a sequence extended by one character escapes the sequence and
/// then the character.
proof fn lemma_json_escape_push(s: Seq<char>, c: char)
    ensures
        json_escape(s.push(c)) == json_escape(s) + json_escape_char(c),
    decreases s.len(),
{
    if s.len() == 0 {
        assert(s.push(c)[0] == c);
        assert(s.push(c).drop_first() =~= Seq::<char>::empty());
        assert(json_escape(s.push(c)) == json_escape_char(c) + json_escape(Seq::<char>::empty()));
        assert(json_escape_char(c) + Seq::<char>::empty() =~= json_escape_char(c));
        assert(json_escape(s) + json_escape_char(c) =~= json_escape_char(c));
    } else {
        lemma_json_escape_push(s.drop_first(), c);
        assert(s.push(c).drop_first() =~= s.drop_first().push(c));
        assert(s.push(c)[0] == s[0]);
        assert(json_escape(s.push(c)) == json_escape_char(s[0]) + (json_escape(s.drop_first())
            + json_escape_char(c)));
        assert(json_escape_char(s[0]) + (json_escape(s.drop_first()) + json_escape_char(c))
            =~= (json_escape_char(s[0]) + json_escape(s.drop_first())) + json_escape_char(c));
    }
}

/// Joining one more piece appends it after a comma, unless it is the first.
proof fn lemma_comma_join_push(parts: Seq<Seq<char>>, x: Seq<char>)
    ensures
        parts.len() == 0 ==> comma_join(parts.push(x)) == x,
        parts.len() > 0 ==> comma_join(parts.push(x)) == comma_join(parts) + seq![','] + x,
    decreases parts.len(),
{
    if parts.len() == 0 {
        assert(parts.push(x)[0] == x);
    } else if parts.len() == 1 {
        assert(parts.push(x)[0] == parts[0]);
        assert(parts.push(x).drop_first() =~= seq![x]);
        assert(seq![x].len() == 1 && seq![x][0] == x);
        assert(comma_join(seq![x]) == x);
        assert(comma_join(parts.push(x)) == parts[0] + seq![','] + x);
    } else {
        lemma_comma_join_push(parts.drop_first(), x);
        assert(parts.push(x).drop_first() =~= parts.drop_first().push(x));
        assert(comma_join(parts.push(x)) == parts[0] + seq![','] + (comma_join(parts.drop_first())
            + seq![','] + x));
        assert(parts[0] + seq![','] + (comma_join(parts.drop_first()) + seq![','] + x) =~= (parts[0]
            + seq![','] + comma_join(parts.drop_first())) + seq![','] + x);
    }
}

/// The lowercase hexadecimal digit for `n`.
fn hex_digit_exec(n: u8) -> (r: char)
    requires
        n < 16,
    ensures
        r == hex_digit(n as int),
{
    if n < 10 {
        (n + 48) as char
    } else {
        (n + 87) as char
    }
}

/// Appends the JSON string literal for `s`, quotes and escapes included.
fn append_json_string(out: &mut String, s: &str)
    ensures
        final(out)@ == old(out)@ + json_string(s@),
{
    push_char(out, '"');
    let n = s.unicode_len();
    let mut i: usize = 0;
    while i < n
        invariant
            n == s@.len(),
            i <= n,
            out@ == old(out)@ + seq!['"'] + json_escape(s@.subrange(0, i as int)),
        decreases n - i,
    {
        let c = s.get_char(i);
        if c == '"' {
            push_char(out, '\\');
            push_char(out, '"');
        } else if c == '\\' {
            push_char(out, '\\');
            push_char(out, '\\');
        } else if (c as u32) < 32 {
            push_char(out, '\\');
            push_char(out, 'u');
            push_char(out, '0');
            push_char(out, '0');
            let code = c as u8;
            proof {
                assert(code as int == c as u32 as int);
            }
            push_char(out, hex_digit_exec(code / 16));
            push_char(out, hex_digit_exec(code % 16));
        } else {
            push_char(out, c);
        }
        proof {
            lemma_json_escape_push(s@.subrange(0, i as int), s@[i as int]);
            assert(s@.subrange(0, i as int + 1) =~= s@.subrange(0, i as int).push(s@[i as int]));
            assert(out@ =~= old(out)@ + seq!['"'] + json_escape(s@.subrange(0, i as int + 1)));
        }
        i = i + 1;
    }
    push_char(out, '"');
    proof {
        assert(s@.subrange(0, n as int) =~= s@);
        assert(out@ =~= old(out)@ + json_string(s@));
    }
}

/// Appends the JSON object for one link.
fn append_link(out: &mut String, l: &Link)
    ensures
        final(out)@ == old(out)@ + link_jrd(l@),
{
    out.append("{\"rel\":");
    append_json_string(out, l.rel.as_str());
    match &l.href {
        Some(h) => {
            out.append(",\"href\":");
            append_json_string(out, h.as_str());
        },
        None => {},
    }
    match &l.template {
        Some(t) => {
            out.append(",\"template\":");
            append_json_string(out, t.as_str());
        },
        None => {},
    }
    match &l.mime_type {
        Some(m) => {
            out.append(",\"type\":");
            append_json_string(out, m.as_str());
        },
        None => {},
    }
    out.append("}");
    proof {
        assert(out@ =~= old(out)@ + link_jrd(l@));
    }
}

impl Webfinger {
    /// The JSON text of this document: the JRD as served on the wire, with
    /// absent optional link fields omitted entirely.
    pub fn to_jrd(&self) -> (r: String)
        ensures
            r@ == webfinger_jrd(self@),
    {
        let ghost alias_texts = self@.aliases.map_values(|a: Seq<char>| json_string(a));
        let ghost link_texts = self@.links.map_values(|l: LinkView| link_jrd(l));
        let mut out = "{\"subject\":".to_owned();
        append_json_string(&mut out, self.subject.as_str());
        out.append(",\"aliases\":[");
        let ghost head = out@;
        let mut i: usize = 0;
        while i < self.aliases.len()
            invariant
                i <= self.aliases.len(),
                alias_texts == self@.aliases.map_values(|a: Seq<char>| json_string(a)),
                alias_texts.len() == self.aliases.len(),
                out@ == head + comma_join(alias_texts.subrange(0, i as int)),
            decreases self.aliases.len() - i,
        {
            if i > 0 {
                out.append(",");
            }
            append_json_string(&mut out, self.aliases[i].as_str());
            proof {
                reveal_strlit(",");
                assert(","@ =~= seq![',']);
                lemma_comma_join_push(alias_texts.subrange(0, i as int), alias_texts[i as int]);
                assert(alias_texts.subrange(0, i as int + 1) =~= alias_texts.subrange(
                    0,
                    i as int,
                ).push(alias_texts[i as int]));
                assert(out@ =~= head + comma_join(alias_texts.subrange(0, i as int + 1)));
            }
            i = i + 1;
        }
        proof {
            assert(alias_texts.subrange(0, alias_texts.len() as int) =~= alias_texts);
        }
        out.append("],\"links\":[");
        let ghost mid = out@;
        let mut j: usize = 0;
        while j < self.links.len()
            invariant
                j <= self.links.len(),
                link_texts == self@.links.map_values(|l: LinkView| link_jrd(l)),
                link_texts.len() == self.links.len(),
                out@ == mid + comma_join(link_texts.subrange(0, j as int)),
            decreases self.links.len() - j,
        {
            if j > 0 {
                out.append(",");
            }
            append_link(&mut out, &self.links[j]);
            proof {
                reveal_strlit(",");
                assert(","@ =~= seq![',']);
                lemma_comma_join_push(link_texts.subrange(0, j as int), link_texts[j as int]);
                assert(link_texts.subrange(0, j as int + 1) =~= link_texts.subrange(0, j as int).push(
                    link_texts[j as int],
                ));
                assert(out@ =~= mid + comma_join(link_texts.subrange(0, j as int + 1)));
            }
            j = j + 1;
        }
        proof {
            assert(link_texts.subrange(0, link_texts.len() as int) =~= link_texts);
        }
        out.append("]}");
        proof {
            assert(out@ =~= webfinger_jrd(self@));
        }
        out
    }
}

} // verus!
