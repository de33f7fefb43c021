//! Serialized form of decoded index metadata.
//!
//! Field names are lower-camel-case, and the privacy tier is suppressed
//! asymmetrically: only a restricted index carries its `private` field.

use crate::status::{ElasticsearchIndexInfo, IndexInfoView, PrivateStatus};
use crate::text::{digit_char, i32_to_dec, int_dec_spec};
use crate::time::Timestamp;
use vstd::prelude::*;
use vstd::string::*;

verus! {

/// The hexadecimal digit character for `d` (meaningful for `d < 16`),
/// in lower case.
pub open spec fn hex_char_spec(d: nat) -> char {
    if d < 10 {
        digit_char(d)
    } else {
        ((d + 87) as u8) as char
    }
}

/// The escaped form of one character inside a JSON string: quote and
/// backslash are prefixed with a backslash, the named control characters
/// take their short escapes, any other control character a `\u00XX`
/// escape, and everything else stands as itself.
pub open spec fn escape_char_spec(c: char) -> Seq<char> {
    if c == '"' {
        seq!['\\', '"']
    } else if c == '\\' {
        seq!['\\', '\\']
    } else if c == '\u{8}' {
        seq!['\\', 'b']
    } else if c == '\u{c}' {
        seq!['\\', 'f']
    } else if c == '\n' {
        seq!['\\', 'n']
    } else if c == '\r' {
        seq!['\\', 'r']
    } else if c == '\t' {
        seq!['\\', 't']
    } else if (c as int) < 0x20 {
        seq!['\\', 'u', '0', '0', hex_char_spec((c as nat) / 16), hex_char_spec((c as nat) % 16)]
    } else {
        seq![c]
    }
}

/// The escaped form of a whole string inside JSON quotes.
pub open spec fn escape_spec(s: Seq<char>) -> Seq<char>
    decreases s.len(),
{
    if s.len() == 0 {
        Seq::<char>::empty()
    } else {
        escape_spec(s.drop_last()) + escape_char_spec(s.last())
    }
}

/// The hexadecimal digit character for `d`, in lower case.
fn hex_char_of(d: u32) -> (r: char)
    requires
        d < 16,
    ensures
        r == hex_char_spec(d as nat),
{
    if d < 10 {
        (48 + d as u8) as char
    } else {
        (87 + d as u8) as char
    }
}

/// Appends the JSON-escaped form of `s` to `out`.
pub fn append_escaped(out: &mut String, s: &str)
    ensures
        final(out)@ == old(out)@ + escape_spec(s@),
{
    let len = s.unicode_len();
    proof {
        assert(out@ =~= old(out)@ + escape_spec(s@.subrange(0, 0)));
    }
    let mut i: usize = 0;
    while i < len
        invariant
            0 <= i <= len == s@.len(),
            out@ == old(out)@ + escape_spec(s@.subrange(0, i as int)),
        decreases len - i,
    {
        let c = s.get_char(i);
        if c == '"' {
            out.push('\\');
            out.push('"');
        } else if c == '\\' {
            out.push('\\');
            out.push('\\');
        } else if c == '\u{8}' {
            out.push('\\');
            out.push('b');
        } else if c == '\u{c}' {
            out.push('\\');
            out.push('f');
        } else if c == '\n' {
            out.push('\\');
            out.push('n');
        } else if c == '\r' {
            out.push('\\');
            out.push('r');
        } else if c == '\t' {
            out.push('\\');
            out.push('t');
        } else if (c as u32) < 0x20 {
            let d = c as u32;
            out.push('\\');
            out.push('u');
            out.push('0');
            out.push('0');
            out.push(hex_char_of(d / 16));
            out.push(hex_char_of(d % 16));
        } else {
            out.push(c);
        }
        proof {
            let pre = s@.subrange(0, i as int);
            let post = s@.subrange(0, i as int + 1);
            assert(post.drop_last() =~= pre);
            assert(post.last() == c);
            assert(out@ =~= old(out)@ + escape_spec(post));
        }
        i += 1;
    }
    proof {
        assert(s@.subrange(0, len as int) =~= s@);
    }
}

/// The JSON document for one decoded index: lower-camel-case field
/// names, timestamps in `YYYY-MM-DDTHH:MM:SSZ` form, and the `private`
/// field present exactly when the index is restricted.
pub open spec fn index_json_spec(v: IndexInfoView) -> Seq<char> {
    "{\"label\":\""@ + escape_spec(v.label) + "\",\"placeType\":\""@ + escape_spec(v.place_type)
        + "\",\"coverage\":\""@ + escape_spec(v.coverage) + "\","@ + (if v.private is Private {
        "\"private\":\"private\","@
    } else {
        Seq::<char>::empty()
    }) + "\"createdAt\":\""@ + v.created_at.render_spec() + "\",\"count\":"@ + int_dec_spec(
        v.count,
    ) + ",\"updatedAt\":\""@ + v.updated_at.render_spec() + "\"}"@
}

impl ElasticsearchIndexInfo {
    /// Serializes the decoded index as one JSON document, omitting the
    /// `private` field for an open index and emitting it for a
    /// restricted one.
    pub fn to_json(&self) -> (r: String)
        ensures
            r@ == index_json_spec(self@),
    {
        let mut out = "{\"label\":\"".to_owned();
        append_escaped(&mut out, self.label.as_str());
        out.append("\",\"placeType\":\"");
        append_escaped(&mut out, self.place_type.as_str());
        out.append("\",\"coverage\":\"");
        append_escaped(&mut out, self.coverage.as_str());
        out.append("\",");
        match self.private {
            PrivateStatus::Private => {
                out.append("\"private\":\"private\",");
            },
            PrivateStatus::Public => {},
        }
        out.append("\"createdAt\":\"");
        let created = self.created_at.render();
        out.append(created.as_str());
        out.append("\",\"count\":");
        let count = i32_to_dec(self.count);
        out.append(count.as_str());
        out.append(",\"updatedAt\":\"");
        let updated = self.updated_at.render();
        out.append(updated.as_str());
        out.append("\"}");
        proof {
            assert(out@ =~= index_json_spec(self@));
        }
        out
    }
}

} // verus!
