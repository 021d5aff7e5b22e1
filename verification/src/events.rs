//! Build lifecycle events and their wire form: each event is framed as a
//! JSON object whose `type` field is the variant name, lower-cased, and an
//! error event carries its message under `error`, with the message text
//! JSON-escaped.

use vstd::prelude::*;
use vstd::string::*;

verus! {

/// A build lifecycle notification: the build started, finished cleanly, or
/// failed with a human-readable cause.
#[derive(Debug, PartialEq, Eq)]
pub enum BuildEvent {
    Building,
    Success,
    Error(String),
}

impl Clone for BuildEvent {
    fn clone(&self) -> (r: Self)
        ensures
            r == *self,
    {
        match self {
            BuildEvent::Building => BuildEvent::Building,
            BuildEvent::Success => BuildEvent::Success,
            BuildEvent::Error(m) => BuildEvent::Error(m.clone()),
        }
    }
}

/// The lower-case hexadecimal digit with value `n`.
pub open spec fn hex_char(n: int) -> char {
    "0123456789abcdef"@[n]
}

/// How one character of an error message is written inside a JSON string:
/// quote and backslash get a backslash escape, control characters a
/// `\u00..` escape, and every other character stands as itself.
pub open spec fn escape_char(c: char) -> Seq<char> {
    if c == '"' {
        seq!['\\', '"']
    } else if c == '\\' {
        seq!['\\', '\\']
    } else if (c as u32) < 32 {
        seq![
            '\\',
            'u',
            '0',
            '0',
            hex_char((c as u32) as int / 16),
            hex_char((c as u32) as int % 16),
        ]
    } else {
        seq![c]
    }
}

/// The JSON escaping of a whole message.
pub open spec fn escape_seq(s: Seq<char>) -> Seq<char>
    decreases s.len(),
{
    if s.len() == 0 {
        Seq::empty()
    } else {
        escape_seq(s.drop_last()) + escape_char(s.last())
    }
}

/// The serialized form of an event.
pub open spec fn spec_event_json(e: BuildEvent) -> Seq<char> {
    match e {
        BuildEvent::Building => "{\"type\":\"building\"}"@,
        BuildEvent::Success => "{\"type\":\"success\"}"@,
        BuildEvent::Error(m) => "{\"type\":\"error\",\"error\":\""@ + escape_seq(m@) + "\"}"@,
    }
}

/// JSON-escape a message for use inside a quoted JSON string.
#[verifier::loop_isolation(false)]
pub fn escape_json(s: &str) -> (r: String)
    ensures
        r@ == escape_seq(s@),
{
    let digits = "0123456789abcdef";
    proof {
        reveal_strlit("0123456789abcdef");
        assert(is_ascii(digits)) by {
            assert(forall|i: int| 0 <= i < digits@.len() ==> (digits@[i] as u32) < 128);
        }
    }
    let mut out = String::new();
    let n = s.unicode_len();
    let mut i: usize = 0;
    while i < n
        invariant
            n == s@.len(),
            i <= n,
            out@ == escape_seq(s@.subrange(0, i as int)),
        decreases n - i,
    {
        let c = s.get_char(i);
        if c == '"' {
            out.append("\\\"");
            proof {
                reveal_strlit("\\\"");
                assert("\\\""@ =~= escape_char(c));
            }
        } else if c == '\\' {
            out.append("\\\\");
            proof {
                reveal_strlit("\\\\");
                assert("\\\\"@ =~= escape_char(c));
            }
        } else if (c as u32) < 32 {
            out.append("\\u00");
            let v = c as u32;
            let hi = (v / 16) as usize;
            let lo = (v % 16) as usize;
            let hi_s = digits.substring_ascii(hi, hi + 1);
            out.append(hi_s);
            let lo_s = digits.substring_ascii(lo, lo + 1);
            out.append(lo_s);
            proof {
                reveal_strlit("\\u00");
                assert("\\u00"@ + hi_s@ + lo_s@ =~= escape_char(c));
            }
        } else {
            let piece = s.substring_char(i, i + 1);
            out.append(piece);
            proof {
                assert(piece@ =~= escape_char(c));
            }
        }
        proof {
            assert(s@.subrange(0, i + 1).drop_last() =~= s@.subrange(0, i as int));
            assert(s@.subrange(0, i + 1).last() == s@[i as int]);
        }
        i += 1;
    }
    proof {
        assert(s@.subrange(0, n as int) =~= s@);
    }
    out
}

/// No character of an escaped message is a control character.
proof fn lemma_escape_char_no_control(c: char)
    ensures
        forall|i: int| 0 <= i < escape_char(c).len() ==> (escape_char(c)[i] as u32) >= 32,
{
    reveal_strlit("0123456789abcdef");
    if c == '"' {
    } else if c == '\\' {
    } else if (c as u32) < 32 {
        assert(0 <= (c as u32) as int / 16 < 16);
        assert(0 <= (c as u32) as int % 16 < 16);
    } else {
    }
}

/// No character of a whole escaped message is a control character.
proof fn lemma_escape_seq_no_control(s: Seq<char>)
    ensures
        forall|i: int| 0 <= i < escape_seq(s).len() ==> (escape_seq(s)[i] as u32) >= 32,
    decreases s.len(),
{
    if s.len() > 0 {
        lemma_escape_seq_no_control(s.drop_last());
        lemma_escape_char_no_control(s.last());
        let pre = escape_seq(s.drop_last());
        let suf = escape_char(s.last());
        assert forall|i: int| 0 <= i < escape_seq(s).len() implies (escape_seq(s)[i] as u32)
            >= 32 by {
            if i < pre.len() {
                assert(escape_seq(s)[i] == pre[i]);
            } else {
                assert(escape_seq(s)[i] == suf[i - pre.len()]);
            }
        }
    }
}

/// Law: a serialized event contains no control character, in particular
/// no line break, so its whole text fits one server-push data line.
pub proof fn lemma_event_json_single_line(e: BuildEvent)
    ensures
        forall|i: int| 0 <= i < spec_event_json(e).len() ==> (spec_event_json(e)[i] as u32)
            >= 32,
{
    reveal_strlit("{\"type\":\"building\"}");
    reveal_strlit("{\"type\":\"success\"}");
    reveal_strlit("{\"type\":\"error\",\"error\":\"");
    reveal_strlit("\"}");
    match e {
        BuildEvent::Building => {},
        BuildEvent::Success => {},
        BuildEvent::Error(m) => {
            lemma_escape_seq_no_control(m@);
        },
    }
}

/// Serialize an event for transport to a remote subscriber.
pub fn event_json(e: &BuildEvent) -> (r: String)
    ensures
        r@ == spec_event_json(*e),
{
    match e {
        BuildEvent::Building => String::from_str("{\"type\":\"building\"}"),
        BuildEvent::Success => String::from_str("{\"type\":\"success\"}"),
        BuildEvent::Error(m) => {
            let mut out = String::from_str("{\"type\":\"error\",\"error\":\"");
            let escaped = escape_json(m.as_str());
            out.append(escaped.as_str());
            out.append("\"}");
            out
        },
    }
}

} // verus!
