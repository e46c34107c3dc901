use vstd::prelude::*;
use vstd::string::StrSliceExecFns;
use vstd::string::StringExecFns;

use crate::message::ActionView;
use crate::message::MsgView;
use crate::message::NtfyAction;
use crate::message::NtfyMsg;
use crate::message::action_type_token;
use crate::message::action_views;
use crate::message::priority_digit;
use crate::message::string_views;

verus! {

// ---------------------------------------------------------------------------
// String escaping
// ---------------------------------------------------------------------------

/// The lowercase hexadecimal digit of a value below 16.
pub open spec fn hex_digit(n: int) -> char {
    if n == 0 {
        '0'
    } else if n == 1 {
        '1'
    } else if n == 2 {
        '2'
    } else if n == 3 {
        '3'
    } else if n == 4 {
        '4'
    } else if n == 5 {
        '5'
    } else if n == 6 {
        '6'
    } else if n == 7 {
        '7'
    } else if n == 8 {
        '8'
    } else if n == 9 {
        '9'
    } else if n == 10 {
        'a'
    } else if n == 11 {
        'b'
    } else if n == 12 {
        'c'
    } else if n == 13 {
        'd'
    } else if n == 14 {
        'e'
    } else {
        'f'
    }
}

/// How one character is written inside a JSON string literal: quote and
/// backslash get a backslash escape, control characters a `\u00XX` escape,
/// and every other character stands for itself.
pub open spec fn escape_char(c: char) -> Seq<char> {
    if c == '"' {
        "\\\""@
    } else if c == '\\' {
        "\\\\"@
    } else if (c as u32) < 32 {
        "\\u00"@ + (if (c as u32) < 16 {
            "0"@
        } else {
            "1"@
        }) + seq![hex_digit(((c as u32) % 16) as int)]
    } else {
        seq![c]
    }
}

/// `s` with every character escaped as JSON requires.
pub open spec fn escape_seq(s: Seq<char>) -> Seq<char>
    decreases s.len(),
{
    if s.len() == 0 {
        Seq::empty()
    } else {
        escape_seq(s.drop_last()) + escape_char(s.last())
    }
}

/// `s` as a JSON string literal: escaped and wrapped in double quotes.
pub open spec fn json_string(s: Seq<char>) -> Seq<char> {
    "\""@ + escape_seq(s) + "\""@
}

fn hex_digit_str(n: u32) -> (r: &'static str)
    requires
        n < 16,
    ensures
        r@ == seq![hex_digit(n as int)],
{
    let r = match n {
        0 => "0",
        1 => "1",
        2 => "2",
        3 => "3",
        4 => "4",
        5 => "5",
        6 => "6",
        7 => "7",
        8 => "8",
        9 => "9",
        10 => "a",
        11 => "b",
        12 => "c",
        13 => "d",
        14 => "e",
        _ => "f",
    };
    proof {
        reveal_strlit("0");
        reveal_strlit("1");
        reveal_strlit("2");
        reveal_strlit("3");
        reveal_strlit("4");
        reveal_strlit("5");
        reveal_strlit("6");
        reveal_strlit("7");
        reveal_strlit("8");
        reveal_strlit("9");
        reveal_strlit("a");
        reveal_strlit("b");
        reveal_strlit("c");
        reveal_strlit("d");
        reveal_strlit("e");
        reveal_strlit("f");
        assert(r@ =~= seq![hex_digit(n as int)]);
    }
    r
}

fn append_escaped(out: &mut String, s: &str)
    ensures
        final(out)@ == old(out)@ + escape_seq(s@),
{
    let len = s.unicode_len();
    let ghost base = out@;
    assert(out@ == base + escape_seq(s@.take(0))) by {
        assert(s@.take(0) =~= Seq::<char>::empty());
        assert(base + escape_seq(s@.take(0)) =~= base);
    }
    for i in 0..len
        invariant
            len == s@.len(),
            out@ == base + escape_seq(s@.take(i as int)),
    {
        let ghost prev = out@;
        let c = s.get_char(i);
        if c == '"' {
            out.append("\\\"");
        } else if c == '\\' {
            out.append("\\\\");
        } else if (c as u32) < 32 {
            let code = c as u32;
            out.append("\\u00");
            if code < 16 {
                out.append("0");
            } else {
                out.append("1");
            }
            out.append(hex_digit_str(code % 16));
        } else {
            out.append(s.substring_char(i, i + 1));
            proof {
                assert(s@.subrange(i as int, i + 1) =~= seq![s@[i as int]]);
            }
        }
        proof {
            assert(out@ =~= prev + escape_char(s@[i as int]));
            assert(s@.take(i + 1).drop_last() =~= s@.take(i as int));
            assert(s@.take(i + 1).last() == s@[i as int]);
            assert(out@ =~= base + escape_seq(s@.take(i + 1)));
        }
    }
    proof {
        assert(s@.take(len as int) =~= s@);
    }
}

/// `s` escaped as JSON requires, without the surrounding quotes.
pub fn escape_json(s: &str) -> (r: String)
    ensures
        r@ == escape_seq(s@),
{
    let mut out = String::new();
    append_escaped(&mut out, s);
    out
}

fn append_json_string(out: &mut String, s: &str)
    ensures
        final(out)@ == old(out)@ + json_string(s@),
{
    let ghost base = out@;
    out.append("\"");
    append_escaped(out, s);
    out.append("\"");
    proof {
        assert(out@ =~= base + json_string(s@));
    }
}

// ---------------------------------------------------------------------------
// The JSON document of a message
// ---------------------------------------------------------------------------

/// A JSON array's inside: the tags as JSON string literals, comma-separated.
pub open spec fn json_str_array(tags: Seq<Seq<char>>) -> Seq<char>
    decreases tags.len(),
{
    if tags.len() == 0 {
        Seq::empty()
    } else if tags.len() == 1 {
        json_string(tags[0])
    } else {
        json_str_array(tags.drop_last()) + ","@ + json_string(tags.last())
    }
}

/// The `,"clear":<bool>` member of an action object, empty when the flag is
/// absent.
pub open spec fn json_action_clear(clear: Option<bool>) -> Seq<char> {
    match clear {
        Some(true) => ",\"clear\":true"@,
        Some(false) => ",\"clear\":false"@,
        None => Seq::empty(),
    }
}

/// One action as a JSON object with members `action`, `label`, `url` and,
/// when set, `clear`.
pub open spec fn json_action(a: ActionView) -> Seq<char> {
    "{\"action\":\""@ + action_type_token(a.action) + "\",\"label\":"@ + json_string(a.label)
        + ",\"url\":"@ + json_string(a.url) + json_action_clear(a.clear) + "}"@
}

/// A JSON array's inside: the actions as JSON objects, comma-separated.
pub open spec fn json_action_array(acts: Seq<ActionView>) -> Seq<char>
    decreases acts.len(),
{
    if acts.len() == 0 {
        Seq::empty()
    } else if acts.len() == 1 {
        json_action(acts[0])
    } else {
        json_action_array(acts.drop_last()) + ","@ + json_action(acts.last())
    }
}

/// An optional string-valued member: `<key>"<value>"` when present (the key
/// text carries its own leading comma, name and colon), empty when absent.
pub open spec fn opt_json_str(key: Seq<char>, v: Option<Seq<char>>) -> Seq<char> {
    match v {
        Some(s) => key + json_string(s),
        None => Seq::empty(),
    }
}

/// The optional `,"tags":[...]` member.
pub open spec fn json_tags_member(tags: Option<Seq<Seq<char>>>) -> Seq<char> {
    match tags {
        Some(t) => ",\"tags\":["@ + json_str_array(t) + "]"@,
        None => Seq::empty(),
    }
}

/// The optional `,"priority":<digit>` member.
pub open spec fn json_priority_member(p: Option<crate::message::NtfyPriority>) -> Seq<char> {
    match p {
        Some(p) => ",\"priority\":"@ + priority_digit(p),
        None => Seq::empty(),
    }
}

/// The optional `,"actions":[...]` member.
pub open spec fn json_actions_member(acts: Option<Seq<ActionView>>) -> Seq<char> {
    match acts {
        Some(a) => ",\"actions\":["@ + json_action_array(a) + "]"@,
        None => Seq::empty(),
    }
}

/// The whole message as one JSON document: the mandatory `topic` member
/// first, then one member for each present optional field, in the fixed
/// field order.
pub open spec fn json_msg_value(m: MsgView) -> Seq<char> {
    "{\"topic\":"@ + json_string(m.topic) + opt_json_str(",\"message\":"@, m.message)
        + opt_json_str(",\"title\":"@, m.title) + json_tags_member(m.tags) + json_priority_member(
        m.priority,
    ) + opt_json_str(",\"attach\":"@, m.attach) + opt_json_str(",\"filename\":"@, m.filename)
        + opt_json_str(",\"click\":"@, m.click) + json_actions_member(m.actions) + opt_json_str(
        ",\"delay\":"@,
        m.delay,
    ) + opt_json_str(",\"email\":"@, m.email) + "}"@
}

fn append_opt_json_str(out: &mut String, key: &str, v: &Option<String>)
    ensures
        final(out)@ == old(out)@ + opt_json_str(key@, crate::message::opt_view(*v)),
{
    let ghost base = out@;
    match v {
        Some(s) => {
            out.append(key);
            append_json_string(out, s.as_str());
            proof {
                assert(out@ =~= base + opt_json_str(key@, crate::message::opt_view(*v)));
            }
        },
        None => {
            proof {
                assert(out@ =~= base + opt_json_str(key@, crate::message::opt_view(*v)));
            }
        },
    }
}

fn append_tags_member(out: &mut String, tags: &Option<Vec<String>>)
    ensures
        final(out)@ == old(out)@ + json_tags_member(crate::message::opt_seq_view(*tags)),
{
    let ghost base = out@;
    match tags {
        Some(t) => {
            out.append(",\"tags\":[");
            append_json_str_array(out, t);
            out.append("]");
            proof {
                assert(out@ =~= base + json_tags_member(crate::message::opt_seq_view(*tags)));
            }
        },
        None => {
            proof {
                assert(out@ =~= base + json_tags_member(crate::message::opt_seq_view(*tags)));
            }
        },
    }
}

fn append_priority_member(out: &mut String, p: Option<crate::message::NtfyPriority>)
    ensures
        final(out)@ == old(out)@ + json_priority_member(p),
{
    let ghost base = out@;
    match p {
        Some(p) => {
            out.append(",\"priority\":");
            out.append(p.header_value());
            proof {
                assert(out@ =~= base + json_priority_member(Some(p)));
            }
        },
        None => {
            proof {
                assert(out@ =~= base + json_priority_member(None::<crate::message::NtfyPriority>));
            }
        },
    }
}

fn append_actions_member(out: &mut String, actions: &Option<Vec<NtfyAction>>)
    ensures
        final(out)@ == old(out)@ + json_actions_member(crate::message::opt_actions_view(*actions)),
{
    let ghost base = out@;
    match actions {
        Some(a) => {
            out.append(",\"actions\":[");
            append_json_action_array(out, a);
            out.append("]");
            proof {
                assert(out@ =~= base + json_actions_member(
                    crate::message::opt_actions_view(*actions),
                ));
            }
        },
        None => {
            proof {
                assert(out@ =~= base + json_actions_member(
                    crate::message::opt_actions_view(*actions),
                ));
            }
        },
    }
}

fn append_json_action(out: &mut String, a: &NtfyAction)
    ensures
        final(out)@ == old(out)@ + json_action(a@),
{
    let ghost base = out@;
    out.append("{\"action\":\"");
    out.append(a.action.value());
    out.append("\",\"label\":");
    append_json_string(out, a.label.as_str());
    out.append(",\"url\":");
    append_json_string(out, a.url.as_str());
    match a.clear {
        Some(true) => out.append(",\"clear\":true"),
        Some(false) => out.append(",\"clear\":false"),
        None => (),
    }
    out.append("}");
    proof {
        assert(out@ =~= base + json_action(a@));
    }
}

fn append_json_str_array(out: &mut String, tags: &Vec<String>)
    ensures
        final(out)@ == old(out)@ + json_str_array(string_views(tags@)),
{
    let ghost base = out@;
    let ghost views = string_views(tags@);
    assert(base + json_str_array(views.take(0)) =~= base) by {
        assert(views.take(0) =~~= Seq::<Seq<char>>::empty());
    }
    for i in 0..tags.len()
        invariant
            views == string_views(tags@),
            out@ == base + json_str_array(views.take(i as int)),
    {
        let ghost prev = out@;
        if i > 0 {
            out.append(",");
        }
        append_json_string(out, tags[i].as_str());
        proof {
            reveal_strlit(",");
            if i > 0 {
                assert(views.take(i + 1).drop_last() =~~= views.take(i as int));
                assert(views.take(i + 1).last() == views[i as int]);
                assert(out@ =~= prev + ","@ + json_string(views[i as int]));
            }
            assert(out@ =~= base + json_str_array(views.take(i + 1)));
        }
    }
    proof {
        assert(views.take(tags@.len() as int) =~~= views);
    }
}

fn append_json_action_array(out: &mut String, actions: &Vec<NtfyAction>)
    ensures
        final(out)@ == old(out)@ + json_action_array(action_views(actions@)),
{
    let ghost base = out@;
    let ghost views = action_views(actions@);
    assert(base + json_action_array(views.take(0)) =~= base) by {
        assert(views.take(0) =~~= Seq::<ActionView>::empty());
    }
    for i in 0..actions.len()
        invariant
            views == action_views(actions@),
            out@ == base + json_action_array(views.take(i as int)),
    {
        let ghost prev = out@;
        if i > 0 {
            out.append(",");
        }
        append_json_action(out, &actions[i]);
        proof {
            reveal_strlit(",");
            if i > 0 {
                assert(views.take(i + 1).drop_last() =~~= views.take(i as int));
                assert(views.take(i + 1).last() == views[i as int]);
                assert(out@ =~= prev + ","@ + json_action(views[i as int]));
            }
            assert(out@ =~= base + json_action_array(views.take(i + 1)));
        }
    }
    proof {
        assert(views.take(actions@.len() as int) =~~= views);
    }
}

/// The whole message as the JSON document `json_msg_value` describes.
pub fn json_msg(msg: &NtfyMsg) -> (r: String)
    ensures
        r@ == json_msg_value(msg@),
{
    let mut out = String::new();
    out.append("{\"topic\":");
    append_json_string(&mut out, msg.topic.as_str());
    assert(out@ =~= "{\"topic\":"@ + json_string(msg@.topic));
    append_opt_json_str(&mut out, ",\"message\":", &msg.message);
    append_opt_json_str(&mut out, ",\"title\":", &msg.title);
    append_tags_member(&mut out, &msg.tags);
    append_priority_member(&mut out, msg.priority);
    append_opt_json_str(&mut out, ",\"attach\":", &msg.attach);
    append_opt_json_str(&mut out, ",\"filename\":", &msg.filename);
    append_opt_json_str(&mut out, ",\"click\":", &msg.click);
    append_actions_member(&mut out, &msg.actions);
    append_opt_json_str(&mut out, ",\"delay\":", &msg.delay);
    append_opt_json_str(&mut out, ",\"email\":", &msg.email);
    out.append("}");
    out
}

} // verus!
