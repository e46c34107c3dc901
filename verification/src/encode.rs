use vstd::prelude::*;
use vstd::string::StringExecFns;

use crate::message::ActionView;
use crate::message::MsgView;
use crate::message::NtfyAction;
use crate::message::action_type_token;
use crate::message::action_views;
use crate::message::priority_digit;
use crate::message::string_views;

verus! {

// ---------------------------------------------------------------------------
// Comma-joined tag lists
// ---------------------------------------------------------------------------

/// `s` contains no comma.
pub open spec fn comma_free(s: Seq<char>) -> bool {
    forall|i: int| 0 <= i < s.len() ==> s[i] != ','
}

/// The tag list joined with `,` in original order.
pub open spec fn join_comma(tags: Seq<Seq<char>>) -> Seq<char>
    decreases tags.len(),
{
    if tags.len() == 0 {
        Seq::empty()
    } else if tags.len() == 1 {
        tags[0]
    } else {
        tags[0] + seq![','] + join_comma(tags.skip(1))
    }
}

/// Index of the first comma in `s`, or `s.len()` if there is none.
pub open spec fn first_comma(s: Seq<char>) -> int
    decreases s.len(),
{
    if s.len() == 0 {
        0
    } else if s[0] == ',' {
        0
    } else {
        1 + first_comma(s.skip(1))
    }
}

proof fn lemma_first_comma_bounds(s: Seq<char>)
    ensures
        0 <= first_comma(s) <= s.len(),
        first_comma(s) < s.len() ==> s[first_comma(s)] == ',',
        forall|i: int| 0 <= i < first_comma(s) ==> s[i] != ',',
    decreases s.len(),
{
    if s.len() != 0 && s[0] != ',' {
        lemma_first_comma_bounds(s.skip(1));
        assert(forall|i: int| 0 <= i < first_comma(s) ==> s[i] != ',') by {
            assert(forall|i: int|
                1 <= i < first_comma(s) ==> s[i] == s.skip(1)[i - 1] && s.skip(1)[i - 1] != ',');
        }
    }
}

#[via_fn]
proof fn split_comma_decreases(s: Seq<char>) {
    lemma_first_comma_bounds(s);
}

/// `s` cut at every comma, the commas themselves dropped.
pub open spec fn split_comma(s: Seq<char>) -> Seq<Seq<char>>
    decreases s.len(),
    via split_comma_decreases
{
    let i = first_comma(s);
    if i >= s.len() {
        seq![s]
    } else {
        seq![s.take(i)] + split_comma(s.skip(i + 1))
    }
}

proof fn lemma_first_comma_concat(a: Seq<char>, b: Seq<char>)
    requires
        comma_free(a),
    ensures
        first_comma(a + b) == a.len() + first_comma(b),
    decreases a.len(),
{
    if a.len() == 0 {
        assert(a + b =~= b);
    } else {
        assert((a + b)[0] == a[0]);
        assert((a + b).skip(1) =~= a.skip(1) + b);
        assert(comma_free(a.skip(1)));
        lemma_first_comma_concat(a.skip(1), b);
    }
}

/// Splitting on `,` inverts joining with `,`: for every non-empty list of
/// comma-free tags, cutting the joined string at its commas gives back the
/// original tags in their original order.
pub proof fn lemma_join_comma_splits(tags: Seq<Seq<char>>)
    requires
        tags.len() >= 1,
        forall|i: int| 0 <= i < tags.len() ==> comma_free(#[trigger] tags[i]),
    ensures
        split_comma(join_comma(tags)) == tags,
    decreases tags.len(),
{
    if tags.len() == 1 {
        let s = join_comma(tags);
        lemma_first_comma_bounds(s);
        assert(first_comma(s) >= s.len());
        assert(split_comma(s) =~~= tags);
    } else {
        let head = tags[0];
        let rest = tags.skip(1);
        let s = join_comma(tags);
        let tail = seq![','] + join_comma(rest);
        assert(s =~= head + tail);
        lemma_first_comma_concat(head, tail);
        assert(tail[0] == ',');
        assert(first_comma(tail) == 0);
        let i = head.len() as int;
        assert(first_comma(s) == i);
        lemma_first_comma_bounds(s);
        assert(i < s.len());
        assert(s.take(i) =~= head);
        assert(s.skip(i + 1) =~= join_comma(rest));
        assert(forall|j: int| 0 <= j < rest.len() ==> comma_free(#[trigger] rest[j])) by {
            assert(forall|j: int| 0 <= j < rest.len() ==> rest[j] == tags[j + 1]);
        }
        lemma_join_comma_splits(rest);
        assert(split_comma(s) =~~= tags);
    }
}

proof fn lemma_join_comma_push(tags: Seq<Seq<char>>, t: Seq<char>)
    requires
        tags.len() >= 1,
    ensures
        join_comma(tags.push(t)) == join_comma(tags) + seq![','] + t,
    decreases tags.len(),
{
    if tags.len() == 1 {
        assert(tags.push(t).skip(1) =~~= seq![t]);
        assert(join_comma(seq![t]) == t);
        assert(join_comma(tags.push(t)) =~= tags[0] + seq![','] + t);
    } else {
        assert(tags.push(t).skip(1) =~~= tags.skip(1).push(t));
        lemma_join_comma_push(tags.skip(1), t);
        assert(join_comma(tags.push(t)) =~= join_comma(tags) + seq![','] + t);
    }
}

/// The value of the tags header: the tags joined with `,` in original order.
pub fn join_tags(tags: &Vec<String>) -> (r: String)
    ensures
        r@ == join_comma(string_views(tags@)),
{
    let ghost views = string_views(tags@);
    let mut out = String::new();
    if tags.len() == 0 {
        return out;
    }
    out.append(tags[0].as_str());
    assert(out@ == join_comma(views.take(1))) by {
        assert(views.take(1) =~~= seq![views[0]]);
    }
    for i in 1..tags.len()
        invariant
            views == string_views(tags@),
            i <= tags.len(),
            out@ == join_comma(views.take(i as int)),
    {
        out.append(",");
        out.append(tags[i].as_str());
        proof {
            reveal_strlit(",");
            assert(","@ =~= seq![',']);
            lemma_join_comma_push(views.take(i as int), views[i as int]);
            assert(views.take(i as int).push(views[i as int]) =~~= views.take(i + 1));
        }
    }
    proof {
        assert(views.take(tags@.len() as int) =~~= views);
    }
    out
}

// ---------------------------------------------------------------------------
// The actions header
// ---------------------------------------------------------------------------

/// The `,clear=<bool>` suffix of an action fragment, empty when the flag is
/// absent.
pub open spec fn clear_fragment(clear: Option<bool>) -> Seq<char> {
    match clear {
        Some(true) => ",clear=true"@,
        Some(false) => ",clear=false"@,
        None => Seq::empty(),
    }
}

/// One action's fragment in the actions header:
/// `action=<type>,label=<label>,url=<url>[,clear=<bool>]`, terminated with
/// `;`.
pub open spec fn action_fragment(a: ActionView) -> Seq<char> {
    "action="@ + action_type_token(a.action) + ",label="@ + a.label + ",url="@ + a.url
        + clear_fragment(a.clear) + ";"@
}

/// The value of the actions header: every action's fragment in order,
/// concatenated with no separator between them.
pub open spec fn actions_header_value(acts: Seq<ActionView>) -> Seq<char>
    decreases acts.len(),
{
    if acts.len() == 0 {
        Seq::empty()
    } else {
        actions_header_value(acts.drop_last()) + action_fragment(acts.last())
    }
}

/// The value of the actions header for `actions`.
pub fn actions_header(actions: &Vec<NtfyAction>) -> (r: String)
    ensures
        r@ == actions_header_value(action_views(actions@)),
{
    let ghost views = action_views(actions@);
    let mut out = String::new();
    assert(views.take(0) =~~= Seq::<ActionView>::empty());
    for i in 0..actions.len()
        invariant
            views == action_views(actions@),
            i <= actions.len(),
            out@ == actions_header_value(views.take(i as int)),
    {
        let ghost prev = out@;
        let a = &actions[i];
        out.append("action=");
        out.append(a.action.value());
        out.append(",label=");
        out.append(a.label.as_str());
        out.append(",url=");
        out.append(a.url.as_str());
        match a.clear {
            Some(true) => out.append(",clear=true"),
            Some(false) => out.append(",clear=false"),
            None => (),
        }
        out.append(";");
        proof {
            assert(out@ =~= prev + action_fragment(views[i as int]));
            assert(views.take(i + 1).drop_last() =~~= views.take(i as int));
            assert(views.take(i + 1).last() == views[i as int]);
        }
    }
    proof {
        assert(views.take(actions@.len() as int) =~~= views);
    }
    out
}

// ---------------------------------------------------------------------------
// Counting fragments
// ---------------------------------------------------------------------------

/// How many semicolons `s` contains.
pub open spec fn count_semicolons(s: Seq<char>) -> int
    decreases s.len(),
{
    if s.len() == 0 {
        0
    } else {
        count_semicolons(s.drop_last()) + if s.last() == ';' {
            1int
        } else {
            0int
        }
    }
}

/// `s` contains no semicolon.
pub open spec fn semicolon_free(s: Seq<char>) -> bool {
    forall|i: int| 0 <= i < s.len() ==> s[i] != ';'
}

proof fn lemma_count_semicolons_concat(a: Seq<char>, b: Seq<char>)
    ensures
        count_semicolons(a + b) == count_semicolons(a) + count_semicolons(b),
    decreases b.len(),
{
    if b.len() == 0 {
        assert(a + b =~= a);
    } else {
        assert((a + b).drop_last() =~= a + b.drop_last());
        assert((a + b).last() == b.last());
        lemma_count_semicolons_concat(a, b.drop_last());
    }
}

proof fn lemma_count_semicolons_free(s: Seq<char>)
    requires
        semicolon_free(s),
    ensures
        count_semicolons(s) == 0,
    decreases s.len(),
{
    if s.len() > 0 {
        lemma_count_semicolons_free(s.drop_last());
    }
}

proof fn lemma_fragment_one_semicolon(a: ActionView)
    requires
        semicolon_free(a.label),
        semicolon_free(a.url),
    ensures
        count_semicolons(action_fragment(a)) == 1,
{
    reveal_strlit("action=");
    reveal_strlit(",label=");
    reveal_strlit(",url=");
    reveal_strlit(",clear=true");
    reveal_strlit(",clear=false");
    reveal_strlit("view");
    reveal_strlit("broadcast");
    reveal_strlit("http");
    reveal_strlit(";");
    let lead = "action="@ + action_type_token(a.action) + ",label="@ + a.label + ",url="@ + a.url
        + clear_fragment(a.clear);
    assert(semicolon_free(lead));
    lemma_count_semicolons_free(lead);
    lemma_count_semicolons_concat(lead, ";"@);
    assert(count_semicolons(";"@) == 1) by {
        assert(";"@.len() == 1 && ";"@[0] == ';');
        assert(";"@.drop_last().len() == 0);
        assert(count_semicolons(";"@.drop_last()) == 0);
    }
    assert(action_fragment(a) == lead + ";"@);
}

/// The actions header for `N` actions contains exactly `N` semicolons, one
/// terminating each action's fragment — provided no label or target URL
/// itself contains a semicolon.
pub proof fn lemma_semicolon_count(acts: Seq<ActionView>)
    requires
        forall|i: int| #![trigger acts[i]]
            0 <= i < acts.len() ==> semicolon_free(acts[i].label) && semicolon_free(acts[i].url),
    ensures
        count_semicolons(actions_header_value(acts)) == acts.len(),
    decreases acts.len(),
{
    if acts.len() > 0 {
        let front = acts.drop_last();
        assert(forall|i: int| #![trigger front[i]]
            0 <= i < front.len() ==> semicolon_free(front[i].label) && semicolon_free(
                front[i].url,
            )) by {
            assert(forall|i: int| 0 <= i < front.len() ==> front[i] == acts[i]);
        }
        lemma_semicolon_count(front);
        lemma_fragment_one_semicolon(acts.last());
        lemma_count_semicolons_concat(actions_header_value(front), action_fragment(acts.last()));
    }
}

// ---------------------------------------------------------------------------
// The full header map of a header-encoded publish
// ---------------------------------------------------------------------------

/// Zero or one headers: `[(name, value)]` when the field is present, the
/// empty sequence when it is absent.
pub open spec fn opt_header(name: Seq<char>, value: Option<Seq<char>>) -> Seq<
    (Seq<char>, Seq<char>),
> {
    match value {
        Some(v) => seq![(name, v)],
        None => Seq::empty(),
    }
}

/// The ordered header list of a header-encoded publish: one `X-...` header
/// for each present optional field, in the fixed field order, and nothing
/// else.
pub open spec fn post_headers(m: MsgView) -> Seq<(Seq<char>, Seq<char>)> {
    opt_header("X-Title"@, m.title) + opt_header(
        "X-Priority"@,
        match m.priority {
            Some(p) => Some(priority_digit(p)),
            None => None,
        },
    ) + opt_header(
        "X-Tags"@,
        match m.tags {
            Some(t) => Some(join_comma(t)),
            None => None,
        },
    ) + opt_header("X-Delay"@, m.delay) + opt_header(
        "X-Actions"@,
        match m.actions {
            Some(a) => Some(actions_header_value(a)),
            None => None,
        },
    ) + opt_header("X-Attach"@, m.attach) + opt_header("X-Email"@, m.email)
}

/// The body of a header-encoded publish: the plain message text, or empty
/// when the message has none.
pub open spec fn post_body(m: MsgView) -> Seq<char> {
    match m.message {
        Some(t) => t,
        None => Seq::empty(),
    }
}

/// A message with only its topic set is sent as a request with an empty
/// body and no optional headers at all.
pub proof fn lemma_bare_message_no_extras(m: MsgView)
    requires
        m.message is None,
        m.title is None,
        m.tags is None,
        m.priority is None,
        m.attach is None,
        m.delay is None,
        m.actions is None,
        m.email is None,
    ensures
        post_headers(m) == Seq::<(Seq<char>, Seq<char>)>::empty(),
        post_body(m) == Seq::<char>::empty(),
{
    assert(post_headers(m) =~= Seq::<(Seq<char>, Seq<char>)>::empty());
}

} // verus!
