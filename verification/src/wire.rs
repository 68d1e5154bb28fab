//! Wire marshaling: the response record the gateway hands back, and the
//! JSON encoding of the result records, stated character by character.

use vstd::prelude::*;
use vstd::string::StringExecFns;
use crate::models::{
    CapacityEntry, CapacityEntryView, NodeCondition, NodeConditionView, Pod, PodStatus,
    PodStatusView, PodView, capacity_views, condition_views, pod_views,
};

verus! {

/// An HTTP response as the gateway produces it: a status code and a body.
#[derive(Debug)]
pub struct Response {
    pub status: u16,
    pub body: String,
}

/// Mathematical model of a [`Response`].
pub struct ResponseView {
    pub status: u16,
    pub body: Seq<char>,
}

impl View for Response {
    type V = ResponseView;

    open spec fn view(&self) -> ResponseView {
        ResponseView { status: self.status, body: self.body@ }
    }
}

/// A response carrying the given status and body text.
pub open spec fn text_response(status: u16, body: Seq<char>) -> ResponseView {
    ResponseView { status, body }
}

impl Response {
    pub fn text(status: u16, body: String) -> (r: Response)
        ensures
            r@ == text_response(status, body@),
    {
        Response { status, body }
    }
}

/// The hexadecimal digit standing for a value below sixteen.
pub open spec fn hex_digit(n: nat) -> char {
    if n == 0 { '0' } else if n == 1 { '1' } else if n == 2 { '2' } else if n == 3 { '3' }
    else if n == 4 { '4' } else if n == 5 { '5' } else if n == 6 { '6' } else if n == 7 { '7' }
    else if n == 8 { '8' } else if n == 9 { '9' } else if n == 10 { 'a' } else if n == 11 { 'b' }
    else if n == 12 { 'c' } else if n == 13 { 'd' } else if n == 14 { 'e' } else { 'f' }
}

fn hex_digit_ex(n: u32) -> (c: char)
    requires
        n < 16,
    ensures
        c == hex_digit(n as nat),
{
    if n == 0 { '0' } else if n == 1 { '1' } else if n == 2 { '2' } else if n == 3 { '3' }
    else if n == 4 { '4' } else if n == 5 { '5' } else if n == 6 { '6' } else if n == 7 { '7' }
    else if n == 8 { '8' } else if n == 9 { '9' } else if n == 10 { 'a' } else if n == 11 { 'b' }
    else if n == 12 { 'c' } else if n == 13 { 'd' } else if n == 14 { 'e' } else { 'f' }
}

/// How one character reads inside a JSON string literal: quotes and
/// backslashes are escaped, control characters take the six-character
/// universal escape, everything else stands as itself.
pub open spec fn escaped_char(c: char) -> Seq<char> {
    if c == '"' {
        seq!['\\', '"']
    } else if c == '\\' {
        seq!['\\', '\\']
    } else if (c as u32) < 32 {
        seq!['\\', 'u', '0', '0', hex_digit(((c as u32) / 16) as nat), hex_digit(
            ((c as u32) % 16) as nat,
        )]
    } else {
        seq![c]
    }
}

/// The body of the JSON string literal encoding `s`.
pub open spec fn escaped(s: Seq<char>) -> Seq<char>
    decreases s.len(),
{
    if s.len() == 0 {
        Seq::empty()
    } else {
        escaped_char(s[0]) + escaped(s.subrange(1, s.len() as int))
    }
}

proof fn lemma_escaped_push(s: Seq<char>, c: char)
    ensures
        escaped(s.push(c)) == escaped(s) + escaped_char(c),
    decreases s.len(),
{
    if s.len() == 0 {
        assert(s.push(c)[0] == c);
        assert(s.push(c).subrange(1, 1) =~= Seq::<char>::empty());
        assert(escaped(s.push(c)) == escaped_char(c) + escaped(Seq::<char>::empty()));
        assert(escaped(s.push(c)) =~= escaped(s) + escaped_char(c));
    } else {
        assert(s.push(c).subrange(1, s.len() as int + 1) =~= s.subrange(1, s.len() as int).push(
            c,
        ));
        lemma_escaped_push(s.subrange(1, s.len() as int), c);
        assert(escaped(s.push(c)) =~= escaped(s) + escaped_char(c));
    }
}

/// Relies on `String::push`: appends the given character to the end of the
/// string.
#[verifier::external_body]
fn push_char(s: &mut String, c: char)
    ensures
        final(s)@ == old(s)@ + seq![c],
{
    s.push(c);
}

/// Escape a string for inclusion in a JSON string literal.
pub fn json_escape(s: &str) -> (r: String)
    ensures
        r@ == escaped(s@),
{
    let n = s.unicode_len();
    let mut r = String::new();
    let mut i: usize = 0;
    while i < n
        invariant
            i <= n,
            n == s@.len(),
            r@ == escaped(s@.subrange(0, i as int)),
        decreases n - i,
    {
        let ghost prefix = s@.subrange(0, i as int);
        let c = s.get_char(i);
        if c == '"' {
            push_char(&mut r, '\\');
            push_char(&mut r, '"');
        } else if c == '\\' {
            push_char(&mut r, '\\');
            push_char(&mut r, '\\');
        } else if (c as u32) < 32 {
            let code = c as u32;
            push_char(&mut r, '\\');
            push_char(&mut r, 'u');
            push_char(&mut r, '0');
            push_char(&mut r, '0');
            push_char(&mut r, hex_digit_ex(code / 16));
            push_char(&mut r, hex_digit_ex(code % 16));
        } else {
            push_char(&mut r, c);
        }
        proof {
            assert(r@ =~= escaped(prefix) + escaped_char(c));
            lemma_escaped_push(prefix, c);
            assert(prefix.push(c) =~= s@.subrange(0, i + 1));
        }
        i = i + 1;
    }
    proof {
        assert(s@.subrange(0, n as int) =~= s@);
    }
    r
}

/// The JSON string literal encoding `s`.
pub open spec fn json_string(s: Seq<char>) -> Seq<char> {
    seq!['"'] + escaped(s) + seq!['"']
}

/// Encode a string as a JSON string literal.
pub fn json_quote(s: &str) -> (r: String)
    ensures
        r@ == json_string(s@),
{
    let mut r = String::new();
    push_char(&mut r, '"');
    let e = json_escape(s);
    r.append(e.as_str());
    push_char(&mut r, '"');
    proof {
        assert(r@ =~= json_string(s@));
    }
    r
}

/// A JSON object of two string-valued members, in the given order.
pub open spec fn obj2_json(k1: Seq<char>, v1: Seq<char>, k2: Seq<char>, v2: Seq<char>) -> Seq<
    char,
> {
    seq!['{'] + json_string(k1) + seq![':'] + json_string(v1) + seq![','] + json_string(k2)
        + seq![':'] + json_string(v2) + seq!['}']
}

/// Encode a two-member object of string values.
pub fn obj2(k1: &str, v1: &str, k2: &str, v2: &str) -> (r: String)
    ensures
        r@ == obj2_json(k1@, v1@, k2@, v2@),
{
    let mut r = String::new();
    push_char(&mut r, '{');
    let q1 = json_quote(k1);
    r.append(q1.as_str());
    push_char(&mut r, ':');
    let q2 = json_quote(v1);
    r.append(q2.as_str());
    push_char(&mut r, ',');
    let q3 = json_quote(k2);
    r.append(q3.as_str());
    push_char(&mut r, ':');
    let q4 = json_quote(v2);
    r.append(q4.as_str());
    push_char(&mut r, '}');
    proof {
        assert(r@ =~= obj2_json(k1@, v1@, k2@, v2@));
    }
    r
}

/// The comma-separated join of already-encoded fragments.
pub open spec fn join_comma(elems: Seq<Seq<char>>) -> Seq<char>
    decreases elems.len(),
{
    if elems.len() == 0 {
        Seq::empty()
    } else if elems.len() == 1 {
        elems[0]
    } else {
        join_comma(elems.drop_last()) + seq![','] + elems.last()
    }
}

/// A JSON array whose elements are the given fragments.
pub open spec fn array_json(elems: Seq<Seq<char>>) -> Seq<char> {
    seq!['['] + join_comma(elems) + seq![']']
}

/// A JSON object whose members are the given already-encoded fragments.
pub open spec fn object_json(members: Seq<Seq<char>>) -> Seq<char> {
    seq!['{'] + join_comma(members) + seq!['}']
}

/// The JSON encoding of one pod.
pub open spec fn pod_json(p: PodView) -> Seq<char> {
    obj2_json("namespace"@, p.namespace, "name"@, p.name)
}

/// Encode one pod.
pub fn pod_to_json(p: &Pod) -> (r: String)
    ensures
        r@ == pod_json(p@),
{
    obj2("namespace", p.namespace.as_str(), "name", p.name.as_str())
}

/// The JSON encoding of one pod status.
pub open spec fn pod_status_json(s: PodStatusView) -> Seq<char> {
    obj2_json("phase"@, s.phase, "message"@, s.message)
}

/// Encode one pod status.
pub fn pod_status_to_json(s: &PodStatus) -> (r: String)
    ensures
        r@ == pod_status_json(s@),
{
    obj2("phase", s.phase.as_str(), "message", s.message.as_str())
}

/// The JSON encoding of one node condition.
pub open spec fn condition_json(c: NodeConditionView) -> Seq<char> {
    obj2_json("type"@, c.condition, "status"@, c.status)
}

/// The JSON encoding of a pod list.
pub open spec fn pods_json(pods: Seq<PodView>) -> Seq<char> {
    array_json(pods.map_values(|p: PodView| pod_json(p)))
}

/// Encode a pod list as a JSON array.
pub fn pods_to_json(pods: &Vec<Pod>) -> (r: String)
    ensures
        r@ == pods_json(pod_views(pods@)),
{
    let ghost elems = pod_views(pods@).map_values(|p: PodView| pod_json(p));
    let mut r = String::new();
    push_char(&mut r, '[');
    let mut i: usize = 0;
    while i < pods.len()
        invariant
            i <= pods.len(),
            elems == pod_views(pods@).map_values(|p: PodView| pod_json(p)),
            elems.len() == pods.len(),
            r@ == seq!['['] + join_comma(elems.subrange(0, i as int)),
        decreases pods.len() - i,
    {
        if i > 0 {
            push_char(&mut r, ',');
        }
        let e = pod_to_json(&pods[i]);
        r.append(e.as_str());
        proof {
            assert(elems.subrange(0, i + 1).drop_last() =~= elems.subrange(0, i as int));
            assert(elems.subrange(0, i + 1).last() == elems[i as int]);
            assert(r@ =~= seq!['['] + join_comma(elems.subrange(0, i + 1)));
        }
        i = i + 1;
    }
    push_char(&mut r, ']');
    proof {
        assert(elems.subrange(0, elems.len() as int) =~= elems);
        assert(r@ =~= array_json(elems));
    }
    r
}

/// The JSON encoding of the node-condition list.
pub open spec fn conditions_json(cs: Seq<NodeConditionView>) -> Seq<char> {
    array_json(cs.map_values(|c: NodeConditionView| condition_json(c)))
}

/// Encode the node-condition list as a JSON array.
pub fn conditions_to_json(cs: &Vec<NodeCondition>) -> (r: String)
    ensures
        r@ == conditions_json(condition_views(cs@)),
{
    let ghost elems = condition_views(cs@).map_values(|c: NodeConditionView| condition_json(c));
    let mut r = String::new();
    push_char(&mut r, '[');
    let mut i: usize = 0;
    while i < cs.len()
        invariant
            i <= cs.len(),
            elems == condition_views(cs@).map_values(|c: NodeConditionView| condition_json(c)),
            elems.len() == cs.len(),
            r@ == seq!['['] + join_comma(elems.subrange(0, i as int)),
        decreases cs.len() - i,
    {
        if i > 0 {
            push_char(&mut r, ',');
        }
        let e = obj2("type", cs[i].condition.as_str(), "status", cs[i].status.as_str());
        r.append(e.as_str());
        proof {
            assert(elems.subrange(0, i + 1).drop_last() =~= elems.subrange(0, i as int));
            assert(elems.subrange(0, i + 1).last() == elems[i as int]);
            assert(r@ =~= seq!['['] + join_comma(elems.subrange(0, i + 1)));
        }
        i = i + 1;
    }
    push_char(&mut r, ']');
    proof {
        assert(elems.subrange(0, elems.len() as int) =~= elems);
        assert(r@ =~= array_json(elems));
    }
    r
}

/// One member of the capacity object: the resource name mapped to its
/// quantity.
pub open spec fn capacity_member_json(e: CapacityEntryView) -> Seq<char> {
    json_string(e.resource) + seq![':'] + json_string(e.quantity)
}

/// The JSON encoding of the capacity map: one object keyed by resource.
pub open spec fn capacity_json(es: Seq<CapacityEntryView>) -> Seq<char> {
    object_json(es.map_values(|e: CapacityEntryView| capacity_member_json(e)))
}

/// Encode the capacity entries as one JSON object keyed by resource name.
pub fn capacity_to_json(es: &Vec<CapacityEntry>) -> (r: String)
    ensures
        r@ == capacity_json(capacity_views(es@)),
{
    let ghost elems = capacity_views(es@).map_values(
        |e: CapacityEntryView| capacity_member_json(e),
    );
    let mut r = String::new();
    push_char(&mut r, '{');
    let mut i: usize = 0;
    while i < es.len()
        invariant
            i <= es.len(),
            elems == capacity_views(es@).map_values(
                |e: CapacityEntryView| capacity_member_json(e),
            ),
            elems.len() == es.len(),
            r@ == seq!['{'] + join_comma(elems.subrange(0, i as int)),
        decreases es.len() - i,
    {
        if i > 0 {
            push_char(&mut r, ',');
        }
        let q1 = json_quote(es[i].resource.as_str());
        r.append(q1.as_str());
        push_char(&mut r, ':');
        let q2 = json_quote(es[i].quantity.as_str());
        r.append(q2.as_str());
        proof {
            assert(elems.subrange(0, i + 1).drop_last() =~= elems.subrange(0, i as int));
            assert(elems.subrange(0, i + 1).last() == elems[i as int]);
            assert(r@ =~= seq!['{'] + join_comma(elems.subrange(0, i + 1)));
        }
        i = i + 1;
    }
    push_char(&mut r, '}');
    proof {
        assert(elems.subrange(0, elems.len() as int) =~= elems);
        assert(r@ =~= object_json(elems));
    }
    r
}

} // verus!
