//! Tag rules: a message that starts with a rule's tag is relabelled.
use vstd::prelude::*;
use crate::text::{chars_of, has_prefix, is_prefix, push_all, remove_all, string_of, without};

verus! {

/// A tag rule: a message starting with `tag` becomes `"{value}:: {rest}"`.
#[derive(Clone, Debug)]
pub struct Tag {
    pub tag: String,
    pub value: String,
}

impl Tag {
    pub fn new(tag: String, value: String) -> (r: Tag)
        ensures
            r.tag@ == tag@,
            r.value@ == value@,
    {
        Tag { tag, value }
    }
}

/// What the first rule that applies makes of `message`: its label, `":: "`,
/// and the message with every occurrence of the rule's tag removed (not only
/// the leading one). With no rule applying, the message is kept as it is.
pub open spec fn route_spec(rules: Seq<Tag>, message: Seq<char>) -> Seq<char>
    decreases rules.len(),
{
    if rules.len() == 0 {
        message
    } else if is_prefix(rules[0].tag@, message) {
        rules[0].value@ + seq![':', ':', ' '] + without(message, rules[0].tag@)
    } else {
        route_spec(rules.drop_first(), message)
    }
}

/// Applies the tag rules to `message`, in order; the first whose tag starts
/// the message wins.
pub fn route(rules: &Vec<Tag>, message: &str) -> (r: String)
    ensures
        r@ == route_spec(rules@, message@),
{
    let msg = chars_of(message);
    let mut i: usize = 0;
    assert(rules@.skip(0) =~= rules@);
    while i < rules.len()
        invariant
            i <= rules@.len(),
            msg@ == message@,
            route_spec(rules@.skip(i as int), message@) == route_spec(rules@, message@),
        decreases rules@.len() - i,
    {
        let rule = &rules[i];
        let tag = chars_of(rule.tag.as_str());
        assert(rules@.skip(i as int)[0] == rules@[i as int]);
        assert(rules@.skip(i as int).drop_first() =~= rules@.skip(i + 1));
        if has_prefix(&msg, &tag) {
            let mut out = chars_of(rule.value.as_str());
            out.push(':');
            out.push(':');
            out.push(' ');
            push_all(&mut out, &remove_all(&msg, &tag));
            assert(out@ =~= route_spec(rules@.skip(i as int), message@));
            return string_of(&out);
        }
        i += 1;
    }
    assert(rules@.skip(i as int) =~= Seq::<Tag>::empty());
    string_of(&msg)
}

} // verus!
