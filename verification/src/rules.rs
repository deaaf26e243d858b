use vstd::prelude::*;
use vstd::string::*;

verus! {

/// Wrap the root rule's name in the grouping construct that makes the
/// synthetic start pattern: `{name}`.
pub fn synthesize_start_rule(root_rule_name: &str) -> (r: String)
    ensures
        r@ == "{"@ + root_rule_name@ + "}"@,
{
    let mut r = "{".to_owned();
    r.append(root_rule_name);
    r.append("}");
    r
}

/// Shape a declared grammar into the rule list handed to the grammar
/// engine. Each declared rule is a (name, pattern) pair and the first one
/// is the root: a synthetic `START` rule wrapping the root in a grouping
/// construct is put first, and every declared rule follows unchanged, in
/// declaration order.
pub fn build_rule_list(rules: &Vec<(String, String)>) -> (r: Vec<(String, String)>)
    requires
        rules@.len() > 0,
    ensures
        r@.len() == rules@.len() + 1,
        (r@[0]).0@ == "START"@,
        (r@[0]).1@ == "{"@ + (rules@[0]).0@ + "}"@,
        forall|i: int|
            0 <= i < rules@.len() ==> (#[trigger] r@[i + 1]).0@ == (rules@[i]).0@ && (r@[i
                + 1]).1@ == (rules@[i]).1@,
{
    let mut r: Vec<(String, String)> = Vec::new();
    let root_pattern = synthesize_start_rule(rules[0].0.as_str());
    r.push(("START".to_owned(), root_pattern));
    let mut i: usize = 0;
    while i < rules.len()
        invariant
            rules@.len() > 0,
            i <= rules@.len(),
            r@.len() == i + 1,
            (r@[0]).0@ == "START"@,
            (r@[0]).1@ == "{"@ + (rules@[0]).0@ + "}"@,
            forall|j: int|
                0 <= j < i ==> (#[trigger] r@[j + 1]).0@ == (rules@[j]).0@ && (r@[j + 1]).1@ == (
                rules@[j]).1@,
        decreases rules@.len() - i,
    {
        let name = rules[i].0.clone();
        let pattern = rules[i].1.clone();
        r.push((name, pattern));
        i += 1;
    }
    r
}

} // verus!
