//! CSS class lists built from rules.

use vstd::prelude::*;

verus! {

/// A rule contributing to a class list.
pub enum ClassRule {
    /// Always contributes this class.
    Always(&'static str),
    /// Contributes the class when the condition holds.
    IfTrue(&'static str, bool),
    /// Contributes the first class when the condition holds, the second otherwise.
    Ternary(bool, &'static str, &'static str),
}

/// What a rule contributes, if anything.
pub open spec fn rule_class(r: ClassRule) -> Option<Seq<char>> {
    match r {
        ClassRule::Always(c) => Some(c@),
        ClassRule::IfTrue(c, on) => if on { Some(c@) } else { None },
        ClassRule::Ternary(on, t, f) => if on { Some(t@) } else { Some(f@) },
    }
}

/// The non-empty classes that the rules contribute, in order.
pub open spec fn selected_classes(rules: Seq<ClassRule>) -> Seq<Seq<char>>
    decreases rules.len(),
{
    if rules.len() == 0 {
        Seq::empty()
    } else {
        let before = selected_classes(rules.drop_last());
        match rule_class(rules.last()) {
            Some(c) => if c.len() > 0 { before.push(c) } else { before },
            None => before,
        }
    }
}

/// The parts separated by single spaces.
pub open spec fn join_with_spaces(parts: Seq<Seq<char>>) -> Seq<char>
    decreases parts.len(),
{
    if parts.len() == 0 {
        Seq::empty()
    } else if parts.len() == 1 {
        parts[0]
    } else {
        join_with_spaces(parts.drop_last()) + " "@ + parts.last()
    }
}

impl ClassRule {
    /// What this rule contributes, if anything.
    pub fn class(&self) -> (res: Option<&'static str>)
        ensures
            match res {
                Some(c) => rule_class(*self) == Some(c@),
                None => rule_class(*self) is None,
            },
    {
        match self {
            ClassRule::Always(c) => Some(*c),
            ClassRule::IfTrue(c, on) => if *on { Some(*c) } else { None },
            ClassRule::Ternary(on, t, f) => if *on { Some(*t) } else { Some(*f) },
        }
    }
}

impl From<&'static str> for ClassRule {
    fn from(class: &'static str) -> (res: Self) {
        ClassRule::Always(class)
    }
}

impl vstd::std_specs::convert::FromSpecImpl<&'static str> for ClassRule {
    open spec fn obeys_from_spec() -> bool {
        true
    }

    open spec fn from_spec(class: &'static str) -> Self {
        ClassRule::Always(class)
    }
}

impl From<(&'static str, bool)> for ClassRule {
    fn from(rule: (&'static str, bool)) -> (res: Self) {
        ClassRule::IfTrue(rule.0, rule.1)
    }
}

impl vstd::std_specs::convert::FromSpecImpl<(&'static str, bool)> for ClassRule {
    open spec fn obeys_from_spec() -> bool {
        true
    }

    open spec fn from_spec(rule: (&'static str, bool)) -> Self {
        ClassRule::IfTrue(rule.0, rule.1)
    }
}

/// The class list of the rules: every non-empty class they contribute, in
/// order, separated by single spaces.
pub fn classes(rules: &Vec<ClassRule>) -> (res: String)
    ensures
        res@ == join_with_spaces(selected_classes(rules@)),
{
    let n = rules.len();
    let mut res = String::new();
    let ghost mut parts: Seq<Seq<char>> = Seq::empty();
    let mut count: usize = 0;
    let mut i: usize = 0;
    while i < n
        invariant
            n == rules@.len(),
            i <= n,
            parts == selected_classes(rules@.take(i as int)),
            res@ == join_with_spaces(parts),
            count == parts.len(),
            count <= i,
        decreases n - i,
    {
        assert(rules@.take(i + 1).drop_last() =~= rules@.take(i as int));
        assert(rules@.take(i + 1).last() == rules@[i as int]);
        match rules[i].class() {
            Some(c) => {
                if !c.is_empty() {
                    if count > 0 {
                        res.append(" ");
                    }
                    res.append(c);
                    proof {
                        let next = parts.push(c@);
                        assert(next.drop_last() =~= parts);
                        if parts.len() == 0 {
                            assert(res@ =~= join_with_spaces(next));
                        }
                        parts = next;
                    }
                    count = count + 1;
                }
            },
            None => {},
        }
        i = i + 1;
    }
    assert(rules@.take(n as int) =~= rules@);
    res
}

/// `"{class} {chosen}"`, where `chosen` is `if_class` when the condition
/// holds and `else_class` otherwise.
pub fn class_name(class: &str, condition: bool, if_class: &str, else_class: &str) -> (res: String)
    ensures
        res@ == class@ + " "@ + (if condition { if_class@ } else { else_class@ }),
{
    let mut res = String::from_str(class);
    res.append(" ");
    res.append(if condition { if_class } else { else_class });
    res
}

/// Every class that goes into a class list is non-empty, so the list has no
/// doubled, leading or trailing space.
pub proof fn law_class_list_has_no_empty_class(rules: Seq<ClassRule>)
    ensures
        forall|k: int| 0 <= k < selected_classes(rules).len() ==> #[trigger] selected_classes(
            rules,
        )[k].len() > 0,
    decreases rules.len(),
{
    if rules.len() > 0 {
        law_class_list_has_no_empty_class(rules.drop_last());
        let before = selected_classes(rules.drop_last());
        assert forall|k: int| 0 <= k < selected_classes(rules).len() implies #[trigger] selected_classes(
            rules,
        )[k].len() > 0 by {
            if k < before.len() {
                assert(before[k].len() > 0);
            }
        }
    }
}

} // verus!
