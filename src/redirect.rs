use vstd::prelude::*;

verus! {

/// The two editable fields of a redirect rule.
#[derive(Clone, Copy, Debug, PartialEq, Eq, Structural)]
pub enum RedirectEditActionField {
    Source,
    Target,
}

/// Why an edit of the redirect list was rejected.
#[derive(Clone, Copy, Debug, PartialEq, Eq, Structural)]
pub enum RedirectError {
    /// The edit names a row that the list does not have.
    IndexOutOfRange,
}

/// A redirect from a source path to a target path, both kept as typed.
#[derive(Debug)]
pub struct RedirectRule {
    pub source: String,
    pub target: String,
}

impl View for RedirectRule {
    type V = (Seq<char>, Seq<char>);

    open spec fn view(&self) -> (Seq<char>, Seq<char>) {
        (self.source@, self.target@)
    }
}

/// `rule` with `field` set to `value`.
pub open spec fn with_field(
    rule: (Seq<char>, Seq<char>),
    field: RedirectEditActionField,
    value: Seq<char>,
) -> (Seq<char>, Seq<char>) {
    match field {
        RedirectEditActionField::Source => (value, rule.1),
        RedirectEditActionField::Target => (rule.0, value),
    }
}

/// The views of the rules in `v`.
pub open spec fn rule_views(v: Seq<RedirectRule>) -> Seq<(Seq<char>, Seq<char>)> {
    v.map_values(|r: RedirectRule| r@)
}

impl RedirectRule {
    /// A rule from `source` to `target`.
    pub fn new(source: &str, target: &str) -> (r: Self)
        ensures
            r@ == (source@, target@),
    {
        RedirectRule { source: source.to_owned(), target: target.to_owned() }
    }

    /// A rule whose source and target are both empty.
    pub fn empty() -> (r: Self)
        ensures
            r@ == (Seq::<char>::empty(), Seq::<char>::empty()),
    {
        RedirectRule { source: String::new(), target: String::new() }
    }

    /// A copy of this rule.
    pub fn duplicate(&self) -> (r: Self)
        ensures
            r@ == self@,
    {
        RedirectRule { source: self.source.clone(), target: self.target.clone() }
    }

    /// The text of `field`.
    pub fn field(&self, field: RedirectEditActionField) -> (r: &String)
        ensures
            r@ == match field {
                RedirectEditActionField::Source => self@.0,
                RedirectEditActionField::Target => self@.1,
            },
    {
        match field {
            RedirectEditActionField::Source => &self.source,
            RedirectEditActionField::Target => &self.target,
        }
    }
}

/// The redirect rules in the order in which they apply.
pub struct RedirectList {
    rules: Vec<RedirectRule>,
}

impl View for RedirectList {
    type V = Seq<(Seq<char>, Seq<char>)>;

    closed spec fn view(&self) -> Seq<(Seq<char>, Seq<char>)> {
        rule_views(self.rules@)
    }
}

impl RedirectList {
    /// A list without rules.
    pub fn new() -> (r: Self)
        ensures
            r@ == Seq::<(Seq<char>, Seq<char>)>::empty(),
    {
        let r = RedirectList { rules: Vec::new() };
        assert(r@ =~= Seq::<(Seq<char>, Seq<char>)>::empty());
        r
    }

    /// A list of `rules`, in their order.
    pub fn from_rules(rules: Vec<RedirectRule>) -> (r: Self)
        ensures
            r@ == rule_views(rules@),
    {
        RedirectList { rules }
    }

    /// The number of rules.
    pub fn len(&self) -> (r: usize)
        ensures
            r == self@.len(),
    {
        self.rules.len()
    }

    /// Whether the list has no rule.
    pub fn is_empty(&self) -> (r: bool)
        ensures
            r == (self@.len() == 0),
    {
        self.rules.len() == 0
    }

    /// The rule at `index`, if there is one.
    pub fn get(&self, index: usize) -> (r: Option<&RedirectRule>)
        ensures
            r is Some <==> index < self@.len(),
            r matches Some(rule) ==> rule@ == self@[index as int],
    {
        if index < self.rules.len() {
            Some(&self.rules[index])
        } else {
            None
        }
    }

    /// Appends `rule` at the end.
    pub fn add(&mut self, rule: RedirectRule)
        ensures
            final(self)@ == old(self)@.push(rule@),
    {
        self.rules.push(rule);
        assert(self@ =~= old(self)@.push(rule@));
    }

    /// Removes the rule at `index`; the rules after it move down by one.
    pub fn remove(&mut self, index: usize) -> (r: Result<(), RedirectError>)
        ensures
            index < old(self)@.len() ==> r == Ok::<(), RedirectError>(()) && final(self)@ == old(self)@.remove(index as int),
            index >= old(self)@.len() ==> r == Err::<(), RedirectError>(
                RedirectError::IndexOutOfRange,
            ) && final(self)@ == old(self)@,
    {
        if index >= self.rules.len() {
            return Err(RedirectError::IndexOutOfRange);
        }
        self.rules.remove(index);
        assert(self@ =~= old(self)@.remove(index as int));
        Ok(())
    }

    /// Sets `field` of the rule at `index` to `value`, whatever text it holds.
    pub fn change(&mut self, index: usize, field: RedirectEditActionField, value: &str) -> (r:
        Result<(), RedirectError>)
        ensures
            index < old(self)@.len() ==> r == Ok::<(), RedirectError>(()) && final(self)@ == old(self)@.update(
                index as int,
                with_field(old(self)@[index as int], field, value@),
            ),
            index >= old(self)@.len() ==> r == Err::<(), RedirectError>(
                RedirectError::IndexOutOfRange,
            ) && final(self)@ == old(self)@,
    {
        if index >= self.rules.len() {
            return Err(RedirectError::IndexOutOfRange);
        }
        match field {
            RedirectEditActionField::Source => {
                self.rules[index].source = value.to_owned();
            },
            RedirectEditActionField::Target => {
                self.rules[index].target = value.to_owned();
            },
        }
        assert(self@ =~= old(self)@.update(
            index as int,
            with_field(old(self)@[index as int], field, value@),
        ));
        Ok(())
    }
}

} // verus!
