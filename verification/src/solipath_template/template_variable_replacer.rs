use crate::solipath_instructions::data::template::Template;
use crate::text::{
    joined,
    contains_pattern,
    from_chars,
    lemma_replaced_without_occurrence,
    replace_all,
    replaced,
    to_chars,
};
use crate::text_map::Entries;
use vstd::prelude::*;

verus! {

/// The token that stands for the variable `key` in a template document: the
/// key between `${` and `}`.
pub open spec fn token(key: Seq<char>) -> Seq<char> {
    "${"@ + key + "}"@
}

/// `input` after the variables have been put in, one after the other in the
/// order of `variables`: each step replaces every token of its key by its
/// value, in what the steps before it have left. The order matters where a
/// value holds or completes a token of a later variable: with `$` for `a`
/// and `x` for `b`, `${a}{b}` becomes `x`, and with the two variables the
/// other way round it becomes `${b}`.
pub open spec fn substituted(input: Seq<char>, variables: Entries) -> Seq<char>
    decreases variables.len(),
{
    if variables.len() == 0 {
        input
    } else {
        replaced(
            substituted(input, variables.drop_last()),
            token(variables.last().0),
            variables.last().1,
        )
    }
}

/// No token of any variable stands in `input`.
pub open spec fn holds_no_token(input: Seq<char>, variables: Entries) -> bool {
    forall|i: int|
        0 <= i < variables.len() ==> !contains_pattern(input, token(#[trigger] variables[i].0))
}

/// A text that holds no token of any of the variables comes out as it went
/// in. In particular a token whose key is not among the variables stays as it
/// is written.
pub proof fn lemma_text_without_tokens_is_unchanged(input: Seq<char>, variables: Entries)
    requires
        holds_no_token(input, variables),
    ensures
        substituted(input, variables) == input,
    decreases variables.len(),
{
    if variables.len() > 0 {
        let front = variables.drop_last();
        assert forall|i: int| 0 <= i < front.len() implies !contains_pattern(
            input,
            token(#[trigger] front[i].0),
        ) by {
            assert(front[i] == variables[i]);
        }
        lemma_text_without_tokens_is_unchanged(input, front);
        assert(!contains_pattern(input, token(variables[variables.len() - 1].0)));
        lemma_replaced_without_occurrence(input, token(variables.last().0), variables.last().1);
    }
}

/// Substituting again changes nothing, where the first substitution has left
/// no token behind.
pub proof fn lemma_substitution_is_idempotent(input: Seq<char>, variables: Entries)
    requires
        holds_no_token(substituted(input, variables), variables),
    ensures
        substituted(substituted(input, variables), variables) == substituted(input, variables),
{
    lemma_text_without_tokens_is_unchanged(substituted(input, variables), variables);
}

/// Puts the variables of a template into the text of its document.
pub trait TemplateVariableReplacerTrait {
    fn replace_variables(&self, input: &str, template: &Template) -> (output: String)
        ensures
            output@ == substituted(input@, template@.variables),
    ;
}

/// Replaces tokens by plain search, one variable after the other.
pub struct TemplateVariableReplacer;

impl TemplateVariableReplacer {
    pub fn new() -> Self {
        TemplateVariableReplacer
    }
}

impl TemplateVariableReplacerTrait for TemplateVariableReplacer {
    fn replace_variables(&self, input: &str, template: &Template) -> (output: String) {
        let variables = template.get_variables().get_entries();
        let mut output: Vec<char> = to_chars(input);
        let mut i: usize = 0;
        assert(variables.deep_view().take(0) =~= Entries::empty());
        while i < variables.len()
            invariant
                i <= variables.len(),
                output@ == substituted(input@, variables.deep_view().take(i as int)),
            decreases variables.len() - i,
        {
            let ghost next = variables.deep_view().take(i + 1);
            assert(next.drop_last() =~= variables.deep_view().take(i as int));
            assert(next.last() == variables.deep_view()[i as int]);
            let opened = joined("${", variables[i].0.as_str());
            let string_to_replace = to_chars(joined(opened.as_str(), "}").as_str());
            let value = to_chars(variables[i].1.as_str());
            assert(string_to_replace@ == token(variables[i as int].0@));
            output = replace_all(output.as_slice(), string_to_replace.as_slice(), value.as_slice());
            i += 1;
        }
        assert(variables.deep_view().take(i as int) =~= variables.deep_view());
        from_chars(output.as_slice())
    }
}

} // verus!
