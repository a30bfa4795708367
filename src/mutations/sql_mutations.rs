use vstd::prelude::*;
use vstd::string::*;
use vstd::utf8::*;

use super::Mutator;
use crate::text::{
    contains_bytes, find_bytes, first_from, lossy_of, lossy_text, occurs_at, push_all, replace_first,
    replace_first_bytes,
};

verus! {

/// Relies on `rand::Rng::gen_range` over the thread-local generator: a value
/// in `0..n`; it panics only on an empty range.
#[verifier::external_body]
fn random_below(n: usize) -> (r: usize)
    requires
        n > 0,
    ensures
        r < n,
{
    rand::Rng::gen_range(&mut rand::thread_rng(), 0..n)
}

/// The keyword dictionary; the first entry is the one that gets replaced.
pub open spec fn keyword_list() -> Seq<Seq<char>> {
    seq!["SELECT"@, "FROM"@, "WHERE"@, "GROUP BY"@, "ORDER BY"@]
}

/// The operator dictionary; the first entry is the one that gets replaced.
pub open spec fn operator_list() -> Seq<Seq<char>> {
    seq!["="@, ">"@, "<"@, ">="@, "<="@]
}

/// The number of entries in each dictionary.
pub const DICTIONARY_LEN: usize = 5;

/// The number of mutation strategies.
pub const STRATEGIES: usize = 3;

/// The bytes of the lossy text view of `input`: valid UTF-8 stays as it is,
/// anything else is decoded with replacements and encoded again.
pub open spec fn text_bytes(input: Seq<u8>) -> Seq<u8> {
    if valid_utf8(input) {
        input
    } else {
        encode_utf8(lossy_of(input))
    }
}

/// The bytes of the SQL text that the validity filter requires.
pub open spec fn required_tokens_present(text: Seq<u8>) -> bool {
    &&& contains_bytes(text, encode_utf8("SELECT"@))
    &&& contains_bytes(text, encode_utf8("FROM"@))
}

/// The condition clause appended by the injecting strategy.
pub open spec fn condition_clause(op: Seq<char>) -> Seq<u8> {
    encode_utf8(" AND 1 "@) + encode_utf8(op) + encode_utf8(" 1"@)
}

/// The result of strategy `strategy` with dictionary entry `pick` on the
/// text `text`: 0 replaces the first keyword, 1 the first operator, 2 appends
/// a condition.
pub open spec fn spec_mutate_text(text: Seq<u8>, strategy: int, pick: int) -> Seq<u8> {
    if strategy == 0 {
        replace_first(text, encode_utf8(keyword_list()[0]), encode_utf8(keyword_list()[pick]))
    } else if strategy == 1 {
        replace_first(text, encode_utf8(operator_list()[0]), encode_utf8(operator_list()[pick]))
    } else {
        text + condition_clause(operator_list()[pick])
    }
}

/// The result of strategy `strategy` with dictionary entry `pick` on the
/// lossy text view of `input`.
pub open spec fn spec_mutation(input: Seq<u8>, strategy: int, pick: int) -> Seq<u8> {
    spec_mutate_text(text_bytes(input), strategy, pick)
}

/// The bytes of the lossy text view, as `lossy_text` gives them.
fn text_view(input: &[u8]) -> (r: Vec<u8>)
    ensures
        r@ == text_bytes(input@),
{
    let query = lossy_text(input);
    let mut out: Vec<u8> = Vec::new();
    push_all(&mut out, query.as_str().as_bytes());
    proof {
        if valid_utf8(input@) {
            decode_utf8_encode_utf8(input@);
        }
        assert(out@ =~= text_bytes(input@));
    }
    out
}

proof fn lemma_nothing_in_empty(needle: Seq<u8>, with: Seq<u8>)
    requires
        needle.len() > 0,
    ensures
        replace_first(seq![], needle, with) == Seq::<u8>::empty(),
{
    let empty = Seq::<u8>::empty();
    assert(!occurs_at(empty, needle, 0));
    assert(first_from(empty, needle, 1) == None::<int>);
}

/// On an empty input the replacing strategies leave nothing and the injecting
/// strategy gives the condition clause alone.
pub proof fn lemma_mutate_empty(strategy: int, pick: int)
    requires
        0 <= strategy < STRATEGIES,
        0 <= pick < DICTIONARY_LEN,
    ensures
        strategy < 2 ==> spec_mutation(seq![], strategy, pick) == Seq::<u8>::empty(),
        strategy == 2 ==> spec_mutation(seq![], strategy, pick) == condition_clause(
            operator_list()[pick],
        ),
{
    let empty = Seq::<u8>::empty();
    assert(valid_utf8(empty));
    assert(text_bytes(empty) == empty);
    reveal_strlit("SELECT");
    reveal_strlit("=");
    let kw = keyword_list()[0];
    let op = operator_list()[0];
    assert(kw.len() > 0);
    assert(op.len() > 0);
    assert(encode_utf8(kw).len() > 0) by {
        assert(encode_utf8(kw) == encode_scalar(kw[0] as u32) + encode_utf8(kw.drop_first()));
    }
    assert(encode_utf8(op).len() > 0) by {
        assert(encode_utf8(op) == encode_scalar(op[0] as u32) + encode_utf8(op.drop_first()));
    }
    lemma_nothing_in_empty(encode_utf8(kw), encode_utf8(keyword_list()[pick]));
    lemma_nothing_in_empty(encode_utf8(op), encode_utf8(operator_list()[pick]));
    assert(empty + condition_clause(operator_list()[pick]) =~= condition_clause(
        operator_list()[pick],
    ));
}

/// Mutates SQL text through keyword and operator dictionaries.
pub struct SqlMutator {
    keywords: Vec<String>,
    operators: Vec<String>,
}

impl SqlMutator {
    #[verifier::type_invariant]
    spec fn inv(self) -> bool {
        &&& self.keywords.deep_view() == keyword_list()
        &&& self.operators.deep_view() == operator_list()
    }

    /// The keyword dictionary.
    pub closed spec fn keywords(self) -> Seq<Seq<char>> {
        self.keywords.deep_view()
    }

    /// The operator dictionary.
    pub closed spec fn operators(self) -> Seq<Seq<char>> {
        self.operators.deep_view()
    }

    pub fn new() -> (r: Self)
        ensures
            r.keywords() == keyword_list(),
            r.operators() == operator_list(),
    {
        let keywords = vec![
            String::from_str("SELECT"),
            String::from_str("FROM"),
            String::from_str("WHERE"),
            String::from_str("GROUP BY"),
            String::from_str("ORDER BY"),
        ];
        let operators = vec![
            String::from_str("="),
            String::from_str(">"),
            String::from_str("<"),
            String::from_str(">="),
            String::from_str("<="),
        ];
        assert(keywords.deep_view() =~= keyword_list());
        assert(operators.deep_view() =~= operator_list());
        SqlMutator { keywords, operators }
    }

    /// Replaces the first occurrence of the reference keyword with keyword `pick`.
    fn mutate_keyword(&self, query: &[u8], pick: usize) -> (r: Vec<u8>)
        requires
            pick < keyword_list().len(),
        ensures
            r@ == replace_first(
                query@,
                encode_utf8(keyword_list()[0]),
                encode_utf8(keyword_list()[pick as int]),
            ),
    {
        proof {
            use_type_invariant(self);
        }
        let from = self.keywords[0].as_str().as_bytes();
        let to = self.keywords[pick].as_str().as_bytes();
        replace_first_bytes(query, from, to)
    }

    /// Replaces the first occurrence of the reference operator with operator `pick`.
    fn mutate_operator(&self, query: &[u8], pick: usize) -> (r: Vec<u8>)
        requires
            pick < operator_list().len(),
        ensures
            r@ == replace_first(
                query@,
                encode_utf8(operator_list()[0]),
                encode_utf8(operator_list()[pick as int]),
            ),
    {
        proof {
            use_type_invariant(self);
        }
        let from = self.operators[0].as_str().as_bytes();
        let to = self.operators[pick].as_str().as_bytes();
        replace_first_bytes(query, from, to)
    }

    /// Appends a condition clause that compares with operator `pick`.
    fn inject_random_condition(&self, query: &[u8], pick: usize) -> (r: Vec<u8>)
        requires
            pick < operator_list().len(),
        ensures
            r@ == query@ + condition_clause(operator_list()[pick as int]),
    {
        proof {
            use_type_invariant(self);
        }
        let mut out: Vec<u8> = Vec::new();
        push_all(&mut out, query);
        push_all(&mut out, " AND 1 ".as_bytes());
        push_all(&mut out, self.operators[pick].as_str().as_bytes());
        push_all(&mut out, " 1".as_bytes());
        assert(out@ =~= query@ + condition_clause(operator_list()[pick as int]));
        out
    }

    /// Applies strategy `strategy` with dictionary entry `pick` to the text
    /// `text`.
    pub fn mutate_text(&self, text: &[u8], strategy: usize, pick: usize) -> (r: Vec<u8>)
        requires
            strategy < STRATEGIES,
            pick < DICTIONARY_LEN,
        ensures
            r@ == spec_mutate_text(text@, strategy as int, pick as int),
    {
        if strategy == 0 {
            self.mutate_keyword(text, pick)
        } else if strategy == 1 {
            self.mutate_operator(text, pick)
        } else {
            self.inject_random_condition(text, pick)
        }
    }

    /// Applies strategy `strategy` with dictionary entry `pick` to the lossy
    /// text view of `input`.
    pub fn mutate_with(&self, input: &[u8], strategy: usize, pick: usize) -> (r: Vec<u8>)
        requires
            strategy < STRATEGIES,
            pick < DICTIONARY_LEN,
        ensures
            r@ == spec_mutation(input@, strategy as int, pick as int),
    {
        let text = text_view(input);
        self.mutate_text(text.as_slice(), strategy, pick)
    }
}

impl Mutator for SqlMutator {
    open spec fn accepts(&self, input: Seq<u8>) -> bool {
        required_tokens_present(text_bytes(input))
    }

    open spec fn may_produce(&self, input: Seq<u8>, output: Seq<u8>) -> bool {
        exists|strategy: int, pick: int|
            0 <= strategy < STRATEGIES && 0 <= pick < DICTIONARY_LEN && output == spec_mutation(
                input,
                strategy,
                pick,
            )
    }

    fn mutate(&self, input: &[u8]) -> (r: Vec<u8>) {
        let strategy = random_below(STRATEGIES);
        let pick = random_below(DICTIONARY_LEN);
        let r = self.mutate_with(input, strategy, pick);
        assert(self.may_produce(input@, r@));
        r
    }

    fn is_valid(&self, input: &[u8]) -> (r: bool) {
        let text = text_view(input);
        let has_select = find_bytes(text.as_slice(), "SELECT".as_bytes()).is_some();
        let has_from = find_bytes(text.as_slice(), "FROM".as_bytes()).is_some();
        has_select && has_from
    }
}

} // verus!
