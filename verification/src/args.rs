//! The argument parser: a flat list of tokens becomes a mapping from flag
//! to optional value, kept in the order in which the flags first occur.

use crate::text::{chars_of, find, index_of, same_text, slice, texts};
use vstd::prelude::*;
use vstd::string::*;

verus! {

broadcast use vstd::string::group_string_axioms;

/// One flag of an invocation, with the value that came with it.
#[derive(Debug, PartialEq, Eq)]
pub struct Flag {
    pub name: String,
    pub value: Option<String>,
}

/// What a flag is in contracts.
pub struct FlagView {
    pub name: Seq<char>,
    pub value: Option<Seq<char>>,
}

/// The text of an optional string.
pub open spec fn text_of(value: Option<String>) -> Option<Seq<char>> {
    match value {
        Some(s) => Some(s@),
        None => None,
    }
}

impl View for Flag {
    type V = FlagView;

    open spec fn view(&self) -> FlagView {
        FlagView { name: self.name@, value: text_of(self.value) }
    }
}

/// The views of a sequence of flags.
pub open spec fn flag_views(flags: Seq<Flag>) -> Seq<FlagView> {
    Seq::new(flags.len(), |i: int| flags[i]@)
}

/// A token is a flag if it starts with a dash.
pub open spec fn is_flag(token: Seq<char>) -> bool {
    token.len() > 0 && token[0] == '-'
}

/// Where the flag `name` stands in `flags`, or their number if it is absent.
pub open spec fn position(flags: Seq<FlagView>, name: Seq<char>) -> int
    decreases flags.len(),
{
    if flags.len() == 0 || flags[0].name == name {
        0
    } else {
        1 + position(flags.skip(1), name)
    }
}

/// Whether the flag `name` is among `flags`.
pub open spec fn has_flag(flags: Seq<FlagView>, name: Seq<char>) -> bool {
    position(flags, name) < flags.len()
}

/// The value recorded for `name`; meaningful where `has_flag` holds.
pub open spec fn value_of(flags: Seq<FlagView>, name: Seq<char>) -> Option<Seq<char>> {
    flags[position(flags, name)].value
}

/// `flags` after `name` was given with `value`: a flag seen before keeps
/// its place and takes the new value, a new one goes to the end.
pub open spec fn put(flags: Seq<FlagView>, name: Seq<char>, value: Option<Seq<char>>) -> Seq<
    FlagView,
> {
    let i = position(flags, name);
    if 0 <= i < flags.len() {
        flags.update(i, FlagView { name, value })
    } else {
        flags.push(FlagView { name, value })
    }
}

/// No two flags have the same name.
pub open spec fn distinct(flags: Seq<FlagView>) -> bool {
    forall|i: int, j: int| 0 <= i < j < flags.len() ==> flags[i].name != flags[j].name
}

/// The flags as a mapping from name to value.
pub open spec fn as_map(flags: Seq<FlagView>) -> Map<Seq<char>, Option<Seq<char>>> {
    Map::new(|name: Seq<char>| has_flag(flags, name), |name: Seq<char>| value_of(flags, name))
}

/// The scan of `tokens` from left to right, with one token of lookahead,
/// continuing from the flags `seen` so far.
///
/// A flag that holds `=` is split at the first one. Any other flag takes
/// the next token as its value, whatever that token is, and has none only
/// at the end of the list. A token that is no flag is recorded without a
/// value and takes nothing.
pub open spec fn parse_onto(seen: Seq<FlagView>, tokens: Seq<Seq<char>>) -> Seq<FlagView>
    decreases tokens.len(),
{
    if tokens.len() == 0 {
        seen
    } else {
        let token = tokens[0];
        let eq = index_of(token, '=');
        if is_flag(token) && 0 <= eq < token.len() {
            parse_onto(put(seen, token.take(eq), Some(token.skip(eq + 1))), tokens.skip(1))
        } else if is_flag(token) && tokens.len() >= 2 {
            parse_onto(put(seen, token, Some(tokens[1])), tokens.skip(2))
        } else {
            parse_onto(put(seen, token, None), tokens.skip(1))
        }
    }
}

/// What a list of tokens parses to.
pub open spec fn parsed(tokens: Seq<Seq<char>>) -> Seq<FlagView> {
    parse_onto(Seq::empty(), tokens)
}

/// The place of a flag is within bounds, no flag before it has the name,
/// and where the flag is present its place holds it.
pub proof fn lemma_position(flags: Seq<FlagView>, name: Seq<char>)
    ensures
        0 <= position(flags, name) <= flags.len(),
        forall|j: int| 0 <= j < position(flags, name) ==> flags[j].name != name,
        has_flag(flags, name) ==> flags[position(flags, name)].name == name,
    decreases flags.len(),
{
    if flags.len() == 0 || flags[0].name == name {
    } else {
        let rest = flags.skip(1);
        lemma_position(rest, name);
        assert forall|j: int| 0 <= j < position(flags, name) implies flags[j].name != name by {
            if j > 0 {
                assert(flags[j] == rest[j - 1]);
            }
        }
    }
}

/// The place of a flag is where the name stands with none before it.
pub proof fn lemma_position_is(flags: Seq<FlagView>, name: Seq<char>, i: int)
    requires
        0 <= i <= flags.len(),
        forall|j: int| 0 <= j < i ==> flags[j].name != name,
        i < flags.len() ==> flags[i].name == name,
    ensures
        position(flags, name) == i,
    decreases flags.len(),
{
    if flags.len() == 0 || flags[0].name == name {
    } else {
        let rest = flags.skip(1);
        assert forall|j: int| 0 <= j < i - 1 implies rest[j].name != name by {
            assert(rest[j] == flags[j + 1]);
        }
        lemma_position_is(rest, name, i - 1);
    }
}

/// Recording a flag keeps the names apart.
pub proof fn lemma_put_distinct(flags: Seq<FlagView>, name: Seq<char>, value: Option<Seq<char>>)
    requires
        distinct(flags),
    ensures
        distinct(put(flags, name, value)),
{
    lemma_position(flags, name);
}

/// Recording a flag is insertion into the mapping: the last occurrence of
/// a flag decides its value, and no other flag is touched.
pub proof fn lemma_put_is_insert(flags: Seq<FlagView>, name: Seq<char>, value: Option<Seq<char>>)
    ensures
        as_map(put(flags, name, value)) == as_map(flags).insert(name, value),
{
    let after = put(flags, name, value);
    let i = position(flags, name);
    lemma_position(flags, name);
    assert forall|k: Seq<char>| has_flag(after, k) == (k == name || has_flag(flags, k)) && (
    has_flag(after, k) ==> value_of(after, k) == if k == name {
        value
    } else {
        value_of(flags, k)
    }) by {
        lemma_position(flags, k);
        let p = position(flags, k);
        if k == name {
            lemma_position_is(after, k, i);
        } else if p < flags.len() {
            lemma_position_is(after, k, p);
        } else {
            lemma_position_is(after, k, after.len() as int);
        }
    }
    assert(as_map(after) =~= as_map(flags).insert(name, value));
}

/// The names that a scan records stay apart.
pub proof fn lemma_parse_onto_distinct(seen: Seq<FlagView>, tokens: Seq<Seq<char>>)
    requires
        distinct(seen),
    ensures
        distinct(parse_onto(seen, tokens)),
    decreases tokens.len(),
{
    if tokens.len() > 0 {
        let token = tokens[0];
        let eq = index_of(token, '=');
        if is_flag(token) && 0 <= eq < token.len() {
            lemma_put_distinct(seen, token.take(eq), Some(token.skip(eq + 1)));
            lemma_parse_onto_distinct(
                put(seen, token.take(eq), Some(token.skip(eq + 1))),
                tokens.skip(1),
            );
        } else if is_flag(token) && tokens.len() >= 2 {
            lemma_put_distinct(seen, token, Some(tokens[1]));
            lemma_parse_onto_distinct(put(seen, token, Some(tokens[1])), tokens.skip(2));
        } else {
            lemma_put_distinct(seen, token, None);
            lemma_parse_onto_distinct(put(seen, token, None), tokens.skip(1));
        }
    }
}

/// In what a list of tokens parses to, every flag occurs once.
pub proof fn lemma_parsed_distinct(tokens: Seq<Seq<char>>)
    ensures
        distinct(parsed(tokens)),
{
    lemma_parse_onto_distinct(Seq::empty(), tokens);
}

/// The flags of one invocation. No two of them have the same name: that
/// is the invariant of the type, which makes the list a mapping.
#[derive(Debug, PartialEq, Eq)]
pub struct ParsedArguments {
    flags: Vec<Flag>,
}

impl View for ParsedArguments {
    type V = Seq<FlagView>;

    closed spec fn view(&self) -> Seq<FlagView> {
        flag_views(self.flags@)
    }
}

impl ParsedArguments {
    #[verifier::type_invariant]
    spec fn names_distinct(&self) -> bool {
        distinct(flag_views(self.flags@))
    }

    /// No flags at all.
    pub fn new() -> (r: Self)
        ensures
            r@ == Seq::<FlagView>::empty(),
            distinct(r@),
    {
        let flags: Vec<Flag> = Vec::new();
        assert(flag_views(flags@) =~= Seq::<FlagView>::empty());
        ParsedArguments { flags }
    }

    /// The number of different flags.
    pub fn len(&self) -> (n: usize)
        ensures
            n == self@.len(),
            distinct(self@),
    {
        proof {
            use_type_invariant(self);
        }
        self.flags.len()
    }

    /// The flag at place `i`, in the order of first occurrence.
    pub fn flag(&self, i: usize) -> (f: &Flag)
        requires
            i < self@.len(),
        ensures
            f@ == self@[i as int],
    {
        &self.flags[i]
    }

    /// Where `name` stands, or the number of flags if it is absent.
    pub fn find(&self, name: &str) -> (i: usize)
        ensures
            i == position(self@, name@),
            i <= self@.len(),
    {
        let mut i: usize = 0;
        while i < self.flags.len() && !same_text(self.flags[i].name.as_str(), name)
            invariant
                i <= self.flags.len(),
                self@ == flag_views(self.flags@),
                forall|j: int| 0 <= j < i ==> self@[j].name != name@,
            decreases self.flags.len() - i,
        {
            i += 1;
        }
        proof {
            lemma_position_is(self@, name@, i as int);
        }
        i
    }

    /// The value given with `name`: `None` where the flag is absent,
    /// `Some(None)` where it came without a value.
    pub fn get(&self, name: &str) -> (r: Option<&Option<String>>)
        ensures
            r is Some == has_flag(self@, name@),
            r is Some ==> text_of(*r->0) == value_of(self@, name@),
    {
        let i = self.find(name);
        if i < self.flags.len() {
            Some(&self.flags[i].value)
        } else {
            None
        }
    }

    /// Records `name` with `value`, in place of the value it had if the
    /// flag was seen before.
    pub fn insert(&mut self, name: String, value: Option<String>)
        ensures
            final(self)@ == put(old(self)@, name@, text_of(value)),
            distinct(final(self)@),
    {
        let i = self.find(name.as_str());
        let ghost before = self@;
        let ghost entry = FlagView { name: name@, value: text_of(value) };
        let flag = Flag { name, value };
        proof {
            use_type_invariant(&*self);
            lemma_put_distinct(before, entry.name, entry.value);
        }
        let mut flags: Vec<Flag> = Vec::new();
        assert(flag_views(flags@) =~= Seq::<FlagView>::empty());
        std::mem::swap(&mut self.flags, &mut flags);
        if i < flags.len() {
            flags.set(i, flag);
            assert(flag_views(flags@) =~= before.update(i as int, entry));
        } else {
            flags.push(flag);
            assert(flag_views(flags@) =~= before.push(entry));
        }
        std::mem::swap(&mut self.flags, &mut flags);
    }
}

/// Parses the tokens that follow the subcommand's name.
pub fn parse_arguments(args: &[String]) -> (r: ParsedArguments)
    ensures
        r@ == parsed(texts(args@)),
        distinct(r@),
{
    let ghost tokens = texts(args@);
    let mut r = ParsedArguments::new();
    let mut i: usize = 0;
    proof {
        assert(tokens.skip(0) == tokens);
    }
    while i < args.len()
        invariant
            i <= args.len(),
            tokens == texts(args@),
            parsed(tokens) == parse_onto(r@, tokens.skip(i as int)),
        decreases args.len() - i,
    {
        let token: &str = args[i].as_str();
        let chars = chars_of(token);
        let eq = find(&chars, '=');
        let flag = chars.len() > 0 && chars[0] == '-';
        proof {
            let rest = tokens.skip(i as int);
            assert(rest[0] == token@);
            assert(rest.skip(1) == tokens.skip(i + 1));
            if i + 1 < args.len() {
                assert(rest[1] == tokens[i + 1]);
                assert(rest.skip(2) == tokens.skip(i + 2));
            }
        }
        if flag && eq < chars.len() {
            let name = slice(token, 0, eq);
            let value = slice(token, eq + 1, chars.len());
            assert(name@ == token@.take(eq as int));
            assert(value@ == token@.skip(eq + 1));
            r.insert(name, Some(value));
            i += 1;
        } else if flag && i + 1 < args.len() {
            r.insert(String::from_str(token), Some(args[i + 1].clone()));
            i += 2;
        } else {
            r.insert(String::from_str(token), None);
            i += 1;
        }
    }
    proof {
        assert(tokens.skip(i as int).len() == 0);
        lemma_parsed_distinct(tokens);
    }
    r
}

} // verus!
